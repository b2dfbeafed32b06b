use sccache::compilers::{CompilerInfo, CompilerInfoCache, CompilerKind, ModTime};
use sccache::framing::{decode_frame, encode_frame, encode_varint, FrameError};
use sccache::s3::{body_length_ok, authorization, base_url, canonical_headers, signature, string_to_sign, AwsCredentials, Bucket, Ssl};
use sccache::server::{notify_server_startup_internal, SccacheServer};
use sccache::service::{SccacheService, StorageStatus};
use sccache::stats::{average_duration_text, ServerStats, StatValue};
use sccache::storage::{LookupOutcome, MemoryStorage};

fn clang(mtime: ModTime) -> CompilerInfo {
    CompilerInfo {
        kind: CompilerKind::Clang,
        executable: "/usr/bin/clang".to_string(),
        mtime,
        version: "5.0".to_string(),
    }
}

#[test]
fn varint_encoding() {
    let mut out = Vec::new();
    encode_varint(300, &mut out);
    assert_eq!(out, vec![0xACu8, 0x02]);
    let mut out = Vec::new();
    encode_varint(u64::MAX, &mut out);
    assert_eq!(out.len(), 10);
    assert_eq!(out[9], 1);
}

#[test]
fn frame_round_trip() {
    for payload in [vec![], vec![7u8], vec![0xABu8; 300]] {
        let mut buf = encode_frame(&payload);
        let used_len = buf.len();
        buf.extend_from_slice(&[1, 2, 3]);
        let (p, used) = decode_frame(&buf).unwrap().unwrap();
        assert_eq!(p, payload);
        assert_eq!(used, used_len);
        assert_eq!(encode_frame(&p), buf[..used].to_vec());
    }
}

#[test]
fn frame_needs_more_or_fails() {
    assert_eq!(decode_frame(&[]), Ok(None));
    assert_eq!(decode_frame(&[0x80u8]), Ok(None));
    assert_eq!(decode_frame(&[3u8, 1, 2]), Ok(None));
    assert_eq!(decode_frame(&[0x80u8; 10]), Err(FrameError::LengthTooLong));
    let mut huge = vec![0xFFu8; 9];
    huge.push(0x7F);
    assert_eq!(decode_frame(&huge), Err(FrameError::LengthTooLarge));
}

#[test]
fn average_durations() {
    assert_eq!(average_duration_text(0, 0), "0.000 s");
    assert_eq!(average_duration_text(3_500_000_000, 2), "1.750 s");
    assert_eq!(average_duration_text(12_003_000_000, 1), "12.003 s");
    assert_eq!(average_duration_text(999_999, 1), "0.000 s");
}

#[test]
fn statistics_report() {
    let mut stats = ServerStats::default();
    stats.cache_hits = 2;
    stats.cache_read_hit_duration = 4_000_000_000;
    let v = stats.to_cache_statistics();
    assert_eq!(v.len(), 16);
    assert_eq!(v[0].name, "Compile requests");
    assert_eq!(v[2].name, "Cache hits");
    assert!(matches!(v[2].value, StatValue::Count(2)));
    assert_eq!(v[9].name, "Successful compilations which could not be cached");
    assert_eq!(v[15].name, "Average cache read hit");
    match &v[15].value {
        StatValue::Text(t) => assert_eq!(t, "2.000 s"),
        _ => panic!("durations are reported as text"),
    }
}

#[test]
fn get_and_zero_stats() {
    let mut service = SccacheService::new(false);
    service.stats.compile_requests = 5;
    let storage = StorageStatus { location: "Local disk".to_string(), current_size: Some(10), max_size: Some(100) };
    let v = service.get_stats(&storage);
    assert_eq!(v.len(), 19);
    assert_eq!(v[0].name, "Max cache size");
    assert!(matches!(v[0].value, StatValue::Size(100)));
    assert_eq!(v[1].name, "Cache size");
    assert!(matches!(v[1].value, StatValue::Size(10)));
    assert_eq!(v[2].name, "Cache location");
    assert!(matches!(&v[2].value, StatValue::Text(t) if t == "Local disk"));
    assert!(matches!(v[3].value, StatValue::Count(5)));
    let z = service.zero_stats(&storage);
    assert!(matches!(z[3].value, StatValue::Count(0)));
    assert_eq!(service.stats.compile_requests, 0);
}

#[test]
fn compiler_cache_mtime() {
    let mut cache = CompilerInfoCache::new();
    let path = "/usr/bin/clang".to_string();
    let t1 = ModTime { seconds: 100, nanos: 5 };
    let t2 = ModTime { seconds: 100, nanos: 6 };
    assert!(cache.lookup(&path, Some(t1)).is_none());
    cache.insert(path.clone(), t1, Some(clang(t1)));
    match cache.lookup(&path, Some(t1)) {
        Some(Some(c)) => assert_eq!(c.version, "5.0"),
        _ => panic!("same mtime must hit"),
    }
    assert!(cache.lookup(&path, Some(t2)).is_none());
    assert!(cache.lookup(&path, Some(t1)).is_none());
}

#[test]
fn compiler_cache_negative_entries() {
    let mut cache = CompilerInfoCache::new();
    let path = "/bin/ls".to_string();
    let t = ModTime { seconds: 7, nanos: 0 };
    cache.insert(path.clone(), t, None);
    assert!(matches!(cache.lookup(&path, Some(t)), Some(None)));
    assert!(cache.lookup(&path, None).is_none());
    assert!(cache.lookup(&path, Some(t)).is_none());
}

#[test]
fn storage_read_after_write() {
    let mut s = MemoryStorage::new();
    let a = "a".to_string();
    let b = "b".to_string();
    assert!(matches!(s.get(&a), LookupOutcome::Miss));
    s.put(a.clone(), vec![1, 2, 3]);
    s.put(b.clone(), vec![9]);
    s.put(a.clone(), vec![1, 2, 3]);
    assert!(matches!(s.get(&a), LookupOutcome::Hit(v) if v == vec![1, 2, 3]));
    assert!(matches!(s.get(&b), LookupOutcome::Hit(v) if v == vec![9]));
    assert_eq!(s.location(), "Memory");
}

#[test]
fn s3_urls_and_signing() {
    assert_eq!(base_url("s3.amazonaws.com", Ssl::Yes), "https://s3.amazonaws.com/");
    assert_eq!(base_url("localhost:9000", Ssl::No), "http://localhost:9000/");
    assert_eq!(signature("what do ya want for nothing?", "Jefe"), "7/zfauXrL6LSdBbV8YTfnCWafHk=");
    assert_eq!(authorization("AKID", "sig"), "AWS AKID:sig");
    assert_eq!(canonical_headers(&None), "x-amz-storage-class:REDUCED_REDUNDANCY\n");
    assert_eq!(
        canonical_headers(&Some("tok".to_string())),
        "x-amz-security-token:tok\nx-amz-storage-class:REDUCED_REDUNDANCY\n"
    );
    assert_eq!(string_to_sign("GET", "", "", "d", "", "b", "k"), "GET\n\n\nd\n/b/k");
}

#[test]
fn bucket_auth() {
    let bucket = Bucket::new("bucket", "s3.amazonaws.com", Ssl::Yes);
    assert_eq!(bucket.name(), "bucket");
    assert_eq!(bucket.object_url("key"), "https://s3.amazonaws.com/key");
    assert_eq!(bucket.describe(), "Bucket(name=bucket, base_url=https://s3.amazonaws.com/)");
    let creds = AwsCredentials {
        access_key_id: "AKID".to_string(),
        secret_access_key: "secret".to_string(),
        token: None,
    };
    let headers = canonical_headers(&creds.token);
    let auth = bucket.auth(
        "PUT",
        "Tue, 27 Mar 2007 19:36:42 +0000",
        "key",
        "",
        &headers,
        "application/octet-stream",
        &creds,
    );
    assert_eq!(auth, "AWS AKID:wsg//PxmvfXw2CJKzmeZFLWYpfI=");
}

#[test]
fn startup_notification() {
    let mut w = Vec::new();
    notify_server_startup_internal(&mut w, true);
    notify_server_startup_internal(&mut w, false);
    assert_eq!(w, vec![0u8, 1u8]);
}

#[test]
fn server_settings() {
    let mut server = SccacheServer::new(4226, false, 1_000);
    assert_eq!(server.port(), 4226);
    assert_eq!(server.supervisor.idle_timeout, 600_000);
    assert_eq!(server.supervisor.deadline, 601_000);
    assert_eq!(server.supervisor.grace, 1_000);
    server.set_idle_timeout(50);
    assert_eq!(server.supervisor.idle_timeout, 50);
    server.set_force_recache(true);
    assert!(server.service.force_recache);
    assert!(server.supervisor.accepting());
    let mut storage = MemoryStorage::new();
    storage.put("k".to_string(), vec![5]);
    server.set_storage(storage);
    assert!(matches!(server.storage.get(&"k".to_string()), LookupOutcome::Hit(v) if v == vec![5]));
}

#[test]
fn body_length_check() {
    assert!(body_length_ok(None, 17));
    assert!(body_length_ok(Some(4), 4));
    assert!(!body_length_ok(Some(5), 4));
}

#[test]
fn signature_of_empty_text() {
    assert_eq!(signature("", "key"), "9Cuw7rAY671Fl65yE3EexgdghD8=");
}
