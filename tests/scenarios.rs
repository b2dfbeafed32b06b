use sccache::codec::{decode_request, encode_request, encode_response, ProtobufCodec};
use sccache::compilers::{CompilerInfo, CompilerKind, ModTime};
use sccache::framing::{decode_frame, encode_frame};
use sccache::lifecycle::{Action, Event, Supervisor};
use sccache::pipeline::{compiled, probe_step, reads_cache, CacheControl, CompileResult, MissType, ProbeStep};
use sccache::protocol::{ClientRequest, Compile, CompileStream, ServerResponse};
use sccache::service::{
    ArgumentsClass, CompileDecision, CompileOutcome, Dispatch, ProcessOutput, SccacheService,
    StorageStatus, WriteOutcome,
};
use sccache::storage::{LookupKind, LookupOutcome, MemoryStorage};

fn storage_status() -> StorageStatus {
    StorageStatus { location: "Memory".to_string(), current_size: None, max_size: None }
}

fn gcc() -> CompilerInfo {
    CompilerInfo {
        kind: CompilerKind::Gcc,
        executable: "/usr/bin/gcc".to_string(),
        mtime: ModTime { seconds: 1_500_000_000, nanos: 0 },
        version: "7.2.0".to_string(),
    }
}

fn compile_request() -> ClientRequest {
    ClientRequest::Compile(Compile {
        exe: "/usr/bin/gcc".to_string(),
        cwd: "/tmp".to_string(),
        command: vec!["-c".to_string(), "foo.c".to_string(), "-o".to_string(), "foo.o".to_string()],
    })
}

fn success(stdout: &[u8]) -> ProcessOutput {
    ProcessOutput { code: Some(0), signal: None, stdout: stdout.to_vec(), stderr: Vec::new() }
}

fn kind(o: &LookupOutcome) -> LookupKind {
    match o {
        LookupOutcome::Hit(_) => LookupKind::Hit,
        LookupOutcome::Miss => LookupKind::Miss,
        LookupOutcome::Error => LookupKind::Error,
    }
}

/// Runs one compile request through dispatch, the pipeline and the cache.
/// Returns the frames sent and the object file produced.
fn run_compile(
    service: &mut SccacheService,
    storage: &mut MemoryStorage,
    key: &str,
    object: &[u8],
) -> (Vec<ServerResponse>, Vec<u8>) {
    let mut frames = Vec::new();
    let req = match service.handle_request(compile_request(), &storage_status()) {
        Dispatch::Compile(c) => c,
        _ => panic!("a compile must reach the pipeline"),
    };
    assert_eq!(req.exe, "/usr/bin/gcc");
    let control = match service.check_compiler(&Some(gcc()), ArgumentsClass::Cacheable) {
        CompileDecision::Start(c) => c,
        CompileDecision::Unhandled => panic!("the compile must be accepted"),
    };
    let (mut stream, started) = CompileStream::open();
    frames.push(started);
    let key = key.to_string();
    let lookup = if reads_cache(control) { storage.get(&key) } else { LookupOutcome::Miss };
    let (result, produced) = match probe_step(control, kind(&lookup)) {
        ProbeStep::ServeHit => match lookup {
            LookupOutcome::Hit(bytes) => (CompileResult::CacheHit(1_000), bytes),
            _ => unreachable!(),
        },
        ProbeStep::Compile(miss) => (compiled(miss, true, true, 2_000), object.to_vec()),
    };
    let plan = service.finish_compile(CompileOutcome::Done { result, output: success(b"") }, true);
    if plan.write_back {
        storage.put(key, produced.clone());
        service.record_cache_write(WriteOutcome::Written(3_000));
    }
    match plan.frame {
        Some(ServerResponse::CompileFinished(f)) => {
            if let Some(frame) = stream.finish(f) {
                frames.push(frame);
            }
        }
        _ => panic!("a connected client gets the terminal frame"),
    }
    (frames, produced)
}

fn retcode(frame: &ServerResponse) -> Option<i32> {
    match frame {
        ServerResponse::CompileFinished(f) => f.retcode,
        _ => panic!("not a terminal frame"),
    }
}

#[test]
fn unknown_command() {
    let mut codec = ProtobufCodec::new();
    let mut buf = encode_frame(&[9u8]);
    let req = codec.decode(&mut buf).unwrap().unwrap();
    assert!(matches!(req, ClientRequest::Unrecognized));
    assert!(buf.is_empty());
    let mut service = SccacheService::new(false);
    match service.handle_request(req, &storage_status()) {
        Dispatch::Reply(resp) => {
            assert!(matches!(resp, ServerResponse::UnknownCommand));
            let mut out = Vec::new();
            codec.encode(&resp, &mut out);
            assert_eq!(out, vec![1u8, 4u8]);
        }
        _ => panic!("an unknown command gets a single reply"),
    }
    assert_eq!(service.stats.compile_requests, 0);
}

#[test]
fn not_a_compile() {
    let mut service = SccacheService::new(false);
    let req = ClientRequest::Compile(Compile {
        exe: "/usr/bin/true".to_string(),
        cwd: "/tmp".to_string(),
        command: vec!["/usr/bin/true".to_string()],
    });
    assert!(matches!(service.handle_request(req, &storage_status()), Dispatch::Compile(_)));
    let decision = service.check_compiler(&Some(gcc()), ArgumentsClass::NotCompilation);
    assert_eq!(decision, CompileDecision::Unhandled);
    assert_eq!(service.stats.requests_not_compile, 1);
    assert_eq!(service.stats.compile_requests, 1);
    assert_eq!(encode_response(&ServerResponse::UnhandledCompile), vec![3u8]);
}

#[test]
fn unsupported_compiler_is_unhandled() {
    let mut service = SccacheService::new(false);
    assert_eq!(service.check_compiler(&None, ArgumentsClass::Cacheable), CompileDecision::Unhandled);
    assert_eq!(service.stats.requests_unsupported_compiler, 1);
    assert_eq!(service.check_compiler(&Some(gcc()), ArgumentsClass::CannotCache), CompileDecision::Unhandled);
    assert_eq!(service.stats.requests_not_cacheable, 1);
    assert_eq!(service.stats.requests_executed, 0);
}

#[test]
fn cold_hit_then_reuse() {
    let mut service = SccacheService::new(false);
    let mut storage = MemoryStorage::new();
    let object = [0xCAu8, 0xFE, 0xBA, 0xBE];
    let (frames, _) = run_compile(&mut service, &mut storage, "fp", &object);
    assert_eq!(frames.len(), 2);
    assert!(matches!(frames[0], ServerResponse::CompileStarted));
    assert_eq!(retcode(&frames[1]), Some(0));
    assert_eq!(service.stats.cache_misses, 1);
    assert_eq!(service.stats.cache_hits, 0);
    assert_eq!(service.stats.cache_writes, 1);

    let (frames, produced) = run_compile(&mut service, &mut storage, "fp", &[0u8]);
    assert_eq!(frames.len(), 2);
    assert!(matches!(frames[0], ServerResponse::CompileStarted));
    assert_eq!(retcode(&frames[1]), Some(0));
    assert_eq!(service.stats.cache_hits, 1);
    assert_eq!(service.stats.cache_misses, 1);
    assert_eq!(produced, vec![0xCAu8, 0xFE, 0xBA, 0xBE]);
    assert_eq!(service.stats.compile_requests, 2);
}

#[test]
fn force_recache() {
    let mut service = SccacheService::new(false);
    service.set_force_recache(true);
    let mut storage = MemoryStorage::new();
    let object = [0xCAu8, 0xFE, 0xBA, 0xBE];
    run_compile(&mut service, &mut storage, "fp", &object);
    run_compile(&mut service, &mut storage, "fp", &object);
    assert_eq!(service.stats.cache_misses, 2);
    assert_eq!(service.stats.forced_recaches, 2);
    assert_eq!(service.stats.cache_hits, 0);
    assert_eq!(service.stats.cache_writes, 2);
    match storage.get(&"fp".to_string()) {
        LookupOutcome::Hit(b) => assert_eq!(b, object.to_vec()),
        _ => panic!("the forced compiles still write the cache"),
    }
}

#[test]
fn idle_shutdown() {
    let mut sup = Supervisor::new(50, 1_000, 0);
    assert_eq!(sup.step(Event::Tick { now: 49 }), Action::Continue);
    assert!(sup.accepting());
    assert_eq!(sup.step(Event::Tick { now: 50 }), Action::Exit);
    assert!(!sup.accepting());
}

#[test]
fn idle_deadline_moves_on_request_only() {
    let mut sup = Supervisor::new(50, 1_000, 0);
    assert_eq!(sup.step(Event::HandlerStarted), Action::Continue);
    assert_eq!(sup.step(Event::HandlerFinished { now: 40 }), Action::Continue);
    assert_eq!(sup.deadline, 50);
    assert_eq!(sup.step(Event::Request { now: 40 }), Action::Continue);
    assert_eq!(sup.deadline, 90);
    assert_eq!(sup.step(Event::Tick { now: 60 }), Action::Continue);
    assert_eq!(sup.step(Event::Tick { now: 90 }), Action::Exit);
}

#[test]
fn inflight_drain() {
    let mut sup = Supervisor::new(600_000, 1_000, 0);
    assert_eq!(sup.step(Event::Request { now: 0 }), Action::Continue);
    assert_eq!(sup.step(Event::HandlerStarted), Action::Continue);
    let (mut stream, _) = CompileStream::open();
    assert_eq!(sup.step(Event::ShutdownRequested { now: 50 }), Action::StopAccepting);
    assert!(!sup.accepting());
    assert_eq!(sup.step(Event::Tick { now: 100 }), Action::Continue);
    let mut service = SccacheService::new(false);
    let plan = service.finish_compile(
        CompileOutcome::Done { result: CompileResult::CacheMiss(MissType::Normal, 0), output: success(b"ok") },
        true,
    );
    let finished = match plan.frame {
        Some(ServerResponse::CompileFinished(f)) => f,
        _ => panic!("the client is still connected"),
    };
    let frame = stream.finish(finished).expect("the terminal frame is sent once");
    assert_eq!(retcode(&frame), Some(0));
    assert!(stream.is_closed());
    assert_eq!(sup.step(Event::HandlerFinished { now: 200 }), Action::Exit);
}

#[test]
fn drain_gives_up_after_grace() {
    let mut sup = Supervisor::new(600_000, 1_000, 0);
    sup.step(Event::HandlerStarted);
    assert_eq!(sup.step(Event::ExternalShutdown { now: 10 }), Action::StopAccepting);
    assert_eq!(sup.step(Event::Tick { now: 1_009 }), Action::Continue);
    assert_eq!(sup.step(Event::Tick { now: 1_010 }), Action::Exit);
}

#[test]
fn shutdown_without_handlers_exits() {
    let mut sup = Supervisor::with_defaults(0);
    assert_eq!(sup.step(Event::ShutdownRequested { now: 5 }), Action::Exit);
    assert_eq!(sup.step(Event::Request { now: 6 }), Action::Exit);
    assert!(!sup.accepting());
}

#[test]
fn shutdown_request_replies_with_stats() {
    let mut service = SccacheService::new(false);
    service.handle_request(compile_request(), &storage_status());
    match service.handle_request(ClientRequest::Shutdown, &storage_status()) {
        Dispatch::ShutdownThenReply(ServerResponse::ShuttingDown(stats)) => {
            assert_eq!(stats.len(), 17);
            assert_eq!(stats[0].name, "Cache location");
            assert_eq!(stats[1].name, "Compile requests");
            assert!(matches!(stats[1].value, sccache::stats::StatValue::Count(1)));
        }
        _ => panic!("a shutdown is answered with the final statistics"),
    }
}

#[test]
fn single_terminal_frame() {
    let (mut stream, first) = CompileStream::open();
    assert!(matches!(first, ServerResponse::CompileStarted));
    assert!(!stream.is_closed());
    let f = || sccache::protocol::CompileFinished { retcode: Some(1), signal: None, stdout: vec![], stderr: b"err".to_vec() };
    assert!(stream.finish(f()).is_some());
    assert!(stream.finish(f()).is_none());
    assert!(stream.is_closed());
}

#[test]
fn write_back_survives_disconnect() {
    let mut service = SccacheService::new(false);
    let plan = service.finish_compile(
        CompileOutcome::Done { result: CompileResult::CacheMiss(MissType::Normal, 10), output: success(b"x") },
        false,
    );
    assert!(plan.frame.is_none());
    assert!(plan.write_back);
    assert_eq!(service.stats.cache_misses, 1);
}

#[test]
fn failed_compile_is_not_cached() {
    let mut service = SccacheService::new(false);
    let result = compiled(MissType::Normal, false, true, 10);
    assert_eq!(result, CompileResult::CompileFailed);
    let output = ProcessOutput { code: Some(1), signal: None, stdout: vec![], stderr: b"error: x".to_vec() };
    let plan = service.finish_compile(CompileOutcome::Done { result, output }, true);
    assert!(!plan.write_back);
    assert_eq!(service.stats.compile_fails, 1);
    match plan.frame {
        Some(ServerResponse::CompileFinished(f)) => {
            assert_eq!(f.retcode, Some(1));
            assert_eq!(f.stderr, b"error: x".to_vec());
        }
        _ => panic!("terminal frame expected"),
    }
}

#[test]
fn internal_error_reports_sentinel() {
    let mut service = SccacheService::new(false);
    let plan = service.finish_compile(CompileOutcome::Failed, true);
    assert!(!plan.write_back);
    assert_eq!(service.stats.cache_errors, 1);
    match plan.frame {
        Some(ServerResponse::CompileFinished(f)) => {
            assert_eq!(f.retcode, Some(-2));
            assert!(f.stdout.is_empty() && f.stderr.is_empty());
        }
        _ => panic!("terminal frame expected"),
    }
}

#[test]
fn read_error_counts_apart_and_writes() {
    assert_eq!(probe_step(CacheControl::Default, LookupKind::Error), ProbeStep::Compile(MissType::CacheReadError));
    let mut service = SccacheService::new(false);
    let plan = service.finish_compile(
        CompileOutcome::Done { result: CompileResult::CacheMiss(MissType::CacheReadError, 5), output: success(b"") },
        true,
    );
    assert!(plan.write_back);
    assert_eq!(service.stats.cache_read_errors, 1);
    assert_eq!(service.stats.cache_misses, 0);
    service.record_cache_write(WriteOutcome::Failed);
    assert_eq!(service.stats.cache_write_errors, 1);
    service.record_cache_write(WriteOutcome::Skipped);
    assert_eq!(service.stats.cache_writes, 0);
}

#[test]
fn request_round_trip() {
    let req = compile_request();
    let bytes = encode_request(&req);
    match decode_request(&bytes) {
        Some(ClientRequest::Compile(c)) => {
            assert_eq!(c.exe, "/usr/bin/gcc");
            assert_eq!(c.cwd, "/tmp");
            assert_eq!(c.command, vec!["-c", "foo.c", "-o", "foo.o"]);
        }
        _ => panic!("round trip failed"),
    }
    for (r, tag) in [(ClientRequest::GetStats, 2u8), (ClientRequest::ZeroStats, 3), (ClientRequest::Shutdown, 4)] {
        let b = encode_request(&r);
        assert_eq!(b, vec![tag]);
        assert!(decode_request(&b).is_some());
    }
    assert!(decode_request(&[2u8, 0]).is_none());
    assert!(decode_request(&[]).is_none());
    assert!(decode_request(&[1u8, 5, b'a']).is_none());
}

#[test]
fn non_ascii_strings_round_trip() {
    let req = ClientRequest::Compile(Compile {
        exe: "/opt/cc/é".to_string(),
        cwd: "/tmp/ü".to_string(),
        command: vec![],
    });
    let bytes = encode_request(&req);
    match decode_request(&bytes) {
        Some(ClientRequest::Compile(c)) => {
            assert_eq!(c.exe, "/opt/cc/é");
            assert_eq!(c.cwd, "/tmp/ü");
            assert!(c.command.is_empty());
        }
        _ => panic!("round trip failed"),
    }
    assert!(decode_request(&[1u8, 1, 0xFF, 0, 0]).is_none());
}

#[test]
fn codec_keeps_partial_frames() {
    let mut codec = ProtobufCodec::new();
    let whole = encode_frame(&encode_request(&ClientRequest::GetStats));
    let mut buf = whole[..1].to_vec();
    assert!(matches!(codec.decode(&mut buf), Ok(None)));
    assert_eq!(buf, whole[..1].to_vec());
    let mut buf: Vec<u8> = Vec::new();
    assert!(matches!(codec.decode(&mut buf), Ok(None)));
    let mut buf = whole.clone();
    buf.extend_from_slice(&whole);
    assert!(matches!(codec.decode(&mut buf), Ok(Some(ClientRequest::GetStats))));
    assert_eq!(buf, whole);
    let mut bad = vec![2u8, 2, 9];
    assert!(codec.decode(&mut bad).is_err());
    assert!(bad.is_empty());
}

#[test]
fn dispatch_notifies_supervisor() {
    let mut service = SccacheService::new(false);
    let d = service.handle_request(ClientRequest::GetStats, &storage_status());
    assert_eq!(d.server_messages(), vec![sccache::ServerMessage::Request]);
    let d = service.handle_request(ClientRequest::Shutdown, &storage_status());
    let msgs = d.server_messages();
    assert_eq!(msgs, vec![sccache::ServerMessage::Request, sccache::ServerMessage::Shutdown]);
    let mut sup = Supervisor::new(100, 1_000, 0);
    assert_eq!(sup.receive(msgs[0], 30), Action::Continue);
    assert_eq!(sup.deadline, 130);
    assert_eq!(sup.receive(msgs[1], 31), Action::Exit);
    assert!(!sup.accepting());
}

#[test]
fn recache_skips_only_the_read() {
    assert!(reads_cache(CacheControl::Default));
    assert!(!reads_cache(CacheControl::ForceRecache));
    assert_eq!(probe_step(CacheControl::ForceRecache, LookupKind::Hit), ProbeStep::Compile(MissType::ForcedRecache));
    assert_eq!(probe_step(CacheControl::Default, LookupKind::Hit), ProbeStep::ServeHit);
    assert_eq!(probe_step(CacheControl::Default, LookupKind::Miss), ProbeStep::Compile(MissType::Normal));
    assert_eq!(compiled(MissType::ForcedRecache, true, true, 4), CompileResult::CacheMiss(MissType::ForcedRecache, 4));
    assert_eq!(compiled(MissType::Normal, true, false, 4), CompileResult::NotCacheable);
}

#[test]
fn configured_idle_timeout_shuts_down() {
    let mut server = sccache::server::SccacheServer::new(4226, false, 0);
    server.set_idle_timeout(50);
    assert_eq!(server.supervisor.deadline, 50);
    assert_eq!(server.supervisor.step(Event::Tick { now: 49 }), Action::Continue);
    assert_eq!(server.supervisor.step(Event::Tick { now: 50 }), Action::Exit);
    assert!(server.supervisor.step(Event::Tick { now: 1_050 }) == Action::Exit);
}

#[test]
fn idle_timeout_counts_from_last_request() {
    let mut sup = Supervisor::with_defaults(0);
    sup.step(Event::Request { now: 200 });
    sup.set_idle_timeout(50);
    assert_eq!(sup.deadline, 250);
    assert_eq!(sup.step(Event::Tick { now: 249 }), Action::Continue);
    assert_eq!(sup.step(Event::Tick { now: 250 }), Action::Exit);
}

#[test]
fn grace_window_is_configurable() {
    let mut sup = Supervisor::new(600_000, 1_000, 0);
    sup.set_grace(100);
    sup.step(Event::HandlerStarted);
    assert_eq!(sup.step(Event::ShutdownRequested { now: 10 }), Action::StopAccepting);
    assert_eq!(sup.step(Event::Tick { now: 109 }), Action::Continue);
    assert_eq!(sup.step(Event::Tick { now: 110 }), Action::Exit);
}
