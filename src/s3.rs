use vstd::prelude::*;
use vstd::string::*;
use crypto::hmac::Hmac;
use crypto::mac::Mac;
use crypto::sha1::Sha1;
use rustc_serialize::base64::{ToBase64, STANDARD};

verus! {

/// Whether or not to use SSL.
#[derive(Clone, Copy, PartialEq, Eq, Structural, Debug)]
pub enum Ssl {
    /// Use SSL.
    Yes,
    /// Do not use SSL.
    No,
}

/// Credentials for signing requests to the object store.
pub struct AwsCredentials {
    pub access_key_id: String,
    pub secret_access_key: String,
    pub token: Option<String>,
}

/// The HMAC-SHA1 code of `data` under `key`, both taken as UTF-8 bytes.
pub uninterp spec fn hmac_sha1_of(key: Seq<char>, data: Seq<char>) -> Seq<u8>;

/// The standard base64 alphabet.
pub open spec fn base64_digit(v: nat) -> char {
    "ABCDEFGHIJKLMNOPQRSTUVWXYZabcdefghijklmnopqrstuvwxyz0123456789+/"@[v as int]
}

/// `bytes` in standard base64 without line breaks: each group of three
/// bytes, taken as a 24-bit number, gives four digits of six bits; a last
/// group of one or two bytes gives two or three digits, padded with `=`.
pub open spec fn base64_of(bytes: Seq<u8>) -> Seq<char>
    decreases bytes.len(),
{
    if bytes.len() == 0 {
        Seq::empty()
    } else if bytes.len() == 1 {
        let n = bytes[0] as nat * 65536;
        seq![base64_digit(n / 262144), base64_digit((n / 4096) % 64), '=', '=']
    } else if bytes.len() == 2 {
        let n = bytes[0] as nat * 65536 + bytes[1] as nat * 256;
        seq![
            base64_digit(n / 262144),
            base64_digit((n / 4096) % 64),
            base64_digit((n / 64) % 64),
            '=',
        ]
    } else {
        let n = bytes[0] as nat * 65536 + bytes[1] as nat * 256 + bytes[2] as nat;
        seq![
            base64_digit(n / 262144),
            base64_digit((n / 4096) % 64),
            base64_digit((n / 64) % 64),
            base64_digit(n % 64),
        ] + base64_of(bytes.skip(3))
    }
}

/// Relies on rust-crypto's `Hmac<Sha1>`: `input` then `result().code()`
/// give the HMAC-SHA1 code of the data, which is as long as a SHA-1 digest.
#[verifier::external_body]
fn hmac_sha1(key: &str, data: &str) -> (r: Vec<u8>)
    ensures
        r@ == hmac_sha1_of(key@, data@),
        r@.len() == 20,
{
    let mut mac = Hmac::new(Sha1::new(), key.as_bytes());
    mac.input(data.as_bytes());
    mac.result().code().to_vec()
}

/// Relies on rustc-serialize's `ToBase64::to_base64` with the `STANDARD`
/// configuration: the standard alphabet, padding, no line breaks.
#[verifier::external_body]
fn to_base64(bytes: &[u8]) -> (r: String)
    ensures
        r@ == base64_of(bytes@),
{
    bytes.to_base64(STANDARD)
}

pub open spec fn scheme(ssl: Ssl) -> Seq<char> {
    match ssl {
        Ssl::Yes => "https"@,
        Ssl::No => "http"@,
    }
}

/// The URL of the bucket's root on `endpoint`.
pub fn base_url(endpoint: &str, ssl: Ssl) -> (r: String)
    ensures
        r@ == scheme(ssl) + "://"@ + endpoint@ + "/"@,
{
    let mut s = match ssl {
        Ssl::Yes => "https".to_owned(),
        Ssl::No => "http".to_owned(),
    };
    s.append("://");
    s.append(endpoint);
    s.append("/");
    s
}

/// The request signature: the base64 form of the HMAC-SHA1 code of
/// `string_to_sign` under `signing_key`.
pub fn signature(string_to_sign: &str, signing_key: &str) -> (r: String)
    ensures
        r@ == base64_of(hmac_sha1_of(signing_key@, string_to_sign@)),
{
    let code = hmac_sha1(signing_key, string_to_sign);
    to_base64(code.as_slice())
}

/// The canonical form of the extra headers that a write sends, sorted by
/// name: the security token when there is one, then the storage class.
pub open spec fn spec_canonical_headers(token: Option<Seq<char>>) -> Seq<char> {
    let class = "x-amz-storage-class:REDUCED_REDUNDANCY\n"@;
    match token {
        Some(t) => "x-amz-security-token:"@ + t + "\n"@ + class,
        None => class,
    }
}

pub fn canonical_headers(token: &Option<String>) -> (r: String)
    ensures
        r@ == spec_canonical_headers(
            match token {
                Some(t) => Some(t@),
                None => None,
            },
        ),
{
    let mut s = String::new();
    match token {
        Some(t) => {
            s.append("x-amz-security-token:");
            s.append(t.as_str());
            s.append("\n");
        },
        None => {},
    }
    s.append("x-amz-storage-class:REDUCED_REDUNDANCY\n");
    proof {
        assert(s@ =~= spec_canonical_headers(
            match token {
                Some(t) => Some(t@),
                None => None,
            },
        ));
    }
    s
}

/// The text that a request's signature covers.
pub open spec fn spec_string_to_sign(
    verb: Seq<char>,
    md5: Seq<char>,
    content_type: Seq<char>,
    date: Seq<char>,
    headers: Seq<char>,
    bucket: Seq<char>,
    path: Seq<char>,
) -> Seq<char> {
    verb + "\n"@ + md5 + "\n"@ + content_type + "\n"@ + date + "\n"@ + headers + "/"@ + bucket
        + "/"@ + path
}

pub fn string_to_sign(
    verb: &str,
    md5: &str,
    content_type: &str,
    date: &str,
    headers: &str,
    bucket: &str,
    path: &str,
) -> (r: String)
    ensures
        r@ == spec_string_to_sign(verb@, md5@, content_type@, date@, headers@, bucket@, path@),
{
    let mut s = verb.to_owned();
    s.append("\n");
    s.append(md5);
    s.append("\n");
    s.append(content_type);
    s.append("\n");
    s.append(date);
    s.append("\n");
    s.append(headers);
    s.append("/");
    s.append(bucket);
    s.append("/");
    s.append(path);
    proof {
        assert(s@ =~= spec_string_to_sign(verb@, md5@, content_type@, date@, headers@, bucket@, path@));
    }
    s
}

/// The `Authorization` header value for an access key and a signature.
pub fn authorization(access_key_id: &str, signature: &str) -> (r: String)
    ensures
        r@ == "AWS "@ + access_key_id@ + ":"@ + signature@,
{
    let mut s = "AWS ".to_owned();
    s.append(access_key_id);
    s.append(":");
    s.append(signature);
    s
}

/// Whether a downloaded body has the length that the response announced;
/// a response without a `Content-Length` accepts any body.
pub fn body_length_ok(content_length: Option<u64>, body_len: usize) -> (r: bool)
    ensures
        r == match content_length {
            Some(n) => n == body_len,
            None => true,
        },
{
    match content_length {
        Some(n) => n == body_len as u64,
        None => true,
    }
}

/// How long, in seconds, stored objects may be cached by intermediaries.
pub const CACHE_MAX_AGE: u64 = 1_296_000;

/// An S3 bucket: its name and the URL its objects live under.
pub struct Bucket {
    name: String,
    base_url: String,
}

impl Bucket {
    pub closed spec fn spec_name(&self) -> Seq<char> {
        self.name@
    }

    pub closed spec fn spec_base_url(&self) -> Seq<char> {
        self.base_url@
    }

    pub fn new(name: &str, endpoint: &str, ssl: Ssl) -> (r: Bucket)
        ensures
            r.spec_name() == name@,
            r.spec_base_url() == scheme(ssl) + "://"@ + endpoint@ + "/"@,
    {
        Bucket { name: name.to_owned(), base_url: base_url(endpoint, ssl) }
    }

    pub fn name(&self) -> (r: &str)
        ensures
            r@ == self.spec_name(),
    {
        self.name.as_str()
    }

    /// The URL of the object under `key`.
    pub fn object_url(&self, key: &str) -> (r: String)
        ensures
            r@ == self.spec_base_url() + key@,
    {
        let mut s = self.base_url.clone();
        s.append(key);
        s
    }

    /// A description of the bucket for messages.
    pub fn describe(&self) -> (r: String)
        ensures
            r@ == "Bucket(name="@ + self.spec_name() + ", base_url="@ + self.spec_base_url()
                + ")"@,
    {
        let mut s = "Bucket(name=".to_owned();
        s.append(self.name.as_str());
        s.append(", base_url=");
        s.append(self.base_url.as_str());
        s.append(")");
        s
    }

    /// The `Authorization` header value of a request on `path`.
    pub fn auth(
        &self,
        verb: &str,
        date: &str,
        path: &str,
        md5: &str,
        headers: &str,
        content_type: &str,
        creds: &AwsCredentials,
    ) -> (r: String)
        ensures
            r@ == "AWS "@ + creds.access_key_id@ + ":"@ + base64_of(
                hmac_sha1_of(
                    creds.secret_access_key@,
                    spec_string_to_sign(
                        verb@,
                        md5@,
                        content_type@,
                        date@,
                        headers@,
                        self.spec_name(),
                        path@,
                    ),
                ),
            ),
    {
        let text = string_to_sign(verb, md5, content_type, date, headers, self.name.as_str(), path);
        let sig = signature(text.as_str(), creds.secret_access_key.as_str());
        authorization(creds.access_key_id.as_str(), sig.as_str())
    }
}

} // verus!
