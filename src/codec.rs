use vstd::prelude::*;
use vstd::utf8::*;
use crate::framing::{
    FrameError,
    MAX_VARINT_LEN,
    VarintRead,
    decode_frame_at,
    decode_spec,
    encode_varint,
    frame,
    length_window,
    lemma_frame_round_trip,
    lemma_parse_window,
    lemma_varint_len,
    parse_varint,
    pow128,
    read_varint,
    varint,
    window_end,
};
use crate::protocol::{
    ClientRequest,
    Compile,
    CompileFinished,
    RequestView,
    ResponseView,
    ServerResponse,
    strings_view,
};
use crate::stats::{CacheStatistic, CacheStatisticView, StatValue, StatValueView, view_all};

verus! {

pub const TAG_UNRECOGNIZED: u8 = 0;
pub const TAG_COMPILE: u8 = 1;
pub const TAG_GET_STATS: u8 = 2;
pub const TAG_ZERO_STATS: u8 = 3;
pub const TAG_SHUTDOWN: u8 = 4;

pub const TAG_COMPILE_STARTED: u8 = 1;
pub const TAG_COMPILE_FINISHED: u8 = 2;
pub const TAG_UNHANDLED_COMPILE: u8 = 3;
pub const TAG_UNKNOWN_COMMAND: u8 = 4;
pub const TAG_CACHE_STATS: u8 = 5;
pub const TAG_SHUTTING_DOWN: u8 = 6;

/// Relies on `String::from_utf8`: it succeeds exactly on valid UTF-8, and
/// the string then holds the characters that the bytes encode.
#[verifier::external_body]
fn utf8_string(bytes: Vec<u8>) -> (r: Option<String>)
    ensures
        r is Some <==> valid_utf8(bytes@),
        r matches Some(s) ==> s@ == decode_utf8(bytes@),
{
    String::from_utf8(bytes).ok()
}

/// A string on the wire: its UTF-8 bytes, framed by their length.
pub open spec fn text_field(s: Seq<char>) -> Seq<u8> {
    frame(encode_utf8(s))
}

/// Strings one after another.
pub open spec fn text_list(v: Seq<Seq<char>>) -> Seq<u8>
    decreases v.len(),
{
    if v.len() == 0 {
        Seq::empty()
    } else {
        text_list(v.drop_last()) + text_field(v.last())
    }
}

/// The payload of a request: a tag byte, then for a compile the executable,
/// the working directory, the number of arguments and the arguments.
pub open spec fn request_bytes(r: RequestView) -> Seq<u8> {
    match r {
        RequestView::Compile { exe, cwd, command } => seq![TAG_COMPILE] + text_field(exe)
            + text_field(cwd) + varint(command.len()) + text_list(command),
        RequestView::GetStats => seq![TAG_GET_STATS],
        RequestView::ZeroStats => seq![TAG_ZERO_STATS],
        RequestView::Shutdown => seq![TAG_SHUTDOWN],
        RequestView::Unrecognized => seq![TAG_UNRECOGNIZED],
    }
}

/// The string at the start of `b` and the bytes it takes.
pub open spec fn parse_text(b: Seq<u8>) -> Option<(Seq<char>, nat)> {
    match decode_spec(b) {
        Ok(Some((f, used))) => if valid_utf8(f) {
            Some((decode_utf8(f), used))
        } else {
            None
        },
        _ => None,
    }
}

/// The count at the start of `b` and the bytes it takes.
pub open spec fn parse_count(b: Seq<u8>) -> Option<(nat, nat)> {
    match parse_varint(length_window(b)) {
        Some((n, l)) => if n <= u64::MAX {
            Some((n, l))
        } else {
            None
        },
        None => None,
    }
}

/// `count` strings read from position `pos` of `b`, and the position after
/// them.
pub open spec fn parse_texts(b: Seq<u8>, pos: nat, count: nat) -> Option<(Seq<Seq<char>>, nat)>
    decreases count,
{
    if count == 0 {
        Some((Seq::empty(), pos))
    } else {
        match parse_texts(b, pos, (count - 1) as nat) {
            Some((v, p)) => if p <= b.len() {
                match parse_text(b.skip(p as int)) {
                    Some((s, used)) => Some((v.push(s), p + used)),
                    None => None,
                }
            } else {
                None
            },
            None => None,
        }
    }
}

/// The request a payload holds, or `None` when it is malformed. A tag that
/// this server does not know gives `Unrecognized`.
pub open spec fn parse_request(b: Seq<u8>) -> Option<RequestView> {
    if b.len() == 0 {
        None
    } else if b[0] == TAG_COMPILE {
        match parse_text(b.skip(1)) {
            Some((exe, u1)) => {
                let p2 = 1 + u1;
                match parse_text(b.skip(p2 as int)) {
                    Some((cwd, u2)) => {
                        let p3 = p2 + u2;
                        match parse_count(b.skip(p3 as int)) {
                            Some((n, u3)) => match parse_texts(b, p3 + u3, n) {
                                Some((command, end)) => if end == b.len() {
                                    Some(RequestView::Compile { exe, cwd, command })
                                } else {
                                    None
                                },
                                None => None,
                            },
                            None => None,
                        }
                    },
                    None => None,
                }
            },
            None => None,
        }
    } else if b[0] == TAG_GET_STATS {
        if b.len() == 1 {
            Some(RequestView::GetStats)
        } else {
            None
        }
    } else if b[0] == TAG_ZERO_STATS {
        if b.len() == 1 {
            Some(RequestView::ZeroStats)
        } else {
            None
        }
    } else if b[0] == TAG_SHUTDOWN {
        if b.len() == 1 {
            Some(RequestView::Shutdown)
        } else {
            None
        }
    } else {
        Some(RequestView::Unrecognized)
    }
}

fn decode_text_at(buf: &[u8], pos: usize) -> (r: Option<(String, usize)>)
    requires
        pos <= buf@.len(),
    ensures
        match r {
            Some((s, used)) => parse_text(buf@.skip(pos as int)) == Some((s@, used as nat)) && pos
                + used <= buf@.len(),
            None => parse_text(buf@.skip(pos as int)) is None,
        },
{
    match decode_frame_at(buf, pos) {
        Ok(Some((bytes, used))) => match utf8_string(bytes) {
            Some(s) => Some((s, used)),
            None => None,
        },
        _ => None,
    }
}

fn decode_count_at(buf: &[u8], pos: usize) -> (r: Option<(u64, usize)>)
    requires
        pos <= buf@.len(),
    ensures
        match r {
            Some((n, used)) => parse_count(buf@.skip(pos as int)) == Some((n as nat, used as nat))
                && pos + used <= buf@.len(),
            None => parse_count(buf@.skip(pos as int)) is None,
        },
{
    let end = window_end(buf.len(), pos);
    proof {
        assert(buf@.subrange(pos as int, end as int) =~= length_window(buf@.skip(pos as int)));
    }
    match read_varint(buf, pos, end) {
        VarintRead::Parsed(n, l) => Some((n, l)),
        _ => None,
    }
}

proof fn lemma_texts_none_stays(b: Seq<u8>, pos: nat, i: nat, count: nat)
    requires
        i <= count,
        parse_texts(b, pos, i) is None,
    ensures
        parse_texts(b, pos, count) is None,
    decreases count - i,
{
    if i < count {
        lemma_texts_none_stays(b, pos, i + 1, count);
    }
}

fn decode_texts_at(buf: &[u8], pos: usize, count: u64) -> (r: Option<(Vec<String>, usize)>)
    requires
        pos <= buf@.len(),
    ensures
        match r {
            Some((v, end)) => parse_texts(buf@, pos as nat, count as nat) == Some(
                (strings_view(v@), end as nat),
            ),
            None => parse_texts(buf@, pos as nat, count as nat) is None,
        },
{
    let mut v: Vec<String> = Vec::new();
    let mut p = pos;
    let mut i: u64 = 0;
    proof {
        assert(strings_view(v@) =~= Seq::<Seq<char>>::empty());
    }
    let len = buf.len();
    while i < count
        invariant
            len == buf@.len(),
            i <= count,
            p <= buf@.len(),
            parse_texts(buf@, pos as nat, i as nat) == Some((strings_view(v@), p as nat)),
        decreases count - i,
    {
        match decode_text_at(buf, p) {
            Some((s, used)) => {
                let ghost before = v@;
                v.push(s);
                proof {
                    assert(strings_view(v@) =~= strings_view(before).push(s@));
                }
                p = p + used;
                i = i + 1;
            },
            None => {
                proof {
                    lemma_texts_none_stays(buf@, pos as nat, (i + 1) as nat, count as nat);
                }
                return None;
            },
        }
    }
    Some((v, p))
}

/// Decodes a request payload.
pub fn decode_request(buf: &[u8]) -> (r: Option<ClientRequest>)
    ensures
        match r {
            Some(req) => parse_request(buf@) == Some(req@),
            None => parse_request(buf@) is None,
        },
{
    if buf.len() == 0 {
        return None;
    }
    let tag = buf[0];
    if tag == TAG_COMPILE {
        let (exe, u1) = match decode_text_at(buf, 1) {
            Some(x) => x,
            None => return None,
        };
        let p2 = 1 + u1;
        let (cwd, u2) = match decode_text_at(buf, p2) {
            Some(x) => x,
            None => return None,
        };
        let p3 = p2 + u2;
        let (n, u3) = match decode_count_at(buf, p3) {
            Some(x) => x,
            None => return None,
        };
        let (command, end) = match decode_texts_at(buf, p3 + u3, n) {
            Some(x) => x,
            None => return None,
        };
        if end == buf.len() {
            Some(ClientRequest::Compile(Compile { exe, cwd, command }))
        } else {
            None
        }
    } else if tag == TAG_GET_STATS {
        if buf.len() == 1 {
            Some(ClientRequest::GetStats)
        } else {
            None
        }
    } else if tag == TAG_ZERO_STATS {
        if buf.len() == 1 {
            Some(ClientRequest::ZeroStats)
        } else {
            None
        }
    } else if tag == TAG_SHUTDOWN {
        if buf.len() == 1 {
            Some(ClientRequest::Shutdown)
        } else {
            None
        }
    } else {
        Some(ClientRequest::Unrecognized)
    }
}

fn push_bytes(out: &mut Vec<u8>, b: &[u8])
    ensures
        final(out)@ == old(out)@ + b@,
{
    let mut i: usize = 0;
    while i < b.len()
        invariant
            i <= b@.len(),
            out@ == old(out)@ + b@.take(i as int),
        decreases b@.len() - i,
    {
        out.push(b[i]);
        proof {
            assert(b@.take(i + 1) =~= b@.take(i as int).push(b@[i as int]));
        }
        i = i + 1;
    }
    proof {
        assert(b@.take(i as int) =~= b@);
    }
}

fn push_field(out: &mut Vec<u8>, b: &[u8])
    ensures
        final(out)@ == old(out)@ + frame(b@),
{
    encode_varint(b.len() as u64, out);
    push_bytes(out, b);
    proof {
        assert(final(out)@ =~= old(out)@ + frame(b@));
    }
}

fn push_text(out: &mut Vec<u8>, s: &str)
    ensures
        final(out)@ == old(out)@ + text_field(s@),
{
    push_field(out, s.as_bytes());
}

/// Encodes a request payload.
pub fn encode_request(req: &ClientRequest) -> (r: Vec<u8>)
    ensures
        r@ == request_bytes(req@),
{
    let mut out: Vec<u8> = Vec::new();
    match req {
        ClientRequest::Compile(c) => {
            out.push(TAG_COMPILE);
            push_text(&mut out, c.exe.as_str());
            push_text(&mut out, c.cwd.as_str());
            encode_varint(c.command.len() as u64, &mut out);
            let ghost head = out@;
            let mut i: usize = 0;
            while i < c.command.len()
                invariant
                    i <= c.command@.len(),
                    out@ == head + text_list(strings_view(c.command@).take(i as int)),
                decreases c.command@.len() - i,
            {
                push_text(&mut out, c.command[i].as_str());
                proof {
                    let v = strings_view(c.command@);
                    assert(v.take(i + 1).drop_last() =~= v.take(i as int));
                }
                i = i + 1;
            }
            proof {
                assert(strings_view(c.command@).take(i as int) =~= strings_view(c.command@));
                assert(out@ =~= request_bytes(req@));
            }
        },
        ClientRequest::GetStats => {
            out.push(TAG_GET_STATS);
            proof {
                assert(out@ =~= request_bytes(req@));
            }
        },
        ClientRequest::ZeroStats => {
            out.push(TAG_ZERO_STATS);
            proof {
                assert(out@ =~= request_bytes(req@));
            }
        },
        ClientRequest::Shutdown => {
            out.push(TAG_SHUTDOWN);
            proof {
                assert(out@ =~= request_bytes(req@));
            }
        },
        ClientRequest::Unrecognized => {
            out.push(TAG_UNRECOGNIZED);
            proof {
                assert(out@ =~= request_bytes(req@));
            }
        },
    }
    out
}

/// An optional 32-bit code: a presence byte, then the code's two's
/// complement bits as a varint.
pub open spec fn code_bits(x: i32) -> nat {
    if x >= 0 {
        x as nat
    } else {
        (x + 0x1_0000_0000) as nat
    }
}

pub open spec fn optional_code(o: Option<i32>) -> Seq<u8> {
    match o {
        None => seq![0u8],
        Some(x) => seq![1u8] + varint(code_bits(x)),
    }
}

pub open spec fn stat_bytes(s: CacheStatisticView) -> Seq<u8> {
    text_field(s.name) + match s.value {
        StatValueView::Count(n) => seq![0u8] + varint(n as nat),
        StatValueView::Size(n) => seq![1u8] + varint(n as nat),
        StatValueView::Text(t) => seq![2u8] + text_field(t),
    }
}

pub open spec fn stat_list(v: Seq<CacheStatisticView>) -> Seq<u8>
    decreases v.len(),
{
    if v.len() == 0 {
        Seq::empty()
    } else {
        stat_list(v.drop_last()) + stat_bytes(v.last())
    }
}

/// The payload of a response: a tag byte, then the response's fields.
pub open spec fn response_bytes(r: ResponseView) -> Seq<u8> {
    match r {
        ResponseView::CompileStarted => seq![TAG_COMPILE_STARTED],
        ResponseView::CompileFinished(f) => seq![TAG_COMPILE_FINISHED] + optional_code(f.retcode)
            + optional_code(f.signal) + frame(f.stdout) + frame(f.stderr),
        ResponseView::UnhandledCompile => seq![TAG_UNHANDLED_COMPILE],
        ResponseView::UnknownCommand => seq![TAG_UNKNOWN_COMMAND],
        ResponseView::CacheStats(v) => seq![TAG_CACHE_STATS] + varint(v.len()) + stat_list(v),
        ResponseView::ShuttingDown(v) => seq![TAG_SHUTTING_DOWN] + varint(v.len()) + stat_list(v),
    }
}

fn push_code(out: &mut Vec<u8>, o: Option<i32>)
    ensures
        final(out)@ == old(out)@ + optional_code(o),
{
    match o {
        None => {
            out.push(0u8);
            proof {
                assert(final(out)@ =~= old(out)@ + optional_code(o));
            }
        },
        Some(x) => {
            out.push(1u8);
            let bits: u64 = if x >= 0 {
                x as u64
            } else {
                (x as i64 + 0x1_0000_0000i64) as u64
            };
            encode_varint(bits, out);
            proof {
                assert(final(out)@ =~= old(out)@ + optional_code(o));
            }
        },
    }
}

fn push_stat(out: &mut Vec<u8>, s: &CacheStatistic)
    ensures
        final(out)@ == old(out)@ + stat_bytes(s@),
{
    push_text(out, s.name.as_str());
    let ghost mid = out@;
    match &s.value {
        StatValue::Count(n) => {
            out.push(0u8);
            encode_varint(*n, out);
        },
        StatValue::Size(n) => {
            out.push(1u8);
            encode_varint(*n, out);
        },
        StatValue::Text(t) => {
            out.push(2u8);
            push_text(out, t.as_str());
        },
    }
    proof {
        assert(final(out)@ =~= old(out)@ + stat_bytes(s@));
    }
}

fn push_stats(out: &mut Vec<u8>, v: &Vec<CacheStatistic>)
    ensures
        final(out)@ == old(out)@ + varint(v@.len() as nat) + stat_list(view_all(v@)),
{
    encode_varint(v.len() as u64, out);
    let ghost head = out@;
    let mut i: usize = 0;
    while i < v.len()
        invariant
            i <= v@.len(),
            head == old(out)@ + varint(v@.len() as nat),
            out@ == head + stat_list(view_all(v@).take(i as int)),
        decreases v@.len() - i,
    {
        push_stat(out, &v[i]);
        proof {
            let w = view_all(v@);
            assert(w.take(i + 1).drop_last() =~= w.take(i as int));
        }
        i = i + 1;
    }
    proof {
        assert(view_all(v@).take(i as int) =~= view_all(v@));
    }
}

/// Encodes a response payload.
pub fn encode_response(resp: &ServerResponse) -> (r: Vec<u8>)
    ensures
        r@ == response_bytes(resp@),
{
    let mut out: Vec<u8> = Vec::new();
    match resp {
        ServerResponse::CompileStarted => {
            out.push(TAG_COMPILE_STARTED);
        },
        ServerResponse::CompileFinished(f) => {
            out.push(TAG_COMPILE_FINISHED);
            push_code(&mut out, f.retcode);
            push_code(&mut out, f.signal);
            push_field(&mut out, f.stdout.as_slice());
            push_field(&mut out, f.stderr.as_slice());
        },
        ServerResponse::UnhandledCompile => {
            out.push(TAG_UNHANDLED_COMPILE);
        },
        ServerResponse::UnknownCommand => {
            out.push(TAG_UNKNOWN_COMMAND);
        },
        ServerResponse::CacheStats(v) => {
            out.push(TAG_CACHE_STATS);
            push_stats(&mut out, v);
        },
        ServerResponse::ShuttingDown(v) => {
            out.push(TAG_SHUTTING_DOWN);
            push_stats(&mut out, v);
        },
    }
    proof {
        assert(out@ =~= response_bytes(resp@));
    }
    out
}

/// Why a connection's input could not be decoded.
#[derive(Clone, Copy, PartialEq, Eq, Structural, Debug)]
pub enum CodecError {
    /// The length prefix is bad.
    Frame(FrameError),
    /// A whole frame arrived, but its payload is no request.
    Malformed,
}

/// The codec of one connection: requests in, responses out, each in a
/// length-delimited frame. The frames are length-delimited as protobuf's
/// are, but the payloads are in the tagged format of this module
/// (`request_bytes`, `response_bytes`), not in protobuf's encoding.
pub struct ProtobufCodec {}

impl ProtobufCodec {
    pub fn new() -> ProtobufCodec {
        ProtobufCodec {}
    }

    /// Takes the first request off `buf`. When the buffer ends before the
    /// frame does, nothing is consumed and `Ok(None)` asks for more bytes;
    /// a decoded frame is drained from the buffer exactly.
    pub fn decode(&mut self, buf: &mut Vec<u8>) -> (r: Result<Option<ClientRequest>, CodecError>)
        ensures
            match decode_spec(old(buf)@) {
                Ok(None) => r is Ok && r->Ok_0 is None && final(buf)@ == old(buf)@,
                Err(e) => r == Err::<Option<ClientRequest>, CodecError>(CodecError::Frame(e))
                    && final(buf)@ == old(buf)@,
                Ok(Some((payload, used))) => final(buf)@ == old(buf)@.skip(used as int) && match parse_request(payload) {
                    Some(req) => r matches Ok(Some(got)) && got@ == req,
                    None => r == Err::<Option<ClientRequest>, CodecError>(CodecError::Malformed),
                },
            },
    {
        match crate::framing::decode_frame(buf.as_slice()) {
            Err(e) => Err(CodecError::Frame(e)),
            Ok(None) => Ok(None),
            Ok(Some((payload, used))) => {
                let mut rest: Vec<u8> = Vec::new();
                let mut i: usize = used;
                while i < buf.len()
                    invariant
                        used <= i <= buf@.len(),
                        rest@ == buf@.subrange(used as int, i as int),
                    decreases buf@.len() - i,
                {
                    rest.push(buf[i]);
                    proof {
                        assert(rest@ =~= buf@.subrange(used as int, i + 1));
                    }
                    i = i + 1;
                }
                proof {
                    assert(rest@ =~= buf@.skip(used as int));
                }
                *buf = rest;
                match decode_request(payload.as_slice()) {
                    Some(req) => Ok(Some(req)),
                    None => Err(CodecError::Malformed),
                }
            },
        }
    }

    /// Appends the frame of `msg` to `buf`.
    pub fn encode(&mut self, msg: &ServerResponse, buf: &mut Vec<u8>)
        ensures
            final(buf)@ == old(buf)@ + frame(response_bytes(msg@)),
    {
        let payload = encode_response(msg);
        push_field(buf, payload.as_slice());
    }
}

/// Whether every string of a request fits a length prefix.
pub open spec fn request_fits(r: RequestView) -> bool {
    match r {
        RequestView::Compile { exe, cwd, command } => {
            &&& encode_utf8(exe).len() <= u64::MAX
            &&& encode_utf8(cwd).len() <= u64::MAX
            &&& command.len() <= u64::MAX
            &&& forall|i: int| 0 <= i < command.len() ==> encode_utf8(#[trigger] command[i]).len() <= u64::MAX
        },
        _ => true,
    }
}

proof fn lemma_parse_text(s: Seq<char>, rest: Seq<u8>)
    requires
        encode_utf8(s).len() <= u64::MAX,
    ensures
        parse_text(text_field(s) + rest) == Some((s, text_field(s).len())),
{
    lemma_frame_round_trip(encode_utf8(s), rest);
    encode_utf8_valid_utf8(s);
    encode_utf8_decode_utf8(s);
}

proof fn lemma_parse_count(n: nat, rest: Seq<u8>)
    requires
        n <= u64::MAX,
    ensures
        parse_count(varint(n) + rest) == Some((n, varint(n).len())),
{
    let b = varint(n) + rest;
    reveal_with_fuel(pow128, 11);
    lemma_varint_len(n, 10, pow128(10));
    let w = length_window(b);
    assert(w.take(varint(n).len() as int) =~= varint(n));
    lemma_parse_window(w, n);
}

proof fn lemma_parse_texts(b: Seq<u8>, pos: nat, v: Seq<Seq<char>>)
    requires
        pos + text_list(v).len() <= b.len(),
        b.subrange(pos as int, (pos + text_list(v).len()) as int) == text_list(v),
        forall|i: int| 0 <= i < v.len() ==> encode_utf8(#[trigger] v[i]).len() <= u64::MAX,
    ensures
        parse_texts(b, pos, v.len()) == Some((v, pos + text_list(v).len())),
    decreases v.len(),
{
    if v.len() > 0 {
        let prefix = v.drop_last();
        let last = v.last();
        let lp = text_list(prefix).len();
        let p = pos + lp;
        assert(b.subrange(pos as int, p as int) =~= text_list(prefix)) by {
            assert(text_list(v) == text_list(prefix) + text_field(last));
            assert(b.subrange(pos as int, p as int) =~= text_list(v).subrange(0, lp as int));
        }
        assert forall|i: int| 0 <= i < prefix.len() implies encode_utf8(#[trigger] prefix[i]).len()
            <= u64::MAX by {
            assert(prefix[i] == v[i]);
        }
        lemma_parse_texts(b, pos, prefix);
        let tf = text_field(last);
        assert(b.skip(p as int) =~= tf + b.skip((p + tf.len()) as int)) by {
            assert(text_list(v) == text_list(prefix) + tf);
            assert(b.subrange(p as int, (p + tf.len()) as int) =~= text_list(v).subrange(lp as int, text_list(v).len() as int));
        }
        assert(encode_utf8(v[v.len() - 1]).len() <= u64::MAX);
        lemma_parse_text(last, b.skip((p + tf.len()) as int));
        assert(prefix.push(last) =~= v);
    }
}

/// Decoding the payload of an encoded request gives that request back.
pub proof fn lemma_request_round_trip(r: RequestView)
    requires
        request_fits(r),
    ensures
        parse_request(request_bytes(r)) == Some(r),
{
    match r {
        RequestView::Compile { exe, cwd, command } => {
            let b = request_bytes(r);
            let t1 = text_field(exe);
            let t2 = text_field(cwd);
            let vn = varint(command.len());
            let tl = text_list(command);
            assert(b =~= seq![TAG_COMPILE] + t1 + t2 + vn + tl);
            assert(b.skip(1) =~= t1 + (t2 + vn + tl));
            lemma_parse_text(exe, t2 + vn + tl);
            let p2 = 1 + t1.len();
            assert(b.skip(p2 as int) =~= t2 + (vn + tl));
            lemma_parse_text(cwd, vn + tl);
            let p3 = p2 + t2.len();
            assert(b.skip(p3 as int) =~= vn + tl);
            lemma_parse_count(command.len(), tl);
            let p4 = p3 + vn.len();
            assert(b.subrange(p4 as int, (p4 + tl.len()) as int) =~= tl);
            lemma_parse_texts(b, p4, command);
        },
        _ => {
            assert(request_bytes(r)[0] == match r {
                RequestView::GetStats => TAG_GET_STATS,
                RequestView::ZeroStats => TAG_ZERO_STATS,
                RequestView::Shutdown => TAG_SHUTDOWN,
                _ => TAG_UNRECOGNIZED,
            });
        },
    }
}

} // verus!
