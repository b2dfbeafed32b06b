use vstd::prelude::*;

verus! {

/// A length prefix never takes more than this many bytes.
pub const MAX_VARINT_LEN: usize = 10;

/// `n` as a base-128 varint: seven bits per byte, low bits first, the high
/// bit set on every byte but the last.
pub open spec fn varint(n: nat) -> Seq<u8>
    decreases n,
{
    if n < 128 {
        seq![n as u8]
    } else {
        seq![(n % 128 + 128) as u8] + varint(n / 128)
    }
}

/// A frame: the payload's length as a varint, then the payload.
pub open spec fn frame(payload: Seq<u8>) -> Seq<u8> {
    varint(payload.len()) + payload
}

/// The varint at the start of `b` and the number of bytes it takes, or
/// `None` when `b` ends before the varint does.
pub open spec fn parse_varint(b: Seq<u8>) -> Option<(nat, nat)>
    decreases b.len(),
{
    if b.len() == 0 {
        None
    } else if b[0] < 128 {
        Some((b[0] as nat, 1))
    } else {
        match parse_varint(b.drop_first()) {
            Some((v, l)) => Some((((b[0] - 128) + 128 * v) as nat, l + 1)),
            None => None,
        }
    }
}

/// The first bytes of `b`, at most as many as a length prefix may take.
pub open spec fn length_window(b: Seq<u8>) -> Seq<u8> {
    if b.len() <= MAX_VARINT_LEN {
        b
    } else {
        b.take(MAX_VARINT_LEN as int)
    }
}

/// Why a buffer holds no valid frame.
#[derive(Clone, Copy, PartialEq, Eq, Structural, Debug)]
pub enum FrameError {
    /// The length prefix is longer than allowed.
    LengthTooLong,
    /// The length does not fit in 64 bits.
    LengthTooLarge,
}

/// What decoding the start of `b` gives: a payload and the number of bytes
/// it took, `Ok(None)` when more bytes are needed, or an error.
pub open spec fn decode_spec(b: Seq<u8>) -> Result<Option<(Seq<u8>, nat)>, FrameError> {
    match parse_varint(length_window(b)) {
        None => if b.len() >= MAX_VARINT_LEN {
            Err(FrameError::LengthTooLong)
        } else {
            Ok(None)
        },
        Some((v, l)) => if v > u64::MAX {
            Err(FrameError::LengthTooLarge)
        } else if b.len() < l + v {
            Ok(None)
        } else {
            Ok(Some((b.subrange(l as int, (l + v) as int), l + v)))
        },
    }
}

/// The result of reading a varint.
pub enum VarintRead {
    Parsed(u64, usize),
    Incomplete,
    TooLarge,
}

pub(crate) fn read_varint(b: &[u8], start: usize, end: usize) -> (r: VarintRead)
    requires
        start <= end <= b@.len(),
    ensures
        ({
            let s = b@.subrange(start as int, end as int);
            match r {
                VarintRead::Parsed(v, l) => parse_varint(s) == Some((v as nat, l as nat)) && 1 <= l
                    <= end - start,
                VarintRead::Incomplete => parse_varint(s) is None,
                VarintRead::TooLarge => parse_varint(s) matches Some((v, _)) && v > u64::MAX,
            }
        }),
    decreases end - start,
{
    let ghost s = b@.subrange(start as int, end as int);
    if start == end {
        return VarintRead::Incomplete;
    }
    let first = b[start];
    if first < 128 {
        return VarintRead::Parsed(first as u64, 1);
    }
    proof {
        assert(s.drop_first() =~= b@.subrange(start + 1, end as int));
    }
    let low = (first - 128) as u64;
    match read_varint(b, start + 1, end) {
        VarintRead::Parsed(v, l) => {
            if v > (u64::MAX - low) / 128 {
                proof {
                    assert(low + 128 * v > u64::MAX) by (nonlinear_arith)
                        requires
                            v > (u64::MAX - low) / 128,
                            low < 128,
                    ;
                }
                VarintRead::TooLarge
            } else {
                proof {
                    assert(low + 128 * v <= u64::MAX) by (nonlinear_arith)
                        requires
                            v <= (u64::MAX - low) / 128,
                            low < 128,
                    ;
                }
                VarintRead::Parsed(low + 128 * v, l + 1)
            }
        },
        VarintRead::Incomplete => VarintRead::Incomplete,
        VarintRead::TooLarge => {
            proof {
                let (pv, _) = parse_varint(s.drop_first())->Some_0;
                assert(low + 128 * pv > u64::MAX) by (nonlinear_arith)
                    requires
                        pv > u64::MAX,
                ;
            }
            VarintRead::TooLarge
        },
    }
}

/// Decodes the frame at the start of `buf`. On `Ok(Some((payload, used)))`
/// exactly `used` bytes make up the frame; on `Ok(None)` the buffer ends
/// too early and nothing is consumed.
pub fn decode_frame(buf: &[u8]) -> (r: Result<Option<(Vec<u8>, usize)>, FrameError>)
    ensures
        decoded_as(r, decode_spec(buf@)),
{
    proof {
        assert(buf@.skip(0) =~= buf@);
    }
    decode_frame_at(buf, 0)
}

/// An executable decoding result agrees with its mathematical value.
pub open spec fn decoded_as(
    r: Result<Option<(Vec<u8>, usize)>, FrameError>,
    s: Result<Option<(Seq<u8>, nat)>, FrameError>,
) -> bool {
    match (r, s) {
        (Ok(None), Ok(None)) => true,
        (Ok(Some((p, n))), Ok(Some((sp, sn)))) => p@ == sp && n as nat == sn,
        (Err(e), Err(se)) => e == se,
        _ => false,
    }
}

/// The end of the bytes from `start` on that a length prefix may take.
pub(crate) fn window_end(len: usize, start: usize) -> (r: usize)
    requires
        start <= len,
    ensures
        start <= r <= len,
        r - start == if len - start <= MAX_VARINT_LEN { len - start } else { MAX_VARINT_LEN as int },
{
    if len - start <= MAX_VARINT_LEN {
        len
    } else {
        start + MAX_VARINT_LEN
    }
}

/// Decodes the frame that starts at `buf[start]`; the number of bytes used
/// counts from `start`.
pub fn decode_frame_at(buf: &[u8], start: usize) -> (r: Result<Option<(Vec<u8>, usize)>, FrameError>)
    requires
        start <= buf@.len(),
    ensures
        decoded_as(r, decode_spec(buf@.skip(start as int))),
{
    let ghost b = buf@.skip(start as int);
    let end = window_end(buf.len(), start);
    proof {
        assert(buf@.subrange(start as int, end as int) =~= length_window(b));
    }
    match read_varint(buf, start, end) {
        VarintRead::Incomplete => {
            if buf.len() - start >= MAX_VARINT_LEN {
                Err(FrameError::LengthTooLong)
            } else {
                Ok(None)
            }
        },
        VarintRead::TooLarge => Err(FrameError::LengthTooLarge),
        VarintRead::Parsed(v, l) => {
            let avail = buf.len() - start - l;
            if v > avail as u64 {
                Ok(None)
            } else {
                let n = v as usize;
                let from = start + l;
                let stop = from + n;
                let mut payload: Vec<u8> = Vec::new();
                let mut i: usize = from;
                while i < stop
                    invariant
                        from == start + l,
                        stop == from + n,
                        from <= i <= stop <= buf@.len(),
                        payload@ == buf@.subrange(from as int, i as int),
                    decreases stop - i,
                {
                    payload.push(buf[i]);
                    proof {
                        assert(payload@ =~= buf@.subrange(from as int, i + 1));
                    }
                    i = i + 1;
                }
                proof {
                    assert(payload@ =~= b.subrange(l as int, (l + n) as int));
                }
                Ok(Some((payload, l + n)))
            }
        },
    }
}

/// Appends `n` as a varint to `out`.
pub fn encode_varint(n: u64, out: &mut Vec<u8>)
    ensures
        final(out)@ == old(out)@ + varint(n as nat),
{
    let mut m = n;
    while m >= 128
        invariant
            out@ + varint(m as nat) == old(out)@ + varint(n as nat),
        decreases m,
    {
        let ghost before = out@;
        out.push((m % 128 + 128) as u8);
        proof {
            assert(varint(m as nat) == seq![(m % 128 + 128) as u8] + varint((m / 128) as nat));
            assert(out@ + varint((m / 128) as nat) =~= before + varint(m as nat));
        }
        m = m / 128;
    }
    let ghost before = out@;
    out.push(m as u8);
    proof {
        assert(out@ =~= before + varint(m as nat));
    }
}

/// The frame that carries `payload`.
pub fn encode_frame(payload: &[u8]) -> (r: Vec<u8>)
    ensures
        r@ == frame(payload@),
{
    let mut out: Vec<u8> = Vec::new();
    encode_varint(payload.len() as u64, &mut out);
    let mut i: usize = 0;
    while i < payload.len()
        invariant
            i <= payload@.len(),
            out@ == varint(payload@.len()) + payload@.take(i as int),
        decreases payload@.len() - i,
    {
        out.push(payload[i]);
        proof {
            assert(payload@.take(i + 1) =~= payload@.take(i as int).push(payload@[i as int]));
        }
        i = i + 1;
    }
    proof {
        assert(payload@.take(i as int) =~= payload@);
    }
    out
}

proof fn lemma_parse_varint(n: nat, rest: Seq<u8>)
    ensures
        parse_varint(varint(n) + rest) == Some((n, varint(n).len())),
    decreases n,
{
    let b = varint(n) + rest;
    if n >= 128 {
        assert(b.drop_first() =~= varint(n / 128) + rest);
        lemma_parse_varint(n / 128, rest);
    }
}

/// A value below `128^k` takes at most `k` bytes as a varint.
pub proof fn lemma_varint_len(n: nat, k: nat, bound: nat)
    requires
        k >= 1,
        n < bound,
        bound == pow128(k),
    ensures
        varint(n).len() <= k,
    decreases k,
{
    if n >= 128 {
        assert(k >= 2) by {
            if k == 1 {
                assert(pow128(1) == 128 * pow128(0));
            }
        }
        assert(n / 128 < pow128((k - 1) as nat)) by {
            assert(pow128(k) == 128 * pow128((k - 1) as nat));
            assert(n / 128 < pow128((k - 1) as nat)) by (nonlinear_arith)
                requires
                    n < 128 * pow128((k - 1) as nat),
            ;
        }
        lemma_varint_len(n / 128, (k - 1) as nat, pow128((k - 1) as nat));
    }
}

pub open spec fn pow128(k: nat) -> nat
    decreases k,
{
    if k == 0 {
        1
    } else {
        128 * pow128((k - 1) as nat)
    }
}

/// Bytes that start with the varint of `n` are read as `n`, whatever
/// follows it.
pub proof fn lemma_parse_window(b: Seq<u8>, n: nat)
    requires
        b.len() >= varint(n).len(),
        b.take(varint(n).len() as int) == varint(n),
    ensures
        parse_varint(b) == Some((n, varint(n).len())),
    decreases n,
{
    let l = varint(n).len() as int;
    assert(b =~= varint(n) + b.skip(l));
    lemma_parse_varint(n, b.skip(l));
}

/// Decoding a frame gives back the payload it was encoded from, and uses
/// exactly the frame's bytes, whatever follows it in the buffer.
pub proof fn lemma_frame_round_trip(payload: Seq<u8>, rest: Seq<u8>)
    requires
        payload.len() <= u64::MAX,
    ensures
        decode_spec(frame(payload) + rest) == Ok::<Option<(Seq<u8>, nat)>, FrameError>(
            Some((payload, frame(payload).len())),
        ),
{
    let n = payload.len();
    let b = frame(payload) + rest;
    let v = varint(n);
    reveal_with_fuel(pow128, 11);
    assert(pow128(10) == 1180591620717411303424nat);
    lemma_varint_len(n, 10, pow128(10));
    let w = length_window(b);
    assert(w.take(v.len() as int) =~= v);
    lemma_parse_window(w, n);
    assert(b.subrange(v.len() as int, (v.len() + n) as int) =~= payload);
}

/// Every well-formed frame, one whose length prefix is the shortest varint
/// of the payload's length, is what encoding its decoded payload gives. A
/// prefix padded with extra continuation bytes still decodes, but encodes
/// back to the shorter form. This is the round trip at the level of frames;
/// for payloads, requests decode and responses encode, and the round trip
/// of requests is `codec::lemma_request_round_trip`.
pub proof fn lemma_encode_decoded(b: Seq<u8>, payload: Seq<u8>)
    requires
        payload.len() <= u64::MAX,
        b == frame(payload),
    ensures
        decode_spec(b) matches Ok(Some((p, used))) && frame(p) == b && used == b.len(),
{
    lemma_frame_round_trip(payload, Seq::empty());
    assert(frame(payload) + Seq::<u8>::empty() =~= b);
}

} // verus!
