//! Multipart chunked-stream framing.
//!
//! Each emitted part is three transport chunks written in order: the fixed
//! boundary marker, a part header naming the content type and the exact byte
//! length of the payload, and the raw frame bytes. The header's length field
//! is computed from the same length value as the payload write, so the two
//! can never disagree.

use vstd::prelude::*;
use vstd::string::StrSliceExecFns;
use vstd::string::StringSliceAdditionalSpecFns;

use crate::frame::Frame;

verus! {

/// Decimal digits of `n`, most significant first, as ASCII bytes.
pub open spec fn spec_decimal(n: nat) -> Seq<u8>
    decreases n,
{
    if n < 10 {
        seq![(48 + n) as u8]
    } else {
        spec_decimal(n / 10).push((48 + n % 10) as u8)
    }
}

/// The fixed boundary marker that precedes every part, with its leading and
/// trailing CRLF.
pub open spec fn spec_boundary() -> Seq<u8> {
    "\r\n--123456789000000000000987654321\r\n".spec_bytes()
}

/// The part header up to the length field.
pub open spec fn spec_header_prefix() -> Seq<u8> {
    "Content-Type: image/jpeg\r\nContent-Length: ".spec_bytes()
}

/// The blank line that ends a part header.
pub open spec fn spec_header_tail() -> Seq<u8> {
    "\r\n\r\n".spec_bytes()
}

/// The full part header for a payload of `n` bytes: content type, then the
/// decimal rendering of exactly `n`, then the blank line.
pub open spec fn spec_part_header(n: nat) -> Seq<u8> {
    spec_header_prefix() + spec_decimal(n) + spec_header_tail()
}

/// One emitted part: boundary, header computed from the payload's length,
/// then the payload itself.
pub open spec fn spec_part(payload: Seq<u8>) -> Seq<u8> {
    spec_boundary() + spec_part_header(payload.len()) + payload
}

/// A whole session's stream: the concatenation of one part per frame, in
/// capture order.
pub open spec fn spec_stream(frames: Seq<Seq<u8>>) -> Seq<u8>
    decreases frames.len(),
{
    if frames.len() == 0 {
        Seq::empty()
    } else {
        spec_stream(frames.drop_last()) + spec_part(frames.last())
    }
}

/// The content type of the whole streamed response, naming the fixed
/// boundary marker.
pub open spec fn spec_stream_content_type() -> Seq<char> {
    "multipart/x-mixed-replace;boundary=123456789000000000000987654321"@
}

/// The response content type, ready to hand to the server.
pub fn stream_content_type() -> (r: String)
    ensures
        r@ == spec_stream_content_type(),
{
    "multipart/x-mixed-replace;boundary=123456789000000000000987654321".to_owned()
}

/// Append the decimal digits of `n` to `out`.
fn push_decimal(n: u64, out: &mut Vec<u8>)
    ensures
        final(out)@ == old(out)@ + spec_decimal(n as nat),
    decreases n,
{
    if n < 10 {
        out.push(48 + n as u8);
    } else {
        proof {
            assert(n / 10 < n) by (nonlinear_arith)
                requires n >= 10;
        }
        push_decimal(n / 10, out);
        out.push(48 + (n % 10) as u8);
    }
}

/// The boundary chunk, ready to write to the transport.
pub fn boundary_chunk() -> (r: Vec<u8>)
    ensures
        r@ == spec_boundary(),
{
    "\r\n--123456789000000000000987654321\r\n".as_bytes_vec()
}

/// The header chunk for a payload of exactly `len` bytes.
pub fn part_header_chunk(len: usize) -> (r: Vec<u8>)
    ensures
        r@ == spec_part_header(len as nat),
{
    let mut r: Vec<u8> = "Content-Type: image/jpeg\r\nContent-Length: ".as_bytes_vec();
    push_decimal(len as u64, &mut r);
    let mut tail: Vec<u8> = "\r\n\r\n".as_bytes_vec();
    r.append(&mut tail);
    proof {
        assert(r@ =~= spec_part_header(len as nat));
    }
    r
}

/// One whole part as a single buffer: boundary, header, payload.
pub fn encode_part(payload: &Vec<u8>) -> (r: Vec<u8>)
    ensures
        r@ == spec_part(payload@),
{
    let mut r: Vec<u8> = boundary_chunk();
    let mut h: Vec<u8> = part_header_chunk(payload.len());
    r.append(&mut h);
    r.extend_from_slice(payload.as_slice());
    proof {
        assert(r@ =~= spec_part(payload@));
    }
    r
}

/// Encode a finite run of frames as the stream a session would emit for
/// them: one part per frame, in order.
pub fn encode_session(frames: &Vec<Frame>) -> (r: Vec<u8>)
    ensures
        r@ == spec_stream(frames@.map(|i: int, f: Frame| f@)),
{
    let ghost m: Seq<Seq<u8>> = frames@.map(|i: int, f: Frame| f@);
    let mut r: Vec<u8> = Vec::new();
    let mut i: usize = 0;
    while i < frames.len()
        invariant
            i <= frames@.len(),
            m == frames@.map(|i: int, f: Frame| f@),
            r@ == spec_stream(m.take(i as int)),
        decreases frames@.len() - i,
    {
        let mut part: Vec<u8> = encode_part(&frames[i].data);
        r.append(&mut part);
        proof {
            assert(m.take(i + 1 as int).drop_last() =~= m.take(i as int));
            assert(m.take(i + 1 as int).last() == frames@[i as int].data@);
        }
        i += 1;
    }
    proof {
        assert(m.take(frames@.len() as int) =~= m);
    }
    r
}

/// The decimal rendering is injective: distinct lengths always render to
/// distinct digit strings.
pub proof fn lemma_decimal_injective(a: nat, b: nat)
    requires
        spec_decimal(a) == spec_decimal(b),
    ensures
        a == b,
    decreases a,
{
    lemma_decimal_len(a);
    lemma_decimal_len(b);
    if a < 10 && b < 10 {
        assert(spec_decimal(a) == seq![(48 + a) as u8]);
        assert(spec_decimal(b) == seq![(48 + b) as u8]);
        assert(seq![(48 + a) as u8][0] == (48 + a) as u8);
        assert(seq![(48 + b) as u8][0] == (48 + b) as u8);
        assert((48 + a) as u8 == 48 + a);
        assert((48 + b) as u8 == 48 + b);
    } else if a < 10 {
        assert(spec_decimal(a).len() == 1);
        assert(spec_decimal(b).len() >= 2);
    } else if b < 10 {
        assert(spec_decimal(a).len() >= 2);
        assert(spec_decimal(b).len() == 1);
    } else {
        let sa = spec_decimal(a / 10);
        let sb = spec_decimal(b / 10);
        assert(sa.push((48 + a % 10) as u8) == sb.push((48 + b % 10) as u8));
        assert(sa.push((48 + a % 10) as u8).last() == (48 + a % 10) as u8);
        assert((48 + a % 10) as u8 == 48 + a % 10);
        assert((48 + b % 10) as u8 == 48 + b % 10);
        assert(a % 10 == b % 10);
        assert(sa.push((48 + a % 10) as u8).drop_last() =~= sa);
        assert(sb.push((48 + b % 10) as u8).drop_last() =~= sb);
        assert(sa == sb);
        assert(a / 10 < a) by (nonlinear_arith)
            requires a >= 10;
        lemma_decimal_injective(a / 10, b / 10);
        vstd::arithmetic::div_mod::lemma_fundamental_div_mod(a as int, 10);
        vstd::arithmetic::div_mod::lemma_fundamental_div_mod(b as int, 10);
        assert(a == 10 * (a / 10) + a % 10);
        assert(b == 10 * (b / 10) + b % 10);
    }
}

/// The decimal rendering of any length is at least one digit, at least two
/// once the length reaches ten.
pub proof fn lemma_decimal_len(n: nat)
    ensures
        spec_decimal(n).len() >= 1,
        n >= 10 ==> spec_decimal(n).len() >= 2,
    decreases n,
{
    if n >= 10 {
        lemma_decimal_len(n / 10);
    }
}

/// The length header cannot lie: parts for payloads of different sizes carry
/// different headers, so the header field always names exactly the byte
/// count of the payload written after it.
pub proof fn lemma_header_pins_length(a: nat, b: nat)
    requires
        a != b,
    ensures
        spec_part_header(a) != spec_part_header(b),
{
    if spec_part_header(a) == spec_part_header(b) {
        let p = spec_header_prefix().len() as int;
        let ha = spec_part_header(a);
        let hb = spec_part_header(b);
        assert(ha.len() == hb.len());
        assert(spec_decimal(a).len() == spec_decimal(b).len());
        assert(spec_decimal(a) =~= ha.subrange(p, p + spec_decimal(a).len()));
        assert(spec_decimal(b) =~= hb.subrange(p, p + spec_decimal(b).len()));
        lemma_decimal_injective(a, b);
    }
}

} // verus!
