//! Frames: a JSON text behind its length, four bytes in big-endian order.

use vstd::prelude::*;

use crate::codec;
use crate::json::{Json, JsonView};

verus! {

/// The longest payload that is read.
pub const MAX_FRAME: usize = 4 * 1024 * 1024;

/// Why a frame was not read or written.
#[derive(Debug)]
pub enum FrameError {
    /// The announced length is zero or beyond `MAX_FRAME`.
    Length,
    /// The payload is no JSON text.
    Malformed(serde_json::Error),
}

/// The number that four bytes stand for.
pub open spec fn be_value(b: Seq<u8>) -> nat {
    (b[0] as nat) * 0x100_0000 + (b[1] as nat) * 0x1_0000 + (b[2] as nat) * 0x100 + (b[3] as nat)
}

/// The four bytes that stand for a number, taken modulo 2^32.
pub open spec fn be_bytes(n: nat) -> Seq<u8> {
    seq![
        ((n / 0x100_0000) % 0x100) as u8,
        ((n / 0x1_0000) % 0x100) as u8,
        ((n / 0x100) % 0x100) as u8,
        (n % 0x100) as u8,
    ]
}

/// The frame of a payload.
pub open spec fn framed(payload: Seq<u8>) -> Seq<u8> {
    be_bytes(payload.len()) + payload
}

/// The length that a header announces, where it is acceptable.
pub open spec fn announced(header: Seq<u8>) -> Option<nat> {
    if 0 < be_value(header) <= MAX_FRAME {
        Some(be_value(header))
    } else {
        None
    }
}

/// The value of the first frame in a stream of bytes and what follows that
/// frame, where the stream starts with a whole and well-formed one.
pub open spec fn first_frame(stream: Seq<u8>) -> Option<(JsonView, Seq<u8>)> {
    if stream.len() < 4 {
        None
    } else {
        match announced(stream.take(4)) {
            Some(n) if 4 + n <= stream.len() => match codec::parsed(
                stream.subrange(4, 4 + n as int),
            ) {
                Some(value) => Some((value, stream.skip(4 + n as int))),
                None => None,
            },
            _ => None,
        }
    }
}

/// `frame` is read as `value` and no byte more is taken, whatever follows it.
pub open spec fn reads_as(frame: Seq<u8>, value: JsonView) -> bool {
    forall|rest: Seq<u8>| #[trigger] first_frame(frame + rest) == Some((value, rest))
}

/// A length below 2^32 is read back from its four bytes.
pub proof fn length_is_read_back(n: nat)
    requires
        n < 0x1_0000_0000,
    ensures
        be_value(be_bytes(n)) == n,
{
    assert(n == (n / 0x100_0000) * 0x100_0000 + ((n / 0x1_0000) % 0x100) * 0x1_0000 + ((n / 0x100)
        % 0x100) * 0x100 + n % 0x100 && n / 0x100_0000 < 0x100) by (nonlinear_arith)
        requires
            n < 0x1_0000_0000,
    ;
}

/// An acceptable payload is found again behind its header.
proof fn lemma_payload_is_found(payload: Seq<u8>, value: JsonView)
    requires
        0 < payload.len() <= MAX_FRAME,
        codec::parsed(payload) == Some(value),
    ensures
        reads_as(framed(payload), value),
{
    length_is_read_back(payload.len());
    assert forall|rest: Seq<u8>| #[trigger]
        first_frame(framed(payload) + rest) == Some((value, rest)) by {
        let stream = framed(payload) + rest;
        assert(stream.take(4) =~= be_bytes(payload.len()));
        assert(stream.subrange(4, 4 + payload.len() as int) =~= payload);
        assert(stream.skip(4 + payload.len() as int) =~= rest);
    }
}

/// Frames written one after the other.
pub open spec fn joined(frames: Seq<Seq<u8>>) -> Seq<u8>
    decreases frames.len(),
{
    if frames.len() == 0 {
        Seq::empty()
    } else {
        frames[0] + joined(frames.drop_first())
    }
}

/// The values of the first `count` frames in a stream, where it has so many.
pub open spec fn first_frames(stream: Seq<u8>, count: nat) -> Option<Seq<JsonView>>
    decreases count,
{
    if count == 0 {
        Some(Seq::empty())
    } else {
        match first_frame(stream) {
            Some((value, rest)) => match first_frames(rest, (count - 1) as nat) {
                Some(values) => Some(seq![value] + values),
                None => None,
            },
            None => None,
        }
    }
}

/// Values written one after the other are read in the order they were written.
pub proof fn frames_are_read_in_order(frames: Seq<Seq<u8>>, values: Seq<JsonView>)
    requires
        frames.len() == values.len(),
        forall|i: int| 0 <= i < frames.len() ==> reads_as(#[trigger] frames[i], values[i]),
    ensures
        first_frames(joined(frames), values.len()) == Some(values),
    decreases frames.len(),
{
    if frames.len() == 0 {
        assert(values =~= Seq::empty());
    } else {
        let (later, rest) = (frames.drop_first(), values.drop_first());
        assert forall|i: int| 0 <= i < later.len() implies reads_as(
            #[trigger] later[i],
            rest[i],
        ) by {
            assert(reads_as(frames[i + 1], values[i + 1]));
        }
        frames_are_read_in_order(later, rest);
        assert(reads_as(frames[0], values[0]));
        assert(first_frame(frames[0] + joined(later)) == Some((values[0], joined(later))));
        assert(seq![values[0]] + rest =~= values);
    }
}

/// The four bytes in front of a payload of `len` bytes.
fn header(len: usize) -> (r: Vec<u8>)
    ensures
        r@ == be_bytes(len as nat),
{
    let n: u64 = len as u64;
    let mut r: Vec<u8> = Vec::new();
    r.push(((n / 0x100_0000) % 0x100) as u8);
    r.push(((n / 0x1_0000) % 0x100) as u8);
    r.push(((n / 0x100) % 0x100) as u8);
    r.push((n % 0x100) as u8);
    r
}

/// The frame of a value: what goes on the wire for it. A value whose numbers
/// are all integers, nested no deeper than the parser allows and with a text no
/// longer than `MAX_FRAME`, is what its frame is read as.
pub fn write_frame(value: Json) -> (r: Result<Vec<u8>, FrameError>)
    ensures
        r is Ok,
        r->Ok_0@ == framed(codec::rendered(value@)),
        codec::exact_within(value@, 127) && codec::rendered(value@).len() <= MAX_FRAME ==> reads_as(
            r->Ok_0@,
            value@,
        ),
{
    match codec::encode(value) {
        Ok(mut payload) => {
            proof {
                if codec::exact_within(value@, 127) && payload@.len() <= MAX_FRAME {
                    lemma_payload_is_found(payload@, value@);
                }
            }
            let mut out: Vec<u8> = header(payload.len());
            out.append(&mut payload);
            Ok(out)
        },
        Err(e) => Err(FrameError::Malformed(e)),
    }
}

/// The payload length that a header announces. Fails exactly where it is zero
/// or beyond `MAX_FRAME`.
pub fn frame_len(header: [u8; 4]) -> (r: Result<usize, FrameError>)
    ensures
        match r {
            Ok(n) => announced(header@) == Some(n as nat),
            Err(e) => announced(header@) is None && e is Length,
        },
{
    let n: u64 = (header[0] as u64) * 0x100_0000 + (header[1] as u64) * 0x1_0000 + (
    header[2] as u64) * 0x100 + (header[3] as u64);
    if n == 0 || n > MAX_FRAME as u64 {
        Err(FrameError::Length)
    } else {
        Ok(n as usize)
    }
}

/// The value that a payload carries. Fails exactly where it is no JSON text.
pub fn read_payload(payload: &[u8]) -> (r: Result<Json, FrameError>)
    ensures
        match r {
            Ok(value) => codec::parsed(payload@) == Some(value@),
            Err(e) => codec::parsed(payload@) is None && e is Malformed,
        },
{
    match codec::decode(payload) {
        Ok(value) => Ok(value),
        Err(e) => Err(FrameError::Malformed(e)),
    }
}

/// The header of a written frame announces its payload, and the payload is read
/// as the value that was written.
pub proof fn written_frames_are_read(
    value: Json,
    written: Result<Vec<u8>, FrameError>,
    header: [u8; 4],
    len: Result<usize, FrameError>,
    payload: &[u8],
    read: Result<Json, FrameError>,
)
    requires
        call_ensures(write_frame, (value,), written),
        codec::exact_within(value@, 127),
        codec::rendered(value@).len() <= MAX_FRAME,
        written is Ok,
        header@ == written->Ok_0@.take(4),
        call_ensures(frame_len, (header,), len),
        payload@ == written->Ok_0@.skip(4),
        call_ensures(read_payload, (payload,), read),
    ensures
        len == Ok::<usize, FrameError>(payload@.len() as usize),
        read is Ok,
        read->Ok_0@ == value@,
{
    let bytes = written->Ok_0@;
    let text = codec::rendered(value@);
    assert(bytes == framed(text));
    assert(reads_as(bytes, value@));
    assert(first_frame(bytes + Seq::<u8>::empty()) == Some((value@, Seq::<u8>::empty())));
    assert(bytes + Seq::<u8>::empty() =~= bytes);
    assert(bytes.take(4) =~= be_bytes(text.len()));
    assert(bytes.skip(4) =~= text);
    length_is_read_back(text.len());
    assert(bytes.subrange(4, 4 + be_value(bytes.take(4)) as int) =~= text);
}

} // verus!
