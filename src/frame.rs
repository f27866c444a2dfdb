use vstd::prelude::*;
use crate::buffer::{Frame, frame_contents, empty_frame, push_byte, extend_bytes};

verus! {

/// Byte that separates the fields of a frame (ASCII comma).
pub const SEPARATOR: u8 = 0x2C;

/// Byte that ends a frame (ASCII newline).
pub const TERMINATOR: u8 = 0x0A;

/// Length of every encoded frame: three 4-byte fields, two separators, one terminator.
pub const FRAME_LEN: usize = 15;

/// One acceleration reading, in milli-g along each axis.
#[derive(Clone, Copy, Debug, PartialEq, Eq, Structural)]
pub struct Sample {
    pub x: i32,
    pub y: i32,
    pub z: i32,
}

/// The two's-complement bytes of `v`, most significant first.
pub open spec fn be_bytes(v: i32) -> Seq<u8> {
    let u = v as u32;
    seq![(u >> 24u32) as u8, (u >> 16u32) as u8, (u >> 8u32) as u8, u as u8]
}

/// The `i32` whose two's-complement bytes, most significant first, are `b[0..4]`.
pub open spec fn be_value(b: Seq<u8>) -> i32 {
    (((b[0] as u32) << 24u32) | ((b[1] as u32) << 16u32) | ((b[2] as u32) << 8u32) | (b[3] as u32)) as i32
}

/// The frame of a sample: `x`, separator, `y`, separator, `z`, terminator,
/// each field as four big-endian bytes.
pub open spec fn frame_bytes(x: i32, y: i32, z: i32) -> Seq<u8> {
    be_bytes(x) + seq![SEPARATOR] + be_bytes(y) + seq![SEPARATOR] + be_bytes(z) + seq![TERMINATOR]
}

/// What a reader of the stream recovers from one frame: the fields at
/// offsets 0, 5 and 10, reading by position and never by delimiter.
pub open spec fn decode_frame(f: Seq<u8>) -> (i32, i32, i32) {
    (be_value(f.subrange(0, 4)), be_value(f.subrange(5, 9)), be_value(f.subrange(10, 14)))
}

/// The four big-endian bytes of `v`.
pub fn be_bytes_of(v: i32) -> (r: [u8; 4])
    ensures
        r@ == be_bytes(v),
{
    let u: u32 = v as u32;
    let r: [u8; 4] = [(u >> 24u32) as u8, (u >> 16u32) as u8, (u >> 8u32) as u8, u as u8];
    assert(r@ =~= be_bytes(v));
    r
}

/// Encodes one reading as a frame: each field as four big-endian bytes, a
/// separator after `x` and after `y`, and a terminator after `z`.
pub fn format_row(x: i32, y: i32, z: i32) -> (r: Frame)
    ensures
        frame_contents(r) == frame_bytes(x, y, z),
        frame_contents(r).len() == FRAME_LEN,
{
    let mut buf = empty_frame();
    let xb = be_bytes_of(x);
    let _ = extend_bytes(&mut buf, xb.as_slice());
    let _ = push_byte(&mut buf, SEPARATOR);
    let yb = be_bytes_of(y);
    let _ = extend_bytes(&mut buf, yb.as_slice());
    let _ = push_byte(&mut buf, SEPARATOR);
    let zb = be_bytes_of(z);
    let _ = extend_bytes(&mut buf, zb.as_slice());
    let _ = push_byte(&mut buf, TERMINATOR);
    assert(frame_contents(buf) =~= frame_bytes(x, y, z));
    buf
}

/// Encodes a sample; see `format_row`.
pub fn encode(sample: Sample) -> (r: Frame)
    ensures
        frame_contents(r) == frame_bytes(sample.x, sample.y, sample.z),
        frame_contents(r).len() == FRAME_LEN,
{
    format_row(sample.x, sample.y, sample.z)
}

/// Reading back the four big-endian bytes of a value gives the value.
pub proof fn lemma_be_round_trip(v: i32)
    ensures
        be_value(be_bytes(v)) == v,
{
    let u = v as u32;
    let b = be_bytes(v);
    assert(b[0] == (u >> 24u32) as u8 && b[1] == (u >> 16u32) as u8 && b[2] == (u >> 8u32) as u8
        && b[3] == u as u8);
    assert(((((((u >> 24u32) as u8) as u32) << 24u32) | ((((u >> 16u32) as u8) as u32) << 16u32)
        | ((((u >> 8u32) as u8) as u32) << 8u32) | ((u as u8) as u32)) as i32) == v) by (bit_vector)
        requires
            u == v as u32,
    ;
}

/// Every frame is 15 bytes long, and reading its three fields by position
/// gives back the sample it was made from.
pub proof fn lemma_frame_round_trip(x: i32, y: i32, z: i32)
    ensures
        frame_bytes(x, y, z).len() == FRAME_LEN,
        decode_frame(frame_bytes(x, y, z)) == (x, y, z),
{
    let f = frame_bytes(x, y, z);
    lemma_be_round_trip(x);
    lemma_be_round_trip(y);
    lemma_be_round_trip(z);
    assert(f.subrange(0, 4) =~= be_bytes(x));
    assert(f.subrange(5, 9) =~= be_bytes(y));
    assert(f.subrange(10, 14) =~= be_bytes(z));
}

/// Encoding is a function of the sample alone: two frames made from the
/// same values hold identical bytes.
pub proof fn lemma_encode_deterministic(x: i32, y: i32, z: i32, a: Frame, b: Frame)
    requires
        frame_contents(a) == frame_bytes(x, y, z),
        frame_contents(b) == frame_bytes(x, y, z),
    ensures
        frame_contents(a) == frame_contents(b),
{
}

/// The separators stand at offsets 4 and 9 and the terminator at offset 14,
/// the last byte, whatever the field values are.
pub proof fn lemma_fixed_delimiters(x: i32, y: i32, z: i32)
    ensures
        frame_bytes(x, y, z).len() == FRAME_LEN,
        frame_bytes(x, y, z)[4] == SEPARATOR,
        frame_bytes(x, y, z)[9] == SEPARATOR,
        frame_bytes(x, y, z)[14] == TERMINATOR,
{
}

/// The offsets of a frame that hold `b`.
pub open spec fn positions_of(f: Seq<u8>, b: u8) -> Set<int> {
    Set::new(|i: int| 0 <= i < f.len() && f[i] == b)
}

/// When no field byte is a comma, the frame holds exactly two commas, at
/// offsets 4 and 9; when no field byte is a newline, it holds exactly one
/// newline, at offset 14.
pub proof fn lemma_delimiter_counts(x: i32, y: i32, z: i32)
    ensures
        !be_bytes(x).contains(SEPARATOR) && !be_bytes(y).contains(SEPARATOR)
            && !be_bytes(z).contains(SEPARATOR) ==> positions_of(frame_bytes(x, y, z), SEPARATOR)
            == set![4int, 9int],
        !be_bytes(x).contains(TERMINATOR) && !be_bytes(y).contains(TERMINATOR)
            && !be_bytes(z).contains(TERMINATOR) ==> positions_of(frame_bytes(x, y, z), TERMINATOR)
            == set![14int],
{
    let f = frame_bytes(x, y, z);
    assert(positions_of(f, SEPARATOR).subset_of(set![4int, 9int]) ==> positions_of(f, SEPARATOR)
        =~= set![4int, 9int]);
    assert(positions_of(f, TERMINATOR).subset_of(set![14int]) ==> positions_of(f, TERMINATOR)
        =~= set![14int]);
    // every byte off the delimiter offsets is a byte of one of the fields
    assert forall|i: int| 0 <= i < f.len() && i != 4 && i != 9 && i != 14 implies be_bytes(
        x,
    ).contains(#[trigger] f[i]) || be_bytes(y).contains(f[i]) || be_bytes(z).contains(f[i]) by {
        if i < 4 {
            assert(f[i] == be_bytes(x)[i]);
        } else if 5 <= i < 9 {
            assert(f[i] == be_bytes(y)[i - 5]);
        } else {
            assert(f[i] == be_bytes(z)[i - 10]);
        }
    }
}

} // verus!
