//! Little-endian integers, as they stand in packet headers.

use vstd::prelude::*;

verus! {

/// The number that eight bytes spell, least significant byte first.
pub open spec fn le_value(bytes: Seq<u8>) -> int {
    bytes[0] + 0x100 * bytes[1] + 0x1_0000 * bytes[2] + 0x100_0000 * bytes[3] + 0x1_0000_0000
        * bytes[4] + 0x100_0000_0000 * bytes[5] + 0x1_0000_0000_0000 * bytes[6]
        + 0x100_0000_0000_0000 * bytes[7]
}

/// The eight bytes of a number, least significant byte first.
pub open spec fn le_bytes(value: u64) -> Seq<u8> {
    seq![
        (value % 0x100) as u8,
        (value / 0x100 % 0x100) as u8,
        (value / 0x1_0000 % 0x100) as u8,
        (value / 0x100_0000 % 0x100) as u8,
        (value / 0x1_0000_0000 % 0x100) as u8,
        (value / 0x100_0000_0000 % 0x100) as u8,
        (value / 0x1_0000_0000_0000 % 0x100) as u8,
        (value / 0x100_0000_0000_0000) as u8,
    ]
}

/// The bytes of a `usize`, least significant byte first: as many as the machine's word has.
pub open spec fn usize_le_bytes(value: usize) -> Seq<u8> {
    le_bytes(value as u64).take(usize::BITS as int / 8)
}

/// What is left of a number after one, two, up to seven bytes are taken off its low end.
spec fn quotients(value: int) -> (int, int, int, int, int, int, int) {
    let q1 = value / 0x100;
    let q2 = q1 / 0x100;
    let q3 = q2 / 0x100;
    let q4 = q3 / 0x100;
    let q5 = q4 / 0x100;
    let q6 = q5 / 0x100;
    (q1, q2, q3, q4, q5, q6, q6 / 0x100)
}

/// Taking bytes off one at a time is dividing by the power of 256 at once.
proof fn lemma_quotients(value: int)
    requires
        0 <= value,
    ensures
        quotients(value).1 == value / 0x1_0000,
        quotients(value).2 == value / 0x100_0000,
        quotients(value).3 == value / 0x1_0000_0000,
        quotients(value).4 == value / 0x100_0000_0000,
        quotients(value).5 == value / 0x1_0000_0000_0000,
        quotients(value).6 == value / 0x100_0000_0000_0000,
{
    vstd::arithmetic::div_mod::lemma_div_denominator(value, 0x100, 0x100);
    vstd::arithmetic::div_mod::lemma_div_denominator(value, 0x1_0000, 0x100);
    vstd::arithmetic::div_mod::lemma_div_denominator(value, 0x100_0000, 0x100);
    vstd::arithmetic::div_mod::lemma_div_denominator(value, 0x1_0000_0000, 0x100);
    vstd::arithmetic::div_mod::lemma_div_denominator(value, 0x100_0000_0000, 0x100);
    vstd::arithmetic::div_mod::lemma_div_denominator(value, 0x1_0000_0000_0000, 0x100);
}

/// A number is its low byte and 256 times the rest.
proof fn lemma_split(value: int)
    ensures
        value == value % 0x100 + 0x100 * (value / 0x100),
{
}

/// A low byte put before a rest comes off again.
proof fn lemma_join(low: u8, rest: int)
    requires
        0 <= rest,
    ensures
        (low + 0x100 * rest) % 0x100 == low,
        (low + 0x100 * rest) / 0x100 == rest,
{
}

/// Reading back the bytes of a number gives the number.
pub proof fn law_le_round_trip(value: u64)
    ensures
        le_bytes(value).len() == 8,
        le_value(le_bytes(value)) == value,
{
    lemma_quotients(value as int);
    let rests = quotients(value as int);
    lemma_split(value as int);
    lemma_split(rests.0);
    lemma_split(rests.1);
    lemma_split(rests.2);
    lemma_split(rests.3);
    lemma_split(rests.4);
    lemma_split(rests.5);
}

/// Writing the number that eight bytes spell gives the bytes.
pub proof fn law_le_bytes_of_value(bytes: Seq<u8>)
    requires
        bytes.len() == 8,
    ensures
        0 <= le_value(bytes) <= u64::MAX,
        le_bytes(le_value(bytes) as u64) == bytes,
{
    let rest6: int = bytes[6] + 0x100 * bytes[7];
    let rest5: int = bytes[5] + 0x100 * rest6;
    let rest4: int = bytes[4] + 0x100 * rest5;
    let rest3: int = bytes[3] + 0x100 * rest4;
    let rest2: int = bytes[2] + 0x100 * rest3;
    let rest1: int = bytes[1] + 0x100 * rest2;
    assert(le_value(bytes) == bytes[0] + 0x100 * rest1);
    lemma_join(bytes[0], rest1);
    lemma_join(bytes[1], rest2);
    lemma_join(bytes[2], rest3);
    lemma_join(bytes[3], rest4);
    lemma_join(bytes[4], rest5);
    lemma_join(bytes[5], rest6);
    lemma_join(bytes[6], bytes[7] as int);
    lemma_quotients(le_value(bytes));
    assert(le_bytes(le_value(bytes) as u64) =~= bytes);
}

/// The bytes of a `usize` hold all of it: a word has four or eight of them, and those of the eight
/// that it lacks would be zero.
pub proof fn law_usize_bytes_hold_all(value: usize)
    ensures
        usize_le_bytes(value).len() == 4 || usize_le_bytes(value).len() == 8,
        usize_le_bytes(value).len() * 8 == usize::BITS,
        usize_le_bytes(value) + Seq::new(
            (8 - usize_le_bytes(value).len()) as nat,
            |i: int| 0u8,
        ) == le_bytes(value as u64),
{
    if usize::BITS == 32 {
        assert(value < 0x1_0000_0000);
    }
    assert(usize_le_bytes(value) + Seq::new(
        (8 - usize_le_bytes(value).len()) as nat,
        |i: int| 0u8,
    ) =~= le_bytes(value as u64));
}

/// Reads eight bytes as a little-endian number.
pub fn u64_from_le(bytes: &[u8; 8]) -> (value: u64)
    ensures
        value == le_value(bytes@),
{
    bytes[0] as u64 + 0x100 * (bytes[1] as u64) + 0x1_0000 * (bytes[2] as u64) + 0x100_0000 * (
    bytes[3] as u64) + 0x1_0000_0000 * (bytes[4] as u64) + 0x100_0000_0000 * (bytes[5] as u64)
        + 0x1_0000_0000_0000 * (bytes[6] as u64) + 0x100_0000_0000_0000 * (bytes[7] as u64)
}

/// Writes a number as eight little-endian bytes.
pub fn u64_to_le(value: u64) -> (bytes: [u8; 8])
    ensures
        bytes@ == le_bytes(value),
{
    let bytes: [u8; 8] = [
        (value % 0x100) as u8,
        (value / 0x100 % 0x100) as u8,
        (value / 0x1_0000 % 0x100) as u8,
        (value / 0x100_0000 % 0x100) as u8,
        (value / 0x1_0000_0000 % 0x100) as u8,
        (value / 0x100_0000_0000 % 0x100) as u8,
        (value / 0x1_0000_0000_0000 % 0x100) as u8,
        (value / 0x100_0000_0000_0000) as u8,
    ];
    assert(bytes@ =~= le_bytes(value));
    bytes
}

/// Writes a `usize` as little-endian bytes, as many as the machine's word has.
pub fn usize_to_le(value: usize) -> (bytes: Vec<u8>)
    ensures
        bytes@ == usize_le_bytes(value),
{
    let all: [u8; 8] = u64_to_le(value as u64);
    let width: usize = (usize::BITS / 8) as usize;
    vstd::slice::slice_to_vec(vstd::slice::slice_subrange(&all, 0, width))
}

/// The low byte stands first: it is the number's remainder by 256, and the first byte of what a
/// number is read from is its remainder.
pub proof fn law_low_byte_stands_first(value: u64, bytes: Seq<u8>)
    requires
        bytes.len() == 8,
    ensures
        le_bytes(value)[0] == value % 0x100,
        le_value(bytes) % 0x100 == bytes[0],
        value < 0x100 ==> forall|i: int| 1 <= i < 8 ==> #[trigger] le_bytes(value)[i] == 0,
{
    let rest6: int = bytes[6] + 0x100 * bytes[7];
    let rest5: int = bytes[5] + 0x100 * rest6;
    let rest4: int = bytes[4] + 0x100 * rest5;
    let rest3: int = bytes[3] + 0x100 * rest4;
    let rest2: int = bytes[2] + 0x100 * rest3;
    let rest1: int = bytes[1] + 0x100 * rest2;
    assert(le_value(bytes) == bytes[0] + 0x100 * rest1);
    lemma_join(bytes[0], rest1);
}

} // verus!
