//! Little-endian integers in byte sequences.

use vstd::prelude::*;

verus! {

/// The two bytes of a `u16`, least significant first.
pub open spec fn le16(value: u16) -> Seq<u8> {
    seq![(value % 256) as u8, (value / 256) as u8]
}

/// The four bytes of a `u32`, least significant first.
pub open spec fn le32(value: u32) -> Seq<u8> {
    le16((value % 0x1_0000) as u16) + le16((value / 0x1_0000) as u16)
}

/// The eight bytes of a `u64`, least significant first.
pub open spec fn le64(value: u64) -> Seq<u8> {
    le32((value % 0x1_0000_0000) as u32) + le32((value / 0x1_0000_0000) as u32)
}

/// The `u16` whose bytes stand at `at`.
pub open spec fn u16_at(bytes: Seq<u8>, at: int) -> u16 {
    (bytes[at] + 256 * bytes[at + 1]) as u16
}

/// The `u32` whose bytes stand at `at`.
pub open spec fn u32_at(bytes: Seq<u8>, at: int) -> u32 {
    (u16_at(bytes, at) + 0x1_0000 * u16_at(bytes, at + 2)) as u32
}

/// Append the bytes of a `u16`.
pub fn push_le16(bytes: &mut Vec<u8>, value: u16)
    ensures
        final(bytes)@ == old(bytes)@ + le16(value),
{
    bytes.push((value % 256) as u8);
    bytes.push((value / 256) as u8);
    assert(bytes@ =~= old(bytes)@ + le16(value));
}

/// Append the bytes of a `u32`.
pub fn push_le32(bytes: &mut Vec<u8>, value: u32)
    ensures
        final(bytes)@ == old(bytes)@ + le32(value),
{
    push_le16(bytes, (value % 0x1_0000) as u16);
    push_le16(bytes, (value / 0x1_0000) as u16);
    assert(bytes@ =~= old(bytes)@ + le32(value));
}

/// Append the bytes of a `u64`.
pub fn push_le64(bytes: &mut Vec<u8>, value: u64)
    ensures
        final(bytes)@ == old(bytes)@ + le64(value),
{
    push_le32(bytes, (value % 0x1_0000_0000) as u32);
    push_le32(bytes, (value / 0x1_0000_0000) as u32);
    assert(bytes@ =~= old(bytes)@ + le64(value));
}

/// Read the `u16` at `at`.
pub fn read_le16(bytes: &[u8], at: usize) -> (value: u16)
    requires
        at + 2 <= bytes.len(),
    ensures
        value == u16_at(bytes@, at as int),
{
    bytes[at] as u16 + 256 * (bytes[at + 1] as u16)
}

/// Read the `u32` at `at`.
pub fn read_le32(bytes: &[u8], at: usize) -> (value: u32)
    requires
        at + 4 <= bytes.len(),
    ensures
        value == u32_at(bytes@, at as int),
{
    read_le16(bytes, at) as u32 + 0x1_0000 * (read_le16(bytes, at + 2) as u32)
}

/// Reading what was written gives the value back.
pub proof fn law_le32_reads_back(value: u32)
    ensures
        le32(value).len() == 4,
        u32_at(le32(value), 0) == value,
{
    let low = (value % 0x1_0000) as u16;
    let high = (value / 0x1_0000) as u16;
    law_le16_reads_back(low);
    law_le16_reads_back(high);
    assert(u16_at(le32(value), 0) == u16_at(le16(low), 0));
    assert(u16_at(le32(value), 2) == u16_at(le16(high), 0));
}

/// Reading what was written gives the value back.
pub proof fn law_le16_reads_back(value: u16)
    ensures
        le16(value).len() == 2,
        u16_at(le16(value), 0) == value,
{
    assert(le16(value)[0] == value % 256);
    assert(le16(value)[1] == value / 256);
}

/// A number is written least significant byte first: the bytes, each counted 256
/// times the one before, add up to it.
pub proof fn law_bytes_add_up(short: u16, value: u32, long: u64)
    ensures
        le16(short).len() == 2,
        le16(short)[0] + 0x100 * le16(short)[1] == short,
        le32(value).len() == 4,
        le32(value)[0] + 0x100 * le32(value)[1] + 0x1_0000 * le32(value)[2] + 0x100_0000
            * le32(value)[3] == value,
        le64(long).len() == 8,
        le32((long % 0x1_0000_0000) as u32) == le64(long).take(4),
        le32((long / 0x1_0000_0000) as u32) == le64(long).skip(4),
{
    assert(le64(long).take(4) =~= le32((long % 0x1_0000_0000) as u32));
    assert(le64(long).skip(4) =~= le32((long / 0x1_0000_0000) as u32));
}

/// A number is read least significant byte first.
pub proof fn law_reading_adds_up(bytes: Seq<u8>, at: int)
    ensures
        u16_at(bytes, at) == bytes[at] + 0x100 * bytes[at + 1],
        u32_at(bytes, at) == bytes[at] + 0x100 * bytes[at + 1] + 0x1_0000 * bytes[at + 2]
            + 0x100_0000 * bytes[at + 3],
{
}

/// A value is read lowest byte first from where it stands.
pub proof fn law_value_is_read_lowest_byte_first(
    bytes: &[u8],
    at: usize,
    short: u16,
    value: u32,
)
    requires
        call_ensures(read_le16, (bytes, at), short),
        call_ensures(read_le32, (bytes, at), value),
    ensures
        short == bytes@[at as int] + 0x100 * bytes@[at + 1],
        value == bytes@[at as int] + 0x100 * bytes@[at + 1] + 0x1_0000 * bytes@[at + 2]
            + 0x100_0000 * bytes@[at + 3],
{
    law_reading_adds_up(bytes@, at as int);
}

/// A value is written behind what was there, lowest byte first.
pub proof fn law_value_is_written_lowest_byte_first(
    shorts: &mut Vec<u8>,
    words: &mut Vec<u8>,
    short: u16,
    value: u32,
)
    requires
        call_ensures(push_le16, (shorts, short), ()),
        call_ensures(push_le32, (words, value), ()),
    ensures
        final(shorts)@.len() == old(shorts)@.len() + 2,
        final(shorts)@.take(old(shorts)@.len() as int) == old(shorts)@,
        u16_at(final(shorts)@, old(shorts)@.len() as int) == short,
        final(words)@.len() == old(words)@.len() + 4,
        final(words)@.take(old(words)@.len() as int) == old(words)@,
        u32_at(final(words)@, old(words)@.len() as int) == value,
{
    law_le16_reads_back(short);
    law_le32_reads_back(value);
    let n = old(shorts)@.len() as int;
    let m = old(words)@.len() as int;
    assert(final(shorts)@.take(n) =~= old(shorts)@);
    assert(final(words)@.take(m) =~= old(words)@);
    assert(final(shorts)@.skip(n) =~= le16(short));
    assert(final(words)@.skip(m) =~= le32(value));
    assert(u16_at(final(shorts)@, n) == u16_at(final(shorts)@.skip(n), 0));
    assert(u32_at(final(words)@, m) == u32_at(final(words)@.skip(m), 0));
}

/// A long value is written behind what was there as its low word and its high word.
pub proof fn law_long_value_is_two_words(longs: &mut Vec<u8>, value: u64)
    requires
        call_ensures(push_le64, (longs, value), ()),
    ensures
        final(longs)@.len() == old(longs)@.len() + 8,
        final(longs)@.take(old(longs)@.len() as int) == old(longs)@,
        u32_at(final(longs)@, old(longs)@.len() as int) + 0x1_0000_0000 * u32_at(
            final(longs)@,
            old(longs)@.len() as int + 4,
        ) == value,
{
    let low = (value % 0x1_0000_0000) as u32;
    let high = (value / 0x1_0000_0000) as u32;
    let n = old(longs)@.len() as int;
    law_bytes_add_up(0, 0, value);
    law_le32_reads_back(low);
    law_le32_reads_back(high);
    assert(final(longs)@.take(n) =~= old(longs)@);
    assert(final(longs)@.subrange(n, n + 4) =~= le64(value).take(4));
    assert(final(longs)@.subrange(n + 4, n + 8) =~= le64(value).skip(4));
    assert(u32_at(final(longs)@, n) == u32_at(final(longs)@.subrange(n, n + 4), 0));
    assert(u32_at(final(longs)@, n + 4) == u32_at(final(longs)@.subrange(n + 4, n + 8), 0));
}

} // verus!
