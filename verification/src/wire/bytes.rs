//! Little-endian numbers in messages.
use crate::double::Double;
use vstd::prelude::*;
use zerocopy::{FromBytes, IntoBytes};

verus! {

/// The `count` least significant bytes of `value`, least significant first.
pub open spec fn le(value: nat, count: nat) -> Seq<u8>
    decreases count,
{
    if count == 0 {
        Seq::empty()
    } else {
        seq![(value % 256) as u8] + le(value / 256, (count - 1) as nat)
    }
}

/// The number that `bytes` hold, least significant first.
pub open spec fn from_le(bytes: Seq<u8>) -> nat
    decreases bytes.len(),
{
    if bytes.len() == 0 {
        0
    } else {
        bytes[0] as nat + 256 * from_le(bytes.drop_first())
    }
}

/// One more than the largest number that `count` bytes hold.
pub open spec fn capacity(count: nat) -> nat
    decreases count,
{
    if count == 0 {
        1
    } else {
        256 * capacity((count - 1) as nat)
    }
}

/// Numbers written with so many bytes take so many bytes.
pub proof fn lemma_le_len(value: nat, count: nat)
    ensures
        le(value, count).len() == count,
    decreases count,
{
    if count > 0 {
        lemma_le_len(value / 256, (count - 1) as nat);
    }
}

/// Reading gives back the number that was written, when it fits.
pub proof fn law_read_of_write(value: nat, count: nat)
    requires
        value < capacity(count),
    ensures
        from_le(le(value, count)) == value,
    decreases count,
{
    if count > 0 {
        assert(value / 256 < capacity((count - 1) as nat)) by (nonlinear_arith)
            requires
                value < 256 * capacity((count - 1) as nat),
        ;
        law_read_of_write(value / 256, (count - 1) as nat);
        assert(le(value, count).drop_first() =~= le(value / 256, (count - 1) as nat));
    }
}

/// Writing gives back the bytes that were read.
pub proof fn law_write_of_read(bytes: Seq<u8>)
    ensures
        from_le(bytes) < capacity(bytes.len()),
        le(from_le(bytes), bytes.len()) == bytes,
    decreases bytes.len(),
{
    if bytes.len() > 0 {
        let rest = bytes.drop_first();
        law_write_of_read(rest);
        let value = from_le(bytes);
        assert(value == bytes[0] as nat + 256 * from_le(rest));
        assert(value % 256 == bytes[0] as nat);
        assert(value / 256 == from_le(rest));
        assert(le(value, bytes.len()) =~= bytes);
    } else {
        assert(le(from_le(bytes), 0) =~= bytes);
    }
}

/// A shorter writing of a number is the start of a longer one.
pub proof fn lemma_le_prefix(value: nat, short: nat, long: nat)
    requires
        short <= long,
    ensures
        le(value, short) == le(value, long).take(short as int),
    decreases short,
{
    lemma_le_len(value, short);
    lemma_le_len(value, long);
    if short > 0 {
        lemma_le_prefix(value / 256, (short - 1) as nat, (long - 1) as nat);
        lemma_le_len(value / 256, (short - 1) as nat);
        lemma_le_len(value / 256, (long - 1) as nat);
        let tail = le(value / 256, (long - 1) as nat);
        assert(le(value, long).take(short as int) =~= seq![(value % 256) as u8] + tail.take(
            short - 1,
        ));
    } else {
        assert(le(value, short) =~= le(value, long).take(0));
    }
}

/// The bytes of a `zerocopy::little_endian::U64` made of `value`.
///
/// `zerocopy::IntoBytes::as_bytes` hands out the memory of the value, which
/// `zerocopy::byteorder::U64` keeps as the eight bytes of the number, least significant first.
#[verifier::external_body]
fn u64_as_bytes(value: u64) -> (bytes: Vec<u8>)
    ensures
        bytes@ == le(value as nat, 8),
{
    zerocopy::little_endian::U64::new(value).as_bytes().to_vec()
}

/// The number read from `bytes` as a `zerocopy::little_endian::U64`.
///
/// `zerocopy::FromBytes::read_from_bytes` accepts exactly the eight bytes of the type, and
/// `zerocopy::byteorder::U64` reads them least significant first.
#[verifier::external_body]
fn u64_read_from_bytes(bytes: &[u8]) -> (value: Option<u64>)
    ensures
        value is Some <==> bytes@.len() == 8,
        value matches Some(v) ==> v == from_le(bytes@),
{
    zerocopy::little_endian::U64::read_from_bytes(bytes).ok().map(|word| word.get())
}

/// Appends `value` in eight bytes.
pub fn put_u64(out: &mut Vec<u8>, value: u64)
    ensures
        final(out)@ == old(out)@ + le(value as nat, 8),
{
    let mut bytes = u64_as_bytes(value);
    out.append(&mut bytes);
}

/// Appends the `count` least significant bytes of `value`.
fn put_part(out: &mut Vec<u8>, value: u64, count: usize)
    requires
        count <= 8,
    ensures
        final(out)@ == old(out)@ + le(value as nat, count as nat),
{
    let mut bytes = u64_as_bytes(value);
    proof {
        lemma_le_len(value as nat, 8);
        lemma_le_prefix(value as nat, count as nat, 8);
    }
    bytes.truncate(count);
    assert(bytes@ =~= le(value as nat, 8).take(count as int));
    out.append(&mut bytes);
}

/// Appends `value` in four bytes.
pub fn put_u32(out: &mut Vec<u8>, value: u32)
    ensures
        final(out)@ == old(out)@ + le(value as nat, 4),
{
    put_part(out, value as u64, 4);
}

/// Appends `value` in two bytes.
pub fn put_u16(out: &mut Vec<u8>, value: u16)
    ensures
        final(out)@ == old(out)@ + le(value as nat, 2),
{
    put_part(out, value as u64, 2);
}

/// Appends one byte, 1 for true.
pub fn put_bool(out: &mut Vec<u8>, value: bool)
    ensures
        final(out)@ == old(out)@ + flag(value),
{
    out.push(if value { 1 } else { 0 });
    assert(out@ =~= old(out)@ + flag(value));
}

/// The byte of a truth value.
pub open spec fn flag(value: bool) -> Seq<u8> {
    seq![if value { 1u8 } else { 0u8 }]
}

/// The bytes of truth values, one after the other.
pub open spec fn flags(values: Seq<bool>) -> Seq<u8> {
    Seq::new(values.len(), |i: int| if values[i] { 1u8 } else { 0u8 })
}

/// Appends one byte for each value.
pub fn put_bools(out: &mut Vec<u8>, values: &[bool])
    ensures
        final(out)@ == old(out)@ + flags(values@),
{
    let mut i: usize = 0;
    while i < values.len()
        invariant
            i <= values@.len(),
            out@ == old(out)@ + flags(values@.take(i as int)),
        decreases values@.len() - i,
    {
        out.push(if values[i] { 1 } else { 0 });
        assert(out@ =~= old(out)@ + flags(values@.take(i + 1)));
        i = i + 1;
    }
    assert(values@.take(values@.len() as int) =~= values@);
}

/// The bytes of doubles, eight each, one after the other.
pub open spec fn doubles(values: Seq<Double>) -> Seq<u8>
    decreases values.len(),
{
    if values.len() == 0 {
        Seq::empty()
    } else {
        doubles(values.drop_last()) + le(values.last().bits as nat, 8)
    }
}

/// Doubles take eight bytes each.
pub proof fn lemma_doubles_len(values: Seq<Double>)
    ensures
        doubles(values).len() == 8 * values.len(),
    decreases values.len(),
{
    if values.len() > 0 {
        lemma_doubles_len(values.drop_last());
        lemma_le_len(values.last().bits as nat, 8);
    }
}

/// The eight bytes at place `i` are those of the double at place `i`.
pub proof fn law_double_at(values: Seq<Double>, i: int)
    requires
        0 <= i < values.len(),
    ensures
        doubles(values).len() == 8 * values.len(),
        doubles(values).subrange(8 * i, 8 * i + 8) == le(values[i].bits as nat, 8),
    decreases values.len(),
{
    lemma_doubles_len(values);
    lemma_doubles_len(values.drop_last());
    lemma_le_len(values.last().bits as nat, 8);
    if i < values.len() - 1 {
        law_double_at(values.drop_last(), i);
        assert(doubles(values).subrange(8 * i, 8 * i + 8) =~= doubles(
            values.drop_last(),
        ).subrange(8 * i, 8 * i + 8));
    } else {
        assert(doubles(values).subrange(8 * i, 8 * i + 8) =~= le(values[i].bits as nat, 8));
    }
}

/// Appends doubles, eight bytes each.
pub fn put_doubles(out: &mut Vec<u8>, values: &[Double])
    ensures
        final(out)@ == old(out)@ + doubles(values@),
{
    let mut i: usize = 0;
    assert(out@ =~= old(out)@ + doubles(values@.take(0)));
    while i < values.len()
        invariant
            i <= values@.len(),
            out@ == old(out)@ + doubles(values@.take(i as int)),
        decreases values@.len() - i,
    {
        put_u64(out, values[i].bits);
        assert(values@.take(i + 1).drop_last() =~= values@.take(i as int));
        assert(out@ =~= old(out)@ + doubles(values@.take(i + 1)));
        i = i + 1;
    }
    assert(values@.take(values@.len() as int) =~= values@);
}

/// The double in the eight bytes of `bytes` from `offset` on.
pub open spec fn double_at(bytes: Seq<u8>, offset: int) -> Double {
    Double { bits: from_le(bytes.subrange(offset, offset + 8)) as u64 }
}

/// Reads the double in the eight bytes from `offset` on.
pub fn read_double(bytes: &[u8], offset: usize) -> (d: Double)
    requires
        offset + 8 <= bytes@.len(),
    ensures
        d == double_at(bytes@, offset as int),
{
    let length: usize = bytes.len();
    assert(offset + 8 <= length);
    let part = vstd::slice::slice_subrange(bytes, offset, offset + 8);
    match u64_read_from_bytes(part) {
        Some(bits) => Double { bits },
        None => Double { bits: 0 },
    }
}

/// Reads the number in the two bytes from `offset` on.
pub fn read_u16(bytes: &[u8], offset: usize) -> (n: u16)
    requires
        offset + 2 <= bytes@.len(),
    ensures
        n == from_le(bytes@.subrange(offset as int, offset + 2)),
{
    let ghost part = bytes@.subrange(offset as int, offset + 2);
    proof {
        reveal_with_fuel(from_le, 3);
        assert(part.drop_first().drop_first() =~= Seq::empty());
    }
    bytes[offset] as u16 + 256 * (bytes[offset + 1] as u16)
}

/// Reads the number in the four bytes from `offset` on.
pub fn read_u32(bytes: &[u8], offset: usize) -> (n: u32)
    requires
        offset + 4 <= bytes@.len(),
    ensures
        n == from_le(bytes@.subrange(offset as int, offset + 4)),
{
    let ghost part = bytes@.subrange(offset as int, offset + 4);
    let length: usize = bytes.len();
    assert(offset + 4 <= length);
    let low: u16 = read_u16(bytes, offset);
    let high: u16 = read_u16(bytes, offset + 2);
    proof {
        reveal_with_fuel(from_le, 5);
        assert(part.drop_first().drop_first() =~= bytes@.subrange(offset + 2, offset + 4));
        assert(bytes@.subrange(offset as int, offset + 2).drop_first().drop_first()
            =~= Seq::empty());
    }
    low as u32 + 65536 * (high as u32)
}

/// Doubles are read back from where they were written, whatever stands around them.
pub proof fn law_doubles_read_back(before: Seq<u8>, values: Seq<Double>, after: Seq<u8>, i: int)
    requires
        0 <= i < values.len(),
    ensures
        double_at(before + doubles(values) + after, before.len() + 8 * i) == values[i],
{
    let whole = before + doubles(values) + after;
    let at = before.len() + 8 * i;
    law_double_at(values, i);
    assert(whole.subrange(at, at + 8) =~= doubles(values).subrange(8 * i, 8 * i + 8));
    assert(capacity(8) == 0x1_0000_0000_0000_0000) by {
        reveal_with_fuel(capacity, 9);
    }
    law_read_of_write(values[i].bits as nat, 8);
}

/// A double in the first of two parts is where it was.
pub proof fn lemma_double_at_start(a: Seq<u8>, b: Seq<u8>, at: int)
    requires
        0 <= at,
        at + 8 <= a.len(),
    ensures
        double_at(a + b, at) == double_at(a, at),
{
    assert((a + b).subrange(at, at + 8) =~= a.subrange(at, at + 8));
}

/// A double in the second of two parts is as far behind its start as it was.
pub proof fn lemma_double_at_end(a: Seq<u8>, b: Seq<u8>, at: int)
    requires
        0 <= at,
        at + 8 <= b.len(),
    ensures
        double_at(a + b, a.len() + at) == double_at(b, at),
{
    assert((a + b).subrange(a.len() + at, a.len() + at + 8) =~= b.subrange(at, at + 8));
}

/// Doubles alone are read back in order.
pub proof fn lemma_double_of(values: Seq<Double>, i: int)
    requires
        0 <= i < values.len(),
    ensures
        double_at(doubles(values), 8 * i) == values[i],
{
    let none = Seq::<u8>::empty();
    assert(none + doubles(values) + none =~= doubles(values));
    law_doubles_read_back(none, values, none, i);
}

/// A truth value takes one byte, which is 1 for true and 0 for false.
pub proof fn law_flags(value: bool, values: Seq<bool>, i: int)
    ensures
        flag(value).len() == 1,
        flag(value)[0] == if value {
            1u8
        } else {
            0u8
        },
        flags(values).len() == values.len(),
        0 <= i < values.len() ==> flags(values)[i] == flag(values[i])[0],
{
}

/// The first byte of a number is its remainder, the rest its quotient by 256.
pub proof fn law_least_significant_first(value: nat, count: nat)
    requires
        count > 0,
    ensures
        le(value, count)[0] == value % 256,
        le(value, count).drop_first() == le(value / 256, (count - 1) as nat),
{
    assert(le(value, count).drop_first() =~= le(value / 256, (count - 1) as nat));
}

} // verus!
