//! Little-endian integers and fixed-size arrays inside byte buffers.

use vstd::prelude::*;

verus! {

/// The number that up to eight bytes spell in little-endian order.
pub open spec fn le_value(bytes: Seq<u8>) -> nat
    decreases bytes.len(),
{
    if bytes.len() == 0 {
        0
    } else {
        bytes[0] as nat + 256 * le_value(bytes.drop_first())
    }
}

/// The `width` bytes that spell `value` in little-endian order.
pub open spec fn le_bytes(value: nat, width: nat) -> Seq<u8>
    decreases width,
{
    if width == 0 {
        Seq::empty()
    } else {
        seq![(value % 256) as u8] + le_bytes(value / 256, (width - 1) as nat)
    }
}

/// 256 to the power `width`.
pub open spec fn radix_pow(width: nat) -> nat
    decreases width,
{
    if width == 0 {
        1
    } else {
        256 * radix_pow((width - 1) as nat)
    }
}

/// `le_bytes` yields exactly `width` bytes.
pub proof fn lemma_le_bytes_len(value: nat, width: nat)
    ensures
        le_bytes(value, width).len() == width,
    decreases width,
{
    if width > 0 {
        lemma_le_bytes_len(value / 256, (width - 1) as nat);
    }
}

/// A value spelled by `n` bytes is below 256 to the power `n`.
pub proof fn lemma_le_value_bound(bytes: Seq<u8>)
    ensures
        le_value(bytes) < radix_pow(bytes.len()),
    decreases bytes.len(),
{
    if bytes.len() > 0 {
        lemma_le_value_bound(bytes.drop_first());
    }
}

/// Decoding what was encoded gives the value back, when it fits the width.
pub proof fn lemma_le_value_of_bytes(value: nat, width: nat)
    requires
        value < radix_pow(width),
    ensures
        le_value(le_bytes(value, width)) == value,
    decreases width,
{
    if width > 0 {
        let rest = le_bytes(value / 256, (width - 1) as nat);
        let all = le_bytes(value, width);
        assert(all.drop_first() =~= rest);
        lemma_le_value_of_bytes(value / 256, (width - 1) as nat);
    }
}

/// Encoding what was decoded gives the bytes back.
pub proof fn lemma_le_bytes_of_value(bytes: Seq<u8>)
    ensures
        le_bytes(le_value(bytes), bytes.len()) == bytes,
    decreases bytes.len(),
{
    if bytes.len() > 0 {
        let rest = bytes.drop_first();
        lemma_le_bytes_of_value(rest);
        let v = le_value(bytes);
        assert(v % 256 == bytes[0] as nat);
        assert(v / 256 == le_value(rest));
        assert(le_bytes(v, bytes.len()) =~= bytes);
    } else {
        assert(le_bytes(le_value(bytes), bytes.len()) =~= bytes);
    }
}

/// The values of the widths that the codecs below use.
pub proof fn lemma_radix_pow_values()
    ensures
        radix_pow(4) == 0x1_0000_0000,
        radix_pow(8) == 0x1_0000_0000_0000_0000,
{
    reveal_with_fuel(radix_pow, 9);
}

/// Reads the integer that `bytes` spells in little-endian order.
fn read_le(bytes: &[u8]) -> (value: u64)
    requires
        bytes@.len() <= 8,
    ensures
        value == le_value(bytes@),
{
    let mut value: u64 = 0;
    let mut i: usize = bytes.len();
    proof {
        assert(bytes@.subrange(i as int, bytes@.len() as int) =~= Seq::<u8>::empty());
        lemma_radix_pow_values();
    }
    while i > 0
        invariant
            i <= bytes@.len() <= 8,
            value == le_value(bytes@.subrange(i as int, bytes@.len() as int)),
        decreases i,
    {
        i -= 1;
        proof {
            let tail = bytes@.subrange(i as int, bytes@.len() as int);
            assert(tail.drop_first() =~= bytes@.subrange(i + 1, bytes@.len() as int));
            lemma_le_value_bound(tail.drop_first());
            lemma_le_value_bound(tail);
            lemma_radix_pow_monotonic(tail.len(), 8);
            lemma_radix_pow_monotonic(tail.drop_first().len(), 7);
            reveal_with_fuel(radix_pow, 9);
        }
        value = value * 256 + bytes[i] as u64;
    }
    proof {
        assert(bytes@.subrange(0, bytes@.len() as int) =~= bytes@);
    }
    value
}

/// `radix_pow` grows with the width.
pub proof fn lemma_radix_pow_monotonic(a: nat, b: nat)
    requires
        a <= b,
    ensures
        radix_pow(a) <= radix_pow(b),
    decreases b,
{
    if a < b {
        lemma_radix_pow_monotonic(a, (b - 1) as nat);
    }
}

/// Reads a little-endian `u64` from exactly eight bytes.
pub fn read_u64_le(bytes: &[u8]) -> (value: u64)
    requires
        bytes@.len() == 8,
    ensures
        value == le_value(bytes@),
{
    read_le(bytes)
}

/// Reads a little-endian `u32` from exactly four bytes.
pub fn read_u32_le(bytes: &[u8]) -> (value: u32)
    requires
        bytes@.len() == 4,
    ensures
        value == le_value(bytes@),
{
    proof {
        lemma_le_value_bound(bytes@);
        lemma_radix_pow_values();
    }
    read_le(bytes) as u32
}

/// Appends the `width` little-endian bytes of `value` to `out`.
fn push_le(out: &mut Vec<u8>, value: u64, width: usize)
    requires
        width <= 8,
    ensures
        final(out)@ == old(out)@ + le_bytes(value as nat, width as nat),
{
    let mut rest: u64 = value;
    let mut i: usize = 0;
    proof {
        assert(out@ =~= old(out)@ + le_bytes(value as nat, 0));
    }
    while i < width
        invariant
            i <= width <= 8,
            le_bytes(value as nat, width as nat) == le_bytes(value as nat, i as nat) + le_bytes(
                rest as nat,
                (width - i) as nat,
            ),
            out@ == old(out)@ + le_bytes(value as nat, i as nat),
        decreases width - i,
    {
        out.push((rest % 256) as u8);
        proof {
            lemma_le_bytes_snoc(value as nat, i as nat, rest as nat, (width - i) as nat);
        }
        rest = rest / 256;
        i += 1;
    }
    proof {
        assert(le_bytes(rest as nat, 0) =~= Seq::<u8>::empty());
        assert(le_bytes(value as nat, width as nat) =~= le_bytes(value as nat, i as nat));
    }
}

/// One more byte of `rest` extends a prefix of the encoding of `value`.
proof fn lemma_le_bytes_snoc(value: nat, done: nat, rest: nat, left: nat)
    requires
        left > 0,
        le_bytes(value, done + left) == le_bytes(value, done) + le_bytes(rest, left),
    ensures
        le_bytes(value, done + 1) == le_bytes(value, done).push((rest % 256) as u8),
        le_bytes(value, done + left) == le_bytes(value, done + 1) + le_bytes(
            rest / 256,
            (left - 1) as nat,
        ),
{
    lemma_le_bytes_prefix(value, done + 1, done + left);
    lemma_le_bytes_prefix(value, done, done + left);
    lemma_le_bytes_len(value, done);
    lemma_le_bytes_len(value, done + 1);
    lemma_le_bytes_len(value, done + left);
    lemma_le_bytes_len(rest, left);
    lemma_le_bytes_len(rest / 256, (left - 1) as nat);
    let whole = le_bytes(value, done + left);
    let tail = le_bytes(rest, left);
    assert(tail[0] == (rest % 256) as u8);
    assert(whole[done as int] == tail[0]);
    assert(le_bytes(value, done + 1) =~= le_bytes(value, done).push((rest % 256) as u8));
    assert(tail.drop_first() =~= le_bytes(rest / 256, (left - 1) as nat));
    assert(whole =~= le_bytes(value, done + 1) + le_bytes(rest / 256, (left - 1) as nat));
}

/// A shorter encoding is a prefix of a longer one of the same value.
pub proof fn lemma_le_bytes_prefix(value: nat, short: nat, long: nat)
    requires
        short <= long,
    ensures
        le_bytes(value, short) == le_bytes(value, long).subrange(0, short as int),
    decreases short,
{
    lemma_le_bytes_len(value, long);
    lemma_le_bytes_len(value, short);
    if short == 0 {
        assert(le_bytes(value, short) =~= le_bytes(value, long).subrange(0, 0));
    } else {
        lemma_le_bytes_prefix(value / 256, (short - 1) as nat, (long - 1) as nat);
        lemma_le_bytes_len(value / 256, (long - 1) as nat);
        lemma_le_bytes_len(value / 256, (short - 1) as nat);
        assert(le_bytes(value, short) =~= le_bytes(value, long).subrange(0, short as int));
    }
}

/// Copies exactly `N` bytes into an array.
///
/// Calls `bytemuck::pod_read_unaligned` at the type `[u8; N]`. It reads a value
/// of the target type out of a slice of exactly that type's size; for an array
/// of bytes that value is the slice's bytes in order. It panics on any other
/// length, which `requires` leaves out.
#[verifier::external_body]
pub(crate) fn read_array<const N: usize>(bytes: &[u8]) -> (out: [u8; N])
    requires
        bytes@.len() == N,
    ensures
        out@ == bytes@,
{
    bytemuck::pod_read_unaligned::<[u8; N]>(bytes)
}

/// Writes `image` over the first bytes of `data` and leaves the rest.
pub fn write_prefix(data: &mut [u8], image: &[u8])
    requires
        image@.len() <= old(data)@.len(),
    ensures
        final(data)@ == image@ + old(data)@.subrange(image@.len() as int, old(data)@.len() as int),
{
    let n = image.len();
    let mut i: usize = 0;
    while i < n
        invariant
            i <= n == image@.len(),
            data@.len() == old(data)@.len(),
            n <= data@.len(),
            forall|j: int| 0 <= j < i ==> data@[j] == image@[j],
            forall|j: int| i <= j < data@.len() ==> data@[j] == old(data)@[j],
        decreases n - i,
    {
        data[i] = image[i];
        i += 1;
    }
    assert(data@ =~= image@ + old(data)@.subrange(image@.len() as int, old(data)@.len() as int));
}

/// Appends the bytes of an array to `out`.
pub fn push_array<const N: usize>(out: &mut Vec<u8>, bytes: &[u8; N])
    ensures
        final(out)@ == old(out)@ + bytes@,
{
    let mut i: usize = 0;
    while i < N
        invariant
            i <= N,
            bytes@.len() == N,
            out@ == old(out)@ + bytes@.subrange(0, i as int),
        decreases N - i,
    {
        out.push(bytes[i]);
        i += 1;
        assert(out@ =~= old(out)@ + bytes@.subrange(0, i as int));
    }
    assert(bytes@.subrange(0, N as int) =~= bytes@);
}

/// Appends the eight little-endian bytes of `value` to `out`.
pub fn push_u64_le(out: &mut Vec<u8>, value: u64)
    ensures
        final(out)@ == old(out)@ + le_bytes(value as nat, 8),
{
    push_le(out, value, 8)
}

/// Appends the four little-endian bytes of `value` to `out`.
pub fn push_u32_le(out: &mut Vec<u8>, value: u32)
    ensures
        final(out)@ == old(out)@ + le_bytes(value as nat, 4),
{
    push_le(out, value as u64, 4)
}

} // verus!

