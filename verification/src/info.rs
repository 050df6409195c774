use crate::cursor::min_int;
use vstd::prelude::*;
use vstd::slice::slice_subrange;

verus! {

/// Number of bytes of a selection that are read as a number. Bytes after
/// these are left out.
pub const VALUE_BYTES: usize = 16;

/// 256 to the power of `exponent`.
pub open spec fn pow256(exponent: nat) -> nat
    decreases exponent,
{
    if exponent == 0 {
        1
    } else {
        256 * pow256((exponent - 1) as nat)
    }
}

/// The number that `bytes` spell, least significant byte first.
pub open spec fn le_value(bytes: Seq<u8>) -> nat
    decreases bytes.len(),
{
    if bytes.len() == 0 {
        0
    } else {
        bytes[0] as nat + 256 * le_value(bytes.skip(1))
    }
}

/// The bytes of a selection that are read as a number: the first
/// `VALUE_BYTES`, or all where there are fewer.
pub open spec fn value_bytes(bytes: Seq<u8>) -> Seq<u8> {
    bytes.take(min_int(bytes.len() as int, VALUE_BYTES as int))
}

/// The selection read as an unsigned little-endian number.
pub open spec fn unsigned_value_of(bytes: Seq<u8>) -> nat {
    le_value(value_bytes(bytes))
}

/// The selection read as a little-endian number in two's complement, as
/// wide as the bytes that are read: negative where the top bit of the last
/// of them is set.
pub open spec fn signed_value_of(bytes: Seq<u8>) -> int {
    let read = value_bytes(bytes);
    if read.len() > 0 && read.last() >= 0x80 {
        le_value(read) - pow256(read.len())
    } else {
        le_value(read) as int
    }
}

/// Powers of 256 grow with the exponent, and the sixteenth is 2 to the 128.
pub proof fn lemma_pow256(low: nat, high: nat)
    requires
        low <= high,
    ensures
        0 < pow256(low) <= pow256(high),
        pow256(15) == 0x100_0000_0000_0000_0000_0000_0000_0000,
        pow256(16) == 0x1_0000_0000_0000_0000_0000_0000_0000_0000,
    decreases high,
{
    reveal_with_fuel(pow256, 17);
    if low < high {
        lemma_pow256(low, (high - 1) as nat);
    } else if low > 0 {
        lemma_pow256((low - 1) as nat, (high - 1) as nat);
    }
}

/// A number of `n` bytes lies below 256 to the `n`, and its last byte
/// decides in which 256th of that range.
pub proof fn lemma_le_value_range(bytes: Seq<u8>)
    ensures
        le_value(bytes) < pow256(bytes.len()),
        bytes.len() > 0 ==> bytes.last() * pow256((bytes.len() - 1) as nat) <= le_value(bytes) < (
        bytes.last() + 1) * pow256((bytes.len() - 1) as nat),
    decreases bytes.len(),
{
    if bytes.len() > 0 {
        let rest = bytes.skip(1);
        lemma_le_value_range(rest);
        lemma_pow256(0, rest.len());
        let p = pow256(rest.len());
        let v = le_value(rest);
        assert(bytes[0] + 256 * v < 256 * p) by (nonlinear_arith)
            requires
                v < p,
                bytes[0] < 256,
        ;
        if rest.len() > 0 {
            let q = pow256((rest.len() - 1) as nat);
            let top = bytes.last() as int;
            assert(rest.last() == bytes.last());
            assert(p == 256 * q);
            assert(top * p <= bytes[0] + 256 * v < (top + 1) * p) by (nonlinear_arith)
                requires
                    top * q <= v < (top + 1) * q,
                    p == 256 * q,
                    0 <= bytes[0] < 256,
            ;
        } else {
            assert(v == 0);
        }
    }
}

/// Read as `n` bytes, the signed value is the unsigned one or lies 256 to
/// the `n` below it, and falls in the range of a two's complement number of
/// `n` bytes.
pub proof fn lemma_signed_value_range(bytes: Seq<u8>)
    requires
        bytes.len() > 0,
    ensures
        signed_value_of(bytes) == unsigned_value_of(bytes) || signed_value_of(bytes)
            == unsigned_value_of(bytes) - pow256(value_bytes(bytes).len()),
        -128 * pow256((value_bytes(bytes).len() - 1) as nat) <= signed_value_of(bytes) < 128
            * pow256((value_bytes(bytes).len() - 1) as nat),
        unsigned_value_of(bytes) <= u128::MAX,
        i128::MIN <= signed_value_of(bytes) <= i128::MAX,
{
    let read = value_bytes(bytes);
    let q = pow256((read.len() - 1) as nat);
    let v = le_value(read) as int;
    let top = read.last() as int;
    lemma_le_value_range(read);
    lemma_pow256((read.len() - 1) as nat, 15);
    lemma_pow256(read.len(), 16);
    assert(pow256(read.len()) == 256 * q);
    assert(top >= 128 ==> -128 * q <= v - 256 * q < 128 * q) by (nonlinear_arith)
        requires
            top * q <= v < (top + 1) * q,
            top <= 255,
            q > 0,
    ;
    assert(top < 128 ==> -128 * q <= v < 128 * q) by (nonlinear_arith)
        requires
            top * q <= v < (top + 1) * q,
            0 <= top,
            q > 0,
    ;
    assert(128 * q <= 128 * pow256(15)) by (nonlinear_arith)
        requires
            q <= pow256(15),
    ;
}

/// The number that the first `count` bytes of `data` spell.
fn read_le(data: &[u8], count: usize) -> (value: u128)
    requires
        count <= data@.len(),
        count <= VALUE_BYTES,
    ensures
        value == le_value(data@.take(count as int)),
{
    let ghost read = data@.take(count as int);
    let mut value: u128 = 0;
    let mut index = count;
    while index > 0
        invariant
            index <= count <= data@.len(),
            count <= VALUE_BYTES,
            read == data@.take(count as int),
            value == le_value(read.subrange(index as int, count as int)),
        decreases index,
    {
        index -= 1;
        proof {
            let tail = read.subrange(index as int, count as int);
            assert(tail.skip(1) =~= read.subrange(index + 1, count as int));
            assert(tail[0] == data@[index as int]);
            lemma_le_value_range(tail.skip(1));
            lemma_pow256((count - index - 1) as nat, 15);
        }
        value = value * 256 + data[index] as u128;
    }
    assert(read.subrange(0, count as int) =~= read);
    value
}

/// Number of bytes of `data` that are read as a number.
fn read_len(data: &[u8]) -> (count: usize)
    ensures
        count == min_int(data@.len() as int, VALUE_BYTES as int),
        data@.take(count as int) == value_bytes(data@),
{
    if data.len() < VALUE_BYTES {
        data.len()
    } else {
        VALUE_BYTES
    }
}

/// The selected bytes read as an unsigned little-endian number.
pub fn unsigned_value(data: &[u8]) -> (value: u128)
    ensures
        value == unsigned_value_of(data@),
{
    let count = read_len(data);
    read_le(data, count)
}

/// The selected bytes read as a little-endian number in two's complement.
/// There has to be a byte to take the sign from.
pub fn signed_value(data: &[u8]) -> (value: i128)
    requires
        data@.len() > 0,
    ensures
        value == signed_value_of(data@),
{
    let count = read_len(data);
    let magnitude = read_le(data, count);
    let ghost read = value_bytes(data@);
    proof {
        lemma_le_value_range(read);
        lemma_pow256((count - 1) as nat, 15);
        assert(read.last() == data@[count - 1]);
    }
    if data[count - 1] < 0x80 {
        proof {
            let q = pow256((count - 1) as nat);
            assert(magnitude < 0x80 * q <= 0x80 * pow256(15)) by (nonlinear_arith)
                requires
                    magnitude < (read.last() + 1) * q,
                    read.last() + 1 <= 0x80,
                    0 < q <= pow256(15),
            ;
        }
        magnitude as i128
    } else if count == VALUE_BYTES {
        proof {
            assert(magnitude >= 0x80 * pow256(15)) by (nonlinear_arith)
                requires
                    read.last() * pow256(15) <= magnitude,
                    read.last() >= 0x80,
            ;
        }
        let half: u128 = 0x8000_0000_0000_0000_0000_0000_0000_0000;
        (magnitude - half) as i128 + i128::MIN
    } else {
        let mut modulus: u128 = 1;
        let mut index: usize = 0;
        while index < count
            invariant
                index <= count < VALUE_BYTES,
                modulus == pow256(index as nat),
            decreases count - index,
        {
            proof {
                lemma_pow256(index as nat, 14);
                lemma_pow256(14, 15);
            }
            modulus = modulus * 256;
            index += 1;
        }
        proof {
            lemma_pow256(count as nat, 15);
        }
        magnitude as i128 - modulus as i128
    }
}

} // verus!
