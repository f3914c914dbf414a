//! Little-endian integer encoding inside byte buffers.
use vstd::prelude::*;

verus! {

/// The four bytes of `value`, least significant first.
pub open spec fn u32_le(value: u32) -> Seq<u8> {
    seq![
        (value % 0x100) as u8,
        (value / 0x100 % 0x100) as u8,
        (value / 0x1_0000 % 0x100) as u8,
        (value / 0x100_0000) as u8,
    ]
}

/// The number that `bytes` encode, read least significant byte first.
pub open spec fn le_value(bytes: Seq<u8>) -> nat
    decreases bytes.len(),
{
    if bytes.len() == 0 {
        0
    } else {
        bytes[0] as nat + 256 * le_value(bytes.drop_first())
    }
}

/// `256` raised to `n`.
pub open spec fn pow256(n: nat) -> nat
    decreases n,
{
    if n == 0 {
        1
    } else {
        256 * pow256((n - 1) as nat)
    }
}

/// `bytes` with the range starting at `offset` replaced by `part`.
pub open spec fn splice(bytes: Seq<u8>, offset: int, part: Seq<u8>) -> Seq<u8> {
    bytes.take(offset) + part + bytes.skip(offset + part.len())
}

/// Reading back the four bytes written for a value gives the value.
pub proof fn lemma_u32_le_round_trip(value: u32)
    ensures
        le_value(u32_le(value)) == value,
        u32_le(value).len() == 4,
{
    let s = u32_le(value);
    let s1 = s.drop_first();
    let s2 = s1.drop_first();
    let s3 = s2.drop_first();
    let s4 = s3.drop_first();
    assert(s4.len() == 0);
    assert(s3[0] == s[3] && s2[0] == s[2] && s1[0] == s[1]);
    assert(le_value(s4) == 0);
    assert(le_value(s3) == s[3] as nat);
    assert(le_value(s2) == s[2] + 256 * (s[3] as nat));
    assert(le_value(s1) == s[1] + 256 * (s[2] + 256 * (s[3] as nat)));
    assert(le_value(s) == s[0] + 256 * (s[1] + 256 * (s[2] + 256 * (s[3] as nat))));
}

/// What is read at an offset after a value was written there is that
/// value; the bytes around are kept.
pub proof fn lemma_write_then_read(bytes: Seq<u8>, offset: int, value: u32)
    requires
        0 <= offset,
        offset + 4 <= bytes.len(),
    ensures
        le_value(splice(bytes, offset, u32_le(value)).subrange(offset, offset + 4)) == value,
        splice(bytes, offset, u32_le(value)).len() == bytes.len(),
        forall|i: int|
            0 <= i < bytes.len() && !(offset <= i < offset + 4) ==> splice(bytes, offset, u32_le(value))[i]
                == bytes[i],
{
    lemma_u32_le_round_trip(value);
    assert(splice(bytes, offset, u32_le(value)).subrange(offset, offset + 4) =~= u32_le(value));
}

/// Writes `value` in little-endian order at `offset`.
pub fn write_u32(target: &mut [u8], offset: usize, value: u32)
    requires
        offset + 4 <= old(target)@.len(),
    ensures
        final(target)@ == splice(old(target)@, offset as int, u32_le(value)),
{
    let _length = target.len();
    target[offset] = (value % 0x100) as u8;
    target[offset + 1] = (value / 0x100 % 0x100) as u8;
    target[offset + 2] = (value / 0x1_0000 % 0x100) as u8;
    target[offset + 3] = (value / 0x100_0000) as u8;
    assert(target@ =~= splice(old(target)@, offset as int, u32_le(value)));
}

/// Reads the `u32` stored little-endian at `offset`.
pub fn read_u32(source: &[u8], offset: usize) -> (value: u32)
    requires
        offset + 4 <= source@.len(),
    ensures
        value == le_value(source@.subrange(offset as int, offset + 4)),
{
    proof {
        reveal_with_fuel(pow256, 5);
    }
    read_le(source, offset, 4) as u32
}

/// Reads the `u64` stored little-endian at `offset`.
pub fn read_u64(source: &[u8], offset: usize) -> (value: u64)
    requires
        offset + 8 <= source@.len(),
    ensures
        value == le_value(source@.subrange(offset as int, offset + 8)),
{
    read_le(source, offset, 8)
}

fn read_le(source: &[u8], offset: usize, width: usize) -> (value: u64)
    requires
        1 <= width <= 8,
        offset + width <= source@.len(),
    ensures
        value == le_value(source@.subrange(offset as int, offset + width)),
        value < pow256(width as nat),
{
    let _length = source.len();
    let mut value: u64 = 0;
    let mut k: usize = width;
    proof {
        assert(source@.subrange(offset + width, offset + width).len() == 0);
    }
    while k > 0
        invariant
            0 <= k <= width <= 8,
            offset + width <= source@.len(),
            source@.len() <= usize::MAX,
            value == le_value(source@.subrange(offset + k, offset + width)),
            value < pow256((width - k) as nat),
        decreases k,
    {
        let ghost rest = source@.subrange(offset + k, offset + width);
        k = k - 1;
        let ghost cur = source@.subrange(offset + k, offset + width);
        proof {
            assert(cur.drop_first() =~= rest);
            assert(pow256((width - k) as nat) == 256 * pow256((width - k - 1) as nat));
            lemma_pow256_small((width - k) as nat);
        }
        let byte = source[offset + k];
        assert(value * 256 + byte < pow256((width - k) as nat)) by (nonlinear_arith)
            requires
                value < pow256((width - k - 1) as nat),
                pow256((width - k) as nat) == 256 * pow256((width - k - 1) as nat),
                byte < 256,
        ;
        value = value * 256 + byte as u64;
    }
    value
}

proof fn lemma_pow256_small(n: nat)
    requires
        n <= 8,
    ensures
        pow256(n) <= 0x1_0000_0000_0000_0000,
    decreases n,
{
    reveal_with_fuel(pow256, 9);
}

} // verus!
