//! The pinned number layout shared by the built-in certifications: unsigned
//! values are laid out as little-endian bytes, and signed values go through
//! their two's-complement representative first.
//!
//! [`le_bytes`] is the specification of the layout, [`le_encode`] the
//! verified encoder, and the lemmas state the two facts every certification
//! needs: the encoding of a `width`-byte value has exactly `width` bytes, and
//! it is injective on values below `pow256(width)`.

use vstd::arithmetic::div_mod::lemma_fundamental_div_mod;
use vstd::arithmetic::div_mod::lemma_multiply_divide_lt;
use vstd::prelude::*;

verus! {

/// 256 raised to `width`: the number of distinct `width`-byte sequences.
pub open spec fn pow256(width: nat) -> nat
    decreases width,
{
    if width == 0 {
        1
    } else {
        256 * pow256((width - 1) as nat)
    }
}

/// The value of `pow256` at each width used by a built-in certification.
pub proof fn lemma_pow256_values()
    ensures
        pow256(1) == 0x100,
        pow256(2) == 0x1_0000,
        pow256(4) == 0x1_0000_0000,
        pow256(8) == 0x1_0000_0000_0000_0000,
        pow256(16) == 0x1_0000_0000_0000_0000_0000_0000_0000_0000,
{
    assert(pow256(0) == 1);
    assert(pow256(1) == 0x100);
    assert(pow256(2) == 0x1_0000);
    assert(pow256(3) == 0x100_0000);
    assert(pow256(4) == 0x1_0000_0000);
    assert(pow256(5) == 0x100_0000_0000);
    assert(pow256(6) == 0x1_0000_0000_0000);
    assert(pow256(7) == 0x100_0000_0000_0000);
    assert(pow256(8) == 0x1_0000_0000_0000_0000);
    assert(pow256(9) == 0x100_0000_0000_0000_0000);
    assert(pow256(10) == 0x1_0000_0000_0000_0000_0000);
    assert(pow256(11) == 0x100_0000_0000_0000_0000_0000);
    assert(pow256(12) == 0x1_0000_0000_0000_0000_0000_0000);
    assert(pow256(13) == 0x100_0000_0000_0000_0000_0000_0000);
    assert(pow256(14) == 0x1_0000_0000_0000_0000_0000_0000_0000);
    assert(pow256(15) == 0x100_0000_0000_0000_0000_0000_0000_0000);
    assert(pow256(16) == 0x1_0000_0000_0000_0000_0000_0000_0000_0000);
}

/// The `width` low-order bytes of `value`, least significant byte first.
pub open spec fn le_bytes(value: nat, width: nat) -> Seq<u8>
    decreases width,
{
    if width == 0 {
        Seq::empty()
    } else {
        seq![(value % 256) as u8] + le_bytes(value / 256, (width - 1) as nat)
    }
}

/// The encoding of any value at width `width` has exactly `width` bytes.
pub proof fn lemma_le_bytes_len(value: nat, width: nat)
    ensures
        le_bytes(value, width).len() == width,
    decreases width,
{
    if width > 0 {
        lemma_le_bytes_len(value / 256, (width - 1) as nat);
    }
}

/// On values below `pow256(width)` the encoding at width `width` is
/// injective: equal byte sequences come only from equal values.
pub proof fn lemma_le_bytes_injective(a: nat, b: nat, width: nat)
    requires
        a < pow256(width),
        b < pow256(width),
        le_bytes(a, width) == le_bytes(b, width),
    ensures
        a == b,
    decreases width,
{
    if width > 0 {
        let rest = (width - 1) as nat;
        lemma_le_bytes_len(a / 256, rest);
        lemma_le_bytes_len(b / 256, rest);
        assert(le_bytes(a, width) == seq![(a % 256) as u8] + le_bytes(a / 256, rest));
        assert(le_bytes(b, width) == seq![(b % 256) as u8] + le_bytes(b / 256, rest));
        assert(le_bytes(a, width)[0] == (a % 256) as u8);
        assert(le_bytes(b, width)[0] == (b % 256) as u8);
        assert(a % 256 == b % 256);
        assert(le_bytes(a / 256, rest) =~= le_bytes(b / 256, rest)) by {
            assert forall|i: int| 0 <= i < rest implies #[trigger] le_bytes(a / 256, rest)[i]
                == le_bytes(b / 256, rest)[i] by {
                assert(le_bytes(a, width)[i + 1] == le_bytes(a / 256, rest)[i]);
                assert(le_bytes(b, width)[i + 1] == le_bytes(b / 256, rest)[i]);
            }
        }
        assert(a / 256 < pow256(rest)) by {
            lemma_multiply_divide_lt(a as int, 256, pow256(rest) as int);
        }
        assert(b / 256 < pow256(rest)) by {
            lemma_multiply_divide_lt(b as int, 256, pow256(rest) as int);
        }
        lemma_le_bytes_injective(a / 256, b / 256, rest);
        lemma_fundamental_div_mod(a as int, 256);
        lemma_fundamental_div_mod(b as int, 256);
    }
}

/// The two's-complement representative of a signed value at the given width:
/// the unique congruent value in `[0, pow256(width))` when the input is in
/// the signed range of that width.
pub open spec fn twos_complement(value: int, width: nat) -> nat {
    if value >= 0 {
        value as nat
    } else {
        (value + pow256(width)) as nat
    }
}

/// Encode the `width` low-order bytes of `value`, least significant first.
pub fn le_encode(value: u128, width: usize) -> (bytes: Vec<u8>)
    ensures
        bytes@ == le_bytes(value as nat, width as nat),
{
    let mut bytes: Vec<u8> = Vec::new();
    let mut current: u128 = value;
    let mut i: usize = 0;
    while i < width
        invariant
            i <= width,
            bytes@.len() == i,
            bytes@ + le_bytes(current as nat, (width - i) as nat) == le_bytes(
                value as nat,
                width as nat,
            ),
        decreases width - i,
    {
        proof {
            assert(le_bytes(current as nat, (width - i) as nat) == seq![
                ((current as nat) % 256) as u8,
            ] + le_bytes((current as nat) / 256, (width - i - 1) as nat));
        }
        let byte: u8 = (current % 256) as u8;
        bytes.push(byte);
        current = current / 256;
        i = i + 1;
        proof {
            assert(bytes@ + le_bytes(current as nat, (width - i) as nat) =~= le_bytes(
                value as nat,
                width as nat,
            ));
        }
    }
    proof {
        assert(bytes@ =~= bytes@ + le_bytes(current as nat, 0));
    }
    bytes
}

} // verus!
