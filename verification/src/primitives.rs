//! Built-in certifications for the primitive plain-data types: `bool`,
//! `char`, and the fixed-width signed and unsigned integers.
//!
//! Integers are pinned to their little-endian two's-complement layout, a
//! `char` to the four little-endian bytes of its Unicode scalar value, and a
//! `bool` to the single byte `1` or `0`.

use crate::encoding::le_bytes;
use crate::encoding::le_encode;
use crate::encoding::lemma_le_bytes_injective;
use crate::encoding::lemma_le_bytes_len;
use crate::encoding::lemma_pow256_values;
use crate::encoding::twos_complement;
use crate::Unscrupulous;
use vstd::prelude::*;

verus! {

impl Unscrupulous for bool {
    open spec fn byte_size() -> nat {
        1
    }

    open spec fn byte_view(&self) -> Seq<u8> {
        seq![if *self { 1u8 } else { 0u8 }]
    }

    proof fn lemma_size_fidelity(v: Self) {
    }

    proof fn lemma_byte_fidelity(a: Self, b: Self) {
        assert(a.byte_view()[0] == (if a { 1u8 } else { 0u8 }));
        assert(b.byte_view()[0] == (if b { 1u8 } else { 0u8 }));
    }

    fn to_bytes(&self) -> (bytes: Vec<u8>) {
        let mut bytes: Vec<u8> = Vec::new();
        if *self {
            bytes.push(1u8);
        } else {
            bytes.push(0u8);
        }
        proof {
            assert(bytes@ =~= self.byte_view());
        }
        bytes
    }
}

impl Unscrupulous for char {
    open spec fn byte_size() -> nat {
        4
    }

    open spec fn byte_view(&self) -> Seq<u8> {
        le_bytes(*self as u32 as nat, 4)
    }

    proof fn lemma_size_fidelity(v: Self) {
        lemma_le_bytes_len(v as u32 as nat, 4);
    }

    proof fn lemma_byte_fidelity(a: Self, b: Self) {
        lemma_pow256_values();
        lemma_le_bytes_injective(a as u32 as nat, b as u32 as nat, 4);
        vstd::utf8::char_u32_cast(a, a as u32);
        vstd::utf8::char_u32_cast(b, b as u32);
    }

    fn to_bytes(&self) -> (bytes: Vec<u8>) {
        let scalar: u32 = *self as u32;
        le_encode(scalar as u128, 4)
    }
}

impl Unscrupulous for u8 {
    open spec fn byte_size() -> nat {
        1
    }

    open spec fn byte_view(&self) -> Seq<u8> {
        le_bytes(*self as nat, 1)
    }

    proof fn lemma_size_fidelity(v: Self) {
        lemma_le_bytes_len(v as nat, 1);
    }

    proof fn lemma_byte_fidelity(a: Self, b: Self) {
        lemma_pow256_values();
        lemma_le_bytes_injective(a as nat, b as nat, 1);
    }

    fn to_bytes(&self) -> (bytes: Vec<u8>) {
        le_encode(*self as u128, 1)
    }
}

impl Unscrupulous for u16 {
    open spec fn byte_size() -> nat {
        2
    }

    open spec fn byte_view(&self) -> Seq<u8> {
        le_bytes(*self as nat, 2)
    }

    proof fn lemma_size_fidelity(v: Self) {
        lemma_le_bytes_len(v as nat, 2);
    }

    proof fn lemma_byte_fidelity(a: Self, b: Self) {
        lemma_pow256_values();
        lemma_le_bytes_injective(a as nat, b as nat, 2);
    }

    fn to_bytes(&self) -> (bytes: Vec<u8>) {
        le_encode(*self as u128, 2)
    }
}

impl Unscrupulous for u32 {
    open spec fn byte_size() -> nat {
        4
    }

    open spec fn byte_view(&self) -> Seq<u8> {
        le_bytes(*self as nat, 4)
    }

    proof fn lemma_size_fidelity(v: Self) {
        lemma_le_bytes_len(v as nat, 4);
    }

    proof fn lemma_byte_fidelity(a: Self, b: Self) {
        lemma_pow256_values();
        lemma_le_bytes_injective(a as nat, b as nat, 4);
    }

    fn to_bytes(&self) -> (bytes: Vec<u8>) {
        le_encode(*self as u128, 4)
    }
}

impl Unscrupulous for u64 {
    open spec fn byte_size() -> nat {
        8
    }

    open spec fn byte_view(&self) -> Seq<u8> {
        le_bytes(*self as nat, 8)
    }

    proof fn lemma_size_fidelity(v: Self) {
        lemma_le_bytes_len(v as nat, 8);
    }

    proof fn lemma_byte_fidelity(a: Self, b: Self) {
        lemma_pow256_values();
        lemma_le_bytes_injective(a as nat, b as nat, 8);
    }

    fn to_bytes(&self) -> (bytes: Vec<u8>) {
        le_encode(*self as u128, 8)
    }
}

impl Unscrupulous for u128 {
    open spec fn byte_size() -> nat {
        16
    }

    open spec fn byte_view(&self) -> Seq<u8> {
        le_bytes(*self as nat, 16)
    }

    proof fn lemma_size_fidelity(v: Self) {
        lemma_le_bytes_len(v as nat, 16);
    }

    proof fn lemma_byte_fidelity(a: Self, b: Self) {
        lemma_pow256_values();
        lemma_le_bytes_injective(a as nat, b as nat, 16);
    }

    fn to_bytes(&self) -> (bytes: Vec<u8>) {
        le_encode(*self, 16)
    }
}

impl Unscrupulous for i8 {
    open spec fn byte_size() -> nat {
        1
    }

    open spec fn byte_view(&self) -> Seq<u8> {
        le_bytes(twos_complement(*self as int, 1), 1)
    }

    proof fn lemma_size_fidelity(v: Self) {
        lemma_le_bytes_len(twos_complement(v as int, 1), 1);
    }

    proof fn lemma_byte_fidelity(a: Self, b: Self) {
        lemma_pow256_values();
        lemma_le_bytes_injective(twos_complement(a as int, 1), twos_complement(b as int, 1), 1);
    }

    fn to_bytes(&self) -> (bytes: Vec<u8>) {
        proof {
            lemma_pow256_values();
        }
        let representative: u8 = if *self >= 0 {
            *self as u8
        } else {
            ((*self as i16) + 0x100) as u8
        };
        assert(representative as nat == twos_complement(*self as int, 1));
        le_encode(representative as u128, 1)
    }
}

impl Unscrupulous for i16 {
    open spec fn byte_size() -> nat {
        2
    }

    open spec fn byte_view(&self) -> Seq<u8> {
        le_bytes(twos_complement(*self as int, 2), 2)
    }

    proof fn lemma_size_fidelity(v: Self) {
        lemma_le_bytes_len(twos_complement(v as int, 2), 2);
    }

    proof fn lemma_byte_fidelity(a: Self, b: Self) {
        lemma_pow256_values();
        lemma_le_bytes_injective(twos_complement(a as int, 2), twos_complement(b as int, 2), 2);
    }

    fn to_bytes(&self) -> (bytes: Vec<u8>) {
        proof {
            lemma_pow256_values();
        }
        let representative: u16 = if *self >= 0 {
            *self as u16
        } else {
            ((*self as i32) + 0x1_0000) as u16
        };
        assert(representative as nat == twos_complement(*self as int, 2));
        le_encode(representative as u128, 2)
    }
}

impl Unscrupulous for i32 {
    open spec fn byte_size() -> nat {
        4
    }

    open spec fn byte_view(&self) -> Seq<u8> {
        le_bytes(twos_complement(*self as int, 4), 4)
    }

    proof fn lemma_size_fidelity(v: Self) {
        lemma_le_bytes_len(twos_complement(v as int, 4), 4);
    }

    proof fn lemma_byte_fidelity(a: Self, b: Self) {
        lemma_pow256_values();
        lemma_le_bytes_injective(twos_complement(a as int, 4), twos_complement(b as int, 4), 4);
    }

    fn to_bytes(&self) -> (bytes: Vec<u8>) {
        proof {
            lemma_pow256_values();
        }
        let representative: u32 = if *self >= 0 {
            *self as u32
        } else {
            ((*self as i64) + 0x1_0000_0000) as u32
        };
        assert(representative as nat == twos_complement(*self as int, 4));
        le_encode(representative as u128, 4)
    }
}

impl Unscrupulous for i64 {
    open spec fn byte_size() -> nat {
        8
    }

    open spec fn byte_view(&self) -> Seq<u8> {
        le_bytes(twos_complement(*self as int, 8), 8)
    }

    proof fn lemma_size_fidelity(v: Self) {
        lemma_le_bytes_len(twos_complement(v as int, 8), 8);
    }

    proof fn lemma_byte_fidelity(a: Self, b: Self) {
        lemma_pow256_values();
        lemma_le_bytes_injective(twos_complement(a as int, 8), twos_complement(b as int, 8), 8);
    }

    fn to_bytes(&self) -> (bytes: Vec<u8>) {
        proof {
            lemma_pow256_values();
        }
        let representative: u64 = if *self >= 0 {
            *self as u64
        } else {
            ((*self as i128) + 0x1_0000_0000_0000_0000) as u64
        };
        assert(representative as nat == twos_complement(*self as int, 8));
        le_encode(representative as u128, 8)
    }
}

impl Unscrupulous for i128 {
    open spec fn byte_size() -> nat {
        16
    }

    open spec fn byte_view(&self) -> Seq<u8> {
        le_bytes(twos_complement(*self as int, 16), 16)
    }

    proof fn lemma_size_fidelity(v: Self) {
        lemma_le_bytes_len(twos_complement(v as int, 16), 16);
    }

    proof fn lemma_byte_fidelity(a: Self, b: Self) {
        lemma_pow256_values();
        lemma_le_bytes_injective(twos_complement(a as int, 16), twos_complement(b as int, 16), 16);
    }

    fn to_bytes(&self) -> (bytes: Vec<u8>) {
        proof {
            lemma_pow256_values();
        }
        let representative: u128 = if *self >= 0 {
            *self as u128
        } else {
            let magnitude: u128 = if *self == i128::MIN {
                0x8000_0000_0000_0000_0000_0000_0000_0000u128
            } else {
                (-*self) as u128
            };
            u128::MAX - magnitude + 1
        };
        assert(representative as nat == twos_complement(*self as int, 16));
        le_encode(representative, 16)
    }
}

} // verus!
