//! Built-in certifications for the non-zero-constrained integers: each
//! fixed-width integer type restricted to exclude the zero bit pattern.
//!
//! These types restrict which values exist, yet their bytes carry no
//! provenance, so they are certified like any plain integer.  Their byte
//! view is, by definition, the byte view of the underlying integer:
//! excluding zero does not alter the representation (see
//! [`lemma_nonzero_u8_transparent`] for the one-byte case).

use crate::Unscrupulous;
use vstd::prelude::*;

verus! {

/// A `u8` that is never zero.
pub struct NonZeroU8 {
    value: u8,
}

impl NonZeroU8 {
    #[verifier::type_invariant]
    spec fn non_zero(&self) -> bool {
        self.value != 0
    }

    /// The underlying integer value.
    pub closed spec fn get_spec(&self) -> u8 {
        self.value
    }

    /// Wrap a non-zero integer; zero is refused.
    pub fn new(value: u8) -> (result: Option<NonZeroU8>)
        ensures
            value != 0 ==> (result matches Some(n) && n.get_spec() == value),
            value == 0 ==> result is None,
    {
        if value == 0 {
            None
        } else {
            Some(NonZeroU8 { value })
        }
    }

    /// The underlying integer value, which is never zero.
    pub fn get(&self) -> (result: u8)
        ensures
            result == self.get_spec(),
            result != 0,
    {
        proof {
            use_type_invariant(self);
        }
        self.value
    }
}

impl Unscrupulous for NonZeroU8 {
    open spec fn byte_size() -> nat {
        <u8 as Unscrupulous>::byte_size()
    }

    open spec fn byte_view(&self) -> Seq<u8> {
        self.get_spec().byte_view()
    }

    proof fn lemma_size_fidelity(v: Self) {
        <u8 as Unscrupulous>::lemma_size_fidelity(v.get_spec());
    }

    proof fn lemma_byte_fidelity(a: Self, b: Self) {
        <u8 as Unscrupulous>::lemma_byte_fidelity(a.get_spec(), b.get_spec());
    }

    fn to_bytes(&self) -> (bytes: Vec<u8>) {
        let underlying: u8 = self.value;
        underlying.to_bytes()
    }
}

/// An `i8` that is never zero.
pub struct NonZeroI8 {
    value: i8,
}

impl NonZeroI8 {
    #[verifier::type_invariant]
    spec fn non_zero(&self) -> bool {
        self.value != 0
    }

    /// The underlying integer value.
    pub closed spec fn get_spec(&self) -> i8 {
        self.value
    }

    /// Wrap a non-zero integer; zero is refused.
    pub fn new(value: i8) -> (result: Option<NonZeroI8>)
        ensures
            value != 0 ==> (result matches Some(n) && n.get_spec() == value),
            value == 0 ==> result is None,
    {
        if value == 0 {
            None
        } else {
            Some(NonZeroI8 { value })
        }
    }

    /// The underlying integer value, which is never zero.
    pub fn get(&self) -> (result: i8)
        ensures
            result == self.get_spec(),
            result != 0,
    {
        proof {
            use_type_invariant(self);
        }
        self.value
    }
}

impl Unscrupulous for NonZeroI8 {
    open spec fn byte_size() -> nat {
        <i8 as Unscrupulous>::byte_size()
    }

    open spec fn byte_view(&self) -> Seq<u8> {
        self.get_spec().byte_view()
    }

    proof fn lemma_size_fidelity(v: Self) {
        <i8 as Unscrupulous>::lemma_size_fidelity(v.get_spec());
    }

    proof fn lemma_byte_fidelity(a: Self, b: Self) {
        <i8 as Unscrupulous>::lemma_byte_fidelity(a.get_spec(), b.get_spec());
    }

    fn to_bytes(&self) -> (bytes: Vec<u8>) {
        let underlying: i8 = self.value;
        underlying.to_bytes()
    }
}

/// A `u16` that is never zero.
pub struct NonZeroU16 {
    value: u16,
}

impl NonZeroU16 {
    #[verifier::type_invariant]
    spec fn non_zero(&self) -> bool {
        self.value != 0
    }

    /// The underlying integer value.
    pub closed spec fn get_spec(&self) -> u16 {
        self.value
    }

    /// Wrap a non-zero integer; zero is refused.
    pub fn new(value: u16) -> (result: Option<NonZeroU16>)
        ensures
            value != 0 ==> (result matches Some(n) && n.get_spec() == value),
            value == 0 ==> result is None,
    {
        if value == 0 {
            None
        } else {
            Some(NonZeroU16 { value })
        }
    }

    /// The underlying integer value, which is never zero.
    pub fn get(&self) -> (result: u16)
        ensures
            result == self.get_spec(),
            result != 0,
    {
        proof {
            use_type_invariant(self);
        }
        self.value
    }
}

impl Unscrupulous for NonZeroU16 {
    open spec fn byte_size() -> nat {
        <u16 as Unscrupulous>::byte_size()
    }

    open spec fn byte_view(&self) -> Seq<u8> {
        self.get_spec().byte_view()
    }

    proof fn lemma_size_fidelity(v: Self) {
        <u16 as Unscrupulous>::lemma_size_fidelity(v.get_spec());
    }

    proof fn lemma_byte_fidelity(a: Self, b: Self) {
        <u16 as Unscrupulous>::lemma_byte_fidelity(a.get_spec(), b.get_spec());
    }

    fn to_bytes(&self) -> (bytes: Vec<u8>) {
        let underlying: u16 = self.value;
        underlying.to_bytes()
    }
}

/// An `i16` that is never zero.
pub struct NonZeroI16 {
    value: i16,
}

impl NonZeroI16 {
    #[verifier::type_invariant]
    spec fn non_zero(&self) -> bool {
        self.value != 0
    }

    /// The underlying integer value.
    pub closed spec fn get_spec(&self) -> i16 {
        self.value
    }

    /// Wrap a non-zero integer; zero is refused.
    pub fn new(value: i16) -> (result: Option<NonZeroI16>)
        ensures
            value != 0 ==> (result matches Some(n) && n.get_spec() == value),
            value == 0 ==> result is None,
    {
        if value == 0 {
            None
        } else {
            Some(NonZeroI16 { value })
        }
    }

    /// The underlying integer value, which is never zero.
    pub fn get(&self) -> (result: i16)
        ensures
            result == self.get_spec(),
            result != 0,
    {
        proof {
            use_type_invariant(self);
        }
        self.value
    }
}

impl Unscrupulous for NonZeroI16 {
    open spec fn byte_size() -> nat {
        <i16 as Unscrupulous>::byte_size()
    }

    open spec fn byte_view(&self) -> Seq<u8> {
        self.get_spec().byte_view()
    }

    proof fn lemma_size_fidelity(v: Self) {
        <i16 as Unscrupulous>::lemma_size_fidelity(v.get_spec());
    }

    proof fn lemma_byte_fidelity(a: Self, b: Self) {
        <i16 as Unscrupulous>::lemma_byte_fidelity(a.get_spec(), b.get_spec());
    }

    fn to_bytes(&self) -> (bytes: Vec<u8>) {
        let underlying: i16 = self.value;
        underlying.to_bytes()
    }
}

/// A `u32` that is never zero.
pub struct NonZeroU32 {
    value: u32,
}

impl NonZeroU32 {
    #[verifier::type_invariant]
    spec fn non_zero(&self) -> bool {
        self.value != 0
    }

    /// The underlying integer value.
    pub closed spec fn get_spec(&self) -> u32 {
        self.value
    }

    /// Wrap a non-zero integer; zero is refused.
    pub fn new(value: u32) -> (result: Option<NonZeroU32>)
        ensures
            value != 0 ==> (result matches Some(n) && n.get_spec() == value),
            value == 0 ==> result is None,
    {
        if value == 0 {
            None
        } else {
            Some(NonZeroU32 { value })
        }
    }

    /// The underlying integer value, which is never zero.
    pub fn get(&self) -> (result: u32)
        ensures
            result == self.get_spec(),
            result != 0,
    {
        proof {
            use_type_invariant(self);
        }
        self.value
    }
}

impl Unscrupulous for NonZeroU32 {
    open spec fn byte_size() -> nat {
        <u32 as Unscrupulous>::byte_size()
    }

    open spec fn byte_view(&self) -> Seq<u8> {
        self.get_spec().byte_view()
    }

    proof fn lemma_size_fidelity(v: Self) {
        <u32 as Unscrupulous>::lemma_size_fidelity(v.get_spec());
    }

    proof fn lemma_byte_fidelity(a: Self, b: Self) {
        <u32 as Unscrupulous>::lemma_byte_fidelity(a.get_spec(), b.get_spec());
    }

    fn to_bytes(&self) -> (bytes: Vec<u8>) {
        let underlying: u32 = self.value;
        underlying.to_bytes()
    }
}

/// An `i32` that is never zero.
pub struct NonZeroI32 {
    value: i32,
}

impl NonZeroI32 {
    #[verifier::type_invariant]
    spec fn non_zero(&self) -> bool {
        self.value != 0
    }

    /// The underlying integer value.
    pub closed spec fn get_spec(&self) -> i32 {
        self.value
    }

    /// Wrap a non-zero integer; zero is refused.
    pub fn new(value: i32) -> (result: Option<NonZeroI32>)
        ensures
            value != 0 ==> (result matches Some(n) && n.get_spec() == value),
            value == 0 ==> result is None,
    {
        if value == 0 {
            None
        } else {
            Some(NonZeroI32 { value })
        }
    }

    /// The underlying integer value, which is never zero.
    pub fn get(&self) -> (result: i32)
        ensures
            result == self.get_spec(),
            result != 0,
    {
        proof {
            use_type_invariant(self);
        }
        self.value
    }
}

impl Unscrupulous for NonZeroI32 {
    open spec fn byte_size() -> nat {
        <i32 as Unscrupulous>::byte_size()
    }

    open spec fn byte_view(&self) -> Seq<u8> {
        self.get_spec().byte_view()
    }

    proof fn lemma_size_fidelity(v: Self) {
        <i32 as Unscrupulous>::lemma_size_fidelity(v.get_spec());
    }

    proof fn lemma_byte_fidelity(a: Self, b: Self) {
        <i32 as Unscrupulous>::lemma_byte_fidelity(a.get_spec(), b.get_spec());
    }

    fn to_bytes(&self) -> (bytes: Vec<u8>) {
        let underlying: i32 = self.value;
        underlying.to_bytes()
    }
}

/// A `u64` that is never zero.
pub struct NonZeroU64 {
    value: u64,
}

impl NonZeroU64 {
    #[verifier::type_invariant]
    spec fn non_zero(&self) -> bool {
        self.value != 0
    }

    /// The underlying integer value.
    pub closed spec fn get_spec(&self) -> u64 {
        self.value
    }

    /// Wrap a non-zero integer; zero is refused.
    pub fn new(value: u64) -> (result: Option<NonZeroU64>)
        ensures
            value != 0 ==> (result matches Some(n) && n.get_spec() == value),
            value == 0 ==> result is None,
    {
        if value == 0 {
            None
        } else {
            Some(NonZeroU64 { value })
        }
    }

    /// The underlying integer value, which is never zero.
    pub fn get(&self) -> (result: u64)
        ensures
            result == self.get_spec(),
            result != 0,
    {
        proof {
            use_type_invariant(self);
        }
        self.value
    }
}

impl Unscrupulous for NonZeroU64 {
    open spec fn byte_size() -> nat {
        <u64 as Unscrupulous>::byte_size()
    }

    open spec fn byte_view(&self) -> Seq<u8> {
        self.get_spec().byte_view()
    }

    proof fn lemma_size_fidelity(v: Self) {
        <u64 as Unscrupulous>::lemma_size_fidelity(v.get_spec());
    }

    proof fn lemma_byte_fidelity(a: Self, b: Self) {
        <u64 as Unscrupulous>::lemma_byte_fidelity(a.get_spec(), b.get_spec());
    }

    fn to_bytes(&self) -> (bytes: Vec<u8>) {
        let underlying: u64 = self.value;
        underlying.to_bytes()
    }
}

/// An `i64` that is never zero.
pub struct NonZeroI64 {
    value: i64,
}

impl NonZeroI64 {
    #[verifier::type_invariant]
    spec fn non_zero(&self) -> bool {
        self.value != 0
    }

    /// The underlying integer value.
    pub closed spec fn get_spec(&self) -> i64 {
        self.value
    }

    /// Wrap a non-zero integer; zero is refused.
    pub fn new(value: i64) -> (result: Option<NonZeroI64>)
        ensures
            value != 0 ==> (result matches Some(n) && n.get_spec() == value),
            value == 0 ==> result is None,
    {
        if value == 0 {
            None
        } else {
            Some(NonZeroI64 { value })
        }
    }

    /// The underlying integer value, which is never zero.
    pub fn get(&self) -> (result: i64)
        ensures
            result == self.get_spec(),
            result != 0,
    {
        proof {
            use_type_invariant(self);
        }
        self.value
    }
}

impl Unscrupulous for NonZeroI64 {
    open spec fn byte_size() -> nat {
        <i64 as Unscrupulous>::byte_size()
    }

    open spec fn byte_view(&self) -> Seq<u8> {
        self.get_spec().byte_view()
    }

    proof fn lemma_size_fidelity(v: Self) {
        <i64 as Unscrupulous>::lemma_size_fidelity(v.get_spec());
    }

    proof fn lemma_byte_fidelity(a: Self, b: Self) {
        <i64 as Unscrupulous>::lemma_byte_fidelity(a.get_spec(), b.get_spec());
    }

    fn to_bytes(&self) -> (bytes: Vec<u8>) {
        let underlying: i64 = self.value;
        underlying.to_bytes()
    }
}

/// A `u128` that is never zero.
pub struct NonZeroU128 {
    value: u128,
}

impl NonZeroU128 {
    #[verifier::type_invariant]
    spec fn non_zero(&self) -> bool {
        self.value != 0
    }

    /// The underlying integer value.
    pub closed spec fn get_spec(&self) -> u128 {
        self.value
    }

    /// Wrap a non-zero integer; zero is refused.
    pub fn new(value: u128) -> (result: Option<NonZeroU128>)
        ensures
            value != 0 ==> (result matches Some(n) && n.get_spec() == value),
            value == 0 ==> result is None,
    {
        if value == 0 {
            None
        } else {
            Some(NonZeroU128 { value })
        }
    }

    /// The underlying integer value, which is never zero.
    pub fn get(&self) -> (result: u128)
        ensures
            result == self.get_spec(),
            result != 0,
    {
        proof {
            use_type_invariant(self);
        }
        self.value
    }
}

impl Unscrupulous for NonZeroU128 {
    open spec fn byte_size() -> nat {
        <u128 as Unscrupulous>::byte_size()
    }

    open spec fn byte_view(&self) -> Seq<u8> {
        self.get_spec().byte_view()
    }

    proof fn lemma_size_fidelity(v: Self) {
        <u128 as Unscrupulous>::lemma_size_fidelity(v.get_spec());
    }

    proof fn lemma_byte_fidelity(a: Self, b: Self) {
        <u128 as Unscrupulous>::lemma_byte_fidelity(a.get_spec(), b.get_spec());
    }

    fn to_bytes(&self) -> (bytes: Vec<u8>) {
        let underlying: u128 = self.value;
        underlying.to_bytes()
    }
}

/// An `i128` that is never zero.
pub struct NonZeroI128 {
    value: i128,
}

impl NonZeroI128 {
    #[verifier::type_invariant]
    spec fn non_zero(&self) -> bool {
        self.value != 0
    }

    /// The underlying integer value.
    pub closed spec fn get_spec(&self) -> i128 {
        self.value
    }

    /// Wrap a non-zero integer; zero is refused.
    pub fn new(value: i128) -> (result: Option<NonZeroI128>)
        ensures
            value != 0 ==> (result matches Some(n) && n.get_spec() == value),
            value == 0 ==> result is None,
    {
        if value == 0 {
            None
        } else {
            Some(NonZeroI128 { value })
        }
    }

    /// The underlying integer value, which is never zero.
    pub fn get(&self) -> (result: i128)
        ensures
            result == self.get_spec(),
            result != 0,
    {
        proof {
            use_type_invariant(self);
        }
        self.value
    }
}

impl Unscrupulous for NonZeroI128 {
    open spec fn byte_size() -> nat {
        <i128 as Unscrupulous>::byte_size()
    }

    open spec fn byte_view(&self) -> Seq<u8> {
        self.get_spec().byte_view()
    }

    proof fn lemma_size_fidelity(v: Self) {
        <i128 as Unscrupulous>::lemma_size_fidelity(v.get_spec());
    }

    proof fn lemma_byte_fidelity(a: Self, b: Self) {
        <i128 as Unscrupulous>::lemma_byte_fidelity(a.get_spec(), b.get_spec());
    }

    fn to_bytes(&self) -> (bytes: Vec<u8>) {
        let underlying: i128 = self.value;
        underlying.to_bytes()
    }
}


/// Excluding zero does not alter the representation: a non-zero-constrained
/// integer has exactly the byte view of its underlying integer value.
pub proof fn lemma_nonzero_u8_transparent(v: NonZeroU8)
    ensures
        v.byte_view() == v.get_spec().byte_view(),
{
}

} // verus!
