//! Certification of plain-data types together with a byte view of their
//! values.
//!
//! A type that carries the [`Unscrupulous`] capability promises that each of
//! its values is nothing more than a fixed number of plain bytes: no
//! references, no pointers, no owned resources, and no address or lifetime
//! hidden in its bit pattern.  Certification is a property of the type alone;
//! it carries no runtime state and imposes no runtime cost.
//!
//! Certified values can be viewed as bytes through [`as_slice_of_bytes`].
//! The layout of that view is pinned by the trait itself: every implementation
//! states, as a specification, exactly which byte sequence each value denotes
//! (little-endian for the built-in integer certifications), and the executable
//! view is proved to produce exactly that sequence.  Pinning the layout in the
//! contract is what makes the view meaningful outside the producing process:
//! two values have the same view exactly when they are equal.
//!
//! The built-in certifications cover `bool`, `char`, the fixed-width signed
//! and unsigned integers, non-zero-constrained integers (in [`nonzero`]), and
//! fixed-size arrays of certified elements (in [`arrays`]).  Every certified
//! type here has a positive byte size; zero-sized types other than `[T; 0]`
//! are not certified.
//!
//! Certifying a new type is an assertion by its author: the implementation of
//! [`Unscrupulous`] must itself prove that the declared byte view has the
//! declared size and determines the value, but nothing can check that the
//! declared view matches what the author wanted the bytes to mean.  Types
//! holding any form of indirection must never be certified, because their
//! bytes encode an address that is meaningless anywhere else.

use vstd::prelude::*;

pub mod arrays;
pub mod encoding;
pub mod nonzero;
pub mod primitives;

verus! {

/// The capability of being plain data: a certified type ties each of its
/// values to a pinned byte representation.
///
/// The two specification items fix the representation: [`byte_size`] gives
/// the size of the type in bytes and [`byte_view`] gives the bytes of a
/// value.  The two proof obligations are the laws every certification must
/// meet: the view of every value has exactly `byte_size()` bytes, and the
/// view determines the value.  [`to_bytes`] is the executable side, proved to
/// return exactly the declared view.
///
/// The capability is deliberately independent of [`Copy`]: a certified type
/// may or may not be bitwise-copyable in the language's sense, and it remains
/// usable behind dynamically-dispatched handles.
///
/// [`byte_size`]: Unscrupulous::byte_size
/// [`byte_view`]: Unscrupulous::byte_view
/// [`to_bytes`]: Unscrupulous::to_bytes
pub trait Unscrupulous: Sized {
    /// The fixed byte size of the type.
    spec fn byte_size() -> nat;

    /// The pinned byte representation of a value.
    spec fn byte_view(&self) -> Seq<u8>;

    /// Size fidelity: the byte view of every value has exactly
    /// `Self::byte_size()` bytes.
    proof fn lemma_size_fidelity(v: Self)
        ensures
            v.byte_view().len() == Self::byte_size(),
    ;

    /// Byte fidelity: the byte view determines the value, so reconstructing
    /// a value from the view of `v` can only ever yield `v` itself.
    proof fn lemma_byte_fidelity(a: Self, b: Self)
        requires
            a.byte_view() == b.byte_view(),
        ensures
            a == b,
    ;

    /// Produce the byte view of `self`, as a fresh vector.
    fn to_bytes(&self) -> (bytes: Vec<u8>)
        ensures
            bytes@ == self.byte_view(),
    ;
}

/// View a certified value as its bytes.
///
/// The result is exactly the pinned byte representation of `*x`, and its
/// length is exactly the byte size of `T`.  The value is only borrowed: the
/// operation cannot change it, and calling it twice on the same value returns
/// equal byte sequences (see [`lemma_byte_view_deterministic`]).
pub fn as_slice_of_bytes<T: Unscrupulous>(x: &T) -> (bytes: Vec<u8>)
    ensures
        bytes@ == x.byte_view(),
        bytes@.len() == T::byte_size(),
{
    proof {
        T::lemma_size_fidelity(*x);
    }
    x.to_bytes()
}

/// Purity of the byte view: any two byte sequences obtained by viewing the
/// same unchanged value are equal, no matter when or by which caller they
/// were obtained.
pub proof fn lemma_byte_view_deterministic<T: Unscrupulous>(v: T, first: Seq<u8>, second: Seq<u8>)
    requires
        first == v.byte_view(),
        second == v.byte_view(),
    ensures
        first == second,
{
}

} // verus!
