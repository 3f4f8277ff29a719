//! The compound certification rule: a fixed-size array of certified elements
//! is itself certified, and its byte view is the concatenation of the
//! elements' byte views in array order.

use crate::Unscrupulous;
use vstd::prelude::*;

verus! {

/// The concatenation of the byte views of the elements of `s`, in order.
pub open spec fn concat_byte_views<T: Unscrupulous>(s: Seq<T>) -> Seq<u8>
    decreases s.len(),
{
    if s.len() == 0 {
        Seq::empty()
    } else {
        concat_byte_views(s.drop_last()) + s.last().byte_view()
    }
}

/// Concatenating `s.len()` views of `T::byte_size()` bytes each yields
/// `s.len() * T::byte_size()` bytes.
pub proof fn lemma_concat_byte_views_len<T: Unscrupulous>(s: Seq<T>)
    ensures
        concat_byte_views(s).len() == s.len() * T::byte_size(),
    decreases s.len(),
{
    if s.len() == 0 {
    } else {
        lemma_concat_byte_views_len::<T>(s.drop_last());
        T::lemma_size_fidelity(s.last());
        assert((s.len() - 1) * T::byte_size() + T::byte_size() == s.len() * T::byte_size())
            by (nonlinear_arith);
    }
}

/// The bytes of element `i` stand at offset `i * T::byte_size()` of the
/// concatenation: the pieces appear in array order, without gaps.
pub proof fn lemma_concat_byte_views_piece<T: Unscrupulous>(s: Seq<T>, i: int)
    requires
        0 <= i < s.len(),
    ensures
        concat_byte_views(s).subrange(i * T::byte_size() as int, (i + 1) * T::byte_size() as int)
            == s[i].byte_view(),
    decreases s.len(),
{
    let size = T::byte_size() as int;
    let front = concat_byte_views(s.drop_last());
    let rear = s.last().byte_view();
    lemma_concat_byte_views_len::<T>(s.drop_last());
    T::lemma_size_fidelity(s.last());
    assert(concat_byte_views(s) == front + rear);
    assert(0 <= i * size && i * size + size == (i + 1) * size) by (nonlinear_arith)
        requires
            0 <= i,
            0 <= size,
    ;
    if i == s.len() - 1 {
        assert(i * size == front.len());
        assert(concat_byte_views(s).subrange(i * size, (i + 1) * size) =~= s[i].byte_view()) by {
            assert forall|j: int| 0 <= j < size implies #[trigger] (front + rear)[i * size + j]
                == rear[j] by {}
        }
    } else {
        lemma_concat_byte_views_piece::<T>(s.drop_last(), i);
        assert(s.drop_last()[i] == s[i]);
        assert((i + 1) * size <= (s.len() - 1) * size) by (nonlinear_arith)
            requires
                i + 1 <= s.len() - 1,
                0 <= size,
        ;
        assert(concat_byte_views(s).subrange(i * size, (i + 1) * size) =~= front.subrange(
            i * size,
            (i + 1) * size,
        )) by {
            assert forall|j: int| 0 <= j < size implies #[trigger] (front + rear)[i * size + j]
                == front[i * size + j] by {}
        }
    }
}

/// The concatenation determines the elements: two element sequences of equal
/// length and equal concatenated views are equal.
pub proof fn lemma_concat_byte_views_injective<T: Unscrupulous>(x: Seq<T>, y: Seq<T>)
    requires
        x.len() == y.len(),
        concat_byte_views(x) == concat_byte_views(y),
    ensures
        x =~= y,
    decreases x.len(),
{
    if x.len() > 0 {
        let size = T::byte_size() as int;
        let x_front = concat_byte_views(x.drop_last());
        let y_front = concat_byte_views(y.drop_last());
        let x_rear = x.last().byte_view();
        let y_rear = y.last().byte_view();
        T::lemma_size_fidelity(x.last());
        T::lemma_size_fidelity(y.last());
        lemma_concat_byte_views_len::<T>(x.drop_last());
        lemma_concat_byte_views_len::<T>(y.drop_last());
        assert(concat_byte_views(x) == x_front + x_rear);
        assert(concat_byte_views(y) == y_front + y_rear);
        let prefix = x_front.len() as int;
        assert(y_front.len() == prefix);
        assert(x_rear =~= y_rear) by {
            assert forall|j: int| 0 <= j < size implies #[trigger] x_rear[j] == y_rear[j] by {
                assert((x_front + x_rear)[prefix + j] == x_rear[j]);
                assert((y_front + y_rear)[prefix + j] == y_rear[j]);
            }
        }
        T::lemma_byte_fidelity(x.last(), y.last());
        assert(x_front =~= y_front) by {
            assert forall|k: int| 0 <= k < prefix implies #[trigger] x_front[k] == y_front[k] by {
                assert((x_front + x_rear)[k] == x_front[k]);
                assert((y_front + y_rear)[k] == y_front[k]);
            }
        }
        lemma_concat_byte_views_injective::<T>(x.drop_last(), y.drop_last());
        assert forall|i: int| 0 <= i < x.len() implies x[i] == y[i] by {
            if i < x.len() - 1 {
                assert(x.drop_last()[i] == y.drop_last()[i]);
            }
        }
    }
}

impl<T: Unscrupulous, const N: usize> Unscrupulous for [T; N] {
    open spec fn byte_size() -> nat {
        (N * T::byte_size()) as nat
    }

    open spec fn byte_view(&self) -> Seq<u8> {
        concat_byte_views(self@)
    }

    proof fn lemma_size_fidelity(v: Self) {
        lemma_concat_byte_views_len::<T>(v@);
    }

    proof fn lemma_byte_fidelity(a: Self, b: Self) {
        lemma_concat_byte_views_injective::<T>(a@, b@);
        assert(a =~= b);
    }

    fn to_bytes(&self) -> (bytes: Vec<u8>) {
        let mut bytes: Vec<u8> = Vec::new();
        let mut i: usize = 0;
        while i < N
            invariant
                i <= N,
                bytes@ == concat_byte_views(self@.take(i as int)),
            decreases N - i,
        {
            let mut piece = self[i].to_bytes();
            bytes.append(&mut piece);
            proof {
                let upto = self@.take(i as int + 1);
                assert(upto.drop_last() =~= self@.take(i as int));
                assert(upto.last() == self@[i as int]);
                assert(bytes@ == concat_byte_views(upto));
            }
            i = i + 1;
        }
        proof {
            assert(self@.take(N as int) =~= self@);
        }
        bytes
    }
}

/// Array composition law: an array of `N` certified elements of size `s` has
/// a byte view of exactly `N * s` bytes, equal to the concatenation of the
/// elements' byte views in array order, element `i` standing at offset
/// `i * s`.
pub proof fn lemma_array_composition<T: Unscrupulous, const N: usize>(a: [T; N])
    ensures
        a.byte_view() == concat_byte_views(a@),
        a.byte_view().len() == N * T::byte_size(),
        forall|i: int|
            0 <= i < N ==> #[trigger] a.byte_view().subrange(
                i * T::byte_size() as int,
                (i + 1) * T::byte_size() as int,
            ) == a@[i].byte_view(),
{
    lemma_concat_byte_views_len::<T>(a@);
    assert forall|i: int| 0 <= i < N implies #[trigger] a.byte_view().subrange(
        i * T::byte_size() as int,
        (i + 1) * T::byte_size() as int,
    ) == a@[i].byte_view() by {
        lemma_concat_byte_views_piece::<T>(a@, i);
    }
}

} // verus!
