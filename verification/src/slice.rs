//! Compact owned sequence of arbitrary elements.
//!
//! An owned, heap-resident, fixed-length ordered sequence of `T`. The length
//! is fixed at construction; elements can be read and overwritten in place,
//! the whole container can be cloned, and every element is finalized when the
//! owner is dropped. The view of a container is the sequence of its elements.

use core::cmp::Ordering;
use vstd::prelude::*;
use vstd::pervasive::cloned;
use vstd::pervasive::VecAdditionalExecFns;
use vstd::slice::slice_index_get;
use vstd::std_specs::cmp::{PartialEqSpec, PartialOrdSpec};

verus! {

/// Lexicographic comparison of two element sequences, in the element type's
/// own sense of comparison: the outcome of the first pair that does not
/// compare equal (incomparable elements make the sequences incomparable),
/// with a proper prefix ordered before the longer sequence.
pub open spec fn lex_cmp_elems<T: PartialOrd>(a: Seq<T>, b: Seq<T>) -> Option<Ordering>
    decreases a.len(),
{
    if a.len() == 0 && b.len() == 0 {
        Some(Ordering::Equal)
    } else if a.len() == 0 {
        Some(Ordering::Less)
    } else if b.len() == 0 {
        Some(Ordering::Greater)
    } else if T::partial_cmp_spec(&a[0], &b[0]) == Some(Ordering::Equal) {
        lex_cmp_elems(a.drop_first(), b.drop_first())
    } else {
        T::partial_cmp_spec(&a[0], &b[0])
    }
}

/// Owned fixed-length sequence of `T`.
#[derive(Debug, Hash)]
pub struct HeapSlice<T> {
    data: Vec<T>,
}

impl<T> View for HeapSlice<T> {
    type V = Seq<T>;

    closed spec fn view(&self) -> Seq<T> {
        self.data@
    }
}

impl<T> HeapSlice<T> {
    /// The empty sequence; allocates nothing.
    pub fn empty() -> (r: Self)
        ensures
            r@ == Seq::<T>::empty(),
    {
        let r = HeapSlice { data: Vec::new() };
        proof {
            assert(r@ =~= Seq::<T>::empty());
        }
        r
    }

    /// Takes ownership of the given elements, moving them into the container
    /// without cloning. An empty input yields the same value as
    /// [`HeapSlice::empty`].
    pub fn from_vec(v: Vec<T>) -> (r: Self)
        ensures
            r@ == v@,
            v@.len() == 0 ==> r@ == Seq::<T>::empty(),
    {
        let r = HeapSlice { data: v };
        proof {
            if r@.len() == 0 {
                assert(r@ =~= Seq::<T>::empty());
            }
        }
        r
    }

    /// Consumes the container and hands the elements back out, in order.
    pub fn into_vec(self) -> (r: Vec<T>)
        ensures
            r@ == self@,
    {
        self.data
    }

    /// Number of elements held.
    pub fn len(&self) -> (r: usize)
        ensures
            r == self@.len(),
    {
        self.data.len()
    }

    /// True exactly when no elements are held.
    pub fn is_empty(&self) -> (r: bool)
        ensures
            r == (self@.len() == 0),
    {
        self.data.len() == 0
    }

    /// Borrowed view of the elements.
    pub fn as_slice(&self) -> (r: &[T])
        ensures
            r@ == self@,
    {
        self.data.as_slice()
    }

    /// Borrow of the element at index `i`.
    pub fn get(&self, i: usize) -> (r: &T)
        requires
            i < self@.len(),
        ensures
            *r == self@[i as int],
    {
        slice_index_get(self.data.as_slice(), i)
    }

    /// Overwrites the element at index `i` in place; the length never
    /// changes. The previous element is finalized.
    pub fn set(&mut self, i: usize, value: T)
        requires
            i < old(self)@.len(),
        ensures
            final(self)@ == old(self)@.update(i as int, value),
    {
        self.data.set(i, value);
    }
}

impl<T: Copy> HeapSlice<T> {
    /// Copies the given elements, in order, into a fresh container. An empty
    /// input yields the same value as [`HeapSlice::empty`].
    pub fn from_slice(s: &[T]) -> (r: Self)
        ensures
            r@ == s@,
            s@.len() == 0 ==> r@ == Seq::<T>::empty(),
    {
        let n = s.len();
        let mut data: Vec<T> = Vec::new();
        let mut i: usize = 0;
        while i < n
            invariant
                n == s@.len(),
                i <= n,
                data@ =~= s@.subrange(0, i as int),
            decreases n - i,
        {
            let v = *slice_index_get(s, i);
            data.push(v);
            proof {
                assert(data@ =~= s@.subrange(0, i + 1));
            }
            i = i + 1;
        }
        proof {
            assert(data@ =~= s@);
            if s@.len() == 0 {
                assert(data@ =~= Seq::<T>::empty());
            }
        }
        HeapSlice { data }
    }
}

impl<T: Clone> HeapSlice<T> {
    /// Clones each of the given elements, in index order, into a fresh
    /// container. Each held element is a possible result of `T::clone` on the
    /// source element at the same index; for types whose `clone` returns its
    /// input exactly, the view equals the input.
    pub fn from_slice_cloned(s: &[T]) -> (r: Self)
        ensures
            r@.len() == s@.len(),
            forall|k: int| 0 <= k < s@.len() ==> cloned::<T>(s@[k], #[trigger] r@[k]),
            s@.len() == 0 ==> r@ == Seq::<T>::empty(),
    {
        let n = s.len();
        let mut data: Vec<T> = Vec::new();
        let mut i: usize = 0;
        while i < n
            invariant
                n == s@.len(),
                i <= n,
                data@.len() == i,
                forall|k: int| 0 <= k < i ==> cloned::<T>(s@[k], #[trigger] data@[k]),
            decreases n - i,
        {
            let v = slice_index_get(s, i).clone();
            data.push(v);
            i = i + 1;
        }
        proof {
            if s@.len() == 0 {
                assert(data@ =~= Seq::<T>::empty());
            }
        }
        HeapSlice { data }
    }
}

impl<T: Clone> Clone for HeapSlice<T> {
    /// A clone is an independent container of the same length whose elements
    /// are, index by index, possible results of `T::clone` on the originals.
    fn clone(&self) -> (r: Self)
        ensures
            r@.len() == self@.len(),
            forall|k: int| 0 <= k < self@.len() ==> cloned::<T>(self@[k], #[trigger] r@[k]),
    {
        HeapSlice { data: self.data.clone() }
    }
}

impl<T: PartialEq> PartialEq for HeapSlice<T> {
    /// Structural equality: equal exactly when the lengths agree and the
    /// elements are equal index by index, in the element type's own sense of
    /// equality.
    fn eq(&self, other: &Self) -> (r: bool) {
        let n = self.data.len();
        if n != other.data.len() {
            return false;
        }
        let mut i: usize = 0;
        while i < n
            invariant
                n == self@.len(),
                n == other@.len(),
                i <= n,
                T::obeys_eq_spec() ==> forall|k: int|
                    0 <= k < i ==> T::eq_spec(
                        &self@[k],
                        #[trigger] &other@[k],
                    ),
            decreases n - i,
        {
            let a = slice_index_get(self.data.as_slice(), i);
            let b = slice_index_get(other.data.as_slice(), i);
            if !(a == b) {
                return false;
            }
            i = i + 1;
        }
        true
    }
}

impl<T: Eq> Eq for HeapSlice<T> {}

impl<T: PartialEq> vstd::std_specs::cmp::PartialEqSpecImpl for HeapSlice<T> {
    open spec fn obeys_eq_spec() -> bool {
        T::obeys_eq_spec()
    }

    open spec fn eq_spec(&self, other: &Self) -> bool {
        self@.len() == other@.len() && forall|k: int|
            0 <= k < self@.len() ==> T::eq_spec(
                &self@[k],
                #[trigger] &other@[k],
            )
    }
}

impl<T: PartialOrd> PartialOrd for HeapSlice<T> {
    /// Lexicographic order of the elements, in the element type's own sense
    /// of comparison.
    fn partial_cmp(&self, other: &Self) -> (r: Option<Ordering>) {
        let an = self.data.len();
        let bn = other.data.len();
        let n = if an <= bn {
            an
        } else {
            bn
        };
        let mut i: usize = 0;
        proof {
            assert(self@.skip(0) =~= self@);
            assert(other@.skip(0) =~= other@);
        }
        while i < n
            invariant
                an == self@.len(),
                bn == other@.len(),
                n == if an <= bn { an } else { bn },
                i <= n,
                T::obeys_partial_cmp_spec() ==> lex_cmp_elems(self@, other@) == lex_cmp_elems(
                    self@.skip(i as int),
                    other@.skip(i as int),
                ),
            decreases n - i,
        {
            let a = slice_index_get(self.data.as_slice(), i);
            let b = slice_index_get(other.data.as_slice(), i);
            let c = a.partial_cmp(b);
            match c {
                Some(Ordering::Equal) => {
                    proof {
                        assert(self@.skip(i as int).drop_first() =~= self@.skip(i + 1));
                        assert(other@.skip(i as int).drop_first() =~= other@.skip(i + 1));
                    }
                    i = i + 1;
                },
                _ => {
                    return c;
                },
            }
        }
        proof {
            assert(an <= bn ==> self@.skip(i as int) =~= Seq::<T>::empty());
            assert(bn <= an ==> other@.skip(i as int) =~= Seq::<T>::empty());
        }
        if an < bn {
            Some(Ordering::Less)
        } else if an > bn {
            Some(Ordering::Greater)
        } else {
            Some(Ordering::Equal)
        }
    }
}

impl<T: PartialOrd> vstd::std_specs::cmp::PartialOrdSpecImpl for HeapSlice<T> {
    open spec fn obeys_partial_cmp_spec() -> bool {
        T::obeys_partial_cmp_spec()
    }

    open spec fn partial_cmp_spec(&self, other: &Self) -> Option<Ordering> {
        lex_cmp_elems(self@, other@)
    }
}

impl<T> Default for HeapSlice<T> {
    fn default() -> (r: Self)
        ensures
            r@ == Seq::<T>::empty(),
    {
        HeapSlice::empty()
    }
}

} // verus!
