//! Compact owned byte sequence.
//!
//! An owned, heap-resident, fixed-length sequence of bytes. The length is set
//! at construction and never grows; reads, writes in place, cloning and
//! destruction are the whole surface. The view of a container is the sequence
//! of bytes it holds.

use core::cmp::Ordering;
use vstd::prelude::*;
use vstd::pervasive::VecAdditionalExecFns;
use vstd::slice::slice_to_vec;

verus! {

/// Lexicographic order of two byte sequences: the order of the first
/// differing byte, with a proper prefix ordered before the longer sequence.
pub open spec fn lex_cmp(a: Seq<u8>, b: Seq<u8>) -> Ordering
    decreases a.len(),
{
    if a.len() == 0 && b.len() == 0 {
        Ordering::Equal
    } else if a.len() == 0 {
        Ordering::Less
    } else if b.len() == 0 {
        Ordering::Greater
    } else if a[0] < b[0] {
        Ordering::Less
    } else if a[0] > b[0] {
        Ordering::Greater
    } else {
        lex_cmp(a.drop_first(), b.drop_first())
    }
}

/// Owned fixed-length byte sequence.
#[derive(Debug, Hash)]
pub struct HeapBytes {
    data: Vec<u8>,
}

impl View for HeapBytes {
    type V = Seq<u8>;

    closed spec fn view(&self) -> Seq<u8> {
        self.data@
    }
}

impl HeapBytes {
    /// The empty byte sequence; allocates nothing.
    pub fn empty() -> (r: Self)
        ensures
            r@ == Seq::<u8>::empty(),
    {
        let r = HeapBytes { data: Vec::new() };
        proof {
            assert(r@ =~= Seq::<u8>::empty());
        }
        r
    }

    /// Copies the given bytes into a fresh container. An empty input yields
    /// the same value as [`HeapBytes::empty`].
    pub fn from_slice(s: &[u8]) -> (r: Self)
        ensures
            r@ == s@,
            s@.len() == 0 ==> r@ == Seq::<u8>::empty(),
    {
        let r = HeapBytes { data: slice_to_vec(s) };
        proof {
            if s@.len() == 0 {
                assert(r@ =~= Seq::<u8>::empty());
            }
        }
        r
    }

    /// Number of bytes held.
    pub fn len(&self) -> (r: usize)
        ensures
            r == self@.len(),
    {
        self.data.len()
    }

    /// True exactly when no bytes are held.
    pub fn is_empty(&self) -> (r: bool)
        ensures
            r == (self@.len() == 0),
    {
        self.data.len() == 0
    }

    /// Borrowed view of the bytes.
    pub fn as_slice(&self) -> (r: &[u8])
        ensures
            r@ == self@,
    {
        self.data.as_slice()
    }

    /// The byte at index `i`.
    pub fn get(&self, i: usize) -> (r: u8)
        requires
            i < self@.len(),
        ensures
            r == self@[i as int],
    {
        self.data[i]
    }

    /// Overwrites the byte at index `i` in place; the length never changes.
    pub fn set(&mut self, i: usize, value: u8)
        requires
            i < old(self)@.len(),
        ensures
            final(self)@ == old(self)@.update(i as int, value),
    {
        self.data.set(i, value);
    }
}

impl Clone for HeapBytes {
    /// A clone is an independent container with the same bytes.
    fn clone(&self) -> (r: Self)
        ensures
            r@ == self@,
    {
        HeapBytes { data: self.data.clone() }
    }
}

impl Default for HeapBytes {
    fn default() -> (r: Self)
        ensures
            r@ == Seq::<u8>::empty(),
    {
        HeapBytes::empty()
    }
}

/// Structural equality of two byte slices.
pub fn bytes_eq(a: &[u8], b: &[u8]) -> (r: bool)
    ensures
        r == (a@ == b@),
{
    if a.len() != b.len() {
        proof {
            assert(a@ != b@);
        }
        return false;
    }
    let n = a.len();
    let mut i: usize = 0;
    while i < n
        invariant
            n == a@.len(),
            n == b@.len(),
            i <= n,
            forall|k: int| 0 <= k < i ==> a@[k] == b@[k],
        decreases n - i,
    {
        if a[i] != b[i] {
            proof {
                assert(a@ != b@);
            }
            return false;
        }
        i = i + 1;
    }
    proof {
        assert(a@ =~= b@);
    }
    true
}

/// Lexicographic comparison of two byte slices.
pub fn bytes_cmp(a: &[u8], b: &[u8]) -> (r: Ordering)
    ensures
        r == lex_cmp(a@, b@),
{
    let an = a.len();
    let bn = b.len();
    let n = if an <= bn {
        an
    } else {
        bn
    };
    let mut i: usize = 0;
    proof {
        assert(a@.skip(0) =~= a@);
        assert(b@.skip(0) =~= b@);
    }
    while i < n
        invariant
            an == a@.len(),
            bn == b@.len(),
            n == if an <= bn { an } else { bn },
            i <= n,
            lex_cmp(a@, b@) == lex_cmp(a@.skip(i as int), b@.skip(i as int)),
        decreases n - i,
    {
        let x = a[i];
        let y = b[i];
        if x < y {
            return Ordering::Less;
        }
        if x > y {
            return Ordering::Greater;
        }
        proof {
            assert(a@.skip(i as int).drop_first() =~= a@.skip(i + 1));
            assert(b@.skip(i as int).drop_first() =~= b@.skip(i + 1));
        }
        i = i + 1;
    }
    proof {
        assert(an <= bn ==> a@.skip(i as int) =~= Seq::<u8>::empty());
        assert(bn <= an ==> b@.skip(i as int) =~= Seq::<u8>::empty());
    }
    if an < bn {
        Ordering::Less
    } else if an > bn {
        Ordering::Greater
    } else {
        Ordering::Equal
    }
}

impl PartialEq for HeapBytes {
    /// Structural equality: equal exactly when the byte contents are equal.
    fn eq(&self, other: &Self) -> (r: bool) {
        bytes_eq(self.data.as_slice(), other.data.as_slice())
    }
}

impl Eq for HeapBytes {}

impl vstd::std_specs::cmp::PartialEqSpecImpl for HeapBytes {
    open spec fn obeys_eq_spec() -> bool {
        true
    }

    open spec fn eq_spec(&self, other: &Self) -> bool {
        self@ == other@
    }
}

impl PartialOrd for HeapBytes {
    /// Lexicographic order of the byte contents.
    fn partial_cmp(&self, other: &Self) -> (r: Option<Ordering>) {
        Some(bytes_cmp(self.data.as_slice(), other.data.as_slice()))
    }
}

impl vstd::std_specs::cmp::PartialOrdSpecImpl for HeapBytes {
    open spec fn obeys_partial_cmp_spec() -> bool {
        true
    }

    open spec fn partial_cmp_spec(&self, other: &Self) -> Option<Ordering> {
        Some(lex_cmp(self@, other@))
    }
}

/// Lexicographic comparison is an order on the contents: two byte sequences
/// compare equal exactly when they are the same sequence.
pub proof fn lemma_lex_cmp_equal_iff_eq(a: Seq<u8>, b: Seq<u8>)
    ensures
        lex_cmp(a, b) == Ordering::Equal <==> a == b,
    decreases a.len(),
{
    if a.len() == 0 && b.len() == 0 {
        assert(a =~= b);
    } else if a.len() == 0 || b.len() == 0 {
    } else if a[0] == b[0] {
        lemma_lex_cmp_equal_iff_eq(a.drop_first(), b.drop_first());
        if lex_cmp(a, b) == Ordering::Equal {
            assert(a =~= seq![a[0]] + a.drop_first());
            assert(b =~= seq![b[0]] + b.drop_first());
        } else if a == b {
            assert(a.drop_first() =~= b.drop_first());
        }
    } else {
        if a == b {
            assert(a[0] == b[0]);
        }
    }
}

} // verus!
