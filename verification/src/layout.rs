//! Layout arithmetic for the single-allocation representation.
//!
//! A non-empty container of `T` is meant to live in one heap block shaped
//! `[length word][padding][element 0]...[element n-1]`. The header region
//! holding the length word is as wide as the larger of the word alignment and
//! the element alignment, so that a block allocated at header alignment keeps
//! the length word and every element properly aligned. The functions here
//! compute that layout, and the lemmas prove the alignment and containment
//! facts the representation depends on.

use vstd::prelude::*;
use vstd::arithmetic::div_mod::{lemma_add_mod_noop, lemma_mod_multiples_basic};
use vstd::arithmetic::mul::{lemma_mul_inequality, lemma_mul_is_distributive_add_other_way};
use vstd::arithmetic::power::pow;
use vstd::arithmetic::power2::{is_pow2, is_pow2_equiv};
use vstd::layout::{
    align_of, align_properties, align_nonzero, layout_for_type_is_valid, size_of, valid_layout,
};

verus! {

/// Width in bytes of the header region that holds the length word:
/// the larger of the word alignment and the element alignment.
pub open spec fn spec_header_size<T>() -> nat {
    if align_of::<T>() >= align_of::<usize>() {
        align_of::<T>()
    } else {
        align_of::<usize>()
    }
}

/// Size in bytes of the whole block for `len` elements of `T`.
pub open spec fn spec_total_size<T>(len: nat) -> nat {
    spec_header_size::<T>() + len * size_of::<T>()
}

/// Offset in bytes of element `i` from the start of the block.
pub open spec fn spec_elem_offset<T>(i: nat) -> nat {
    spec_header_size::<T>() + i * size_of::<T>()
}

/// Header width for elements of type `T`.
pub fn header_size<T>() -> (r: usize)
    ensures
        r == spec_header_size::<T>(),
{
    layout_for_type_is_valid::<T>();
    layout_for_type_is_valid::<usize>();
    let word_align: usize = core::mem::align_of::<usize>();
    let elem_align: usize = core::mem::align_of::<T>();
    if elem_align >= word_align {
        elem_align
    } else {
        word_align
    }
}

/// Block size for `len` elements of `T`, or `None` when it does not fit in
/// a `usize`.
pub fn total_size<T>(len: usize) -> (r: Option<usize>)
    ensures
        r matches Some(n) ==> n == spec_total_size::<T>(len as nat),
        r is Some <==> spec_total_size::<T>(len as nat) <= usize::MAX,
{
    layout_for_type_is_valid::<T>();
    let h = header_size::<T>();
    let elem_size: usize = core::mem::size_of::<T>();
    match len.checked_mul(elem_size) {
        Some(payload) => h.checked_add(payload),
        None => None,
    }
}

/// Block size and alignment for `len` elements of `T`, when a block of that
/// size can exist: the size must stay within the allocator's limit for the
/// alignment. A pair handed out is a valid allocation request, so requesting
/// it can never fail on the size or the alignment.
pub fn block_layout<T>(len: usize) -> (r: Option<(usize, usize)>)
    ensures
        r matches Some(p) ==> p.0 == spec_total_size::<T>(len as nat)
            && p.1 == spec_header_size::<T>() && valid_layout(p.0, p.1),
        r is Some <==> spec_total_size::<T>(len as nat) <= isize::MAX as int - (
        isize::MAX as int % spec_header_size::<T>() as int),
{
    proof {
        broadcast use align_properties, align_nonzero;

        lemma_header_aligned::<T>();
    }
    let align = header_size::<T>();
    match total_size::<T>(len) {
        Some(size) => {
            proof {
                vstd::arithmetic::div_mod::lemma_mod_decreases(isize::MAX as nat, align as nat);
            }
            let limit = (isize::MAX as usize) - ((isize::MAX as usize) % align);
            if size <= limit {
                Some((size, align))
            } else {
                None
            }
        },
        None => None,
    }
}

/// A power of two divides every power of two at least as large.
proof fn lemma_pow2_divides(a: nat, b: nat)
    requires
        is_pow2(a as int),
        is_pow2(b as int),
        a <= b,
    ensures
        b % a == 0,
{
    broadcast use is_pow2_equiv;

    let ea = choose|e: nat| pow(2, e) == a as int;
    let eb = choose|e: nat| pow(2, e) == b as int;
    if eb < ea {
        vstd::arithmetic::power::lemma_pow_strictly_increases(2, eb, ea);
        assert(false);
    }
    vstd::arithmetic::power::lemma_pow_adds(2, ea, (eb - ea) as nat);
    vstd::arithmetic::power::lemma_pow_positive(2, ea);
    vstd::arithmetic::power::lemma_pow_positive(2, (eb - ea) as nat);
    let k = pow(2, (eb - ea) as nat);
    assert(b as int == pow(2, ea) * k);
    lemma_mod_multiples_basic(k, a as int);
    assert((a as int * k) % (a as int) == 0);
    assert(pow(2, ea) * k == a as int * k);
}

/// The header width is a positive multiple of both the word alignment and the
/// element alignment: in a block allocated at header alignment, the length
/// word at offset zero is word-aligned and element zero starts aligned.
pub proof fn lemma_header_aligned<T>()
    ensures
        spec_header_size::<T>() >= 1,
        spec_header_size::<T>() % align_of::<usize>() == 0,
        spec_header_size::<T>() % align_of::<T>() == 0,
{
    broadcast use align_properties, align_nonzero;

    let at = align_of::<T>();
    let au = align_of::<usize>();
    if at >= au {
        lemma_pow2_divides(au, at);
        assert(at % at == 0);
    } else {
        lemma_pow2_divides(at, au);
        assert(au % au == 0);
    }
}

/// Every element offset is a multiple of the element alignment, however
/// strict that alignment is.
pub proof fn lemma_elem_offset_aligned<T>(i: nat)
    ensures
        spec_elem_offset::<T>(i) % align_of::<T>() == 0,
{
    broadcast use align_properties, align_nonzero;

    lemma_header_aligned::<T>();
    let at = align_of::<T>();
    let s = size_of::<T>();
    let q = s / at;
    assert(s == q * at) by {
        vstd::arithmetic::div_mod::lemma_fundamental_div_mod(s as int, at as int);
    }
    assert(i * s == (i * q) * at) by {
        vstd::arithmetic::mul::lemma_mul_is_associative(i as int, q as int, at as int);
    }
    lemma_mod_multiples_basic((i * q) as int, at as int);
    assert((i * s) % at == 0);
    let h = spec_header_size::<T>();
    lemma_add_mod_noop(h as int, (i * s) as int, at as int);
    vstd::arithmetic::div_mod::lemma_small_mod(0, at);
    assert((h + i * s) % at == 0);
}

/// Each of the first `len` element slots lies after the header and within a
/// block of `spec_total_size::<T>(len)` bytes, so the length word and the
/// elements never overlap and no element reaches past the block.
pub proof fn lemma_elem_in_block<T>(len: nat, i: nat)
    requires
        i < len,
    ensures
        spec_elem_offset::<T>(i) >= spec_header_size::<T>(),
        spec_elem_offset::<T>(i) + size_of::<T>() <= spec_total_size::<T>(len),
{
    let s = size_of::<T>();
    lemma_mul_is_distributive_add_other_way(s as int, i as int, 1);
    assert((i + 1) * s == i * s + s);
    lemma_mul_inequality((i + 1) as int, len as int, s as int);
}

/// On every platform where the word alignment is no smaller than the word
/// size, the header is wide enough to hold the length word. The design rests
/// on that platform property; it holds on every target the host language
/// supports.
pub proof fn lemma_header_holds_length_word<T>()
    requires
        align_of::<usize>() >= size_of::<usize>(),
    ensures
        spec_header_size::<T>() >= size_of::<usize>(),
{
}

/// Distinct element slots are disjoint: the slot of element `i` ends no later
/// than the slot of element `j` begins, whenever `i < j`.
pub proof fn lemma_elems_disjoint<T>(i: nat, j: nat)
    requires
        i < j,
    ensures
        spec_elem_offset::<T>(i) + size_of::<T>() <= spec_elem_offset::<T>(j),
{
    let s = size_of::<T>();
    lemma_mul_is_distributive_add_other_way(s as int, i as int, 1);
    assert((i + 1) * s == i * s + s);
    lemma_mul_inequality((i + 1) as int, j as int, s as int);
}

} // verus!
