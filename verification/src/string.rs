//! Compact owned UTF-8 text.
//!
//! A thin wrapper over [`HeapBytes`](crate::bytes::HeapBytes) whose invariant
//! is that the held bytes are always a valid UTF-8 encoding of some text. The
//! invariant is established at every construction site: either the input is
//! already text, or the bytes are validated and a failure reports where the
//! encoding breaks and hands the bytes back unconsumed. The view of the
//! container is the sequence of characters its bytes encode.

use core::cmp::Ordering;
use crate::bytes::{bytes_cmp, bytes_eq, lemma_lex_cmp_equal_iff_eq, lex_cmp, HeapBytes};
use vstd::prelude::*;
use vstd::utf8::{
    decode_utf8, decode_utf8_encode_utf8, encode_utf8, encode_utf8_decode_utf8,
    encode_utf8_valid_utf8, valid_utf8,
};

verus! {

/// Owned byte sequence that always holds valid UTF-8 text.
#[derive(Debug, Hash)]
pub struct HeapStr {
    bytes: HeapBytes,
}

/// Error from checked text construction: the rejected bytes, handed back
/// unconsumed, and the length of their longest prefix that is valid UTF-8,
/// which is where the encoding breaks.
#[derive(Debug)]
pub struct FromUtf8Error {
    pub bytes: HeapBytes,
    pub valid_up_to: usize,
}

impl View for HeapStr {
    type V = Seq<char>;

    closed spec fn view(&self) -> Seq<char> {
        decode_utf8(self.bytes@)
    }
}

/// Relies on core::str::from_utf8: it returns Ok exactly on valid UTF-8, the
/// returned str borrows the very bytes given, and on failure the error's
/// valid_up_to is the length of the longest prefix that is valid UTF-8.
#[verifier::external_body]
fn utf8_decode_slice(v: &[u8]) -> (r: Result<&str, usize>)
    ensures
        r is Ok <==> valid_utf8(v@),
        r matches Ok(s) ==> encode_utf8(s@) == v@,
        r matches Err(k) ==> k <= v@.len() && valid_utf8(v@.subrange(0, k as int)) && forall|j: int|
            k < j <= v@.len() ==> !valid_utf8(v@.subrange(0, j)),
{
    match core::str::from_utf8(v) {
        Ok(s) => Ok(s),
        Err(e) => Err(e.valid_up_to()),
    }
}

impl HeapStr {
    /// The held bytes, as a sequence.
    pub closed spec fn bytes_view(&self) -> Seq<u8> {
        self.bytes@
    }

    /// The held bytes are always a valid UTF-8 encoding of the text view.
    #[verifier::type_invariant]
    closed spec fn inv(&self) -> bool {
        valid_utf8(self.bytes@)
    }

    /// The empty text; allocates nothing.
    pub fn empty() -> (r: Self)
        ensures
            r@ == Seq::<char>::empty(),
            r.bytes_view() == Seq::<u8>::empty(),
    {
        let bytes = HeapBytes::empty();
        let r = HeapStr { bytes };
        proof {
            assert(r@ =~= Seq::<char>::empty());
        }
        r
    }

    /// Copies the given text into a fresh container.
    pub fn from_str(s: &str) -> (r: Self)
        ensures
            r@ == s@,
            r.bytes_view() == encode_utf8(s@),
    {
        broadcast use encode_utf8_valid_utf8, encode_utf8_decode_utf8;

        let bytes = HeapBytes::from_slice(s.as_bytes());
        HeapStr { bytes }
    }

    /// Validates that the given bytes are well-formed UTF-8. On success, takes
    /// ownership of them unchanged, with no copy; on failure, returns them to
    /// the caller untouched along with the length of their longest valid
    /// prefix, which is where the encoding breaks.
    pub fn from_utf8(content: HeapBytes) -> (r: Result<Self, FromUtf8Error>)
        ensures
            r is Ok <==> valid_utf8(content@),
            r matches Ok(s) ==> s.bytes_view() == content@ && s@ == decode_utf8(content@),
            r matches Err(e) ==> e.bytes@ == content@ && e.valid_up_to <= content@.len()
                && valid_utf8(content@.subrange(0, e.valid_up_to as int)) && forall|j: int|
                e.valid_up_to < j <= content@.len() ==> !valid_utf8(content@.subrange(0, j)),
    {
        let checked: Result<(), usize> = match utf8_decode_slice(content.as_slice()) {
            Ok(_) => Ok(()),
            Err(k) => Err(k),
        };
        match checked {
            Ok(()) => Ok(HeapStr { bytes: content }),
            Err(k) => Err(FromUtf8Error { bytes: content, valid_up_to: k }),
        }
    }

    /// Takes ownership of the given bytes without validating them. The caller
    /// must have established that they are valid UTF-8; with that established,
    /// nothing can go wrong afterwards, so no run-time check is spent.
    pub fn from_utf8_unchecked(content: HeapBytes) -> (r: Self)
        requires
            valid_utf8(content@),
        ensures
            r.bytes_view() == content@,
            r@ == decode_utf8(content@),
    {
        HeapStr { bytes: content }
    }

    /// Consumes the text and returns the underlying byte container, no copy.
    /// The bytes handed out are the UTF-8 encoding of the text view, so they
    /// are in particular valid UTF-8.
    pub fn into_bytes(self) -> (r: HeapBytes)
        ensures
            r@ == self.bytes_view(),
            r@ == encode_utf8(self@),
            valid_utf8(r@),
    {
        proof {
            use_type_invariant(&self);
            decode_utf8_encode_utf8(self.bytes@);
        }
        let HeapStr { bytes } = self;
        bytes
    }

    /// Borrowed text view of the held bytes.
    pub fn as_str(&self) -> (r: &str)
        ensures
            r@ == self@,
            encode_utf8(r@) == self.bytes_view(),
    {
        proof {
            use_type_invariant(self);
        }
        match utf8_decode_slice(self.bytes.as_slice()) {
            Ok(s) => {
                proof {
                    encode_utf8_decode_utf8(s@);
                    decode_utf8_encode_utf8(self.bytes@);
                }
                s
            },
            Err(_) => vstd::pervasive::unreached(),
        }
    }

    /// Borrowed view of the underlying bytes.
    pub fn as_bytes(&self) -> (r: &[u8])
        ensures
            r@ == self.bytes_view(),
            valid_utf8(r@),
            r@ == encode_utf8(self@),
    {
        proof {
            use_type_invariant(self);
            decode_utf8_encode_utf8(self.bytes@);
        }
        self.bytes.as_slice()
    }

    /// Length in bytes of the held text.
    pub fn len(&self) -> (r: usize)
        ensures
            r == self.bytes_view().len(),
    {
        self.bytes.len()
    }

    /// True exactly when the text is empty.
    pub fn is_empty(&self) -> (r: bool)
        ensures
            r == (self@.len() == 0),
            r == (self.bytes_view().len() == 0),
    {
        proof {
            use_type_invariant(self);
            lemma_text_empty_iff_bytes_empty(self.bytes@);
        }
        self.bytes.is_empty()
    }
}

/// An empty byte sequence decodes to empty text, and conversely: valid UTF-8
/// encodes every character with at least one byte.
pub proof fn lemma_text_empty_iff_bytes_empty(b: Seq<u8>)
    requires
        valid_utf8(b),
    ensures
        decode_utf8(b).len() == 0 <==> b.len() == 0,
{
    decode_utf8_encode_utf8(b);
    if decode_utf8(b).len() == 0 {
        assert(encode_utf8(decode_utf8(b)) =~= Seq::<u8>::empty());
    }
}

/// Two valid UTF-8 byte sequences decode to the same text exactly when they
/// are the same bytes: text-level equality and byte-level equality agree.
pub proof fn lemma_text_eq_iff_bytes_eq(a: Seq<u8>, b: Seq<u8>)
    requires
        valid_utf8(a),
        valid_utf8(b),
    ensures
        decode_utf8(a) == decode_utf8(b) <==> a == b,
{
    decode_utf8_encode_utf8(a);
    decode_utf8_encode_utf8(b);
}

/// Checked construction from valid bytes is indistinguishable from
/// construction from the text those bytes decode to: re-encoding the decoded
/// text gives back exactly the input bytes, so both paths agree on the text
/// view and on the underlying bytes.
pub proof fn lemma_checked_matches_from_text(b: Seq<u8>)
    requires
        valid_utf8(b),
    ensures
        encode_utf8(decode_utf8(b)) == b,
        valid_utf8(encode_utf8(decode_utf8(b))),
{
    decode_utf8_encode_utf8(b);
}

impl Clone for HeapStr {
    /// A clone is an independent container with the same text over the same
    /// bytes.
    fn clone(&self) -> (r: Self)
        ensures
            r@ == self@,
            r.bytes_view() == self.bytes_view(),
    {
        proof {
            use_type_invariant(self);
        }
        HeapStr { bytes: self.bytes.clone() }
    }
}

impl Default for HeapStr {
    fn default() -> (r: Self)
        ensures
            r@ == Seq::<char>::empty(),
            r.bytes_view() == Seq::<u8>::empty(),
    {
        HeapStr::empty()
    }
}

impl PartialEq for HeapStr {
    /// Structural equality: equal exactly when the texts are equal, which for
    /// valid UTF-8 is the same as the bytes being equal.
    fn eq(&self, other: &Self) -> (r: bool) {
        proof {
            use_type_invariant(self);
            use_type_invariant(other);
            lemma_text_eq_iff_bytes_eq(self.bytes@, other.bytes@);
        }
        bytes_eq(self.bytes.as_slice(), other.bytes.as_slice())
    }
}

impl Eq for HeapStr {}

impl vstd::std_specs::cmp::PartialEqSpecImpl for HeapStr {
    open spec fn obeys_eq_spec() -> bool {
        true
    }

    open spec fn eq_spec(&self, other: &Self) -> bool {
        self@ == other@
    }
}

impl PartialOrd for HeapStr {
    /// Lexicographic order of the UTF-8 encodings: the order in which the
    /// host language orders text values.
    fn partial_cmp(&self, other: &Self) -> (r: Option<Ordering>) {
        Some(bytes_cmp(self.bytes.as_slice(), other.bytes.as_slice()))
    }
}

impl vstd::std_specs::cmp::PartialOrdSpecImpl for HeapStr {
    open spec fn obeys_partial_cmp_spec() -> bool {
        true
    }

    open spec fn partial_cmp_spec(&self, other: &Self) -> Option<Ordering> {
        Some(lex_cmp(self.bytes_view(), other.bytes_view()))
    }
}

/// The text order is consistent with text equality: two valid UTF-8 byte
/// sequences compare equal exactly when they decode to the same text.
pub proof fn lemma_text_cmp_equal_iff_text_eq(a: Seq<u8>, b: Seq<u8>)
    requires
        valid_utf8(a),
        valid_utf8(b),
    ensures
        lex_cmp(a, b) == Ordering::Equal <==> decode_utf8(a) == decode_utf8(b),
{
    lemma_lex_cmp_equal_iff_eq(a, b);
    lemma_text_eq_iff_bytes_eq(a, b);
}

} // verus!
