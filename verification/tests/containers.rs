use heapslice::{block_layout, header_size, total_size, HeapBytes, HeapSlice};
use std::cell::RefCell;
use std::rc::Rc;

const LONG: &[u8] = b"help me obi-wan kenobi, you're my only hope";

#[test]
fn bytes_round_trip_prefixes() {
    for content in [
        b"".as_slice(),
        b"h",
        b"he",
        b"hel",
        b"help",
        LONG,
    ] {
        let v = HeapBytes::from_slice(content);
        assert_eq!(v.as_slice(), content);
        assert_eq!(v.len(), content.len());
        assert_eq!(v.is_empty(), content.is_empty());
        for (i, b) in content.iter().enumerate() {
            assert_eq!(v.get(i), *b);
        }
    }
}

#[test]
fn bytes_empty_canonical() {
    let a = HeapBytes::from_slice(b"");
    let b = HeapBytes::empty();
    let c = HeapBytes::default();
    assert!(a == b);
    assert!(a == c);
    assert!(a.is_empty());
    assert_eq!(a.as_slice(), b"");
}

#[test]
fn bytes_eq_by_content() {
    let a = HeapBytes::from_slice(b"help");
    let b = HeapBytes::from_slice(b"help");
    let c = HeapBytes::from_slice(b"hel");
    let d = HeapBytes::from_slice(b"helq");
    assert!(a == b);
    assert!(a != c);
    assert!(a != d);
}

#[test]
fn bytes_clone_independence() {
    let original = HeapBytes::from_slice(b"help");
    let mut copy = original.clone();
    assert!(original == copy);
    copy.set(0, b'y');
    assert_eq!(copy.as_slice(), b"yelp");
    assert_eq!(original.as_slice(), b"help");
    assert!(original != copy);
}

#[test]
fn bytes_lexicographic_order() {
    let empty = HeapBytes::from_slice(b"");
    let hel = HeapBytes::from_slice(b"hel");
    let help = HeapBytes::from_slice(b"help");
    let helq = HeapBytes::from_slice(b"helq");
    assert!(empty < hel);
    assert!(hel < help);
    assert!(help < helq);
    assert!(helq > hel);
    assert!(hel <= HeapBytes::from_slice(b"hel"));
    assert_eq!(
        help.partial_cmp(&HeapBytes::from_slice(b"help")),
        Some(std::cmp::Ordering::Equal)
    );
}

#[test]
fn bytes_set_in_place() {
    let mut v = HeapBytes::from_slice(b"hel");
    v.set(2, b'n');
    assert_eq!(v.as_slice(), b"hen");
    assert_eq!(v.len(), 3);
}

#[test]
fn slice_round_trip_copy() {
    for content in [
        [].as_slice(),
        [1u64].as_slice(),
        [3u64, 4, 5].as_slice(),
        [u64::MAX, 0, 7, 7, 7].as_slice(),
    ] {
        let v = HeapSlice::from_slice(content);
        assert_eq!(v.as_slice(), content);
        assert_eq!(v.len(), content.len());
        assert_eq!(v.is_empty(), content.is_empty());
        for (i, x) in content.iter().enumerate() {
            assert_eq!(v.get(i), x);
        }
    }
}

#[test]
fn slice_empty_canonical() {
    let a: HeapSlice<u64> = HeapSlice::from_slice(&[]);
    let b: HeapSlice<u64> = HeapSlice::empty();
    let c: HeapSlice<u64> = HeapSlice::default();
    assert_eq!(a.as_slice(), b.as_slice());
    assert_eq!(a.as_slice(), c.as_slice());
    assert!(a.is_empty());
}

#[test]
fn slice_of_strings() {
    let x = HeapSlice::from_vec(vec![String::from("hello"), String::from("world")]);
    assert_eq!(x.len(), 2);
    assert_eq!(x.get(0), "hello");
    assert_eq!(x.get(1), "world");

    let cloned = x.clone();
    assert_eq!(cloned.get(0), "hello");
    assert_eq!(cloned.get(1), "world");

    let back = x.into_vec();
    assert_eq!(back, vec![String::from("hello"), String::from("world")]);
}

#[test]
fn slice_from_slice_cloned() {
    let source = vec![String::from("hello"), String::from("world")];
    let v = HeapSlice::from_slice_cloned(source.as_slice());
    assert_eq!(v.len(), 2);
    assert_eq!(v.get(0), "hello");
    assert_eq!(v.get(1), "world");
    // the source is intact: the elements were cloned, not moved
    assert_eq!(source[0], "hello");
}

#[test]
fn slice_eq_by_elements() {
    let a = HeapSlice::from_slice(&[1u64, 2, 3]);
    let b = HeapSlice::from_slice(&[1u64, 2, 3]);
    let c = HeapSlice::from_slice(&[1u64, 2]);
    let d = HeapSlice::from_slice(&[1u64, 2, 4]);
    assert!(a == b);
    assert!(a != c);
    assert!(a != d);

    let s1 = HeapSlice::from_vec(vec![String::from("hello"), String::from("world")]);
    let s2 = HeapSlice::from_vec(vec![String::from("hello"), String::from("world")]);
    let s3 = HeapSlice::from_vec(vec![String::from("hello")]);
    assert!(s1 == s2);
    assert!(s1 != s3);
}

#[test]
fn slice_lexicographic_order() {
    let a = HeapSlice::from_slice(&[1u64, 2]);
    let b = HeapSlice::from_slice(&[1u64, 2, 3]);
    let c = HeapSlice::from_slice(&[1u64, 3]);
    assert!(a < b);
    assert!(b < c);
    assert!(a < c);
    assert_eq!(
        a.partial_cmp(&HeapSlice::from_slice(&[1u64, 2])),
        Some(std::cmp::Ordering::Equal)
    );

    let s1 = HeapSlice::from_vec(vec![String::from("hello")]);
    let s2 = HeapSlice::from_vec(vec![String::from("world")]);
    assert!(s1 < s2);
}

#[test]
fn slice_clone_independence() {
    let original = HeapSlice::from_slice(&[3u64, 4, 5]);
    let mut copy = original.clone();
    copy.set(1, 40);
    assert_eq!(copy.as_slice(), &[3, 40, 5]);
    assert_eq!(original.as_slice(), &[3, 4, 5]);
}

/// Records the order in which values are finalized.
struct DropProbe {
    id: usize,
    log: Rc<RefCell<Vec<usize>>>,
}

impl Drop for DropProbe {
    fn drop(&mut self) {
        self.log.borrow_mut().push(self.id);
    }
}

#[test]
fn slice_drop_finalizes_each_element_once_in_index_order() {
    let log: Rc<RefCell<Vec<usize>>> = Rc::new(RefCell::new(Vec::new()));
    let elems: Vec<DropProbe> = (0..5)
        .map(|id| DropProbe { id, log: Rc::clone(&log) })
        .collect();
    let container = HeapSlice::from_vec(elems);
    assert_eq!(container.len(), 5);
    assert!(log.borrow().is_empty());
    drop(container);
    assert_eq!(*log.borrow(), vec![0, 1, 2, 3, 4]);
}

#[test]
fn slice_set_finalizes_replaced_element() {
    let log: Rc<RefCell<Vec<usize>>> = Rc::new(RefCell::new(Vec::new()));
    let elems: Vec<DropProbe> = (0..3)
        .map(|id| DropProbe { id, log: Rc::clone(&log) })
        .collect();
    let mut container = HeapSlice::from_vec(elems);
    container.set(1, DropProbe { id: 10, log: Rc::clone(&log) });
    assert_eq!(*log.borrow(), vec![1]);
    drop(container);
    assert_eq!(*log.borrow(), vec![1, 0, 10, 2]);
}

#[test]
fn layout_header_covers_both_alignments() {
    let word = std::mem::align_of::<usize>();

    assert_eq!(header_size::<u8>(), word);
    assert_eq!(header_size::<u64>(), word.max(std::mem::align_of::<u64>()));
    assert_eq!(header_size::<u128>(), word.max(std::mem::align_of::<u128>()));
    assert_eq!(header_size::<[u128; 4]>(), word.max(std::mem::align_of::<[u128; 4]>()));

    // the header is a multiple of both alignments, so in a block allocated at
    // header alignment the length word and element zero are both aligned
    assert_eq!(header_size::<u128>() % word, 0);
    assert_eq!(header_size::<u128>() % std::mem::align_of::<u128>(), 0);
}

#[test]
fn layout_total_size_exact_and_checked() {
    let h = header_size::<u64>();
    assert_eq!(total_size::<u64>(0), Some(h));
    assert_eq!(total_size::<u64>(3), Some(h + 3 * std::mem::size_of::<u64>()));
    assert_eq!(total_size::<u64>(usize::MAX), None);

    let hb = header_size::<u8>();
    assert_eq!(total_size::<u8>(44), Some(hb + 44));
}

#[test]
fn layout_block_layout_is_a_valid_request() {
    // the header can hold the length word on this platform
    assert!(std::mem::align_of::<usize>() >= std::mem::size_of::<usize>());

    let (size, align) = block_layout::<u64>(3).unwrap();
    assert_eq!(size, header_size::<u64>() + 3 * std::mem::size_of::<u64>());
    assert_eq!(align, header_size::<u64>());
    assert!(std::alloc::Layout::from_size_align(size, align).is_ok());

    // far past the allocator's limit for any alignment
    assert!(block_layout::<u64>(usize::MAX).is_none());
    assert!(block_layout::<u8>(usize::MAX - 1).is_none());
}

#[test]
fn layout_elements_aligned_within_block() {
    // every element offset header + i * size is a multiple of the element
    // alignment, even when that alignment is stricter than a machine word
    let h = header_size::<u128>();
    let s = std::mem::size_of::<u128>();
    let a = std::mem::align_of::<u128>();
    for i in 0..8 {
        assert_eq!((h + i * s) % a, 0);
    }
}
