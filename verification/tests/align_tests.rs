use bm::align::checked_padded_stride;
use bm::align::padded_stride;
use bm::plan::slot_offset;
use bm::plan::RESERVED_SLOT_COUNT;

#[test]
fn padded_stride_rounds_up_to_the_next_multiple() {
    assert_eq!(padded_stride(253, 16), 256);
    assert_eq!(padded_stride(256, 16), 256);
    assert_eq!(padded_stride(16, 256), 256);
    assert_eq!(padded_stride(64, 256), 256);
    assert_eq!(padded_stride(88, 256), 256);
    assert_eq!(padded_stride(300, 256), 512);
    assert_eq!(padded_stride(257, 256), 512);
    assert_eq!(padded_stride(1, 1), 1);
    assert_eq!(padded_stride(88, 64), 128);
    assert_eq!(padded_stride(88, 8), 88);
}

#[test]
fn padded_stride_of_nothing_is_nothing() {
    assert_eq!(padded_stride(0, 16), 0);
    assert_eq!(padded_stride(0, 256), 0);
    assert_eq!(padded_stride(0, 1), 0);
}

#[test]
fn padded_stride_is_aligned_and_tight() {
    for size in 1u64..=600 {
        for alignment in 1u64..=300 {
            let stride = padded_stride(size, alignment);
            assert_eq!(stride % alignment, 0);
            assert!(stride >= size);
            assert!(stride < size + alignment);
        }
    }
}

#[test]
fn padded_stride_near_the_top_of_the_range() {
    let top = u64::MAX - 15;
    assert_eq!(padded_stride(top, 16), top);
    assert_eq!(padded_stride(top - 1, 16), top);
    assert_eq!(padded_stride(u64::MAX, 1), u64::MAX);
}

#[test]
fn checked_padded_stride_agrees_with_padded_stride() {
    assert_eq!(checked_padded_stride(253, 16), Some(256));
    assert_eq!(checked_padded_stride(256, 16), Some(256));
    assert_eq!(checked_padded_stride(0, 16), Some(0));
    assert_eq!(checked_padded_stride(88, 256), Some(256));
    let top = u64::MAX - 15;
    assert_eq!(checked_padded_stride(top, 16), Some(top));
}

#[test]
fn checked_padded_stride_rejects_a_zero_alignment() {
    assert_eq!(checked_padded_stride(64, 0), None);
    assert_eq!(checked_padded_stride(0, 0), None);
}

#[test]
fn checked_padded_stride_rejects_a_stride_that_does_not_fit() {
    assert_eq!(checked_padded_stride(u64::MAX, 16), None);
    assert_eq!(checked_padded_stride(u64::MAX - 14, 16), None);
    assert_eq!(checked_padded_stride(u64::MAX, 2), None);
}

#[test]
fn slot_zero_is_reserved() {
    assert_eq!(RESERVED_SLOT_COUNT, 1);
    assert_eq!(slot_offset(0, 256), 256);
    assert_eq!(slot_offset(1, 256), 512);
    assert_eq!(slot_offset(2, 256), 768);
    assert_eq!(slot_offset(38, 256), 39 * 256);
    assert_eq!(slot_offset(5, 0), 0);
    assert_eq!(slot_offset(0, 64), 64);
}
