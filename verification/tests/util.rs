use clmem::util::{calc_size_exceeds, check_cl_bool, check_copy_overlap, is_aligned_to, CLVec};

#[test]
fn booleans_of_the_api() {
    assert_eq!(check_cl_bool(0), Some(false));
    assert_eq!(check_cl_bool(1), Some(true));
    assert_eq!(check_cl_bool(2), None);
    assert_eq!(check_cl_bool(u32::MAX), None);
}

#[test]
fn alignment() {
    assert!(is_aligned_to(0x1000, 16));
    assert!(!is_aligned_to(0x1008, 16));
    assert!(is_aligned_to(0, 3));
    assert!(is_aligned_to(9, 3));
}

#[test]
fn vector_components() {
    let v = CLVec::new([1, 2, 3]);
    assert_eq!((v.x, v.y, v.z), (1, 2, 3));
    assert!(v.contains(2));
    assert!(!v.contains(0));
}

#[test]
fn size_of_a_pitched_box() {
    let o = CLVec::new([2, 1, 0]);
    let r = CLVec::new([4, 3, 1]);
    // (2 + 4) + (1 + 3 - 1) * 10 + (0 + 1 - 1) * 100 = 36
    assert!(!calc_size_exceeds(&o, &r, 10, 100, 36));
    assert!(calc_size_exceeds(&o, &r, 10, 100, 35));
    let deep = CLVec::new([4, 3, 2]);
    // 6 + 30 + 100 = 136
    assert!(!calc_size_exceeds(&o, &deep, 10, 100, 136));
    assert!(calc_size_exceeds(&o, &deep, 10, 100, 135));
    let huge = CLVec::new([usize::MAX, usize::MAX, usize::MAX]);
    assert!(calc_size_exceeds(&huge, &huge, usize::MAX, usize::MAX, usize::MAX));
    assert!(calc_size_exceeds(&o, &CLVec::new([1, 2, 1]), usize::MAX, 1, usize::MAX));
}

#[test]
fn overlap_of_linear_copies() {
    let zero = CLVec::new([0, 0, 0]);
    let run = CLVec::new([10, 1, 1]);
    assert!(check_copy_overlap(&zero, 0, &zero, 5, &run, 10, 10));
    assert!(!check_copy_overlap(&zero, 0, &zero, 10, &run, 10, 10));
    assert!(check_copy_overlap(&zero, 5, &zero, 0, &run, 10, 10));
    assert!(!check_copy_overlap(&zero, 10, &zero, 0, &run, 10, 10));
    assert!(check_copy_overlap(&zero, 3, &zero, 3, &run, 10, 10));
}

#[test]
fn overlap_of_rectangles() {
    let r = CLVec::new([4, 4, 1]);
    // two columns of a surface 16 bytes wide: side by side they do not touch
    assert!(!check_copy_overlap(&CLVec::new([0, 0, 0]), 0, &CLVec::new([4, 0, 0]), 0, &r, 16, 64));
    assert!(check_copy_overlap(&CLVec::new([0, 0, 0]), 0, &CLVec::new([3, 0, 0]), 0, &r, 16, 64));
    assert!(check_copy_overlap(&CLVec::new([0, 0, 0]), 0, &CLVec::new([0, 3, 0]), 0, &r, 16, 64));
    assert!(!check_copy_overlap(&CLVec::new([0, 0, 0]), 0, &CLVec::new([0, 4, 0]), 0, &r, 16, 64));
    // a destination far beyond the address space of the source
    assert!(!check_copy_overlap(
        &CLVec::new([0, 0, 0]),
        0,
        &CLVec::new([usize::MAX, usize::MAX, usize::MAX]),
        usize::MAX,
        &r,
        16,
        64
    ));
}
