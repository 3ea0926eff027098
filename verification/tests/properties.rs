use clmem::properties::Properties;

#[test]
fn no_list_is_empty() {
    let p = Properties::new(None).unwrap();
    assert!(p.is_empty());
    assert!(!p.is_given());
    assert_eq!(p.raw_data(), Vec::<u64>::new());
}

#[test]
fn pairs_up_to_the_zero() {
    let p = Properties::new(Some(&[5, 50, 7, 70, 0, 9, 90])).unwrap();
    assert_eq!(p.len(), 2);
    assert_eq!(p.pair(0), (5, 50));
    assert_eq!(p.pair(1), (7, 70));
    assert_eq!(p.get(7), Some(70));
    assert_eq!(p.get(9), None);
    assert!(p.is_given());
    assert_eq!(p.raw_data(), vec![5, 50, 7, 70, 0]);
}

#[test]
fn only_the_zero() {
    let p = Properties::new(Some(&[0])).unwrap();
    assert!(p.is_empty());
    assert!(p.is_given());
    assert_eq!(p.raw_data(), vec![0]);
}

#[test]
fn repeated_key_is_refused() {
    assert_eq!(Properties::new(Some(&[5, 1, 6, 2, 5, 3, 0])), None);
}

#[test]
fn list_without_zero_is_refused() {
    assert_eq!(Properties::new(Some(&[])), None);
    assert_eq!(Properties::new(Some(&[5, 1])), None);
    assert_eq!(Properties::new(Some(&[5])), None);
    assert_eq!(Properties::new(Some(&[5, 1, 6])), None);
}
