use kernel_irq::pending::PendingIRQs;

#[test]
fn mask_1010_yields_one_and_three() {
    assert_eq!(PendingIRQs::new(0b1010).into_vec(), vec![1, 3]);
}

#[test]
fn empty_mask_yields_nothing() {
    let mut it = PendingIRQs::new(0);
    assert_eq!(it.next(), None);
    assert_eq!(PendingIRQs::new(0).into_vec(), Vec::<usize>::new());
}

#[test]
fn next_is_ascending_and_exhausts() {
    let mut it = PendingIRQs::new(0b1010);
    assert_eq!(it.next(), Some(1));
    assert_eq!(it.next(), Some(3));
    assert_eq!(it.next(), None);
    assert_eq!(it.next(), None);
}

#[test]
fn full_and_top_bit_masks() {
    assert_eq!(PendingIRQs::new(1 << 63).into_vec(), vec![63]);
    assert_eq!(PendingIRQs::new(u64::MAX).into_vec(), (0..64).collect::<Vec<usize>>());
    assert_eq!(PendingIRQs::new(0x8000_0001_0000_0010).into_vec(), vec![4, 32, 63]);
}
