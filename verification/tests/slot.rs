use scoped_alloc::Slot;

#[test]
fn written_value_reads_back() {
    let mut slot = Slot::<u32>::uninit();
    slot.write(17);
    assert_eq!(*slot.get(), 17);
}

#[test]
fn later_write_replaces_the_earlier() {
    let mut slot = Slot::uninit();
    slot.write(vec![1u8, 2, 3]);
    slot.write(vec![9u8]);
    assert_eq!(slot.get(), &vec![9u8]);
}

#[test]
fn value_can_be_taken_out() {
    let mut slot = Slot::uninit();
    slot.write(String::from("payload"));
    let taken: String = slot.into_inner();
    assert_eq!(taken, "payload");
}

#[test]
fn reading_does_not_consume() {
    let mut slot = Slot::uninit();
    slot.write(5u64);
    assert_eq!(*slot.get(), 5);
    assert_eq!(*slot.get(), 5);
    assert_eq!(slot.into_inner(), 5);
}
