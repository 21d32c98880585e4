use not_io::OptTable;

type Table = OptTable<u8, u16, u32, i8, i16, i32>;

#[test]
fn a_new_table_has_no_slot_filled() {
    let t = Table::default();
    assert_eq!(t.seek(), None);
    assert_eq!(t.buf(), None);
    assert_eq!(t.any(), None);
    assert_eq!(t.file_ext(), None);
    assert_eq!(t.as_fd(), None);
    assert_eq!(t.as_raw_fd(), None);
}

#[test]
fn a_setter_fills_its_slot_only() {
    let mut t = Table::default();
    t.set_buf(7);
    assert_eq!(t.buf(), Some(7));
    assert_eq!(t.seek(), None);
    assert_eq!(t.any(), None);
    assert_eq!(t.file_ext(), None);
    assert_eq!(t.as_fd(), None);
    assert_eq!(t.as_raw_fd(), None);
}

#[test]
fn every_slot_can_be_filled() {
    let mut t = Table::default();
    t.set_seek(1);
    t.set_buf(2);
    t.set_any(3);
    t.set_file_ext(-4);
    t.set_as_fd(-5);
    t.set_as_raw_fd(-6);
    assert_eq!(t.seek(), Some(1));
    assert_eq!(t.buf(), Some(2));
    assert_eq!(t.any(), Some(3));
    assert_eq!(t.file_ext(), Some(-4));
    assert_eq!(t.as_fd(), Some(-5));
    assert_eq!(t.as_raw_fd(), Some(-6));
}

#[test]
fn setting_again_replaces_the_slot() {
    let mut t = Table::default();
    t.set_seek(1);
    t.set_seek(9);
    assert_eq!(t.seek(), Some(9));
}

#[test]
fn copies_keep_the_filled_slots() {
    let mut t = Table::default();
    t.set_any(3);
    let copy = t;
    t.set_seek(1);
    assert_eq!(copy.any(), Some(3));
    assert_eq!(copy.seek(), None);
    assert_eq!(t.seek(), Some(1));
}
