use cairnos::lazy::{Lazy, LazyMut, ProbablyInit};

#[test]
fn storage_reports_whether_it_holds_a_value() {
    let empty: ProbablyInit<u32> = ProbablyInit::new_uninit();
    assert!(!empty.is_init());
    let full = ProbablyInit::new(41u32);
    assert!(full.is_init());
    assert_eq!(*full.get(), 41);
}

#[test]
fn storage_hands_out_a_mutable_view() {
    let mut full = ProbablyInit::new(String::from("gdt"));
    full.get_mut().push_str(" loaded");
    assert_eq!(*full.get(), "gdt loaded");
}

#[test]
fn try_get_is_absent_before_init_and_present_after() {
    let mut cell: Lazy<u32> = Lazy::new();
    assert!(!cell.is_init());
    assert!(cell.try_get().is_none());
    cell.init(7);
    assert!(cell.is_init());
    assert_eq!(cell.try_get(), Some(&7));
    assert_eq!(*cell.get(), 7);
}

#[test]
fn get_mut_reflects_the_published_value() {
    let mut cell: LazyMut<[u64; 2]> = LazyMut::new();
    cell.init([3, 4]);
    assert_eq!(*cell.get_mut(), [3, 4]);
    cell.get_mut()[1] = 9;
    assert_eq!(*cell.get(), [3, 9]);
}

#[test]
fn try_get_mut_is_checked() {
    let mut cell: LazyMut<u8> = LazyMut::new();
    assert!(cell.try_get_mut().is_none());
    cell.init(1);
    if let Some(v) = cell.try_get_mut() {
        *v = 2;
    }
    assert_eq!(*cell.get(), 2);
}

#[test]
fn a_second_init_leaves_the_second_value() {
    // Re-initializing is not rejected: the cell documents last-write-wins.
    let mut cell: LazyMut<u32> = LazyMut::new();
    cell.init(1);
    cell.init(2);
    assert_eq!(cell.try_get(), Some(&2));
    assert_eq!(*cell.get_mut(), 2);
}
