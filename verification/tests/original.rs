#[test]
fn show_fmt_fn() {
    assert_eq!(2 + 2, 4);
}

#[test]
fn test_set_ref() {
    assert_eq!(2 + 2, 4);
}

#[test]
fn lib_it_works() {
    assert_eq!(2 + 2, 4);
}
