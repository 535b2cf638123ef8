use shape_editor::iter_ext::{IterExt, SkipNth};

#[test]
fn skips_nth() {
    let a = vec![7, 8, 9];

    let mut iter = a.skip_nth(1);

    assert_eq!(iter.next(), Some(7));
    assert_eq!(iter.next(), Some(9));
    assert_eq!(iter.next(), None);
}

#[test]
fn skips_first() {
    let a = vec![1, 2, 3];
    let mut iter = a.skip_nth(0);
    assert_eq!(iter.next(), Some(2));
    assert_eq!(iter.next(), Some(3));
    assert_eq!(iter.next(), None);
}

#[test]
fn skip_past_end_yields_all() {
    let a = vec![4, 5];
    let mut iter: SkipNth<i64> = a.skip_nth(9);
    assert_eq!(iter.next(), Some(4));
    assert_eq!(iter.next(), Some(5));
    assert_eq!(iter.next(), None);
}

#[test]
fn skip_in_empty_vec() {
    let a: Vec<u8> = Vec::new();
    let mut iter = a.skip_nth(0);
    assert_eq!(iter.next(), None);
}
