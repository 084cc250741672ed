use chesscore::consts::Col;

#[test]
fn col_new() {
    assert_eq!(Col::new(true), Col::Black);
    assert_eq!(Col::new(false), Col::White);
}

#[test]
fn col_flip() {
    assert_eq!(Col::White.flip(), Col::Black);
    assert_eq!(Col::Black.flip(), Col::White);
}

#[test]
fn col_index() {
    assert_eq!(Col::White.index(), 0);
    assert_eq!(Col::Black.index(), 1);
}

#[test]
fn col_inner() {
    assert_eq!(Col::White.inner(), 0);
    assert_eq!(Col::Black.inner(), 1);
}

#[test]
fn col_all() {
    let all = Col::all();
    let mut iter = all.iter();
    assert_eq!(iter.next(), Some(&Col::White));
    assert_eq!(iter.next(), Some(&Col::Black));
    assert_eq!(iter.next(), None);
}

#[test]
fn col_display() {
    assert_eq!(Col::White.name(), "w");
    assert_eq!(Col::Black.name(), "b");
}
