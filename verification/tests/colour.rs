use chesscore::consts::Colour;

#[test]
fn colour_new() {
    assert_eq!(Colour::new(true), Colour::Black);
    assert_eq!(Colour::new(false), Colour::White);
}

#[test]
fn colour_flip() {
    assert_eq!(Colour::White.flip(), Colour::Black);
    assert_eq!(Colour::Black.flip(), Colour::White);
}

#[test]
fn colour_index() {
    assert_eq!(Colour::White.index(), 0);
    assert_eq!(Colour::Black.index(), 1);
}

#[test]
fn colour_inner() {
    assert_eq!(Colour::White.inner(), 0);
    assert_eq!(Colour::Black.inner(), 1);
}

#[test]
fn colour_all() {
    let all = Colour::all();
    let mut iter = all.iter();
    assert_eq!(iter.next(), Some(&Colour::White));
    assert_eq!(iter.next(), Some(&Colour::Black));
    assert_eq!(iter.next(), None);
}

#[test]
fn colour_display() {
    assert_eq!(Colour::White.name(), "w");
    assert_eq!(Colour::Black.name(), "b");
}
