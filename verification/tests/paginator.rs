use postboard::paginator::Paginator;

#[test]
fn defaults() {
    assert_eq!(Paginator::default_page_size(), 10);
    assert_eq!(Paginator::default_page(), 1);
}

#[test]
fn offset_formula_page_size_one() {
    assert_eq!(Paginator { page_size: 1, page: 0 }.offset(), 0);
    assert_eq!(Paginator { page_size: 1, page: 1 }.offset(), 0);
    assert_eq!(Paginator { page_size: 1, page: 2 }.offset(), 1);
    assert_eq!(Paginator { page_size: 1, page: 7 }.offset(), 6);
}

#[test]
fn offset_formula_page_size_ten() {
    assert_eq!(Paginator { page_size: 10, page: 0 }.offset(), 0);
    assert_eq!(Paginator { page_size: 10, page: 1 }.offset(), 0);
    assert_eq!(Paginator { page_size: 10, page: 2 }.offset(), 10);
    assert_eq!(Paginator { page_size: 10, page: 3 }.offset(), 20);
}

#[test]
fn offset_formula_page_size_hundred() {
    assert_eq!(Paginator { page_size: 100, page: 0 }.offset(), 0);
    assert_eq!(Paginator { page_size: 100, page: 1 }.offset(), 0);
    assert_eq!(Paginator { page_size: 100, page: 5 }.offset(), 400);
}

#[test]
fn page_zero_and_one_agree() {
    for page_size in [1, 10, 100] {
        let at_zero = Paginator { page_size, page: 0 }.offset();
        let at_one = Paginator { page_size, page: 1 }.offset();
        assert_eq!(at_zero, at_one);
        assert_eq!(at_zero, 0);
    }
}

#[test]
fn negative_page_clamps_to_one() {
    assert_eq!(Paginator { page_size: 10, page: -5 }.offset(), 0);
}
