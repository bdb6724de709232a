use radio_tui::ext::Rect;

#[test]
fn split_vertically_rect_in_two() {
    // Arrange
    let rect = Rect::new(0, 0, 50, 50);
    let expected_rects = vec![Rect::new(0, 0, 25, 50), Rect::new(25, 0, 25, 50)];

    // Act
    let returned_rects = rect.split_vertically(2);

    // Assert
    assert_eq!(expected_rects, returned_rects);
}

#[test]
fn split_vertically_drops_remainder_on_the_right() {
    let rect = Rect::new(2, 1, 50, 40);
    let returned_rects = rect.split_vertically(3);
    assert_eq!(
        returned_rects,
        vec![
            Rect::new(2, 1, 16, 40),
            Rect::new(18, 1, 16, 40),
            Rect::new(34, 1, 16, 40),
        ]
    );
}

#[test]
fn split_vertically_into_one_returns_the_rect() {
    let rect = Rect::new(5, 7, 11, 13);
    assert_eq!(rect.split_vertically(1), vec![Rect::new(5, 7, 11, 13)]);
}
