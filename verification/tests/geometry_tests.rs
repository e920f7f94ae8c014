use rusddit::geometry::Geometry;

#[test]
fn standard_terminal_layout() {
    // 80x24 viewport, 4 text lines and 1 margin line per card:
    // card height 5, floor(22 / 5) + 1 = 5 visible cards.
    let g = Geometry::new(80, 24, 4, 1);
    assert_eq!(g.card_height(), 5);
    assert_eq!(g.max_visible_cards(), 5);
}

#[test]
fn small_terminal_layout() {
    let g = Geometry::new(80, 12, 4, 1);
    assert_eq!(g.card_height(), 5);
    assert_eq!(g.max_visible_cards(), 3);
}

#[test]
fn degenerate_inputs_are_clamped() {
    // A zero-sized viewport and a zero-height card are clamped to the
    // safe minimum instead of dividing by zero later.
    let g = Geometry::new(0, 0, 0, 0);
    assert_eq!(g.viewport_width, 2);
    assert_eq!(g.viewport_height, 3);
    assert_eq!(g.card_height(), 1);
    assert_eq!(g.max_visible_cards(), 2);
}

#[test]
fn oversized_card_margin_is_reduced() {
    let g = Geometry::new(80, 24, 2, u16::MAX);
    assert_eq!(g.card_text_lines, 2);
    assert_eq!(g.card_margin_lines, u16::MAX - 2);
    assert_eq!(g.card_height(), u16::MAX);
}

#[test]
fn viewport_shorter_than_one_card() {
    // Only a partial card fits: the capacity formula still yields 1.
    let g = Geometry::new(80, 5, 4, 1);
    assert_eq!(g.max_visible_cards(), 1);
}
