use rusddit::window::{NavCommand, WindowState};

#[test]
fn initial_window_is_top_anchored_at_zero() {
    let s = WindowState::initial(10, 5);
    assert_eq!(s, WindowState::TopAnchored(0, 0, 5));
}

#[test]
fn initial_window_clamps_to_item_count() {
    // 3 items with room for 5 cards: the window stops at the list's end.
    let s = WindowState::initial(3, 5);
    assert_eq!(s, WindowState::TopAnchored(0, 0, 3));
}

#[test]
fn initial_window_single_item() {
    let s = WindowState::initial(1, 5);
    assert_eq!(s, WindowState::TopAnchored(0, 0, 1));
}

#[test]
fn advance_walks_down_then_flips_anchor() {
    // An 80x24 viewport with 5-line cards shows 5 cards. Walking down
    // from the top: the bounds stay fixed until the selection reaches the
    // boundary row, where the anchor flips; the next step shifts the
    // window.
    let mut s = WindowState::initial(10, 5);
    s = s.advance(10, 5);
    assert_eq!(s, WindowState::TopAnchored(1, 0, 5));
    s = s.advance(10, 5);
    assert_eq!(s, WindowState::TopAnchored(2, 0, 5));
    s = s.advance(10, 5);
    assert_eq!(s, WindowState::TopAnchored(3, 0, 5));
    s = s.advance(10, 5);
    assert_eq!(s, WindowState::BottomAnchored(4, 0, 5));
    s = s.advance(10, 5);
    assert_eq!(s, WindowState::BottomAnchored(5, 1, 6));
}

#[test]
fn retreat_walks_up_then_flips_anchor() {
    let mut s = WindowState::BottomAnchored(5, 1, 6);
    s = s.retreat(10, 5);
    assert_eq!(s, WindowState::BottomAnchored(4, 1, 6));
    s = s.retreat(10, 5);
    assert_eq!(s, WindowState::BottomAnchored(3, 1, 6));
    s = s.retreat(10, 5);
    assert_eq!(s, WindowState::BottomAnchored(2, 1, 6));
    // Selection reaches the top row: the anchor flips with the same bounds.
    s = s.retreat(10, 5);
    assert_eq!(s, WindowState::TopAnchored(1, 1, 6));
    // One more step shifts the window up.
    s = s.retreat(10, 5);
    assert_eq!(s, WindowState::TopAnchored(0, 0, 5));
}

#[test]
fn advance_then_retreat_round_trips_selection() {
    let s = WindowState::TopAnchored(3, 0, 5);
    let forward = s.advance(10, 5);
    let back = forward.retreat(10, 5);
    assert_eq!(back.selected(), s.selected());
}

#[test]
fn retreat_at_zero_reaches_fixed_point() {
    // From a bottom-anchored window the first retreat still flips the
    // anchor; after that the state stops changing.
    let s = WindowState::BottomAnchored(0, 0, 5);
    let once = s.retreat(10, 5);
    assert_eq!(once, WindowState::TopAnchored(0, 0, 5));
    let twice = once.retreat(10, 5);
    assert_eq!(twice, once);
    let thrice = twice.retreat(10, 5);
    assert_eq!(thrice, twice);
}

#[test]
fn advance_clamped_stops_at_last_item() {
    // The boundary contract: the caller-facing transition refuses to move
    // past the last item, leaving the state untouched.
    let s = WindowState::BottomAnchored(9, 5, 10);
    let t = s.advance_clamped(10, 5);
    assert_eq!(t, s);
}

#[test]
fn advance_clamped_moves_before_last_item() {
    let s = WindowState::TopAnchored(0, 0, 5);
    let t = s.advance_clamped(10, 5);
    assert_eq!(t, WindowState::TopAnchored(1, 0, 5));
}

#[test]
fn centered_moves_without_bounds() {
    let s = WindowState::Centered(3);
    assert_eq!(s.advance(10, 5), WindowState::Centered(4));
    assert_eq!(s.retreat(10, 5), WindowState::Centered(2));
    assert_eq!(WindowState::Centered(0).retreat(10, 5), WindowState::Centered(0));
}

#[test]
fn commands_drive_the_machine() {
    let s = WindowState::TopAnchored(0, 0, 5);
    let next = s.apply(NavCommand::Next, 10, 5);
    assert_eq!(next, WindowState::TopAnchored(1, 0, 5));
    let back = next.apply(NavCommand::Previous, 10, 5);
    assert_eq!(back, WindowState::TopAnchored(0, 0, 5));
    assert_eq!(s.apply(NavCommand::Ignore, 10, 5), s);
    assert_eq!(s.apply(NavCommand::Quit, 10, 5), s);
    // Next at the last item is clamped, not applied.
    let end = WindowState::BottomAnchored(9, 5, 10);
    assert_eq!(end.apply(NavCommand::Next, 10, 5), end);
}
