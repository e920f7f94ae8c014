use rusddit::geometry::Geometry;
use rusddit::item::Item;
use rusddit::render::render;
use rusddit::style::Color;
use rusddit::window::WindowState;

fn item(title: &str) -> Item {
    Item {
        title: String::from(title),
        link_url: None,
        score: 17,
        likes: None,
        created: 1500000000,
        reply_count: 3,
        author: String::from("osirian"),
        subreddit: String::from("rust"),
        nsfw: false,
        flair: None,
    }
}

#[test]
fn empty_list_renders_header_only() {
    let geo = Geometry::new(80, 24, 4, 1);
    let items: Vec<Item> = Vec::new();
    let cmds = render(WindowState::TopAnchored(0, 0, 0), &items, "rust", &geo);
    assert_eq!(cmds.len(), 1);
    assert_eq!((cmds[0].column, cmds[0].row), (1, 1));
    assert_eq!(cmds[0].spans[0].text, "rust");
    assert!(cmds[0].spans[0].style.bold);
    assert_eq!(cmds[0].spans[1].text, " mode=free:t index=0 top=0 bottom=0");
}

#[test]
fn two_items_full_frame() {
    let geo = Geometry::new(80, 24, 4, 1);
    let items = vec![item("first post"), item("second post")];
    let state = WindowState::initial(2, 5);
    let cmds = render(state, &items, "rust", &geo);
    // Header, 9 content lines (4 + 1 blank + 4), 4 highlight rows.
    assert_eq!(cmds.len(), 14);

    // Header diagnostics.
    assert_eq!(cmds[0].spans[1].text, " mode=free:t index=0 top=0 bottom=2");

    // Title lines carry the 1-based ordinal and are bold white.
    assert_eq!(cmds[1].spans[0].text, "1. first post");
    assert!(cmds[1].spans[0].style.bold);
    assert_eq!(cmds[1].spans[0].style.fg, Color::White);
    assert_eq!((cmds[1].column, cmds[1].row), (2, 2));
    assert_eq!(cmds[6].spans[0].text, "2. second post");
    assert_eq!(cmds[6].row, 7);

    // A self post synthesizes its label from the collection name.
    assert_eq!(cmds[2].spans[0].text, "self.rust");
    assert!(cmds[2].spans[0].style.underline);

    // Info line: score, neutral vote glyph, timestamp, comment count.
    assert_eq!(cmds[3].spans[0].text, "17 pts ");
    assert_eq!(cmds[3].spans[1].text, "o");
    assert_eq!(cmds[3].spans[1].style.fg, Color::White);
    assert_eq!(cmds[3].spans[2].text, " 1500000000 - 3 comments");

    // Byline without NSFW marker or flair: five fixed spans plus the
    // separator before the absent flair.
    assert_eq!(cmds[4].spans.len(), 6);
    assert_eq!(cmds[4].spans[0].text, "by ");
    assert_eq!(cmds[4].spans[1].text, "u/osirian");
    assert_eq!(cmds[4].spans[1].style.fg, Color::Green);
    assert_eq!(cmds[4].spans[3].text, "r/rust");
    assert_eq!(cmds[4].spans[3].style.fg, Color::Yellow);

    // The blank separator line is an empty command.
    assert_eq!(cmds[5].spans.len(), 0);
    assert_eq!(cmds[5].row, 6);

    // Highlight bar: 4 rows in column 1 over the selected card.
    for h in 0..4 {
        let cmd = &cmds[10 + h];
        assert_eq!(cmd.column, 1);
        assert_eq!(cmd.row as usize, 2 + h);
        assert_eq!(cmd.spans[0].text, " ");
        assert_eq!(cmd.spans[0].style.bg, Color::White);
    }
}

#[test]
fn vote_glyphs_and_badges() {
    let geo = Geometry::new(80, 24, 4, 1);
    let mut upvoted = item("liked");
    upvoted.likes = Some(true);
    upvoted.nsfw = true;
    upvoted.flair = Some(String::from("serious"));
    upvoted.link_url = Some(String::from("https://example.org/a"));
    let mut downvoted = item("disliked");
    downvoted.likes = Some(false);
    downvoted.score = -4;
    let items = vec![upvoted, downvoted];
    let cmds = render(WindowState::initial(2, 5), &items, "rust", &geo);

    // Link post keeps its own URL.
    assert_eq!(cmds[2].spans[0].text, "https://example.org/a");

    // Upvote: green plus.
    assert_eq!(cmds[3].spans[1].text, "+");
    assert_eq!(cmds[3].spans[1].style.fg, Color::Green);

    // Byline with NSFW marker and flair: all eight spans.
    assert_eq!(cmds[4].spans.len(), 8);
    assert_eq!(cmds[4].spans[5].text, "NSFW");
    assert_eq!(cmds[4].spans[5].style.bg, Color::Red);
    assert_eq!(cmds[4].spans[7].text, "[serious]");
    assert_eq!(cmds[4].spans[7].style.fg, Color::Magenta);

    // Downvote: red minus, negative score.
    assert_eq!(cmds[8].spans[0].text, "-4 pts ");
    assert_eq!(cmds[8].spans[1].text, "-");
    assert_eq!(cmds[8].spans[1].style.fg, Color::Red);
}

#[test]
fn bottom_anchored_keeps_trailing_lines() {
    // 80x12 viewport: 10 content rows, 3 visible cards. Three cards make
    // 14 lines, so the leading 4 are dropped and rows 2..=11 hold the
    // trailing 10.
    let geo = Geometry::new(80, 12, 4, 1);
    let items = vec![item("a"), item("b"), item("c"), item("d"), item("e")];
    let state = WindowState::BottomAnchored(2, 0, 3);
    let cmds = render(state, &items, "rust", &geo);
    assert_eq!(cmds.len(), 1 + 10 + 4);
    // The first kept line is the blank separator after the first card.
    assert_eq!(cmds[1].spans.len(), 0);
    assert_eq!(cmds[1].row, 2);
    // The second card's title follows on the next row.
    assert_eq!(cmds[2].spans[0].text, "2. b");
    assert_eq!(cmds[2].row, 3);
    // Highlight sits over the third card's text rows.
    let last = &cmds[14];
    assert_eq!(last.column, 1);
    assert_eq!(last.row, 11);
}

#[test]
fn top_anchored_drops_overflow_from_bottom() {
    let geo = Geometry::new(80, 12, 4, 1);
    let items = vec![item("a"), item("b"), item("c"), item("d"), item("e")];
    let state = WindowState::TopAnchored(0, 0, 3);
    let cmds = render(state, &items, "rust", &geo);
    // 14 window lines clipped to the leading 10, 4 highlight rows.
    assert_eq!(cmds.len(), 1 + 10 + 4);
    assert_eq!(cmds[1].spans[0].text, "1. a");
    assert_eq!(cmds[1].row, 2);
    // The last kept line is the separator after the second card.
    assert_eq!(cmds[10].spans.len(), 0);
    assert_eq!(cmds[10].row, 11);
}

#[test]
fn centered_window_renders_around_selection() {
    let geo = Geometry::new(80, 24, 4, 1);
    let items = vec![item("a"), item("b"), item("c"), item("d"), item("e"), item("f")];
    let cmds = render(WindowState::Centered(3), &items, "rust", &geo);
    // Window spans [1, 6): the header shows the computed bounds.
    assert_eq!(cmds[0].spans[1].text, " mode=center index=3 top=1 bottom=6");
    assert_eq!(cmds[1].spans[0].text, "2. b");
    // 24 window lines clipped to 22, then 4 highlight rows over the
    // selected card, two cards below the window top.
    assert_eq!(cmds.len(), 1 + 22 + 4);
    assert_eq!(cmds[23].column, 1);
    assert_eq!(cmds[23].row, 12);
    assert_eq!(cmds[26].row, 15);
}

#[test]
fn every_position_stays_inside_the_viewport() {
    let geo = Geometry::new(80, 12, 4, 1);
    let items = vec![item("a"), item("b"), item("c"), item("d"), item("e")];
    let states = [
        WindowState::TopAnchored(0, 0, 3),
        WindowState::BottomAnchored(2, 0, 3),
        WindowState::Centered(4),
    ];
    for state in states {
        let cmds = render(state, &items, "rust", &geo);
        for cmd in &cmds {
            assert!(cmd.column >= 1 && cmd.column <= 80);
            assert!(cmd.row >= 1 && cmd.row <= 12);
        }
    }
}

#[test]
fn viewport_smaller_than_one_card_stops() {
    // Only 3 content rows: the single card's 4 lines are cut after the
    // third, and nothing is placed past the bottom row.
    let geo = Geometry::new(80, 5, 4, 1);
    let items = vec![item("tall")];
    let cmds = render(WindowState::TopAnchored(0, 0, 1), &items, "rust", &geo);
    assert_eq!(cmds.len(), 1 + 3 + 4);
    for cmd in &cmds {
        assert!(cmd.row >= 1 && cmd.row <= 5);
    }
    assert_eq!(cmds[3].row, 4);
}
