//! The renderer: turns a window state, an item sequence and a geometry
//! into one full-screen frame of placement commands.
//!
//! A frame is: a header line on row 1 showing the collection name and the
//! window diagnostics, one text block per visible item clipped to the
//! viewport, and a highlight bar over the selected item's rows. Clearing
//! the screen and writing the commands belong to the terminal
//! collaborator; the renderer is side-effect-free.

use crate::geometry::Geometry;
use crate::item::{Item, ItemModel};
use crate::style::{Color, FrameCommand, FrameCommandModel, Span, SpanModel, Style};
use crate::text::{dec, spec_dec, spec_udec, udec};
use crate::window::WindowState;
use vstd::math::{max, min};
use vstd::prelude::*;
use vstd::string::StringExecFns;

verus! {

broadcast use vstd::prelude::Seq::lemma_push_map_commute;

/// The model of one rendered line: its spans.
pub open spec fn line_model(l: Vec<Span>) -> Seq<SpanModel> {
    l@.map_values(|s: Span| s@)
}

/// The model of a list of rendered lines.
pub open spec fn lines_model(ls: Vec<Vec<Span>>) -> Seq<Seq<SpanModel>> {
    ls@.map_values(|l: Vec<Span>| line_model(l))
}

/// The title line of a card: `<ordinal>. <title>`, bold white. The ordinal
/// is the item's 1-based position in the whole list.
pub open spec fn spec_title_line(index: int, it: ItemModel) -> Seq<SpanModel> {
    seq![
        SpanModel {
            style: Style { fg: Color::White, bg: Color::Default, bold: true, underline: false },
            text: spec_udec(index + 1).add(". "@).add(it.title),
        },
    ]
}

/// The link line of a card: the permalink of a link post, else the
/// synthesized `self.<collection>` label; blue and underlined.
pub open spec fn spec_link_line(it: ItemModel, collection: Seq<char>) -> Seq<SpanModel> {
    seq![
        SpanModel {
            style: Style { fg: Color::Blue, bg: Color::Default, bold: false, underline: true },
            text: match it.link_url {
                Some(url) => url,
                None => "self."@.add(collection),
            },
        },
    ]
}

/// The vote glyph: `+` upvoted, `-` downvoted, `o` neutral.
pub open spec fn spec_vote_glyph(likes: Option<bool>) -> Seq<char> {
    match likes {
        Some(true) => "+"@,
        Some(false) => "-"@,
        None => "o"@,
    }
}

/// The vote glyph's color: green upvoted, red downvoted, white neutral.
pub open spec fn spec_vote_color(likes: Option<bool>) -> Color {
    match likes {
        Some(true) => Color::Green,
        Some(false) => Color::Red,
        None => Color::White,
    }
}

/// The info line of a card:
/// `<score> pts <vote-glyph> <created> - <comment-count> comments`,
/// white, with the vote glyph in its own color.
pub open spec fn spec_info_line(it: ItemModel) -> Seq<SpanModel> {
    seq![
        SpanModel {
            style: Style::spec_fg(Color::White),
            text: spec_dec(it.score).add(" pts "@),
        },
        SpanModel { style: Style::spec_fg(spec_vote_color(it.likes)), text: spec_vote_glyph(it.likes) },
        SpanModel {
            style: Style::spec_fg(Color::White),
            text: " "@.add(spec_dec(it.created)).add(" - "@).add(spec_udec(it.reply_count)).add(
                " comments"@,
            ),
        },
    ]
}

/// The byline of a card: `by u/<author> in r/<subreddit>` with an optional
/// `NSFW` marker and an optional `[<flair>]` badge, each dropped when
/// absent.
pub open spec fn spec_byline(it: ItemModel) -> Seq<SpanModel> {
    seq![
        SpanModel { style: Style::spec_fg(Color::White), text: "by "@ },
        SpanModel { style: Style::spec_fg(Color::Green), text: "u/"@.add(it.author) },
        SpanModel { style: Style::spec_fg(Color::White), text: " in "@ },
        SpanModel { style: Style::spec_fg(Color::Yellow), text: "r/"@.add(it.subreddit) },
        SpanModel { style: Style::spec_fg(Color::White), text: " "@ },
    ].add(
        if it.nsfw {
            seq![
                SpanModel {
                    style: Style { fg: Color::Default, bg: Color::Red, bold: false, underline: false },
                    text: "NSFW"@,
                },
            ]
        } else {
            Seq::empty()
        },
    ).add(seq![SpanModel { style: Style::spec_fg(Color::White), text: " "@ }]).add(
        match it.flair {
            Some(flair) => seq![
                SpanModel { style: Style::spec_fg(Color::Magenta), text: "["@.add(flair).add("]"@) },
            ],
            None => Seq::empty(),
        },
    )
}

/// The four content lines of one card.
pub open spec fn spec_card_lines(it: ItemModel, index: int, collection: Seq<char>) -> Seq<
    Seq<SpanModel>,
> {
    seq![
        spec_title_line(index, it),
        spec_link_line(it, collection),
        spec_info_line(it),
        spec_byline(it),
    ]
}

/// `margin` empty separator lines.
pub open spec fn spec_blank_lines(margin: int) -> Seq<Seq<SpanModel>> {
    Seq::new(margin as nat, |i: int| Seq::<SpanModel>::empty())
}

/// All lines of the window `[first, last)`: the cards' content lines with
/// `margin` blank lines separating consecutive cards (none after the last).
pub open spec fn spec_window_lines(
    items: Seq<ItemModel>,
    first: int,
    last: int,
    collection: Seq<char>,
    margin: int,
) -> Seq<Seq<SpanModel>>
    decreases last - first,
{
    if last <= first {
        Seq::empty()
    } else if last == first + 1 {
        spec_card_lines(items[first], first, collection)
    } else {
        spec_window_lines(items, first, last - 1, collection, margin).add(
            spec_blank_lines(margin),
        ).add(spec_card_lines(items[last - 1], last - 1, collection))
    }
}

/// The header's variant name: `free:t`, `free:b` or `center`.
pub open spec fn spec_mode_text(state: WindowState) -> Seq<char> {
    match state {
        WindowState::TopAnchored(..) => "free:t"@,
        WindowState::BottomAnchored(..) => "free:b"@,
        WindowState::Centered(..) => "center"@,
    }
}

/// The first index of the rendered window: the stored bound for the
/// anchored variants; for `Centered`, half the viewport capacity above the
/// selection, clamped at 0.
pub open spec fn spec_window_first(
    state: WindowState,
    max_visible: int,
    item_count: int,
) -> int {
    match state {
        WindowState::TopAnchored(_, t, _) => t as int,
        WindowState::BottomAnchored(_, t, _) => t as int,
        WindowState::Centered(c) => max(c - max_visible / 2, 0),
    }
}

/// The one-past-the-end index of the rendered window: the stored bound for
/// the anchored variants; for `Centered`, a full window below its first
/// index, clamped to the item count.
pub open spec fn spec_window_last(
    state: WindowState,
    max_visible: int,
    item_count: int,
) -> int {
    match state {
        WindowState::TopAnchored(_, _, b) => b as int,
        WindowState::BottomAnchored(_, _, b) => b as int,
        WindowState::Centered(c) => min(
            spec_window_first(state, max_visible, item_count) + max_visible,
            item_count,
        ),
    }
}

/// The header command: row 1, column 1; the collection name in bold, then
/// the window diagnostics (variant name, selected index, window bounds).
pub open spec fn spec_header(
    state: WindowState,
    collection: Seq<char>,
    first: int,
    last: int,
) -> FrameCommandModel {
    FrameCommandModel {
        column: 1,
        row: 1,
        spans: seq![
            SpanModel {
                style: Style { fg: Color::Default, bg: Color::Default, bold: true, underline: false },
                text: collection,
            },
            SpanModel {
                style: Style::spec_plain(),
                text: " mode="@.add(spec_mode_text(state)).add(" index="@).add(
                    spec_udec(state.spec_selected()),
                ).add(" top="@).add(spec_udec(first)).add(" bottom="@).add(spec_udec(last)),
            },
        ],
    }
}

/// Copies a line span by span.
fn clone_spans(l: &Vec<Span>) -> (r: Vec<Span>)
    ensures
        line_model(r) == line_model(*l),
{
    let mut r: Vec<Span> = Vec::new();
    let mut i: usize = 0;
    while i < l.len()
        invariant
            i <= l.len(),
            r@.len() == i,
            line_model(r) =~~= line_model(*l).take(i as int),
        decreases l.len() - i,
    {
        let s = &l[i];
        let text = s.text.clone();
        proof {
            assert(text@ == s.text@);
        }
        let sp = Span { style: s.style, text };
        proof {
            assert(sp@ =~~= l@[i as int]@);
        }
        r.push(sp);
        proof {
            assert(r@.len() == i + 1);
            assert(line_model(*l)[i as int] == l@[i as int]@);
            assert(r@[i as int]@ =~~= line_model(*l)[i as int]);
            assert(line_model(r) =~~= line_model(*l).take(i + 1));
        }
        i += 1;
    }
    proof {
        assert(line_model(*l).take(l@.len() as int) =~~= line_model(*l));
    }
    r
}

/// Builds the title line of the card at `index`.
fn title_line(index: u16, it: &Item) -> (l: Vec<Span>)
    requires
        index < u16::MAX,
    ensures
        line_model(l) == spec_title_line(index as int, it@),
{
    let mut text = udec((index as u64) + 1);
    text.append(". ");
    text.append(it.title.as_str());
    let style = Style { fg: Color::White, bg: Color::Default, bold: true, underline: false };
    let l = vec![Span { style, text }];
    proof {
        assert(line_model(l) =~~= spec_title_line(index as int, it@));
    }
    l
}

/// Builds the link line of a card.
fn link_line(it: &Item, collection: &str) -> (l: Vec<Span>)
    ensures
        line_model(l) == spec_link_line(it@, collection@),
{
    let text = match &it.link_url {
        Some(url) => url.clone(),
        None => {
            let mut s = String::from_str("self.");
            s.append(collection);
            s
        },
    };
    let style = Style { fg: Color::Blue, bg: Color::Default, bold: false, underline: true };
    let l = vec![Span { style, text }];
    proof {
        assert(line_model(l) =~~= spec_link_line(it@, collection@));
    }
    l
}

/// Builds the info line of a card.
fn info_line(it: &Item) -> (l: Vec<Span>)
    ensures
        line_model(l) == spec_info_line(it@),
{
    let mut score_text = dec(it.score);
    score_text.append(" pts ");
    let (glyph, color) = match it.likes {
        Some(true) => ("+", Color::Green),
        Some(false) => ("-", Color::Red),
        None => ("o", Color::White),
    };
    let mut rest = String::from_str(" ");
    rest.append(dec(it.created).as_str());
    rest.append(" - ");
    rest.append(udec(it.reply_count).as_str());
    rest.append(" comments");
    let l = vec![
        Span { style: Style::colored(Color::White), text: score_text },
        Span { style: Style::colored(color), text: String::from_str(glyph) },
        Span { style: Style::colored(Color::White), text: rest },
    ];
    proof {
        assert(line_model(l) =~~= spec_info_line(it@));
    }
    l
}

/// Builds the byline of a card.
fn byline(it: &Item) -> (l: Vec<Span>)
    ensures
        line_model(l) == spec_byline(it@),
{
    let mut author = String::from_str("u/");
    author.append(it.author.as_str());
    let mut sub = String::from_str("r/");
    sub.append(it.subreddit.as_str());
    let mut l = vec![
        Span { style: Style::colored(Color::White), text: String::from_str("by ") },
        Span { style: Style::colored(Color::Green), text: author },
        Span { style: Style::colored(Color::White), text: String::from_str(" in ") },
        Span { style: Style::colored(Color::Yellow), text: sub },
        Span { style: Style::colored(Color::White), text: String::from_str(" ") },
    ];
    if it.nsfw {
        let style = Style { fg: Color::Default, bg: Color::Red, bold: false, underline: false };
        l.push(Span { style, text: String::from_str("NSFW") });
    }
    l.push(Span { style: Style::colored(Color::White), text: String::from_str(" ") });
    match &it.flair {
        Some(flair) => {
            let mut text = String::from_str("[");
            text.append(flair.as_str());
            text.append("]");
            l.push(Span { style: Style::colored(Color::Magenta), text });
        },
        None => {},
    }
    proof {
        assert(line_model(l) =~~= spec_byline(it@));
    }
    l
}

/// For any valid state the rendered window contains the selection and
/// stays inside the item list: `first <= selected < last <= item_count`,
/// no wider than `max_visible`.
pub proof fn lemma_window_bounds_valid(
    state: WindowState,
    item_count: int,
    max_visible: int,
)
    requires
        state.wf(item_count, max_visible),
        max_visible >= 1,
    ensures
        0 <= spec_window_first(state, max_visible, item_count),
        spec_window_first(state, max_visible, item_count) <= state.spec_selected(),
        state.spec_selected() < spec_window_last(state, max_visible, item_count),
        spec_window_last(state, max_visible, item_count) <= item_count,
        spec_window_last(state, max_visible, item_count) - spec_window_first(
            state,
            max_visible,
            item_count,
        ) <= max_visible,
{
}

/// Computes the rendered window bounds for a state.
fn window_bounds(state: WindowState, item_count: u16, max_visible: u16) -> (r: (
    u16,
    u16,
))
    ensures
        r.0 == spec_window_first(state, max_visible as int, item_count as int),
        r.1 == spec_window_last(state, max_visible as int, item_count as int),
{
    match state {
        WindowState::TopAnchored(_, t, b) => (t, b),
        WindowState::BottomAnchored(_, t, b) => (t, b),
        WindowState::Centered(c) => {
            let half = max_visible / 2;
            let first = if c >= half {
                c - half
            } else {
                0
            };
            let below = (first as u32) + (max_visible as u32);
            let last = if below < (item_count as u32) {
                below as u16
            } else {
                item_count
            };
            (first, last)
        },
    }
}

/// Builds the header command.
fn header_command(
    state: WindowState,
    collection: &str,
    first: u16,
    last: u16,
) -> (cmd: FrameCommand)
    ensures
        cmd@ == spec_header(state, collection@, first as int, last as int),
{
    let mode = match state {
        WindowState::TopAnchored(..) => "free:t",
        WindowState::BottomAnchored(..) => "free:b",
        WindowState::Centered(..) => "center",
    };
    let mut text = String::from_str(" mode=");
    text.append(mode);
    text.append(" index=");
    text.append(udec(state.selected() as u64).as_str());
    text.append(" top=");
    text.append(udec(first as u64).as_str());
    text.append(" bottom=");
    text.append(udec(last as u64).as_str());
    let title_style = Style { fg: Color::Default, bg: Color::Default, bold: true, underline: false };
    let cmd = FrameCommand {
        column: 1,
        row: 1,
        spans: vec![
            Span { style: title_style, text: String::from_str(collection) },
            Span { style: Style::plain(), text },
        ],
    };
    proof {
        assert(cmd@ =~~= spec_header(state, collection@, first as int, last as int));
    }
    cmd
}

/// The style of the highlight bar: a white-background cell.
pub open spec fn spec_highlight_style() -> Style {
    Style { fg: Color::Default, bg: Color::White, bold: false, underline: false }
}

/// One highlight cell: a white-background space in column 1 of `row`.
pub open spec fn spec_highlight_cmd(row: int) -> FrameCommandModel {
    FrameCommandModel {
        column: 1,
        row,
        spans: seq![SpanModel { style: spec_highlight_style(), text: " "@ }],
    }
}

/// The highlight commands for bar rows `0..i`: bar row `p` sits at line
/// offset `p + sel_off * card_height` of the window's line list; offsets
/// clipped away (before `drop` or more than `avail` past it) are skipped.
pub open spec fn spec_highlight_upto(
    i: int,
    sel_off: int,
    card_height: int,
    drop: int,
    avail: int,
) -> Seq<FrameCommandModel>
    decreases i,
{
    if i <= 0 {
        Seq::empty()
    } else {
        let pos = (i - 1) + sel_off * card_height;
        spec_highlight_upto(i - 1, sel_off, card_height, drop, avail).add(
            if drop <= pos && pos - drop <= avail {
                seq![spec_highlight_cmd(pos - drop + 2)]
            } else {
                Seq::empty()
            },
        )
    }
}

/// The whole frame for a state, an item sequence and a geometry: the
/// header; for a non-empty list also the window's lines — clipped to the
/// rows below the header, keeping the trailing lines for a bottom-anchored
/// window and the leading lines otherwise — and the highlight bar over the
/// selected card's text rows.
pub open spec fn spec_frame(
    state: WindowState,
    items: Seq<ItemModel>,
    collection: Seq<char>,
    geo: Geometry,
) -> Seq<FrameCommandModel> {
    let count = items.len() as int;
    let mv = geo.spec_max_visible_cards();
    let first = spec_window_first(state, mv, count);
    let last = spec_window_last(state, mv, count);
    let header = spec_header(state, collection, first, last);
    if count == 0 {
        seq![header]
    } else {
        let lines = spec_window_lines(items, first, last, collection, geo.card_margin_lines as int);
        let total = lines.len() as int;
        let avail = geo.viewport_height - 2;
        let drop = if (state is BottomAnchored) && total > avail {
            total - avail
        } else {
            0
        };
        let keep = if total - drop > avail {
            avail
        } else {
            total - drop
        };
        let content = Seq::new(
            keep as nat,
            |k: int| FrameCommandModel { column: 2, row: k + 2, spans: lines[drop + k] },
        );
        let highlight = spec_highlight_upto(
            geo.card_text_lines as int,
            state.spec_selected() - first,
            geo.spec_card_height(),
            drop,
            avail,
        );
        seq![header].add(content).add(highlight)
    }
}

/// Renders one full frame.
///
/// The returned command sequence is exactly [`spec_frame`]; every command
/// stays inside the viewport (1-based columns and rows), and an empty item
/// list yields the header alone.
pub fn render(
    state: WindowState,
    items: &Vec<Item>,
    collection: &str,
    geo: &Geometry,
) -> (cmds: Vec<FrameCommand>)
    requires
        geo.wf(),
        items@.len() <= u16::MAX,
        items@.len() > 0 ==> state.wf(items@.len() as int, geo.spec_max_visible_cards()),
    ensures
        cmds@.map_values(|c: FrameCommand| c@) == spec_frame(
            state,
            items@.map_values(|it: Item| it@),
            collection@,
            *geo,
        ),
        forall|q: int|
            0 <= q < cmds@.len() ==> {
                &&& 1 <= (#[trigger] cmds@[q])@.column <= geo.viewport_width
                &&& 1 <= cmds@[q]@.row <= geo.viewport_height
            },
        items@.len() == 0 ==> cmds@.len() == 1,
{
    let ghost itemsv = items@.map_values(|it: Item| it@);
    let count = items.len();
    let max_visible = geo.max_visible_cards();
    let (first, last) = window_bounds(state, count as u16, max_visible);
    let mut cmds: Vec<FrameCommand> = Vec::new();
    cmds.push(header_command(state, collection, first, last));
    if count == 0 {
        proof {
            assert(itemsv.len() == 0);
            assert(cmds@.map_values(|c: FrameCommand| c@) =~~= spec_frame(
                state,
                itemsv,
                collection@,
                *geo,
            ));
        }
        return cmds;
    }
    proof {
        lemma_window_bounds_valid(state, count as int, max_visible as int);
    }
    let margin = geo.card_margin_lines;
    let mut lines: Vec<Vec<Span>> = Vec::new();
    let mut idx = first;
    while idx < last
        invariant
            first <= idx <= last,
            count == items@.len(),
            0 < count <= u16::MAX,
            itemsv == items@.map_values(|it: Item| it@),
            last <= count,
            lines_model(lines) == spec_window_lines(
                itemsv,
                first as int,
                idx as int,
                collection@,
                margin as int,
            ),
        decreases last - idx,
    {
        if idx > first {
            let ghost before = lines_model(lines);
            let mut j: u16 = 0;
            while j < margin
                invariant
                    j <= margin,
                    lines@.len() == before.len() + j,
                    lines_model(lines) == before.add(spec_blank_lines(j as int)),
                decreases margin - j,
            {
                lines.push(Vec::new());
                proof {
                    assert(lines_model(lines).len() == lines@.len());
                    assert(lines_model(lines) =~~= before.add(spec_blank_lines(j + 1)));
                }
                j += 1;
            }
        }
        let it = &items[idx as usize];
        proof {
            assert(itemsv[idx as int] == items@[idx as int]@);
        }
        lines.push(title_line(idx, it));
        lines.push(link_line(it, collection));
        lines.push(info_line(it));
        lines.push(byline(it));
        proof {
            if idx == first {
                assert(lines_model(lines) =~~= spec_card_lines(
                    itemsv[first as int],
                    first as int,
                    collection@,
                ));
            } else {
                assert(lines_model(lines) =~~= spec_window_lines(
                    itemsv,
                    first as int,
                    idx as int,
                    collection@,
                    margin as int,
                ).add(spec_blank_lines(margin as int)).add(
                    spec_card_lines(itemsv[idx as int], idx as int, collection@),
                ));
            }
            assert(lines_model(lines) =~~= spec_window_lines(
                itemsv,
                first as int,
                idx + 1,
                collection@,
                margin as int,
            ));
        }
        idx += 1;
    }
    let total = lines.len();
    let avail = (geo.viewport_height - 2) as usize;
    let is_bottom = matches!(state, WindowState::BottomAnchored(..));
    let drop = if is_bottom && total > avail {
        total - avail
    } else {
        0
    };
    let keep = if total - drop > avail {
        avail
    } else {
        total - drop
    };
    let ghost headerm = spec_header(state, collection@, first as int, last as int);
    let ghost linesm = lines_model(lines);
    let mut k: usize = 0;
    while k < keep
        invariant
            k <= keep,
            cmds@.len() == 1 + k,
            keep <= avail,
            drop + keep <= total,
            total == lines@.len(),
            avail == geo.viewport_height - 2,
            geo.wf(),
            linesm == lines_model(lines),
            cmds@.map_values(|c: FrameCommand| c@) == seq![headerm].add(
                Seq::new(
                    k as nat,
                    |kk: int| FrameCommandModel { column: 2, row: kk + 2, spans: linesm[drop + kk] },
                ),
            ),
            forall|q: int|
                0 <= q < cmds@.len() ==> {
                    &&& 1 <= (#[trigger] cmds@[q])@.column <= geo.viewport_width
                    &&& 1 <= cmds@[q]@.row <= geo.viewport_height
                },
        decreases keep - k,
    {
        let spans = clone_spans(&lines[drop + k]);
        let row = (k + 2) as u16;
        cmds.push(FrameCommand { column: 2, row, spans });
        proof {
            assert(linesm[(drop + k) as int] == line_model(lines@[(drop + k) as int]));
            assert(cmds@.map_values(|c: FrameCommand| c@).len() == cmds@.len());
            assert(cmds@.map_values(|c: FrameCommand| c@) =~~= seq![headerm].add(
                Seq::new(
                    (k + 1) as nat,
                    |kk: int| FrameCommandModel { column: 2, row: kk + 2, spans: linesm[drop + kk] },
                ),
            ));
        }
        k += 1;
    }
    let ghost contentm = Seq::new(
        keep as nat,
        |kk: int| FrameCommandModel { column: 2, row: kk + 2, spans: linesm[drop + kk] },
    );
    let sel = state.selected();
    let sel_off = sel - first;
    let ch = geo.card_height();
    let ctext = geo.card_text_lines;
    let mut i: u16 = 0;
    while i < ctext
        invariant
            i <= ctext,
            cmds@.len() == 1 + keep + spec_highlight_upto(
                i as int,
                sel_off as int,
                ch as int,
                drop as int,
                avail as int,
            ).len(),
            sel_off <= u16::MAX,
            ch <= u16::MAX,
            drop <= total,
            avail == geo.viewport_height - 2,
            geo.wf(),
            cmds@.map_values(|c: FrameCommand| c@) == seq![headerm].add(contentm).add(
                spec_highlight_upto(i as int, sel_off as int, ch as int, drop as int, avail as int),
            ),
            forall|q: int|
                0 <= q < cmds@.len() ==> {
                    &&& 1 <= (#[trigger] cmds@[q])@.column <= geo.viewport_width
                    &&& 1 <= cmds@[q]@.row <= geo.viewport_height
                },
        decreases ctext - i,
    {
        proof {
            assert((sel_off as int) * (ch as int) <= 65535 * 65535) by (nonlinear_arith)
                requires
                    sel_off <= 65535,
                    ch <= 65535,
            ;
        }
        let pos: u64 = (i as u64) + (sel_off as u64) * (ch as u64);
        if (drop as u64) <= pos && pos - (drop as u64) <= (avail as u64) {
            let row = (pos - (drop as u64) + 2) as u16;
            let style = Style { fg: Color::Default, bg: Color::White, bold: false, underline: false };
            let spans = vec![Span { style, text: String::from_str(" ") }];
            cmds.push(FrameCommand { column: 1, row, spans });
        }
        proof {
            assert(cmds@.map_values(|c: FrameCommand| c@).len() == cmds@.len());
            assert(cmds@.map_values(|c: FrameCommand| c@) =~~= seq![headerm].add(contentm).add(
                spec_highlight_upto(
                    i + 1,
                    sel_off as int,
                    ch as int,
                    drop as int,
                    avail as int,
                ),
            ));
        }
        i += 1;
    }
    proof {
        assert(cmds@.map_values(|c: FrameCommand| c@) =~~= spec_frame(
            state,
            itemsv,
            collection@,
            *geo,
        ));
    }
    cmds
}

} // verus!
