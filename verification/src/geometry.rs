//! Viewport geometry: layout constants derived from the terminal size and
//! two configuration numbers (text lines per card, margin lines per card).

use vstd::prelude::*;

verus! {

/// The fixed character grid and the per-card line counts.
///
/// Invariant ([`Geometry::wf`]): the viewport is at least 2 columns wide and
/// strictly more than 2 rows tall, and a card occupies at least one line.
/// [`Geometry::new`] clamps degenerate inputs to these minima instead of
/// letting later arithmetic divide by zero or underflow.
#[derive(Clone, Copy, PartialEq, Eq, Structural)]
pub struct Geometry {
    pub viewport_width: u16,
    pub viewport_height: u16,
    pub card_text_lines: u16,
    pub card_margin_lines: u16,
}

impl Geometry {
    /// Height of one card in lines: its text lines plus its margin lines.
    pub open spec fn spec_card_height(self) -> int {
        self.card_text_lines + self.card_margin_lines
    }

    /// How many cards can be (at least partially) visible at once:
    /// `floor((viewport_height - 2) / card_height) + 1`.
    pub open spec fn spec_max_visible_cards(self) -> int {
        (self.viewport_height - 2) / self.spec_card_height() + 1
    }

    /// Well-formedness: no degenerate grid, no zero-height card.
    pub open spec fn wf(self) -> bool {
        &&& self.viewport_width >= 2
        &&& self.viewport_height > 2
        &&& self.spec_card_height() >= 1
        &&& self.spec_card_height() <= u16::MAX
    }

    /// Builds a geometry, clamping degenerate inputs to a safe minimum:
    /// a viewport narrower than 2 columns or not taller than 2 rows is
    /// widened/heightened to the minimum, a zero-height card is given one
    /// text line, and an oversized margin is reduced so the card height
    /// still fits in `u16`.
    pub fn new(viewport_width: u16, viewport_height: u16, card_text_lines: u16, card_margin_lines: u16) -> (g: Geometry)
        ensures
            g.wf(),
            viewport_width >= 2 ==> g.viewport_width == viewport_width,
            viewport_height > 2 ==> g.viewport_height == viewport_height,
            1 <= card_text_lines + card_margin_lines <= u16::MAX ==> {
                &&& g.card_text_lines == card_text_lines
                &&& g.card_margin_lines == card_margin_lines
            },
    {
        let width = if viewport_width < 2 { 2 } else { viewport_width };
        let height = if viewport_height <= 2 { 3 } else { viewport_height };
        let text = if card_text_lines == 0 && card_margin_lines == 0 { 1 } else { card_text_lines };
        let margin = if (text as u32) + (card_margin_lines as u32) > u16::MAX as u32 {
            u16::MAX - text
        } else {
            card_margin_lines
        };
        Geometry { viewport_width: width, viewport_height: height, card_text_lines: text, card_margin_lines: margin }
    }

    /// Height of one card in lines.
    pub fn card_height(&self) -> (h: u16)
        requires
            self.wf(),
        ensures
            h == self.spec_card_height(),
            h >= 1,
    {
        self.card_text_lines + self.card_margin_lines
    }

    /// How many cards fit in the viewport, counting a final partial card.
    /// Always at least 1; at least 2 whenever a whole card fits above the
    /// final partial one.
    pub fn max_visible_cards(&self) -> (n: u16)
        requires
            self.wf(),
        ensures
            n == self.spec_max_visible_cards(),
            n >= 1,
    {
        let h = self.viewport_height - 2;
        let c = self.card_height();
        (h / c) + 1
    }
}

} // verus!
