//! Core of a terminal card viewer: a scrollable, paginated display of
//! multi-line text records inside a fixed character grid.
//!
//! The library owns the three pieces with real design decisions:
//! viewport geometry ([`geometry`]), the cursor/window state machine
//! ([`window`]), and the layout-to-cell renderer ([`render`]).
//! Fetching items, raw-mode terminal handling and keystroke decoding are
//! external collaborators; the library only decides which items are
//! visible and where each line of text lands on the grid.

pub mod geometry;
pub mod item;
pub mod render;
pub mod style;
pub mod text;
pub mod window;
