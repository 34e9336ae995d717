//! A text field merged with a closed-set option selector.
//!
//! The library holds the text buffer and its cursor, the edit operations,
//! pixel hit-testing over measured prefix widths, horizontal scrolling, and
//! the event state machine that drives them together with the dropdown.
pub mod cursor;
pub mod editor;
pub mod geometry;
pub mod keyboard;
pub mod mouse;
pub mod value;
pub mod widget;
