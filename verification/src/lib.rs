//! State behind the labels of small click-driven windows: a counter that two
//! buttons move up and down, and a font description that a dialog replaces.

pub mod counter;
pub mod decimal;
pub mod font;
