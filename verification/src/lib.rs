//! The core of a small terminal text viewer: a cursor that stays inside a
//! fixed grid, a scroll offset into the lines of a document, and the frame
//! that shows both on a terminal.

pub mod cursor;
pub mod editor;
pub mod render;
pub mod session;
pub mod terminal;
pub mod text;
