//! Verified core of kcshot: the editor's tools and operation history, colour
//! packing, pixel processing, Markdown-to-Pango rendering and the decisions the
//! screenshot backends make about the display server.

pub mod cli;
pub mod colour;
pub mod editor;
pub mod cursor;
pub mod geometry;
pub mod history;
pub mod markup;
pub mod operations;
pub mod postcapture;
pub mod pixelops;
pub mod screenshot;
pub mod stack;
pub mod text;
pub mod tool;
