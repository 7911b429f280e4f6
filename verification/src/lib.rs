//! Rendering and input core of a minimal terminal text viewer: decoding of
//! key presses, cursor motion inside a bounded viewport, frame composition
//! and the decisions around raw terminal mode.

pub mod editor;
pub mod input;
pub mod output;
pub mod terminal;

pub use editor::EditorConfig;
