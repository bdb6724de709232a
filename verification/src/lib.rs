//! Navigation core of a keyboard-driven terminal browser for a remote
//! directory of radio stations: the focus state machine, the per-panel
//! selection cursors, the incremental search query, and the input
//! dispatcher that maps key presses to transitions.

pub mod ext;
pub mod state;
