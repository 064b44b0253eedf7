//! Score keeping for four-player Doppelkopf sessions: selectable lists,
//! round records with their scoring rule, the player roster, and the
//! keystroke-driven interaction state machine.

pub mod error;
pub mod list;
pub mod round;
pub mod session;
pub mod machine;
