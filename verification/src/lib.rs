//! The rules of a shared paste board: one text that every visitor reads and
//! overwrites and that lapses after a while, and a second one that stays.
//!
//! The crate holds no sockets and no server. It says what a stored board
//! becomes when a message arrives or a page is asked for, which events are
//! passed on to the other visitors, and what is answered. The clock and the
//! session identifiers come from `chrono` and `uuid`.

pub mod clock;
pub mod lifetime;
pub mod page;
pub mod relay;
pub mod state;
