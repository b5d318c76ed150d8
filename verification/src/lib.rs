//! A virtualized-grid slice server library.
//!
//! A client reports its viewport (screen size, scroll offsets, cell sizing)
//! and the library computes which rectangular slice of a huge conceptual
//! grid is visible, synthesizes spreadsheet-style labels for every cell in
//! that slice, and renders the protocol's JSON replies.

pub mod conn;
pub mod jsonout;
pub mod labels;
pub mod protocol;
pub mod window;
