//! Navigation core of a multi-column ("Miller columns") file browser.
//!
//! Every directory that the user descends into opens a column to the right
//! of its parent's. The crate holds the state behind that display and
//! the rules that change it; reading keys and directories and drawing are
//! left to the caller.
//!
//! - [`entry`]: what a directory listing consists of.
//! - [`level`]: one open directory, with its cursor and scroll position.
//! - [`navigator`]: the stack of open levels and its four operations.
//! - [`input`]: the key table, and the handling of one key press.
//! - [`layout`]: the division of the terminal into columns.
//! - [`frame`]: what each column shows in one frame.
//! - [`laws`]: what holds over any sequence of operations.

pub mod entry;
pub mod frame;
pub mod input;
pub mod laws;
pub mod layout;
pub mod level;
pub mod navigator;
