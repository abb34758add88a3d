//! Backyupy: the decision logic of a small terminal back-up selector.
//!
//! The library holds what the tool decides: how a directory listing is built
//! and ordered, which paths are marked to be left out of the back-up, which
//! disks can be chosen as a destination, and how the two-pane browser reacts
//! to each key. Reading directories and disks, drawing the screen and writing
//! the configuration file are done by the program around it.

pub mod byte_order;
pub mod fs_ops;
pub mod ui;
