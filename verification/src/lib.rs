//! Navigation core of a Miller-column file browser.
//!
//! The library models the browser's state machine: a window of two panes,
//! each listing one directory and tracking a cursor, an active pane index,
//! and the base path anchoring the left pane.  Every transition is verified.
//! Reading a directory is the caller's job: mutating operations return the
//! path whose listing they need, and a companion call installs the entries.

pub mod entry;
pub mod file_list;
pub mod laws;
pub mod nav;
pub mod order;
pub mod paths;
pub mod sorting;

pub use entry::FileInfo;
pub use file_list::FileList;
pub use nav::State;
pub use order::lex_le;
pub use order::name_le;
