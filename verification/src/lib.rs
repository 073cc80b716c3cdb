//! The decision core of a file manager's preview pane.
//!
//! Given the selected entry, the leading bytes of its file and the content
//! sniffer's guess, the crate decides what the pane shows: the file as an image,
//! an excerpt of its text, a generic icon for its media type, or nothing at all.
//! Reading the file, sniffing it and drawing the result are the caller's part.

pub mod content_block;
pub mod decision;
pub mod media_type;
pub mod model;
