//! Inbox resolution and presentation for a messaging command line: relative
//! ages of timestamps, thread summaries, target resolution and the line-by-line
//! content of the inbox and thread views.

pub mod account;
pub mod flow;
pub mod inbox;
pub mod lines;
pub mod model;
pub mod resolve;
pub mod style;
pub mod summary;
pub mod text;
pub mod time;
