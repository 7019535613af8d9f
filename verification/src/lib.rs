//! Navigation and viewport engine of a terminal explorer for columnar data
//! files.
//!
//! The library decides what is selected and what is on show, and how a key
//! changes that. It reads no keyboard and paints no screen: the caller hands
//! it events and draws what it describes.
//!
//! - `viewport`: where a scrolled list starts so that it shows the selection.
//! - `state`: the navigation state of a session and its operations.
//! - `tabs`: the five views, their bindings and hints.
//! - `coordinator`: the session, which routes keys to overlays and views.
//! - `ui`: what a frame shows.
//! - `sample_data`, `sql`: result sets, and the outcome of a query.
//! - `parquet_ctx`: what is known of the file on show.
//! - `keys`, `text`: key events and text helpers.

pub mod coordinator;
pub mod keys;
pub mod parquet_ctx;
pub mod sample_data;
pub mod sql;
pub mod state;
pub mod tabs;
pub mod text;
pub mod ui;
pub mod viewport;
