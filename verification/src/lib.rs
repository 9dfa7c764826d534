//! Core of a miller-column terminal directory navigator.
//!
//! The library owns the navigation state machine: four synchronized panes
//! (two ancestor levels, the current listing, and a descendant preview), the
//! working-directory path, a search overlay that filters the current pane,
//! and a content-view mode that browses the lines of a text file with the
//! same pane machinery.  Reading the filesystem is left to the caller: every
//! transition that needs a fresh listing either takes it as an argument or
//! says, through [`app::App::preview_source`] and
//! [`app::App::ascend_listing_path`], what should be read next.

pub mod app;
pub mod config;
pub mod error;
pub mod item;
pub mod laws;
pub mod order;
pub mod pane;
pub mod paths;
pub mod text;
