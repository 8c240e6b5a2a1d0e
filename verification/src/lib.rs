//! Session state of a tabbed document editor: which documents are open, which
//! one is active, and which files the workspace knows.
//!
//! The library decides; it does not touch the disk. Start-up
//! ([`loader`]) is handed what was read and says what the session is and what
//! is to be deleted or created. A save ([`editor::io`]) records the document
//! in the workspace and says which file to write and which to remove. Opening
//! a tab ([`editor::tabs`]) changes the tabs and says whether anyone is to be
//! told. The laws that hold across these operations are proved in [`laws`].
//!
//! Three things are taken on trust from other crates, each behind a small
//! function whose contract says what is believed: the ordered map of tabs
//! ([`tab_order`]), the making of safe file names ([`trove`]) and the making
//! of new identifiers ([`loader`]).

pub mod app_state;
pub mod command_registry;
pub mod editor;
pub mod file_name;
pub mod laws;
pub mod loader;
pub mod tab_manager;
pub mod tab_order;
pub mod text;
pub mod trove;
pub mod workspace;
