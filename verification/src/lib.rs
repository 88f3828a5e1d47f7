//! Change-detection and notification pipeline for a polling watcher.
//!
//! Each configured check names a JSON data source and a template file.
//! One pass over the configuration fetches every source, renders it
//! through its template, compares the rendering against the last
//! notified baseline for that check, and notifies a sink when the
//! rendering changed.  The fetching, file reading and delivery are the
//! caller's concern; everything that decides is here, with contracts.

pub mod config;
pub mod escape;
pub mod identity;
pub mod pipeline;
pub mod render;
