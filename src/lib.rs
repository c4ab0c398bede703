//! Keyboard-driven browser core for a remote catalog of projects, versions
//! and tags: the screen state machine, its selection, scroll and paging
//! rules, the tag-tree flattener and the per-screen view models.

pub mod client;
pub mod events;
pub mod fetch;
pub mod files;
pub mod models;
pub mod pages;
pub mod params;
pub mod scroll;
pub mod state;
pub mod tags;
pub mod text;
pub mod view;
