//! The decisions of a live Markdown preview.
//!
//! A source file is rendered to a page by an external renderer. In its
//! advanced mode the program watches the source, renders again when it
//! changes, and tells every browser that shows the page to reload. Three
//! things then run at their own pace: the filesystem's events, the renderer,
//! and any number of browsers. This crate holds what is decided along the
//! way, as functions from plain values to plain values, each with its
//! contract:
//!
//! - [`event_filter`]: whether an event matters, and whether it is about the
//!   watched file;
//! - [`debounce`]: whether enough time has passed since the last rebuild;
//! - [`watch_loop`]: the watch loop as a state machine over events and
//!   actions;
//! - [`reload`]: the forwarding loop of one live-view connection;
//! - [`preview`]: what the preview server answers;
//! - [`render`]: the renderer's command line, and what its exit means;
//! - [`metadata`]: whether a source names its own title;
//! - [`args`], [`confirm`], [`session`], [`diagnostics`]: the command line, the
//!   answer to "overwrite?", the order of a session, and its last words;
//! - [`paths`], [`text`]: paths and characters.
//!
//! Waiting, reading, writing and printing are the caller's.

pub mod args;
pub mod confirm;
pub mod debounce;
pub mod diagnostics;
pub mod event_filter;
pub mod metadata;
pub mod paths;
pub mod preview;
pub mod reload;
pub mod render;
pub mod session;
pub mod text;
pub mod watch_loop;
