//! The logic of a COSMIC panel applet that shows what Spotify plays and controls it.
//!
//! Every decision the applet takes is a function here from plain values to plain
//! values: what a message changes and which effects it asks for, what the panel and
//! the popup show, how a player reply is read, where art is cached and fetched, and
//! how the windows of the compositor are tracked. The program around the library
//! performs the effects and draws what the views describe.

pub mod art;
pub mod command;
pub mod config;
pub mod label;
pub mod message;
pub mod model;
pub mod panel;
pub mod paths;
pub mod player;
pub mod popup;
pub mod settings;
pub mod text;
pub mod toplevel;
pub mod widget;
