//! A verified core for an embedded-editor terminal UI.
//!
//! The crate models the state kept by a terminal frontend that embeds a
//! full-screen text editor as a subprocess: the character grid the editor
//! drives over its UI protocol, the parser for the editor's redraw
//! notifications, the request encoder for the outgoing side of the protocol,
//! and the smooth-scroll machinery (pixel reconciliation, render-chunk cache,
//! offscreen compositor bookkeeping) that animates discrete line scrolls.

use vstd::prelude::*;

pub mod bridge;
pub mod cache;
pub mod color;
pub mod compositor;
pub mod grid;
pub mod input;
pub mod mode;
pub mod protocol;
pub mod render;
pub mod scroll;
pub mod wire;
