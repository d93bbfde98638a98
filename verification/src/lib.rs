//! Core state of a minimal windowed rendering demo.
//!
//! The demo clears the screen to a colour that follows the cursor and
//! switches between two render pipelines on a keypress.  This crate holds
//! the part of the demo that decides anything: the surface size and the
//! pipeline selector, the guard on resize requests, and the dispatch from
//! window events to the actions the surrounding event loop must perform.
//! The event loop itself, the GPU context and the windowing calls live
//! outside, hand plain values in, and carry the returned actions out.

pub mod events;
pub mod format;
pub mod state;
