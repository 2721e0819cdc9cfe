//! A tracing layer that contextualizes each event into its span hierarchy.
//!
//! When an event is printed, all the spans it sits under are printed above it.
//! If a new event occurs inside the same span, just the event is printed;
//! otherwise only the divergent part of the span hierarchy is reprinted.
//!
//! Spans are normally not printed unless an event occurs within them. This can
//! be changed so that they are always printed when entered, via
//! [`log_spans`](builder::Builder::log_spans).
//!
//! Fields of spans and events are printed inline, so that each line is a log
//! entry; [`multiline`](builder::Builder::multiline) prints each field on a
//! separate line instead.

pub mod builder;
pub mod laws;
pub mod layer;
pub mod output;
pub mod render;

pub use builder::Builder;
pub use layer::Layer;
pub use output::Output;
pub use output::Stderr;
pub use output::Stdout;
