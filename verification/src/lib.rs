//! Tree-shaped visualization of nested call-stack activity.
//!
//! A [`spanner::Spanner`] owns an output sink, a shared nesting-depth counter
//! and a formatting configuration.  Entering a span writes an indented enter
//! line and returns a [`spanner::Span`] handle; when the handle goes out of
//! scope a matching exit line is written and the depth is restored, no matter
//! how the enclosing scope ends.
//!
//! - [`config`]: formatting and filtering configuration.
//! - [`spanner`]: the emitter, the span handle and the line rendering.
//! - [`level`]: severity levels used to filter spans.

pub mod config;
pub mod level;
pub mod spanner;
