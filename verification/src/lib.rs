//! A periodic "pull-and-log" metrics exporter.
//!
//! The exporter snapshots an in-process metrics registry at a fixed cadence
//! and emits a textual rendering of it as a structured log event. It is built
//! around a single primitive, a *turn* (observe the controller, drain the
//! renderer, emit the text), which two loop modes share: a blocking loop that
//! sleeps between turns, and a cooperative loop driven by a periodic timer.
//!
//! The collaborators — the metrics controller, the renderer, the logging
//! sink, and the timer — are capability interfaces with contracts; the
//! exporter's behaviour is proved against those contracts alone.

pub mod exporter;
pub mod interfaces;
pub mod level;
pub mod memory;
