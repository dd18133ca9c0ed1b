//! Core of an audio sink: the format fixed on the sink, the typed view of a
//! delivered buffer, the loudness of its samples, the handling of one
//! delivery, and the controller that builds the graph, runs it and tears it
//! down.
//!
//! Nothing here touches a media framework. The driver around this crate
//! performs each command on the real graph and reports back what happened.

pub mod buffer;
pub mod caps;
pub mod delivery;
pub mod lifecycle;
pub mod loudness;
