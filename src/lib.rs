//! Client-side state machine for one-shot output captures over the
//! wlr-screencopy protocol: buffer negotiation, capture flags and the
//! terminal outcome of each frame, plus routing of inbound events to the
//! frame that owns them.

pub mod frame;
pub mod laws;
pub mod registry;
pub mod wire;
