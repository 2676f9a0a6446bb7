//! Decisions of a stream-deck host for the events that plugins and encoder
//! dials send: which titles and images an instance shows, which state and
//! which child of a dial stack or action wheel it selects, and which
//! messages go out to plugins.

pub mod encoder;
pub mod event_laws;
pub mod laws;
pub mod message;
pub mod model;
pub mod settings;
pub mod states;
pub mod text;
