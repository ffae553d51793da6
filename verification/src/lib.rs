//! Binding of shader parameters: connects the variables that a compiled
//! program declares to application-side storage, once, and then fills the
//! slots of a draw call from that storage by index.

pub mod dictionary;
pub mod facts;
pub mod params;
pub mod program;
pub mod resolve;
pub mod user;
pub mod value;
