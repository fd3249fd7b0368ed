//! A per-request bag of values keyed by type, and the binding that moves a value
//! out of it for a handler: the handler gets ownership, the bag keeps nothing.

pub mod extensions;
pub mod extract;
pub mod laws;
pub mod request;
