//! Assembling an inbound HTTP message into one request value: resolving its
//! effective URL and framing its body.

pub mod body;
pub mod extensions;
pub mod request;
pub mod resolver;
pub mod source;
