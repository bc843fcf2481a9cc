//! HTTP/1.x message framing: serialising request and response heads and
//! bodies under a checked framing mode, and parsing request heads.
pub mod body;
pub mod wire;
pub mod header;
pub mod message;
pub mod request;
pub mod laws;
