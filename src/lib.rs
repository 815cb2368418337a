//! Wire protocol of a gateway that exposes a publish/subscribe network to
//! remote clients: quality-of-service codes, binary payloads carried as
//! base64 text, domain objects in their wire form, and the message envelope.
pub mod error;
pub mod codes;
pub mod b64;
pub mod key_expr;
pub mod id;
pub mod engine;
pub mod wire;
pub mod message;
