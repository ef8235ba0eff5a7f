//! A verification gate for webhook deliveries signed with HMAC-SHA256:
//! parsing of the signature header, the digest check in constant time, and
//! the mapping of each decision to the HTTP answer.

pub mod codec;
pub mod mac;
pub mod pipeline;
pub mod verify;
