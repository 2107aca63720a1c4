//! Control of an audio-plugin host over its null-terminated text protocol:
//! the wire codec, the single-connection exchange state machine with its
//! instance-id allocator, and the request handling of the gateway service.
pub mod codec;
pub mod decimal;
pub mod gateway;
pub mod proxy;
