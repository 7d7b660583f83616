//! A verified RTMP publishing client core: session configuration, the
//! connection state machine, processing of session results against the chunk
//! deserializer, and the video frame containers handed to the encoder.

pub mod connection;
pub mod encoder;
pub mod messages;
pub mod rtmp_client;
pub mod rtmp_clients;
pub mod rtmp_io;
pub mod laws;
