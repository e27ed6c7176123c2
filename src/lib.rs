//! Decoding of LoRaWAN PHY payloads: a verified layout parser and encoder,
//! and two best-effort passes over the frame options and the frame payload.
pub mod bytes;
pub mod decode;
pub mod encode;
pub mod frame;
pub mod keystore;
pub mod laws;
pub mod passes;
