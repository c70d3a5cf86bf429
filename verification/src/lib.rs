//! Decoder for the ASHA (Audio Streaming for Hearing Aids) ReadOnlyProperties
//! GATT characteristic: a fixed 17-byte record of bitfields and little-endian
//! integers, decoded bit-exactly, together with the pure parts of a
//! read/subscribe session (payload decoding, selection validation, rendering).

pub mod byteio;
pub mod model;
pub mod render;
pub mod session;
