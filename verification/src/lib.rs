//! Core of a minimal desktop image viewer: decoding an image into an RGB
//! byte buffer, computing the integer scale factor that fits the image onto
//! the primary monitor, sizing the initial window, converting RGB pixels to
//! RGBA frame bytes, and the event-loop state machine that decides when the
//! viewer keeps running, redraws, resizes its surface, or terminates.

pub mod decode;
pub mod error;
pub mod events;
pub mod frame;
pub mod scale;
