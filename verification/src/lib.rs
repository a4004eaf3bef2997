//! Frame pacing, secondary-display selection and texture decoding for a
//! small windowed graphics demo.
//!
//! Everything here works on plain values: time is a count of nanoseconds on a
//! monotonic clock, a display is an identifier with a name, an image is a
//! buffer of bytes with its dimensions. The windowing and drawing themselves
//! are left to the program that uses this library.

pub mod display;
pub mod pacer;
pub mod texture;
