//! A fixed-capacity rolling window of market bars.
//!
//! The window keeps ten parallel arrays of equal length: the timestamp, the
//! five base fields of a bar, the return, and three auxiliary statistics.
//! Each new bar shifts every active array one slot towards the front and is
//! written into the last slot. The arithmetic that derives statistics from
//! the values is supplied by the caller; this crate decides where each value
//! goes, which slots keep their previous content, and how the state is
//! exported and restored.
pub mod buffer;
pub mod calendar;
pub mod codec;
pub mod laws;
pub mod window;
