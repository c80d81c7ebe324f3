//! Fletcher checksums over byte buffers: word packing with zero padding,
//! the 16-, 32- and 64-bit Fletcher sums, and hexadecimal rendering of the
//! resulting check values.

pub mod engine;
pub mod hex;
pub mod pack;
pub mod report;
