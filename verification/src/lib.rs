//! Native routines for a host embedding: a big-endian word decoder and a
//! pair of small text helpers.

pub mod decoder;
pub mod text;
