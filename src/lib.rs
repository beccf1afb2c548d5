#![allow(non_snake_case)]
#![allow(non_upper_case_globals)]

//! A page-oriented disk access layer: a flat file seen as fixed-size pages,
//! a free list that hands out and takes back page numbers, and a meta page
//! that records where the free list lives.
//!
//! Everything here computes on values; reading and writing the backing file
//! is left to the caller, which moves whole page buffers between the file and
//! the values this library builds and reads.

pub mod codec;
pub mod page;
pub mod util;
pub mod meta;
pub mod freelist;
pub mod dal;
