//! Client-side core of an HTTP/3 endpoint, written as verified state
//! machines: the caller performs transport I/O and hands the library the
//! stream types, frames and decoded field sections it received; the library
//! decides what they mean and which frames, errors and signals follow.
pub mod client;
pub mod connection;
pub mod error;
pub mod frame;
pub mod headers;
pub mod varint;
