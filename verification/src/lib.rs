//! Image optimisation: an uploaded picture is decoded, narrowed to a fixed
//! maximum width when it is wider, and re-encoded as JPEG.
//!
//! The crate holds the decisions of that service as verified code. Network
//! I/O is left to the caller, which feeds the upload to [`upload::Upload`]
//! event by event and sends the [`reply::Reply`] it is handed.

pub mod codec;
pub mod reply;
pub mod scale;
pub mod transcode;
pub mod upload;
