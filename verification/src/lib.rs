//! Decoding of storage-device property-query responses.
//!
//! A storage driver answers a property query with a variable-length,
//! self-describing binary blob.  This library interprets such blobs:
//! it reads the fixed-offset header fields of each descriptor kind,
//! follows untrusted embedded string offsets only after range-checking
//! them, and turns enumerated numeric codes into closed enumerations
//! that keep unknown raw values.  A small state machine sequences the
//! per-property queries of a one-shot health report; the actual device
//! I/O is left to the caller.

pub mod codes;
pub mod descriptor;
pub mod fields;
pub mod orchestrate;
pub mod request;
pub mod text;
