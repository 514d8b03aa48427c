//! The core of an S3-compatible object store: the resolver that turns a request
//! path into a typed resource, the error taxonomy with its XML rendering, the
//! chain of operation handlers, and the rules of the file-backed storage engine.
//!
//! Nothing here touches the network or the file system. The functions take and
//! return plain values, and each states what it computes in its contract. Only
//! the clock and chance are read, for the time of a change and for the
//! identifier of a request.

pub mod context;
pub mod domain;
pub mod errors;
pub mod handlers;
pub mod mapping;
pub mod path;
pub mod request;
pub mod response;
pub mod state;
pub mod storage;
pub mod text;
pub mod types;
pub mod xml;
