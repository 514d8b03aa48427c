//! The storage engine: what it keeps of buckets and elements, where it keeps
//! it, and what it decides between one file operation and the next.

pub mod checksum;
pub mod create;
pub mod delete;
pub mod engine;
pub mod errors;
pub mod fs_storage;
pub mod info;
pub mod insert;
pub mod listing;
