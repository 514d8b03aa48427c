//! The handlers of the operations of the protocol.

pub mod bucket_create;
pub mod object_delete;
pub mod object_get;
pub mod object_list_v2;
pub mod object_put;
