//! An HTTP gateway in front of an object store: the decisions that turn a
//! request path into an object address, and an object's metadata into a reply.
pub mod content_type;
pub mod gateway;
pub mod option_ext;
pub mod response;
pub mod route;
pub mod text;
