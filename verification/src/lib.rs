//! Client-side model of a range query against a replicated, multi-version
//! key-value store: the query configuration and its builder, the mapping of a
//! finished query onto the wire message, and the decoding of a wire reply into
//! a validated result.
//!
//! Nothing here performs I/O. A transport takes the message that
//! [`RangeRequest::finalize`] produces and hands back a
//! [`wire::RawRangeResponse`] for [`RangeResponse::decode`].

pub mod error;
pub mod kv;
pub mod response_header;
pub mod wire;

pub use error::DecodeError;
pub use kv::key_range::KeyRange;
pub use kv::key_value::KeyValue;
pub use kv::range::{RangeQuery, RangeRequest, RangeResponse, RangeResult};
pub use kv::sort::{SortOrder, SortPolicy, SortTarget};
pub use response_header::ResponseHeader;
