//! A unified failure representation for an HTTP client: a single opaque
//! error value that every stage of the request/response lifecycle can
//! produce, preserving a causal chain back to the underlying fault and
//! optionally carrying the URL involved.

pub mod bridge;
pub mod error;
pub mod render;

pub use bridge::IoError;
pub use bridge::decode_io;
pub use bridge::into_io;
pub use error::Cause;
pub use error::Error;
pub use error::Kind;
pub use error::StatusCode;
pub use error::Url;
pub use error::builder;
pub use error::body;
pub use error::decode;
pub use error::request;
pub use error::loop_detected;
pub use error::too_many_redirects;
pub use error::status_code;
pub use error::url_bad_scheme;
