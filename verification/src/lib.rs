//! The messages of JSON-RPC 2.0 (requests, responses and errors) as values, with
//! the lenient reading of identifiers and error codes that real traffic needs.
//!
//! Members are kept as untyped JSON and read on demand. Every function here is
//! verified against its contract; what is assumed of `serde_json` is stated in
//! [`json`], and of the float parser of `std` in [`float`].

pub mod envelope;
pub mod error;
pub mod error_code;
pub mod float;
pub mod id;
pub mod json;
pub mod request;
pub mod response;
pub mod text;

pub use error::Error;
pub use error_code::ErrorCode;
pub use id::id_from_value;
pub use request::Request;
pub use response::Response;
