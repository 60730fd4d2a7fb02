//! Closed enumerations for the HTTP request method and the HTTP protocol
//! version, each with an exact byte-sequence parser and a canonical
//! string renderer.

pub mod method;
pub mod version;

pub use method::HttpMethod;
pub use version::HttpVersion;
