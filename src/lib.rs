//! A minimal outbound HTTP client: a total URL parser, the request text it
//! sends, the TLS client setup, and the error type that transport failures
//! surface as. Sockets and the read/write loop live outside this crate.

pub mod url;
pub mod error;
pub mod request;
pub mod tls;
