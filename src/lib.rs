//! A small blocking HTTP client over a single reusable curl handle.
//!
//! The request lifecycle (which options a handle receives, which header
//! lines go out, how an upload body is streamed and how a response is
//! collected) is plain verified logic; the transfer itself is libcurl's.
pub mod body;
pub mod client;
pub mod handle;
pub mod method;
pub mod native;
pub mod request;
pub mod response;

pub use body::{append_body, record_header, BodyReader};
pub use client::Client;
pub use handle::{Handle, Setting};
pub use method::{body_options, HandleOption, Method};
pub use request::{build_header_list, configure, finish, is_header_text, Request, USER_AGENT};
pub use response::{Error, ErrorKind, HttpStatus, Response};
