//! Status decoding, method and error tables for an HTTP/1.x parser.
//!
//! The byte-level parsing is done by the `http-parser` C library; this crate
//! holds, with proofs, what the Rust side computes around it: the names and
//! codes of methods and errors, the decoding of the parser's packed status
//! word and version number, and the values handed back from callbacks.

pub mod callback;
pub mod errno;
pub mod method;
pub mod status;
pub mod version;

pub use callback::{callback_return, final_chunk_from, keep_alive_from};
pub use errno::{HttpErrno, MAX_HTTP_ERRNO};
pub use method::{http_method_str, HttpMethod, MAX_HTTP_METHOD};
pub use status::HttpStatus;
pub use version::version_from_packed;
