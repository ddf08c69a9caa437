//! A static-file-serving request handler, meant to be embedded in a larger
//! HTTP request-processing pipeline.
//!
//! Given the metadata of the files below a configured root directory and the
//! data of one incoming request, the handler resolves the request path to a
//! file (or that file's directory index), and decides whether to serve it,
//! redirect it, answer with a not-modified response, or report failure.
//!
//! The handler itself performs no I/O: it is a pure function of the
//! filesystem metadata handed to it (a [`vfs::Vfs`] value) and the request.
//! The embedding server reads the metadata, hands it in, and transmits
//! whatever decision comes back.

pub mod bytes;
pub mod cache_handler;
pub mod errors;
pub mod http;
pub mod properties;
pub mod requested_path;
pub mod response;
pub mod static_handler;
pub mod vfs;

pub use static_handler::Cache;
pub use static_handler::Static;
