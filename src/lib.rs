//! An embeddable HTTP request/response engine that native plugins can extend.
//!
//! The library holds the request and response data model, the plugin
//! manager that runs plugin hooks in load order, the per-thread last-error
//! channel, the handle tables behind the C-compatible surface, and the
//! pipeline that runs a request through the plugins and a transport.
pub mod boundary;
pub mod buffer;
pub mod compressor;
pub mod cookies;
pub mod error;
pub mod error_channel;
pub mod headers;
pub mod injector;
pub mod laws;
pub mod log_level;
pub mod pipeline;
pub mod plugins;
pub mod request;
pub mod response;
pub mod table;
pub mod word_count;
