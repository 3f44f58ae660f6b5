//! Request-handling logic of a set of HTTP programs for F5's Wasm
//! programmability runtime, verified with Verus.
//!
//! The programs themselves (servers, clients, the key-value store
//! bindings) live in `app/`; this library holds what they decide and
//! compute, with its contracts:
//!
//! - [`token_counter`]: the LLM token counter that keeps running sums of
//!   model token counts in a key-value store;
//! - [`redact`]: redaction of social security numbers in a people list;
//! - [`headers_page`]: the HTML page that lists request headers;
//! - [`body_demos`]: routing and bodies of the request/response body demos;
//! - [`origin`]: routing and bodies of the example origin server;
//! - [`transcode`]: image to WebP transcoding through the `image` crate;
//! - [`header`] and [`text`]: headers as plain values, and verified text
//!   helpers shared by the above.

pub mod body_demos;
pub mod header;
pub mod headers_page;
pub mod origin;
pub mod redact;
pub mod text;
pub mod token_counter;
pub mod transcode;
