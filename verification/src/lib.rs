//! A verified client library for a marketplace order-management API.
//!
//! The library holds the decision logic of the client: the cursor-based
//! pagination over the orders listing, the per-order auto-accept rule, the
//! naming of persisted order files, the framing of JSON request bodies, the
//! invoice file-name convention with its format allow-list, and the
//! classification of document-upload responses. All network and file I/O is
//! left to the surrounding application, which only carries out the plans
//! this library produces.

pub mod config;
pub mod documents;
pub mod error;
pub mod http;
pub mod json;
pub mod models;
pub mod prelude;
pub mod pull;
pub mod ship;
pub mod text;
pub mod urls;
