//! Data model of the marketplace API: orders as the listing returns them,
//! tracking submissions, and document-upload manifests and results.

pub mod invoices;
pub mod orders;
pub mod tracking;
