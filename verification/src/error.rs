//! The error kinds of the library. Every failure aborts the operation that
//! met it; nothing is retried or healed locally.

use vstd::prelude::*;

verus! {

use crate::models::invoices::OrderDocumentResponse;

/// What can go wrong in the three workflows. Local-file and format checks
/// fail before any network call; the remaining kinds classify what a call
/// or its response did.
#[derive(Debug, Clone, PartialEq, Eq)]
pub enum WunderError {
    /// The tracking file named on the command line does not exist.
    TrackingFileNotFound(String),
    /// The invoice file named on the command line does not exist.
    InvoiceFileNotFound(String),
    /// The invoice file's extension is outside the document allow-list.
    DocumentFormatNotSupported(String),
    /// The invoice file's name does not follow the
    /// `<order_id>_<anything>.<ext>` convention.
    MalformedInvoiceFileName(String),
    /// The server answered a document upload with an HTTP success whose
    /// body reports rejected documents; carries the full structured result.
    DocumentUploadError(OrderDocumentResponse),
    /// A response carried a non-2xx HTTP status; carries status and body.
    HttpStatus { status: u16, body: String },
    /// A connection, DNS or transfer failure.
    Transport(String),
    /// A malformed response or input body.
    Decode(String),
    /// A local file read or write failure.
    Io(String),
}

} // verus!
