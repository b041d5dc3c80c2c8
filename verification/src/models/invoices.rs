//! Types of the document-upload exchange: the manifest sent with an upload
//! and the structured result the server returns for it.

use vstd::prelude::*;

verus! {

/// The manifest attached to a document upload: the documents submitted in
/// the same request.
#[derive(Debug, Clone, PartialEq, Eq)]
pub struct OrderDocuments {
    pub order_documents: Vec<OrderDocument>,
}

/// One document of an upload manifest: the name the file is stored under
/// and its classification code.
#[derive(Debug, Clone, PartialEq, Eq)]
pub struct OrderDocument {
    pub file_name: String,
    pub type_code: String,
}

/// The decoded body of a document-upload response. The server answers with
/// an HTTP success even when documents were rejected; `errors_count` is the
/// authoritative signal, with the per-document errors listed beside it.
#[derive(Debug, Clone, PartialEq, Eq)]
pub struct OrderDocumentResponse {
    pub errors_count: Option<i32>,
    pub order_documents: Vec<OrderDocumentErrors>,
}

/// The errors reported for one submitted document.
#[derive(Debug, Clone, PartialEq, Eq)]
pub struct OrderDocumentErrors {
    pub errors: Vec<OrderDocumentError>,
}

/// One structured error of a rejected document.
#[derive(Debug, Clone, PartialEq, Eq)]
pub struct OrderDocumentError {
    pub code: String,
    pub message: String,
    pub field: String,
}

} // verus!
