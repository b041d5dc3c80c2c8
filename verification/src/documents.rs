//! The document-submission workflow: deriving the order id and the upload
//! name from the invoice file's name, the fixed allow-list of document
//! formats, the JSON manifest sent beside the file, and the classification
//! of the server's structured response.

use vstd::prelude::*;

verus! {

use vstd::string::StringExecFns;
use vstd::string::StrSliceExecFns;
use crate::error::WunderError;
use crate::json::{append_json_string, json_string};
use crate::models::invoices::{OrderDocument, OrderDocumentResponse, OrderDocuments};
use crate::text::{find_first, find_last, lower_seq, push_char, to_ascii_lower};
use crate::urls::{documents_url, order_documents_url};

/// The classification code every uploaded invoice carries.
pub open spec fn customer_invoice_code() -> Seq<char> {
    "CUSTOMER_INVOICE"@
}

/// The allow-list of document formats the server takes, all lowercase.
pub open spec fn supported_format(ext: Seq<char>) -> bool {
    ||| ext == "csv"@
    ||| ext == "doc"@
    ||| ext == "xls"@
    ||| ext == "xlsx"@
    ||| ext == "ppt"@
    ||| ext == "pdf"@
    ||| ext == "odt"@
    ||| ext == "ods"@
    ||| ext == "odp"@
    ||| ext == "txt"@
    ||| ext == "rtf"@
    ||| ext == "png"@
    ||| ext == "jpg"@
    ||| ext == "gif"@
    ||| ext == "zpl"@
    ||| ext == "mov"@
    ||| ext == "mp4"@
}

/// Decides membership of an extension in the format allow-list; the
/// extension is expected already lowercase, as `supported_format` reads it.
pub fn is_supported_format(ext: &str) -> (r: bool)
    ensures
        r == supported_format(ext@),
{
    crate::text::str_eq(ext, "csv") || crate::text::str_eq(ext, "doc") || crate::text::str_eq(
        ext,
        "xls",
    ) || crate::text::str_eq(ext, "xlsx") || crate::text::str_eq(ext, "ppt")
        || crate::text::str_eq(ext, "pdf") || crate::text::str_eq(ext, "odt")
        || crate::text::str_eq(ext, "ods") || crate::text::str_eq(ext, "odp")
        || crate::text::str_eq(ext, "txt") || crate::text::str_eq(ext, "rtf")
        || crate::text::str_eq(ext, "png") || crate::text::str_eq(ext, "jpg")
        || crate::text::str_eq(ext, "gif") || crate::text::str_eq(ext, "zpl")
        || crate::text::str_eq(ext, "mov") || crate::text::str_eq(ext, "mp4")
}

/// `i` is the position of the last dot of `name`, and not its first
/// character: exactly where a file name carries an extension.
pub open spec fn is_last_dot(name: Seq<char>, i: int) -> bool {
    &&& 0 < i < name.len()
    &&& name[i] == '.'
    &&& forall|j: int| i < j < name.len() ==> name[j] != '.'
}

/// The file name carries an extension.
pub open spec fn has_extension(name: Seq<char>) -> bool {
    exists|i: int| is_last_dot(name, i)
}

/// The extension of the file name: what follows its last dot.
pub open spec fn extension_of(name: Seq<char>) -> Seq<char>
    recommends
        has_extension(name),
{
    let i = choose|i: int| is_last_dot(name, i);
    name.subrange(i + 1, name.len() as int)
}

/// `i` is the position of the first underscore of `name`.
pub open spec fn is_first_underscore(name: Seq<char>, i: int) -> bool {
    &&& 0 <= i < name.len()
    &&& name[i] == '_'
    &&& forall|j: int| 0 <= j < i ==> name[j] != '_'
}

/// The file name carries an underscore, as the
/// `<order_id>_<anything>.<ext>` convention demands.
pub open spec fn has_underscore(name: Seq<char>) -> bool {
    exists|i: int| is_first_underscore(name, i)
}

/// The file name derives a usable order id: it carries an underscore and
/// nonempty text before the first one. A name that would derive an empty
/// identifier is as malformed as one without an underscore.
pub open spec fn has_order_id(name: Seq<char>) -> bool {
    exists|i: int| is_first_underscore(name, i) && 0 < i
}

/// The order id the file name addresses: what precedes its first
/// underscore.
pub open spec fn order_id_of(name: Seq<char>) -> Seq<char>
    recommends
        has_underscore(name),
{
    let i = choose|i: int| is_first_underscore(name, i);
    name.subrange(0, i)
}

/// The name the file is uploaded under: a fixed prefix, the order id, and
/// the original extension.
pub open spec fn upload_name_of(name: Seq<char>) -> Seq<char> {
    "Invoice-"@ + order_id_of(name) + "."@ + extension_of(name)
}

/// There is at most one last dot.
proof fn lemma_last_dot_unique(name: Seq<char>, i: int, j: int)
    requires
        is_last_dot(name, i),
        is_last_dot(name, j),
    ensures
        i == j,
{
    if i < j {
        assert(name[j] != '.');
    }
    if j < i {
        assert(name[i] != '.');
    }
}

/// There is at most one first underscore.
proof fn lemma_first_underscore_unique(name: Seq<char>, i: int, j: int)
    requires
        is_first_underscore(name, i),
        is_first_underscore(name, j),
    ensures
        i == j,
{
    if i < j {
        assert(name[i] != '_');
    }
    if j < i {
        assert(name[j] != '_');
    }
}

/// One document of the JSON manifest: its upload name and classification
/// code, in wire order.
pub open spec fn document_item(file_name: Seq<char>, type_code: Seq<char>) -> Seq<char> {
    "{\"file_name\":"@ + json_string(file_name) + ",\"type_code\":"@ + json_string(type_code)
        + "}"@
}

/// The documents of a manifest, comma-separated in list order.
pub open spec fn document_items(docs: Seq<(Seq<char>, Seq<char>)>) -> Seq<char>
    decreases docs.len(),
{
    if docs.len() == 0 {
        Seq::<char>::empty()
    } else if docs.len() == 1 {
        document_item(docs[0].0, docs[0].1)
    } else {
        document_item(docs[0].0, docs[0].1) + seq![','] + document_items(docs.skip(1))
    }
}

/// The JSON manifest describing the documents of one upload: a bare JSON
/// array of `{file_name, type_code}` objects.
pub open spec fn documents_manifest(docs: Seq<(Seq<char>, Seq<char>)>) -> Seq<char> {
    "["@ + document_items(docs) + "]"@
}

/// The name and classification code of each manifest document.
pub open spec fn docs_view(docs: Seq<OrderDocument>) -> Seq<(Seq<char>, Seq<char>)> {
    docs.map_values(|d: OrderDocument| (d.file_name@, d.type_code@))
}

/// The item list distributes over appending one more document at the end.
proof fn lemma_document_items_push(docs: Seq<(Seq<char>, Seq<char>)>, x: (Seq<char>, Seq<char>))
    requires
        docs.len() >= 1,
    ensures
        document_items(docs.push(x)) == document_items(docs) + seq![','] + document_item(x.0, x.1),
    decreases docs.len(),
{
    let t = docs.push(x);
    assert(t[0] == docs[0]);
    if docs.len() == 1 {
        assert(t.skip(1) =~= seq![x]);
        assert(document_items(t.skip(1)) == document_item(x.0, x.1));
        assert(document_items(t) =~= document_items(docs) + seq![','] + document_item(x.0, x.1));
    } else {
        assert(t.skip(1) =~= docs.skip(1).push(x));
        lemma_document_items_push(docs.skip(1), x);
        assert(document_items(t) =~= document_items(docs) + seq![','] + document_item(x.0, x.1));
    }
}

/// Renders the JSON manifest for an upload's documents, in list order.
pub fn build_documents_manifest(docs: &OrderDocuments) -> (r: String)
    ensures
        r@ == documents_manifest(docs_view(docs.order_documents@)),
{
    let n = docs.order_documents.len();
    let mut r = String::new();
    r.append("[");
    let mut i: usize = 0;
    while i < n
        invariant
            i <= n,
            n == docs.order_documents@.len(),
            r@ == "["@ + document_items(
                docs_view(docs.order_documents@).subrange(0, i as int),
            ),
        decreases n - i,
    {
        if i > 0 {
            push_char(&mut r, ',');
        }
        let d = &docs.order_documents[i];
        r.append("{\"file_name\":");
        append_json_string(&mut r, d.file_name.as_str());
        r.append(",\"type_code\":");
        append_json_string(&mut r, d.type_code.as_str());
        r.append("}");
        proof {
            let dv = docs_view(docs.order_documents@);
            assert(dv[i as int] == (docs.order_documents@[i as int].file_name@, docs.order_documents@[i as int].type_code@));
            assert(dv.subrange(0, i as int).push(dv[i as int]) =~= dv.subrange(0, i as int + 1));
            if i > 0 {
                lemma_document_items_push(dv.subrange(0, i as int), dv[i as int]);
            } else {
                assert(dv.subrange(0, 1).len() == 1);
            }
            assert(r@ =~= "["@ + document_items(dv.subrange(0, i as int + 1)));
        }
        i += 1;
    }
    r.append("]");
    proof {
        let dv = docs_view(docs.order_documents@);
        assert(dv.subrange(0, n as int) =~= dv);
        assert(r@ =~= documents_manifest(dv));
    }
    r
}

/// Everything the caller needs to upload one invoice: the order addressed,
/// the name the file travels under, the documents endpoint the multipart
/// POST goes to, and the JSON manifest sent beside the file's bytes.
#[derive(Debug, Clone, PartialEq, Eq)]
pub struct InvoicePlan {
    /// The order id derived from the file name.
    pub order_id: String,
    /// The name the file is uploaded under.
    pub upload_file_name: String,
    /// The order's documents endpoint.
    pub post_url: String,
    /// The JSON manifest describing the one uploaded document.
    pub manifest: String,
}

/// Plans the upload of one invoice file, from the local file's name alone.
///
/// The name must follow the `<order_id>_<anything>.<ext>` convention: a
/// name without an extension, without an underscore, or with an empty
/// order id before its first underscore is refused outright. The extension
/// is case-folded and held against the format allow-list before anything
/// else is derived, so a refused format produces no plan and therefore no
/// request.
pub fn plan_invoice_push(base: &str, file_name: &str) -> (r: Result<InvoicePlan, WunderError>)
    ensures
        ({
            let name = file_name@;
            &&& !has_extension(name) ==> (r matches Err(WunderError::MalformedInvoiceFileName(s))
                && s@ == name)
            &&& has_extension(name) && !supported_format(lower_seq(extension_of(name))) ==> (
            r matches Err(WunderError::DocumentFormatNotSupported(s)) && s@ == lower_seq(
                extension_of(name),
            ))
            &&& has_extension(name) && supported_format(lower_seq(extension_of(name)))
                && !has_order_id(name) ==> (r matches Err(WunderError::MalformedInvoiceFileName(
                s,
            )) && s@ == name)
            &&& has_extension(name) && supported_format(lower_seq(extension_of(name)))
                && has_order_id(name) ==> (r matches Ok(p) && {
                &&& p.order_id@ == order_id_of(name)
                &&& p.upload_file_name@ == upload_name_of(name)
                &&& p.post_url@ == documents_url(base@, order_id_of(name))
                &&& p.manifest@ == documents_manifest(
                    seq![(upload_name_of(name), customer_invoice_code())],
                )
            })
        }),
{
    let n = file_name.unicode_len();
    let dot = match find_last(file_name, '.') {
        Option::None => {
            return Result::Err(WunderError::MalformedInvoiceFileName(file_name.to_owned()));
        },
        Option::Some(i) => i,
    };
    if dot == 0 {
        return Result::Err(WunderError::MalformedInvoiceFileName(file_name.to_owned()));
    }
    proof {
        assert(is_last_dot(file_name@, dot as int));
        let c = choose|i: int| is_last_dot(file_name@, i);
        lemma_last_dot_unique(file_name@, c, dot as int);
        assert(extension_of(file_name@) == file_name@.subrange(dot as int + 1, file_name@.len() as int));
    }
    let ext = file_name.substring_char(dot + 1, n);
    let ext_lower = to_ascii_lower(ext);
    if !is_supported_format(ext_lower.as_str()) {
        return Result::Err(WunderError::DocumentFormatNotSupported(ext_lower));
    }
    let under = match find_first(file_name, '_') {
        Option::None => {
            return Result::Err(WunderError::MalformedInvoiceFileName(file_name.to_owned()));
        },
        Option::Some(i) => i,
    };
    if under == 0 {
        proof {
            assert(is_first_underscore(file_name@, 0));
            assert forall|i: int| !(is_first_underscore(file_name@, i) && 0 < i) by {
                if is_first_underscore(file_name@, i) {
                    lemma_first_underscore_unique(file_name@, i, 0);
                }
            }
        }
        return Result::Err(WunderError::MalformedInvoiceFileName(file_name.to_owned()));
    }
    proof {
        assert(is_first_underscore(file_name@, under as int));
        let c = choose|i: int| is_first_underscore(file_name@, i);
        lemma_first_underscore_unique(file_name@, c, under as int);
        assert(order_id_of(file_name@) == file_name@.subrange(0, under as int));
    }
    let order_id = file_name.substring_char(0, under);
    let mut upload_file_name = "Invoice-".to_owned();
    upload_file_name.append(order_id);
    upload_file_name.append(".");
    upload_file_name.append(ext);
    let manifest_docs = OrderDocuments {
        order_documents: vec![
            OrderDocument {
                file_name: upload_file_name.clone(),
                type_code: "CUSTOMER_INVOICE".to_owned(),
            },
        ],
    };
    let manifest = build_documents_manifest(&manifest_docs);
    proof {
        assert(docs_view(manifest_docs.order_documents@) =~= seq![
            (upload_name_of(file_name@), customer_invoice_code()),
        ]);
    }
    let post_url = order_documents_url(base, order_id);
    Result::Ok(
        InvoicePlan { order_id: order_id.to_owned(), upload_file_name, post_url, manifest },
    )
}

/// True when a decoded upload response reports rejected documents: the
/// error count is present and positive.
pub open spec fn upload_failed(resp: OrderDocumentResponse) -> bool {
    resp.errors_count matches Some(c) && c > 0
}

/// Reads the authoritative failure signal out of a decoded upload
/// response: the HTTP status said success, so a present, positive error
/// count is what decides, and the full structured result rides on the
/// error for diagnosis.
pub fn classify_upload_response(resp: OrderDocumentResponse) -> (r: Result<(), WunderError>)
    ensures
        upload_failed(resp) ==> r == Result::<(), WunderError>::Err(
            WunderError::DocumentUploadError(resp),
        ),
        !upload_failed(resp) ==> r == Result::<(), WunderError>::Ok(()),
{
    if let Option::Some(c) = resp.errors_count {
        if c > 0 {
            return Result::Err(WunderError::DocumentUploadError(resp));
        }
    }
    Result::Ok(())
}

/// The format allow-list reads one casing: extensions with one ASCII case
/// folding are accepted or rejected together, and `exe` is rejected in
/// every casing.
pub proof fn lemma_format_check_case_insensitive(a: Seq<char>, b: Seq<char>)
    requires
        lower_seq(a) == lower_seq(b),
    ensures
        supported_format(lower_seq(a)) == supported_format(lower_seq(b)),
        lower_seq(a) == "exe"@ ==> !supported_format(lower_seq(a)),
{
    if lower_seq(a) == "exe"@ {
        reveal_strlit("exe");
        reveal_strlit("csv");
        reveal_strlit("doc");
        reveal_strlit("xls");
        reveal_strlit("xlsx");
        reveal_strlit("ppt");
        reveal_strlit("pdf");
        reveal_strlit("odt");
        reveal_strlit("ods");
        reveal_strlit("odp");
        reveal_strlit("txt");
        reveal_strlit("rtf");
        reveal_strlit("png");
        reveal_strlit("jpg");
        reveal_strlit("gif");
        reveal_strlit("zpl");
        reveal_strlit("mov");
        reveal_strlit("mp4");
        assert("exe"@.len() == 3 && "exe"@[0] == 'e');
        assert("csv"@[0] == 'c' && "exe"@ != "csv"@);
        assert("doc"@[0] == 'd' && "exe"@ != "doc"@);
        assert("xls"@[0] == 'x' && "exe"@ != "xls"@);
        assert("xlsx"@.len() == 4 && "exe"@ != "xlsx"@);
        assert("ppt"@[0] == 'p' && "exe"@ != "ppt"@);
        assert("pdf"@[0] == 'p' && "exe"@ != "pdf"@);
        assert("odt"@[0] == 'o' && "exe"@ != "odt"@);
        assert("ods"@[0] == 'o' && "exe"@ != "ods"@);
        assert("odp"@[0] == 'o' && "exe"@ != "odp"@);
        assert("txt"@[0] == 't' && "exe"@ != "txt"@);
        assert("rtf"@[0] == 'r' && "exe"@ != "rtf"@);
        assert("png"@[0] == 'p' && "exe"@ != "png"@);
        assert("jpg"@[0] == 'j' && "exe"@ != "jpg"@);
        assert("gif"@[0] == 'g' && "exe"@ != "gif"@);
        assert("zpl"@[0] == 'z' && "exe"@ != "zpl"@);
        assert("mov"@[0] == 'm' && "exe"@ != "mov"@);
        assert("mp4"@[0] == 'm' && "exe"@ != "mp4"@);
        assert(!supported_format("exe"@));
    }
}

} // verus!
