use wunder::documents::{
    build_documents_manifest, classify_upload_response, is_supported_format, plan_invoice_push,
};
use wunder::error::WunderError;
use wunder::models::invoices::{
    OrderDocument, OrderDocumentError, OrderDocumentErrors, OrderDocumentResponse, OrderDocuments,
};

const BASE: &str = "https://marketplace.example";

#[test]
fn scenario_invoice_push_derives_names_and_target() {
    let plan = plan_invoice_push(BASE, "C9_invoice.pdf").expect("plan");
    assert_eq!(plan.order_id, "C9");
    assert_eq!(plan.upload_file_name, "Invoice-C9.pdf");
    assert_eq!(plan.post_url, "https://marketplace.example/api/orders/C9/documents");
    assert_eq!(
        plan.manifest,
        "[{\"file_name\":\"Invoice-C9.pdf\",\"type_code\":\"CUSTOMER_INVOICE\"}]"
    );
}

#[test]
fn invoice_extension_keeps_its_casing_in_the_upload_name() {
    let plan = plan_invoice_push(BASE, "D4_scan.PDF").expect("plan");
    assert_eq!(plan.upload_file_name, "Invoice-D4.PDF");
}

#[test]
fn unsupported_extension_fails_in_every_casing() {
    for name in ["A1_doc.exe", "A1_doc.EXE", "A1_doc.Exe", "A1_doc.eXe"] {
        match plan_invoice_push(BASE, name) {
            Err(WunderError::DocumentFormatNotSupported(ext)) => assert_eq!(ext, "exe"),
            other => panic!("expected an unsupported-format error for {:?}, got {:?}", name, other),
        }
    }
}

#[test]
fn name_without_extension_is_refused() {
    for name in ["A1_doc", ".pdf", ""] {
        match plan_invoice_push(BASE, name) {
            Err(WunderError::MalformedInvoiceFileName(n)) => assert_eq!(n, name),
            other => panic!("expected a malformed-name error for {:?}, got {:?}", name, other),
        }
    }
}

#[test]
fn name_without_underscore_is_refused() {
    match plan_invoice_push(BASE, "C9.pdf") {
        Err(WunderError::MalformedInvoiceFileName(n)) => assert_eq!(n, "C9.pdf"),
        other => panic!("expected a malformed-name error, got {:?}", other),
    }
}

#[test]
fn name_with_empty_order_id_is_refused() {
    // A leading underscore would derive an empty order id; the convention
    // refuses it instead of addressing /api/orders//documents.
    for name in ["_a.pdf", "_.pdf"] {
        match plan_invoice_push(BASE, name) {
            Err(WunderError::MalformedInvoiceFileName(n)) => assert_eq!(n, name),
            other => panic!("expected a malformed-name error for {:?}, got {:?}", name, other),
        }
    }
}

#[test]
fn format_check_precedes_name_convention_check() {
    // The allow-list verdict comes before the underscore check.
    match plan_invoice_push(BASE, "C9.exe") {
        Err(WunderError::DocumentFormatNotSupported(ext)) => assert_eq!(ext, "exe"),
        other => panic!("expected an unsupported-format error, got {:?}", other),
    }
}

#[test]
fn allow_list_membership() {
    for ext in [
        "csv", "doc", "xls", "xlsx", "ppt", "pdf", "odt", "ods", "odp", "txt", "rtf", "png",
        "jpg", "gif", "zpl", "mov", "mp4",
    ] {
        assert!(is_supported_format(ext), "{:?} should be allowed", ext);
    }
    for ext in ["exe", "sh", "PDF", "pdf ", "", "docx"] {
        assert!(!is_supported_format(ext), "{:?} should be refused", ext);
    }
}

#[test]
fn manifest_matches_reference_json_encoder() {
    let docs = OrderDocuments {
        order_documents: vec![
            OrderDocument {
                file_name: "Invoice-C9.pdf".to_string(),
                type_code: "CUSTOMER_INVOICE".to_string(),
            },
            OrderDocument {
                file_name: "odd \"name\"\\path".to_string(),
                type_code: "CUSTOMER_INVOICE".to_string(),
            },
        ],
    };
    let manifest = build_documents_manifest(&docs);
    let items: Vec<serde_json::Value> = docs
        .order_documents
        .iter()
        .map(|d| {
            let mut obj = serde_json::Map::new();
            obj.insert("file_name".to_string(), serde_json::Value::String(d.file_name.clone()));
            obj.insert("type_code".to_string(), serde_json::Value::String(d.type_code.clone()));
            serde_json::Value::Object(obj)
        })
        .collect();
    let expected = serde_json::to_string(&serde_json::Value::Array(items)).unwrap();
    assert_eq!(manifest, expected);
}

fn response(errors_count: Option<i32>) -> OrderDocumentResponse {
    OrderDocumentResponse {
        errors_count,
        order_documents: vec![OrderDocumentErrors {
            errors: vec![OrderDocumentError {
                code: "E1".to_string(),
                message: "bad field".to_string(),
                field: "file_name".to_string(),
            }],
        }],
    }
}

#[test]
fn upload_with_positive_error_count_fails_with_full_result() {
    let resp = response(Some(2));
    match classify_upload_response(resp.clone()) {
        Err(WunderError::DocumentUploadError(carried)) => {
            assert_eq!(carried, resp);
            assert_eq!(carried.order_documents[0].errors[0].code, "E1");
        }
        other => panic!("expected a document-upload error, got {:?}", other),
    }
}

#[test]
fn upload_with_zero_or_absent_error_count_succeeds() {
    assert!(classify_upload_response(response(Some(0))).is_ok());
    assert!(classify_upload_response(response(None)).is_ok());
}
