use wunder::models::tracking::{TrackingRequest, XmlTrackingRequest};
use wunder::ship::{build_tracking_body, plan_tracking_push};

const BASE: &str = "https://marketplace.example";

fn xml_request(
    order_id: &str,
    carrier_code: Option<&str>,
    carrier_name: Option<&str>,
    carrier_url: Option<&str>,
    tracking_number: Option<&str>,
) -> XmlTrackingRequest {
    XmlTrackingRequest {
        order_id: order_id.to_string(),
        carrier_code: carrier_code.map(str::to_string),
        carrier_name: carrier_name.map(str::to_string),
        carrier_url: carrier_url.map(str::to_string),
        tracking_number: tracking_number.map(str::to_string),
    }
}

#[test]
fn scenario_tracking_push_for_registered_carrier() {
    let plan = plan_tracking_push(BASE, xml_request("B7", Some("DHL"), None, None, Some("123")));
    assert_eq!(plan.post_url, "https://marketplace.example/api/orders/B7/tracking");
    assert_eq!(
        plan.body,
        "{\"carrier_code\":\"DHL\",\"carrier_name\":null,\"carrier_url\":null,\"tracking_number\":\"123\"}"
    );
    assert_eq!(plan.verify_url, "https://marketplace.example/api/orders/B7/ship");
}

#[test]
fn tracking_body_excludes_order_id() {
    let plan = plan_tracking_push(BASE, xml_request("B7", Some("DHL"), None, None, Some("123")));
    assert!(!plan.body.contains("B7"));
    assert!(!plan.body.contains("order_id"));
}

#[test]
fn tracking_body_all_fields_present() {
    let body = build_tracking_body(&TrackingRequest {
        carrier_code: Some("UPS".to_string()),
        carrier_name: Some("United Parcel Service".to_string()),
        carrier_url: Some("https://track.example/?n=1".to_string()),
        tracking_number: Some("1Z999".to_string()),
    });
    assert_eq!(
        body,
        "{\"carrier_code\":\"UPS\",\"carrier_name\":\"United Parcel Service\",\
         \"carrier_url\":\"https://track.example/?n=1\",\"tracking_number\":\"1Z999\"}"
    );
}

#[test]
fn tracking_body_matches_reference_json_encoder() {
    // The body this library frames must match what a JSON encoder produces
    // for the same four fields, including escaping.
    let name = "Quo\"te Back\\slash\nTab\tBell\u{7}";
    let body = build_tracking_body(&TrackingRequest {
        carrier_code: None,
        carrier_name: Some(name.to_string()),
        carrier_url: None,
        tracking_number: None,
    });
    let mut obj = serde_json::Map::new();
    obj.insert("carrier_code".to_string(), serde_json::Value::Null);
    obj.insert("carrier_name".to_string(), serde_json::Value::String(name.to_string()));
    obj.insert("carrier_url".to_string(), serde_json::Value::Null);
    obj.insert("tracking_number".to_string(), serde_json::Value::Null);
    let expected = serde_json::to_string(&serde_json::Value::Object(obj)).unwrap();
    assert_eq!(body, expected);
}

#[test]
fn tracking_request_from_xml_drops_only_the_order_id() {
    let req = TrackingRequest::from(xml_request(
        "B7",
        Some("DHL"),
        Some("DHL Express"),
        Some("https://dhl.example"),
        Some("123"),
    ));
    assert_eq!(req.carrier_code.as_deref(), Some("DHL"));
    assert_eq!(req.carrier_name.as_deref(), Some("DHL Express"));
    assert_eq!(req.carrier_url.as_deref(), Some("https://dhl.example"));
    assert_eq!(req.tracking_number.as_deref(), Some("123"));
}
