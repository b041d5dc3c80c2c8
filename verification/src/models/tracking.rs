//! Types of a shipment-tracking submission. The locally supplied file
//! carries the target order identifier next to the carrier fields; the
//! request body sent to the server carries the carrier fields alone.

use vstd::prelude::*;

verus! {

/// The body of a tracking submission. Each field is independently optional:
/// which ones a carrier needs depends on whether it is registered with the
/// remote system.
#[derive(Debug, Clone, PartialEq, Eq)]
pub struct TrackingRequest {
    /// The code of a carrier. Mandatory for a registered carrier.
    pub carrier_code: Option<String>,
    /// The name of a carrier. Mandatory for an unregistered carrier.
    pub carrier_name: Option<String>,
    /// The tracking url of a carrier. Unused for registered carriers;
    /// optional for unregistered ones.
    pub carrier_url: Option<String>,
    /// The carrier tracking number. Mandatory for a registered carrier
    /// whose URL requires one.
    pub tracking_number: Option<String>,
}

/// A tracking submission as read from the local file: the carrier fields
/// plus the order the submission belongs to.
#[derive(Debug, Clone, PartialEq, Eq)]
pub struct XmlTrackingRequest {
    /// The order id.
    pub order_id: String,
    /// The code of a carrier. Mandatory for a registered carrier.
    pub carrier_code: Option<String>,
    /// The name of a carrier. Mandatory for an unregistered carrier.
    pub carrier_name: Option<String>,
    /// The tracking url of a carrier. Unused for registered carriers;
    /// optional for unregistered ones.
    pub carrier_url: Option<String>,
    /// The carrier tracking number. Mandatory for a registered carrier
    /// whose URL requires one.
    pub tracking_number: Option<String>,
}

impl From<XmlTrackingRequest> for TrackingRequest {
    /// Strips the order identifier and keeps the carrier fields.
    fn from(xml: XmlTrackingRequest) -> (r: Self) {
        TrackingRequest {
            carrier_code: xml.carrier_code,
            carrier_name: xml.carrier_name,
            carrier_url: xml.carrier_url,
            tracking_number: xml.tracking_number,
        }
    }
}

impl vstd::std_specs::convert::FromSpecImpl<XmlTrackingRequest> for TrackingRequest {
    open spec fn obeys_from_spec() -> bool {
        true
    }

    open spec fn from_spec(xml: XmlTrackingRequest) -> Self {
        TrackingRequest {
            carrier_code: xml.carrier_code,
            carrier_name: xml.carrier_name,
            carrier_url: xml.carrier_url,
            tracking_number: xml.tracking_number,
        }
    }
}

} // verus!
