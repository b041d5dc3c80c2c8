//! The tracking-submission workflow: turning a tracking file's content into
//! the request the server expects — the JSON body without the order id, the
//! tracking target it is posted to, and the ship-verification target called
//! right after.

use vstd::prelude::*;

verus! {

use vstd::string::StringExecFns;
use crate::json::{append_json_opt_string, json_opt_string, opt_view};
use crate::models::tracking::{TrackingRequest, XmlTrackingRequest};
use crate::urls::{order_ship_url, order_tracking_url, ship_url, tracking_url};

/// The JSON body of a tracking submission: the four carrier fields in wire
/// order, each a JSON string or `null`.
pub open spec fn tracking_body(
    carrier_code: Option<Seq<char>>,
    carrier_name: Option<Seq<char>>,
    carrier_url: Option<Seq<char>>,
    tracking_number: Option<Seq<char>>,
) -> Seq<char> {
    "{\"carrier_code\":"@ + json_opt_string(carrier_code) + ",\"carrier_name\":"@
        + json_opt_string(carrier_name) + ",\"carrier_url\":"@ + json_opt_string(carrier_url)
        + ",\"tracking_number\":"@ + json_opt_string(tracking_number) + "}"@
}

/// Everything the caller needs to push one tracking submission: where to
/// POST the body, the body itself, and the target of the verification GET
/// that follows.
#[derive(Debug, Clone, PartialEq, Eq)]
pub struct TrackingPlan {
    /// The order's tracking endpoint the body is posted to.
    pub post_url: String,
    /// The JSON body of the POST.
    pub body: String,
    /// The order's ship endpoint the verification GET goes to.
    pub verify_url: String,
}

/// Renders the JSON body for a tracking request.
pub fn build_tracking_body(req: &TrackingRequest) -> (r: String)
    ensures
        r@ == tracking_body(
            opt_view(req.carrier_code),
            opt_view(req.carrier_name),
            opt_view(req.carrier_url),
            opt_view(req.tracking_number),
        ),
{
    let mut r = String::new();
    r.append("{\"carrier_code\":");
    append_json_opt_string(&mut r, &req.carrier_code);
    r.append(",\"carrier_name\":");
    append_json_opt_string(&mut r, &req.carrier_name);
    r.append(",\"carrier_url\":");
    append_json_opt_string(&mut r, &req.carrier_url);
    r.append(",\"tracking_number\":");
    append_json_opt_string(&mut r, &req.tracking_number);
    r.append("}");
    proof {
        assert(r@ =~= tracking_body(
            opt_view(req.carrier_code),
            opt_view(req.carrier_name),
            opt_view(req.carrier_url),
            opt_view(req.tracking_number),
        ));
    }
    r
}

/// Plans the push of one tracking submission: the body keeps the four
/// carrier fields and drops the order id, which only addresses the two
/// endpoints.
pub fn plan_tracking_push(base: &str, req: XmlTrackingRequest) -> (r: TrackingPlan)
    ensures
        r.post_url@ == tracking_url(base@, req.order_id@),
        r.verify_url@ == ship_url(base@, req.order_id@),
        r.body@ == tracking_body(
            opt_view(req.carrier_code),
            opt_view(req.carrier_name),
            opt_view(req.carrier_url),
            opt_view(req.tracking_number),
        ),
{
    let order_id = req.order_id.clone();
    let body_req = TrackingRequest::from(req);
    let body = build_tracking_body(&body_req);
    TrackingPlan {
        post_url: order_tracking_url(base, order_id.as_str()),
        body,
        verify_url: order_ship_url(base, order_id.as_str()),
    }
}

} // verus!
