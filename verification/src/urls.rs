//! The request targets of the remote API, each built from the configured
//! base URL and, where one is addressed, an order identifier.

use vstd::prelude::*;

verus! {

use vstd::string::StringExecFns;
use vstd::string::StrSliceExecFns;

/// The orders listing endpoint.
pub open spec fn orders_listing_url(base: Seq<char>) -> Seq<char> {
    base + "/api/orders"@
}

/// The endpoint under one order: base, the orders path, the order id, and
/// the operation's suffix.
pub open spec fn order_endpoint_url(base: Seq<char>, order_id: Seq<char>, suffix: Seq<char>) -> Seq<
    char,
> {
    base + "/api/orders/"@ + order_id + suffix
}

/// The accept endpoint of one order.
pub open spec fn accept_url(base: Seq<char>, order_id: Seq<char>) -> Seq<char> {
    order_endpoint_url(base, order_id, "/accept"@)
}

/// The tracking endpoint of one order.
pub open spec fn tracking_url(base: Seq<char>, order_id: Seq<char>) -> Seq<char> {
    order_endpoint_url(base, order_id, "/tracking"@)
}

/// The ship-verification endpoint of one order.
pub open spec fn ship_url(base: Seq<char>, order_id: Seq<char>) -> Seq<char> {
    order_endpoint_url(base, order_id, "/ship"@)
}

/// The documents endpoint of one order.
pub open spec fn documents_url(base: Seq<char>, order_id: Seq<char>) -> Seq<char> {
    order_endpoint_url(base, order_id, "/documents"@)
}

/// Builds the orders listing target.
pub fn orders_url(base: &str) -> (r: String)
    ensures
        r@ == orders_listing_url(base@),
{
    let mut r = base.to_owned();
    r.append("/api/orders");
    r
}

/// Builds the endpoint under one order for the given operation suffix.
pub fn order_endpoint(base: &str, order_id: &str, suffix: &str) -> (r: String)
    ensures
        r@ == order_endpoint_url(base@, order_id@, suffix@),
{
    let mut r = base.to_owned();
    r.append("/api/orders/");
    r.append(order_id);
    r.append(suffix);
    r
}

/// Builds the accept target of one order.
pub fn order_accept_url(base: &str, order_id: &str) -> (r: String)
    ensures
        r@ == accept_url(base@, order_id@),
{
    order_endpoint(base, order_id, "/accept")
}

/// Builds the tracking target of one order.
pub fn order_tracking_url(base: &str, order_id: &str) -> (r: String)
    ensures
        r@ == tracking_url(base@, order_id@),
{
    order_endpoint(base, order_id, "/tracking")
}

/// Builds the ship-verification target of one order.
pub fn order_ship_url(base: &str, order_id: &str) -> (r: String)
    ensures
        r@ == ship_url(base@, order_id@),
{
    order_endpoint(base, order_id, "/ship")
}

/// Builds the documents target of one order.
pub fn order_documents_url(base: &str, order_id: &str) -> (r: String)
    ensures
        r@ == documents_url(base@, order_id@),
{
    order_endpoint(base, order_id, "/documents")
}

} // verus!
