//! Types nested inside an order of the marketplace listing. An order is an
//! immutable snapshot fetched from the remote service; nothing here is
//! mutated locally.

use vstd::prelude::*;

verus! {

/// The channel of the commercial order.
#[derive(Debug, Clone, PartialEq, Eq)]
pub struct Channel {
    /// Channel code
    pub code: String,
    /// Channel label
    pub label: String,
}

/// Information of the customer who ordered.
#[derive(Debug, Clone, PartialEq, Eq)]
pub struct Customer {
    /// Data related to the accounting contact in the organization
    pub accounting_contact: Option<Contact>,
    /// Customer's billing address
    pub billing_address: Address,
    /// Customer's civility
    pub civility: Option<String>,
    /// Customer's identifier
    pub customer_id: String,
    /// Data related to the delivery contact in the organization
    pub delivery_contact: Option<Contact>,
    /// Customer's first name
    pub firstname: String,
    /// Customer's last name
    pub lastname: String,
    /// Customer's locale
    pub locale: Option<String>,
    /// Data related to the organization that created the order
    pub organization: Option<Organization>,
    /// Customer's shipping address
    pub shipping_address: Address,
}

/// A named contact within the customer's organization.
#[derive(Debug, Clone, PartialEq, Eq)]
pub struct Contact {
    /// Contact's civility
    pub civility: Option<String>,
    /// Contact's identifier
    pub customer_id: String,
    /// Contact's firstname
    pub firstname: String,
    /// Contact's lastname
    pub lastname: String,
    /// Contact's locale
    pub locale: Option<String>,
}

/// A postal address attached to a customer.
#[derive(Debug, Clone, PartialEq, Eq)]
pub struct Address {
    /// Address city
    pub city: String,
    /// Civility of the person associated with the address
    pub civility: Option<String>,
    /// Company of the person associated with the address
    pub company: Option<String>,
    /// Country ISO 3166-1 code of the address
    pub country_iso_code: String,
    /// First name of the person associated with the address
    pub firstname: Option<String>,
    /// Last name of the person associated with the address
    pub lastname: String,
    /// Phone
    pub phone: Option<String>,
    /// Phone secondary
    pub phone_secondary: Option<String>,
    /// Address state
    pub state: Option<String>,
    /// First information line of the address street
    pub street_1: String,
    /// Second information line of the address street
    pub street_2: Option<String>,
    /// Address zip code
    pub zip_code: Option<String>,
}

/// The organization that created the order.
#[derive(Debug, Clone, PartialEq, Eq)]
pub struct Organization {
    /// Address of the organization
    pub address: Option<OrganizationAddress>,
    /// Number identifying the organization as an established business
    pub identification_number: Option<String>,
    /// Name of the organization
    pub name: Option<String>,
    /// Customer's organization id
    pub organization_id: String,
    /// Tax identification number of the organization
    pub tax_identification_number: Option<String>,
}

/// The postal address of an organization.
#[derive(Debug, Clone, PartialEq, Eq)]
pub struct OrganizationAddress {
    /// Address city
    pub city: String,
    /// Country ISO 3166-1 code of the address
    pub country_iso_code: String,
    /// Address state
    pub state: Option<String>,
    /// First information line of the address street
    pub street_1: String,
    /// Second information line of the address street
    pub street_2: Option<String>,
    /// Address zip code
    pub zip_code: String,
}

/// The expected delivery window of an order.
#[derive(Debug, Clone, PartialEq, Eq)]
pub struct DeliveryDate {
    /// Earliest order delivery date
    pub earliest: String,
    /// Latest order delivery date
    pub latest: String,
}

/// Fulfillment information of an order.
#[derive(Debug, Clone, PartialEq, Eq)]
pub struct Fulfillment {
    /// Fulfillment center
    pub center: FulfillmentCenter,
}

/// The fulfillment center an order is handled by.
#[derive(Debug, Clone, PartialEq, Eq)]
pub struct FulfillmentCenter {
    /// Center code
    pub code: String,
}

/// Invoice information linked to the order.
#[derive(Debug, Clone, PartialEq, Eq)]
pub struct InvoiceDetails {
    /// Invoice document information
    pub document_details: Option<Vec<DocumentDetail>>,
    /// Payment terms
    pub payment_terms: Option<PaymentTerms>,
}

/// One accounting document of the invoice details.
#[derive(Debug, Clone, PartialEq, Eq)]
pub struct DocumentDetail {
    /// Accounting document format
    pub format: Option<String>,
}

/// Payment terms of the order's invoice.
#[derive(Debug, Clone, PartialEq, Eq)]
pub struct PaymentTerms {
    /// Number of days
    pub days: u32,
    /// Payment terms type
    pub type_: String,
}

/// A free-form additional field of an order: a closed union keyed by the
/// field's declared type, each variant carrying its own value shape.
#[derive(Debug, Clone, PartialEq, Eq)]
pub enum AdditionalField {
    Boolean { code: String, value: String },
    Date { code: String, value: String },
    Link { code: String, value: String },
    List { code: String, value: String },
    MultipleValuesList { code: String, value: Vec<String> },
    Numeric { code: String, value: String },
    Regex { code: String, value: String },
    String { code: String, value: String },
    Textarea { code: String, value: String },
}

/// From where the offer is shipped.
#[derive(Debug, Clone, PartialEq, Eq)]
pub struct ShippingFrom {
    /// The address from where the offer is shipped
    pub address: Option<ShippingFromAddress>,
}

/// The address from where an offer is shipped.
#[derive(Debug, Clone, PartialEq, Eq)]
pub struct ShippingFromAddress {
    /// Address city
    pub city: Option<String>,
    /// Address country ISO 3166-1 alpha-3 code
    pub country_iso_code: String,
    /// Address state
    pub state: Option<String>,
    /// First information line of the address street
    pub street_1: Option<String>,
    /// Second information line of the address street
    pub street_2: Option<String>,
    /// Address zip code
    pub zip_code: Option<String>,
}

/// One product medium associated with an order line.
#[derive(Debug, Clone, PartialEq, Eq)]
pub struct ProductMedia {
    /// Media URL
    pub media_url: String,
    /// Media MIME type
    pub mime_type: String,
    /// Media type (small, large, ...)
    pub type_: String,
}

/// Order references of the two trading sides.
#[derive(Debug, Clone, PartialEq, Eq)]
pub struct OrderReferences {
    /// Order reference for customer
    pub order_reference_for_customer: Option<String>,
    /// Order reference for seller
    pub order_reference_for_seller: Option<String>,
}

} // verus!
