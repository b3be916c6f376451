//! Webhook deliveries of Planning Center.
use vstd::prelude::*;

pub mod groups;

verus! {

/// A webhook delivery: one or more events.
pub struct WebhookRequest<T> {
    pub data: Vec<WebhookData<T>>,
}

/// One event of a delivery; `id` is the event's UUID.
pub struct WebhookData<T> {
    pub id: u128,
    pub webhook_type: String,
    pub attributes: WebhookAttributes<T>,
    pub relationships: WebhookRelationships,
}

/// The name, delivery attempt and payload of an event.
pub struct WebhookAttributes<T> {
    pub name: String,
    pub attempt: i8,
    pub payload: T,
}

/// The organization an event belongs to.
pub struct WebhookRelationships {
    pub organization: WebhookOrganization,
}

/// A reference to an organization.
pub struct WebhookOrganization {
    pub data: WebhookOrganizationData,
}

/// The type and id of an organization.
pub struct WebhookOrganizationData {
    pub organization_type: String,
    pub id: String,
}

} // verus!
