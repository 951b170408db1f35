//! Application entries, holding the fields that the validation rules read.
use vstd::prelude::*;
use crate::hash::{ActionHash, AgentPubKey, EntryHash};

verus! {

/// A household of the buyers' club.
#[derive(Clone, Debug)]
pub struct Household {
    pub name: String,
    pub avatar: EntryHash,
}

/// An agent's own assertion that it was added to `household_hash` by the
/// link-creation action `member_create_link_hash`.
#[derive(Clone, Copy, Debug)]
pub struct HouseholdMembershipClaim {
    pub member_create_link_hash: ActionHash,
    pub household_hash: ActionHash,
}

/// An agent's own assertion that it holds `role`.
#[derive(Clone, Debug)]
pub struct RoleClaim {
    pub role: String,
}

/// An order round of the buyers' club.
#[derive(Clone, Debug)]
pub struct Order {
    pub name: String,
}

/// One line of a household's order.
#[derive(Clone, Copy, Debug)]
pub struct ProductOrder {
    pub original_product_hash: ActionHash,
    pub ordered_product_hash: ActionHash,
    pub amount: u32,
}

/// What one household orders in one order round.
#[derive(Clone, Debug)]
pub struct HouseholdOrder {
    pub order_hash: ActionHash,
    pub household_hash: ActionHash,
    pub products: Vec<ProductOrder>,
}

/// The products that a producer offers in one order round.
#[derive(Clone, Copy, Debug)]
pub struct AvailableProducts {
    pub order_hash: ActionHash,
    pub original_producer_hash: ActionHash,
    pub latest_producer_hash: ActionHash,
}

/// What a producer delivered in one order round.
#[derive(Clone, Copy, Debug)]
pub struct ProducerDelivery {
    pub order_hash: ActionHash,
    pub producer_hash: ActionHash,
}

/// A producer's invoice for one order round.
#[derive(Clone, Copy, Debug)]
pub struct ProducerInvoice {
    pub order_hash: ActionHash,
    pub producer_hash: ActionHash,
    pub invoice: EntryHash,
}

/// A producer, with the member who liaises with it.
#[derive(Clone, Debug)]
pub struct Producer {
    pub name: String,
    pub liason: AgentPubKey,
}

/// A product of a producer.
#[derive(Clone, Debug)]
pub struct Product {
    pub producer_hash: ActionHash,
    pub name: String,
}

/// The entry types that a rule may expect a referenced record to hold.
#[derive(Clone, Copy, Debug, PartialEq, Eq, Structural)]
pub enum EntryKind {
    Household,
    HouseholdMembershipClaim,
    RoleClaim,
    Order,
    HouseholdOrder,
    AvailableProducts,
    ProducerDelivery,
    ProducerInvoice,
    Producer,
    Product,
}

/// A decoded application entry.
#[derive(Clone, Debug)]
pub enum EntryValue {
    Household(Household),
    HouseholdMembershipClaim(HouseholdMembershipClaim),
    RoleClaim(RoleClaim),
    Order(Order),
    HouseholdOrder(HouseholdOrder),
    AvailableProducts(AvailableProducts),
    ProducerDelivery(ProducerDelivery),
    ProducerInvoice(ProducerInvoice),
    Producer(Producer),
    Product(Product),
}

/// The kind of a decoded entry.
pub open spec fn spec_kind_of(v: EntryValue) -> EntryKind {
    match v {
        EntryValue::Household(_) => EntryKind::Household,
        EntryValue::HouseholdMembershipClaim(_) => EntryKind::HouseholdMembershipClaim,
        EntryValue::RoleClaim(_) => EntryKind::RoleClaim,
        EntryValue::Order(_) => EntryKind::Order,
        EntryValue::HouseholdOrder(_) => EntryKind::HouseholdOrder,
        EntryValue::AvailableProducts(_) => EntryKind::AvailableProducts,
        EntryValue::ProducerDelivery(_) => EntryKind::ProducerDelivery,
        EntryValue::ProducerInvoice(_) => EntryKind::ProducerInvoice,
        EntryValue::Producer(_) => EntryKind::Producer,
        EntryValue::Product(_) => EntryKind::Product,
    }
}

impl EntryValue {
    /// The kind of this entry.
    pub fn kind(&self) -> (r: EntryKind)
        ensures
            r == spec_kind_of(*self),
    {
        match self {
            EntryValue::Household(_) => EntryKind::Household,
            EntryValue::HouseholdMembershipClaim(_) => EntryKind::HouseholdMembershipClaim,
            EntryValue::RoleClaim(_) => EntryKind::RoleClaim,
            EntryValue::Order(_) => EntryKind::Order,
            EntryValue::HouseholdOrder(_) => EntryKind::HouseholdOrder,
            EntryValue::AvailableProducts(_) => EntryKind::AvailableProducts,
            EntryValue::ProducerDelivery(_) => EntryKind::ProducerDelivery,
            EntryValue::ProducerInvoice(_) => EntryKind::ProducerInvoice,
            EntryValue::Producer(_) => EntryKind::Producer,
            EntryValue::Product(_) => EntryKind::Product,
        }
    }
}

} // verus!
