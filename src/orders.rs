//! Validation rules of the orders zome. Orders, invoices and the offers of
//! producers are gated by roles; household orders by household membership.
use vstd::prelude::*;
use crate::action::Action;
use crate::entries::{AvailableProducts, EntryKind, EntryValue, HouseholdOrder, Order, ProducerDelivery, ProducerInvoice};
use crate::hash::{ActionHash, AgentPubKey, AnyLinkableHash, LinkableKind};
use crate::known::{
    accept, and_also, gate, reject, verdict_of, Verdict, invalid, judge, judged, links_to, spec_entry_at, spec_links_to, spec_refers_to, followed_by, verdict, Known, Outcome,
    ValidateCallbackResult, ValidationError,
};
use crate::membership::{
    spec_member_verdict, spec_role_verdict, spec_had_role_at_the_time, spec_was_member_at_the_time, validate_agent_had_undeleted_role_claim_at_the_time,
    validate_agent_was_member_of_household_at_the_time,
};

verus! {

/// The role of those who run order rounds.
pub const ORDER_MANAGER: &'static str = "order_manager";

/// The role of those who keep the books.
pub const BOOKKEEPER_ROLE: &'static str = "bookkeeper";

/// Name of the integrity zome that defines roles and their claims.
pub const ROLES_INTEGRITY_ZOME_NAME: &'static str = "roles_integrity";

/// Whether `agent` held `role` as of its action `top`.
pub open spec fn spec_role_gate(k: Known, names: Seq<String>, agent: AgentPubKey, top: ActionHash, role: Seq<char>) -> Result<
    bool,
    ValidationError,
> {
    spec_had_role_at_the_time(k, names, agent, top, role, ROLES_INTEGRITY_ZOME_NAME@)
}

fn role_gate(k: &Known, names: &Vec<String>, agent: &AgentPubKey, top: &ActionHash, role: &str) -> (r: Result<
    bool,
    ValidationError,
>)
    ensures
        r == spec_role_gate(*k, names@, *agent, *top, role@),
{
    let role = role.to_owned();
    let zome = ROLES_INTEGRITY_ZOME_NAME.to_owned();
    judged(validate_agent_had_undeleted_role_claim_at_the_time(k, names, agent, top, &role, &zome))
}

/// The role check's outcome, handed on unchanged.
fn role_check(k: &Known, names: &Vec<String>, action: &Action, role: &str) -> (r: Outcome)
    ensures
        verdict_of(r) == spec_role_verdict(*k, names@, action.author, action.hash, role@, ROLES_INTEGRITY_ZOME_NAME@),
        judge(r) == spec_role_gate(*k, names@, action.author, action.hash, role@),
{
    let role = role.to_owned();
    let zome = ROLES_INTEGRITY_ZOME_NAME.to_owned();
    validate_agent_had_undeleted_role_claim_at_the_time(k, names, &action.author, &action.hash, &role, &zome)
}

/// The membership check's outcome, handed on unchanged.
fn member_check(k: &Known, names: &Vec<String>, action: &Action, household: &ActionHash) -> (r: Outcome)
    ensures
        verdict_of(r) == spec_member_verdict(*k, names@, action.author, action.hash, *household),
        judge(r) == spec_was_member_at_the_time(*k, names@, action.author, action.hash, *household),
{
    validate_agent_was_member_of_household_at_the_time(k, names, &action.author, &action.hash, household)
}

/// The household of the household order that `a` links to: `Ok(None)` where
/// `a` is no household order.
pub open spec fn spec_household_of_order(k: Known, a: AnyLinkableHash) -> Result<Option<ActionHash>, ValidationError> {
    if a.kind != LinkableKind::Action {
        Ok(None)
    } else {
        match spec_entry_at(k, a.hash, EntryKind::HouseholdOrder) {
            None => Err(ValidationError::RecordUnavailable { hash: a.hash, kind: Some(EntryKind::HouseholdOrder) }),
            Some(None) => Ok(None),
            Some(Some(v)) => Ok(Some(v->HouseholdOrder_0.household_hash)),
        }
    }
}

fn household_of_order(k: &Known, a: &AnyLinkableHash) -> (r: Result<Option<ActionHash>, ValidationError>)
    ensures
        r == spec_household_of_order(*k, *a),
{
    let Some(h) = a.into_action_hash() else {
        return Ok(None);
    };
    match k.entry_at(&h, EntryKind::HouseholdOrder) {
        Err(e) => Err(e),
        Ok(None) => Ok(None),
        Ok(Some(EntryValue::HouseholdOrder(o))) => Ok(Some(o.household_hash)),
        Ok(Some(_)) => Ok(None),
    }
}

/// The offer of a producer that `a` links to: `Ok(None)` where `a` is no
/// such offer.
pub open spec fn spec_available_products_at(k: Known, a: AnyLinkableHash) -> Result<Option<AvailableProducts>, ValidationError> {
    if a.kind != LinkableKind::Action {
        Ok(None)
    } else {
        match spec_entry_at(k, a.hash, EntryKind::AvailableProducts) {
            None => Err(ValidationError::RecordUnavailable { hash: a.hash, kind: Some(EntryKind::AvailableProducts) }),
            Some(None) => Ok(None),
            Some(Some(v)) => Ok(Some(v->AvailableProducts_0)),
        }
    }
}

fn available_products_at(k: &Known, a: &AnyLinkableHash) -> (r: Result<Option<AvailableProducts>, ValidationError>)
    ensures
        r == spec_available_products_at(*k, *a),
{
    let Some(h) = a.into_action_hash() else {
        return Ok(None);
    };
    match k.entry_at(&h, EntryKind::AvailableProducts) {
        Err(e) => Err(e),
        Ok(None) => Ok(None),
        Ok(Some(EntryValue::AvailableProducts(p))) => Ok(Some(*p)),
        Ok(Some(_)) => Ok(None),
    }
}

/// Whether `agent` may change the offer `ap` as of its action `top`: the
/// liaison of the offer's latest producer revision may, and so may an order
/// manager.
pub open spec fn spec_can_change_available_products(
    k: Known,
    names: Seq<String>,
    agent: AgentPubKey,
    top: ActionHash,
    ap: AvailableProducts,
) -> Result<bool, ValidationError> {
    match spec_entry_at(k, ap.latest_producer_hash, EntryKind::Producer) {
        None => Err(ValidationError::RecordUnavailable { hash: ap.latest_producer_hash, kind: Some(EntryKind::Producer) }),
        Some(None) => Ok(false),
        Some(Some(v)) => if v->Producer_0.liason == agent {
            Ok(true)
        } else {
            spec_role_gate(k, names, agent, top, ORDER_MANAGER@)
        },
    }
}

/// The verdict on `agent` changing the offer `ap` as of its action `top`,
/// with the reason of a rejection.
pub open spec fn spec_can_change_verdict(
    k: Known,
    names: Seq<String>,
    agent: AgentPubKey,
    top: ActionHash,
    ap: AvailableProducts,
) -> Result<Verdict, ValidationError> {
    match spec_entry_at(k, ap.latest_producer_hash, EntryKind::Producer) {
        None => Err(ValidationError::RecordUnavailable { hash: ap.latest_producer_hash, kind: Some(EntryKind::Producer) }),
        Some(None) => reject("Dependant action must be accompanied by a producer entry"@),
        Some(Some(v)) => if v->Producer_0.liason == agent {
            accept()
        } else {
            gate(
                spec_role_gate(k, names, agent, top, ORDER_MANAGER@),
                "Only the liasons or the order managers can create AvailableProducts"@,
            )
        },
    }
}

/// Valid when `agent` may change the offer `available_products` as of its
/// action `chain_top`.
pub fn validate_can_change_available_products(
    k: &Known,
    zome_names: &Vec<String>,
    agent: &AgentPubKey,
    chain_top: &ActionHash,
    available_products: &AvailableProducts,
) -> (r: Outcome)
    ensures
        verdict_of(r) == spec_can_change_verdict(*k, zome_names@, *agent, *chain_top, *available_products),
        judge(r) == spec_can_change_available_products(*k, zome_names@, *agent, *chain_top, *available_products),
{
    let producer = match k.entry_at(&available_products.latest_producer_hash, EntryKind::Producer) {
        Err(e) => return Err(e),
        Ok(Some(EntryValue::Producer(p))) => p,
        Ok(_) => return invalid("Dependant action must be accompanied by a producer entry"),
    };
    if producer.liason != *agent {
        let was_order_manager = role_gate(k, zome_names, agent, chain_top, ORDER_MANAGER);
        match was_order_manager {
            Ok(true) => {},
            _ => return verdict(was_order_manager, "Only the liasons or the order managers can create AvailableProducts"),
        }
    }
    Ok(ValidateCallbackResult::Valid)
}

/// Only order managers open order rounds.
pub fn validate_create_order(k: &Known, zome_names: &Vec<String>, action: &Action, _order: &Order) -> (r: Outcome)
    ensures
        verdict_of(r) == spec_role_verdict(*k, zome_names@, action.author, action.hash, ORDER_MANAGER@, ROLES_INTEGRITY_ZOME_NAME@),
        judge(r) == spec_role_gate(*k, zome_names@, action.author, action.hash, ORDER_MANAGER@),
{
    role_check(k, zome_names, action, ORDER_MANAGER)
}

/// Orders may be revised.
pub fn validate_update_order(_action: &Action, _order: &Order, _original_action: &Action, _original_order: &Order) -> (r: Outcome)
    ensures
        verdict_of(r) == accept(),
        judge(r) == Ok::<bool, ValidationError>(true),
{
    Ok(ValidateCallbackResult::Valid)
}

/// Only order managers delete order rounds.
pub fn validate_delete_order(k: &Known, zome_names: &Vec<String>, action: &Action, _original_action: &Action, _original_order: &Order) -> (r: Outcome)
    ensures
        verdict_of(r) == spec_role_verdict(*k, zome_names@, action.author, action.hash, ORDER_MANAGER@, ROLES_INTEGRITY_ZOME_NAME@),
        judge(r) == spec_role_gate(*k, zome_names@, action.author, action.hash, ORDER_MANAGER@),
{
    role_check(k, zome_names, action, ORDER_MANAGER)
}

/// A revision link of orders must lead from an order to an order.
pub fn validate_create_link_order_updates(k: &Known, _action: &Action, base_address: &AnyLinkableHash, target_address: &AnyLinkableHash) -> (r: Outcome)
    ensures
        verdict_of(r) == and_also(gate(spec_links_to(*k, *base_address, EntryKind::Order), "The base of an OrderUpdates link must be an order"@), gate(spec_links_to(*k, *target_address, EntryKind::Order), "The target of an OrderUpdates link must be an order"@)),
        judge(r) == followed_by(spec_links_to(*k, *base_address, EntryKind::Order), spec_links_to(*k, *target_address, EntryKind::Order)),
{
    let base_ok = links_to(k, base_address, EntryKind::Order);
    match base_ok {
        Ok(true) => {},
        _ => return verdict(base_ok, "The base of an OrderUpdates link must be an order"),
    }
    verdict(links_to(k, target_address, EntryKind::Order), "The target of an OrderUpdates link must be an order")
}

/// Revision links of orders are never deleted.
pub fn validate_delete_link_order_updates(_action: &Action) -> (r: Outcome)
    ensures
        verdict_of(r) == reject("OrderUpdates links cannot be deleted"@),
        judge(r) == Ok::<bool, ValidationError>(false),
{
    invalid("OrderUpdates links cannot be deleted")
}

/// The index of all orders may only point at orders.
pub fn validate_create_link_all_orders(k: &Known, _action: &Action, target_address: &AnyLinkableHash) -> (r: Outcome)
    ensures
        verdict_of(r) == gate(spec_links_to(*k, *target_address, EntryKind::Order), "The target of an AllOrders link must be an order"@),
        judge(r) == spec_links_to(*k, *target_address, EntryKind::Order),
{
    verdict(links_to(k, target_address, EntryKind::Order), "The target of an AllOrders link must be an order")
}

/// Orders may leave the index of all orders.
pub fn validate_delete_link_all_orders(_action: &Action) -> (r: Outcome)
    ensures
        verdict_of(r) == accept(),
        judge(r) == Ok::<bool, ValidationError>(true),
{
    Ok(ValidateCallbackResult::Valid)
}

/// A household order must refer to an order and a household, and its
/// author must have been a member of that household.
pub fn validate_create_household_order(k: &Known, zome_names: &Vec<String>, action: &Action, household_order: &HouseholdOrder) -> (r: Outcome)
    ensures
        verdict_of(r) == and_also(gate(spec_refers_to(*k, household_order.order_hash, EntryKind::Order), "Dependant action must be accompanied by an order entry"@), and_also(gate(spec_refers_to(*k, household_order.household_hash, EntryKind::Household), "Dependant action must be accompanied by a household entry"@), spec_member_verdict(*k, zome_names@, action.author, action.hash, household_order.household_hash))),
        judge(r) == followed_by(
            spec_refers_to(*k, household_order.order_hash, EntryKind::Order),
            followed_by(
                spec_refers_to(*k, household_order.household_hash, EntryKind::Household),
                spec_was_member_at_the_time(*k, zome_names@, action.author, action.hash, household_order.household_hash),
            ),
        ),
{
    let order_ok = k.refers_to(&household_order.order_hash, EntryKind::Order);
    match order_ok {
        Ok(true) => {},
        _ => return verdict(order_ok, "Dependant action must be accompanied by an order entry"),
    }
    let household_ok = k.refers_to(&household_order.household_hash, EntryKind::Household);
    match household_ok {
        Ok(true) => {},
        _ => return verdict(household_ok, "Dependant action must be accompanied by a household entry"),
    }
    member_check(k, zome_names, action, &household_order.household_hash)
}

/// A revision of a household order keeps its order and household, and is
/// made by a member of the household.
pub fn validate_update_household_order(
    k: &Known,
    zome_names: &Vec<String>,
    action: &Action,
    household_order: &HouseholdOrder,
    _original_action: &Action,
    original_household_order: &HouseholdOrder,
) -> (r: Outcome)
    ensures
        verdict_of(r) == (if household_order.order_hash != original_household_order.order_hash { reject("Can't change the order_hash for a HouseholdOrder"@) } else if household_order.household_hash != original_household_order.household_hash { reject("Can't change the household_hash for a HouseholdOrder"@) } else { spec_member_verdict(*k, zome_names@, action.author, action.hash, household_order.household_hash) }),
        judge(r) == followed_by(
            Ok(household_order.order_hash == original_household_order.order_hash
                && household_order.household_hash == original_household_order.household_hash),
            spec_was_member_at_the_time(*k, zome_names@, action.author, action.hash, household_order.household_hash),
        ),
{
    if household_order.order_hash != original_household_order.order_hash {
        return invalid("Can't change the order_hash for a HouseholdOrder");
    }
    if household_order.household_hash != original_household_order.household_hash {
        return invalid("Can't change the household_hash for a HouseholdOrder");
    }
    member_check(k, zome_names, action, &household_order.household_hash)
}

/// Only members of its household delete a household order.
pub fn validate_delete_household_order(
    k: &Known,
    zome_names: &Vec<String>,
    action: &Action,
    _original_action: &Action,
    original_household_order: &HouseholdOrder,
) -> (r: Outcome)
    ensures
        verdict_of(r) == spec_member_verdict(*k, zome_names@, action.author, action.hash, original_household_order.household_hash),
        judge(r) == spec_was_member_at_the_time(*k, zome_names@, action.author, action.hash, original_household_order.household_hash),
{
    member_check(k, zome_names, action, &original_household_order.household_hash)
}

/// The household order that `a` links to must exist, and the author must
/// have been a member of its household.
pub open spec fn spec_order_member_gate(k: Known, names: Seq<String>, action: Action, a: AnyLinkableHash) -> Result<
    bool,
    ValidationError,
> {
    match spec_household_of_order(k, a) {
        Err(e) => Err(e),
        Ok(None) => Ok(false),
        Ok(Some(h)) => spec_was_member_at_the_time(k, names, action.author, action.hash, h),
    }
}

/// The verdict of the membership check for the household of the household
/// order that `a` links to, rejecting with `reason` where `a` is none.
pub open spec fn spec_order_member_verdict(k: Known, names: Seq<String>, action: Action, a: AnyLinkableHash, reason: Seq<char>) -> Result<
    Verdict,
    ValidationError,
> {
    match spec_household_of_order(k, a) {
        Err(e) => Err(e),
        Ok(None) => reject(reason),
        Ok(Some(h)) => spec_member_verdict(k, names, action.author, action.hash, h),
    }
}

fn order_member_check(k: &Known, names: &Vec<String>, action: &Action, a: &AnyLinkableHash, reason: &str) -> (r: Outcome)
    ensures
        verdict_of(r) == spec_order_member_verdict(*k, names@, *action, *a, reason@),
        judge(r) == spec_order_member_gate(*k, names@, *action, *a),
{
    match household_of_order(k, a) {
        Err(e) => Err(e),
        Ok(None) => invalid(reason),
        Ok(Some(h)) => member_check(k, names, action, &h),
    }
}

/// A link from an order to a household order, made by a member of the
/// household.
pub fn validate_create_link_order_to_household_orders(
    k: &Known,
    zome_names: &Vec<String>,
    action: &Action,
    base_address: &AnyLinkableHash,
    target_address: &AnyLinkableHash,
) -> (r: Outcome)
    ensures
        verdict_of(r) == and_also(gate(spec_links_to(*k, *base_address, EntryKind::Order), "The base of an OrderToHouseholdOrders link must be an order"@), spec_order_member_verdict(*k, zome_names@, *action, *target_address, "Only members of the household can link its household orders"@)),
        judge(r) == followed_by(
            spec_links_to(*k, *base_address, EntryKind::Order),
            spec_order_member_gate(*k, zome_names@, *action, *target_address),
        ),
{
    let base_ok = links_to(k, base_address, EntryKind::Order);
    match base_ok {
        Ok(true) => {},
        _ => return verdict(base_ok, "The base of an OrderToHouseholdOrders link must be an order"),
    }
    order_member_check(k, zome_names, action, target_address, "Only members of the household can link its household orders")
}

/// Only members of its household unlink a household order from its order.
pub fn validate_delete_link_order_to_household_orders(
    k: &Known,
    zome_names: &Vec<String>,
    action: &Action,
    _base: &AnyLinkableHash,
    target: &AnyLinkableHash,
) -> (r: Outcome)
    ensures
        verdict_of(r) == spec_order_member_verdict(*k, zome_names@, *action, *target, "Only members of the household can unlink its household orders"@),
        judge(r) == spec_order_member_gate(*k, zome_names@, *action, *target),
{
    order_member_check(k, zome_names, action, target, "Only members of the household can unlink its household orders")
}

/// A link from a household to one of its own household orders, made by a
/// member.
pub fn validate_create_link_household_to_household_orders(
    k: &Known,
    zome_names: &Vec<String>,
    action: &Action,
    base_address: &AnyLinkableHash,
    target_address: &AnyLinkableHash,
) -> (r: Outcome)
    ensures
        verdict_of(r) == and_also(gate(spec_links_to(*k, *base_address, EntryKind::Household), "The base of a HouseholdToHouseholdOrders link must be a household"@), match spec_household_of_order(*k, *target_address) { Err(e) => Err(e), Ok(None) => reject("The target of a HouseholdToHouseholdOrders link must be a household order"@), Ok(Some(h)) => if h != base_address.hash { reject("HouseholdToHouseholdOrders links can only have as the base the household hash specified in the HouseholdOrder entry"@) } else { spec_member_verdict(*k, zome_names@, action.author, action.hash, h) } }),
        judge(r) == followed_by(
            spec_links_to(*k, *base_address, EntryKind::Household),
            match spec_household_of_order(*k, *target_address) {
                Err(e) => Err(e),
                Ok(None) => Ok(false),
                Ok(Some(h)) => if h != base_address.hash {
                    Ok(false)
                } else {
                    spec_was_member_at_the_time(*k, zome_names@, action.author, action.hash, h)
                },
            },
        ),
{
    let base_ok = links_to(k, base_address, EntryKind::Household);
    match base_ok {
        Ok(true) => {},
        _ => return verdict(base_ok, "The base of a HouseholdToHouseholdOrders link must be a household"),
    }
    let household = match household_of_order(k, target_address) {
        Err(e) => return Err(e),
        Ok(None) => return invalid("The target of a HouseholdToHouseholdOrders link must be a household order"),
        Ok(Some(h)) => h,
    };
    if household != base_address.hash {
        return invalid(
            "HouseholdToHouseholdOrders links can only have as the base the household hash specified in the HouseholdOrder entry",
        );
    }
    member_check(k, zome_names, action, &household)
}

/// Only members unlink a household's orders from it.
pub fn validate_delete_link_household_to_household_orders(
    k: &Known,
    zome_names: &Vec<String>,
    action: &Action,
    base: &AnyLinkableHash,
    _target: &AnyLinkableHash,
) -> (r: Outcome)
    ensures
        verdict_of(r) == (if base.kind == LinkableKind::Action { spec_member_verdict(*k, zome_names@, action.author, action.hash, base.hash) } else { reject("The base of a HouseholdToHouseholdOrders link must be an action"@) }),
        judge(r) == (if base.kind == LinkableKind::Action {
            spec_was_member_at_the_time(*k, zome_names@, action.author, action.hash, base.hash)
        } else {
            Ok(false)
        }),
{
    let Some(household) = base.into_action_hash() else {
        return invalid("The base of a HouseholdToHouseholdOrders link must be an action");
    };
    member_check(k, zome_names, action, &household)
}

/// A revision link of household orders leads from a household order to a
/// household order, and is made by a member of the household.
pub fn validate_create_link_household_order_updates(
    k: &Known,
    zome_names: &Vec<String>,
    action: &Action,
    base_address: &AnyLinkableHash,
    target_address: &AnyLinkableHash,
) -> (r: Outcome)
    ensures
        verdict_of(r) == and_also(gate(spec_links_to(*k, *base_address, EntryKind::HouseholdOrder), "The base of a HouseholdOrderUpdates link must be a household order"@), spec_order_member_verdict(*k, zome_names@, *action, *target_address, "Only members of the household can revise its household orders"@)),
        judge(r) == followed_by(
            spec_links_to(*k, *base_address, EntryKind::HouseholdOrder),
            spec_order_member_gate(*k, zome_names@, *action, *target_address),
        ),
{
    let base_ok = links_to(k, base_address, EntryKind::HouseholdOrder);
    match base_ok {
        Ok(true) => {},
        _ => return verdict(base_ok, "The base of a HouseholdOrderUpdates link must be a household order"),
    }
    order_member_check(k, zome_names, action, target_address, "Only members of the household can revise its household orders")
}

/// Revision links of household orders are never deleted.
pub fn validate_delete_link_household_order_updates(_action: &Action) -> (r: Outcome)
    ensures
        verdict_of(r) == reject("HouseholdOrderUpdates links cannot be deleted"@),
        judge(r) == Ok::<bool, ValidationError>(false),
{
    invalid("HouseholdOrderUpdates links cannot be deleted")
}

/// An offer of a producer must refer to an order and to the producer's
/// original revision, and be made by the liaison or an order manager.
pub fn validate_create_available_products(
    k: &Known,
    zome_names: &Vec<String>,
    action: &Action,
    available_products: &AvailableProducts,
) -> (r: Outcome)
    ensures
        verdict_of(r) == and_also(gate(spec_refers_to(*k, available_products.order_hash, EntryKind::Order), "Dependant action must be accompanied by an order entry"@), and_also(gate(spec_refers_to(*k, available_products.original_producer_hash, EntryKind::Producer), "Dependant action must be accompanied by a producer entry"@), spec_can_change_verdict(*k, zome_names@, action.author, action.hash, *available_products))),
        judge(r) == followed_by(
            spec_refers_to(*k, available_products.order_hash, EntryKind::Order),
            followed_by(
                spec_refers_to(*k, available_products.original_producer_hash, EntryKind::Producer),
                spec_can_change_available_products(*k, zome_names@, action.author, action.hash, *available_products),
            ),
        ),
{
    let order_ok = k.refers_to(&available_products.order_hash, EntryKind::Order);
    match order_ok {
        Ok(true) => {},
        _ => return verdict(order_ok, "Dependant action must be accompanied by an order entry"),
    }
    let producer_ok = k.refers_to(&available_products.original_producer_hash, EntryKind::Producer);
    match producer_ok {
        Ok(true) => {},
        _ => return verdict(producer_ok, "Dependant action must be accompanied by a producer entry"),
    }
    validate_can_change_available_products(k, zome_names, &action.author, &action.hash, available_products)
}

/// A revision of an offer keeps its order and original producer, and is
/// made by the liaison or an order manager.
pub fn validate_update_available_products(
    k: &Known,
    zome_names: &Vec<String>,
    action: &Action,
    available_products: &AvailableProducts,
    _original_action: &Action,
    original_available_products: &AvailableProducts,
) -> (r: Outcome)
    ensures
        verdict_of(r) == (if available_products.order_hash != original_available_products.order_hash { reject("Can't change the order hash for the AvailableProducts entry"@) } else if available_products.original_producer_hash != original_available_products.original_producer_hash { reject("Can't change the original_producer_hash for the AvailableProducts entry"@) } else { spec_can_change_verdict(*k, zome_names@, action.author, action.hash, *available_products) }),
        judge(r) == followed_by(
            Ok(available_products.order_hash == original_available_products.order_hash
                && available_products.original_producer_hash == original_available_products.original_producer_hash),
            spec_can_change_available_products(*k, zome_names@, action.author, action.hash, *available_products),
        ),
{
    if available_products.order_hash != original_available_products.order_hash {
        return invalid("Can't change the order hash for the AvailableProducts entry");
    }
    if available_products.original_producer_hash != original_available_products.original_producer_hash {
        return invalid("Can't change the original_producer_hash for the AvailableProducts entry");
    }
    validate_can_change_available_products(k, zome_names, &action.author, &action.hash, available_products)
}

/// Only the liaison or an order manager withdraws an offer.
pub fn validate_delete_available_products(
    k: &Known,
    zome_names: &Vec<String>,
    action: &Action,
    _original_action: &Action,
    original_available_products: &AvailableProducts,
) -> (r: Outcome)
    ensures
        verdict_of(r) == spec_can_change_verdict(*k, zome_names@, action.author, action.hash, *original_available_products),
        judge(r) == spec_can_change_available_products(*k, zome_names@, action.author, action.hash, *original_available_products),
{
    validate_can_change_available_products(k, zome_names, &action.author, &action.hash, original_available_products)
}

/// The offer that `a` links to must exist, and the author must be allowed
/// to change it.
pub open spec fn spec_offer_gate(k: Known, names: Seq<String>, action: Action, a: AnyLinkableHash) -> Result<
    bool,
    ValidationError,
> {
    match spec_available_products_at(k, a) {
        Err(e) => Err(e),
        Ok(None) => Ok(false),
        Ok(Some(ap)) => spec_can_change_available_products(k, names, action.author, action.hash, ap),
    }
}

/// The verdict on changing the offer that `a` links to, rejecting with
/// `reason` where `a` is no offer.
pub open spec fn spec_offer_verdict(k: Known, names: Seq<String>, action: Action, a: AnyLinkableHash, reason: Seq<char>) -> Result<
    Verdict,
    ValidationError,
> {
    match spec_available_products_at(k, a) {
        Err(e) => Err(e),
        Ok(None) => reject(reason),
        Ok(Some(ap)) => spec_can_change_verdict(k, names, action.author, action.hash, ap),
    }
}

fn offer_check(k: &Known, names: &Vec<String>, action: &Action, a: &AnyLinkableHash, reason: &str) -> (r: Outcome)
    ensures
        verdict_of(r) == spec_offer_verdict(*k, names@, *action, *a, reason@),
        judge(r) == spec_offer_gate(*k, names@, *action, *a),
{
    match available_products_at(k, a) {
        Err(e) => Err(e),
        Ok(None) => invalid(reason),
        Ok(Some(ap)) => validate_can_change_available_products(k, names, &action.author, &action.hash, &ap),
    }
}

/// A link from an order to an offer, made by the liaison or an order
/// manager.
pub fn validate_create_link_order_to_available_products(
    k: &Known,
    zome_names: &Vec<String>,
    action: &Action,
    base_address: &AnyLinkableHash,
    target_address: &AnyLinkableHash,
) -> (r: Outcome)
    ensures
        verdict_of(r) == and_also(gate(spec_links_to(*k, *base_address, EntryKind::Order), "The base of an OrderToAvailableProducts link must be an order"@), spec_offer_verdict(*k, zome_names@, *action, *target_address, "Only the liasons or the order managers can link AvailableProducts"@)),
        judge(r) == followed_by(
            spec_links_to(*k, *base_address, EntryKind::Order),
            spec_offer_gate(*k, zome_names@, *action, *target_address),
        ),
{
    let base_ok = links_to(k, base_address, EntryKind::Order);
    match base_ok {
        Ok(true) => {},
        _ => return verdict(base_ok, "The base of an OrderToAvailableProducts link must be an order"),
    }
    offer_check(k, zome_names, action, target_address, "Only the liasons or the order managers can link AvailableProducts")
}

/// Only the liaison or an order manager unlinks an offer from its order.
pub fn validate_delete_link_order_to_available_products(
    k: &Known,
    zome_names: &Vec<String>,
    action: &Action,
    _base: &AnyLinkableHash,
    target: &AnyLinkableHash,
) -> (r: Outcome)
    ensures
        verdict_of(r) == spec_offer_verdict(*k, zome_names@, *action, *target, "Only the liasons or the order managers can unlink AvailableProducts"@),
        judge(r) == spec_offer_gate(*k, zome_names@, *action, *target),
{
    offer_check(k, zome_names, action, target, "Only the liasons or the order managers can unlink AvailableProducts")
}

/// A revision link of offers leads from an offer to an offer, and is made by
/// the liaison or an order manager.
pub fn validate_create_link_available_products_updates(
    k: &Known,
    zome_names: &Vec<String>,
    action: &Action,
    base_address: &AnyLinkableHash,
    target_address: &AnyLinkableHash,
) -> (r: Outcome)
    ensures
        verdict_of(r) == and_also(gate(spec_links_to(*k, *base_address, EntryKind::AvailableProducts), "The base of an AvailableProductsUpdates link must be an AvailableProducts"@), spec_offer_verdict(*k, zome_names@, *action, *target_address, "Only the liasons or the order managers can revise AvailableProducts"@)),
        judge(r) == followed_by(
            spec_links_to(*k, *base_address, EntryKind::AvailableProducts),
            spec_offer_gate(*k, zome_names@, *action, *target_address),
        ),
{
    let base_ok = links_to(k, base_address, EntryKind::AvailableProducts);
    match base_ok {
        Ok(true) => {},
        _ => return verdict(base_ok, "The base of an AvailableProductsUpdates link must be an AvailableProducts"),
    }
    offer_check(k, zome_names, action, target_address, "Only the liasons or the order managers can revise AvailableProducts")
}

/// Revision links of offers are never deleted.
pub fn validate_delete_link_available_products_updates(_action: &Action) -> (r: Outcome)
    ensures
        verdict_of(r) == reject("AvailableProductsUpdates links cannot be deleted"@),
        judge(r) == Ok::<bool, ValidationError>(false),
{
    invalid("AvailableProductsUpdates links cannot be deleted")
}

/// A delivery must refer to an order and a producer.
pub fn validate_create_producer_delivery(k: &Known, _action: &Action, producer_delivery: &ProducerDelivery) -> (r: Outcome)
    ensures
        verdict_of(r) == and_also(gate(spec_refers_to(*k, producer_delivery.order_hash, EntryKind::Order), "Dependant action must be accompanied by an order entry"@), gate(spec_refers_to(*k, producer_delivery.producer_hash, EntryKind::Producer), "Dependant action must be accompanied by a producer entry"@)),
        judge(r) == followed_by(
            spec_refers_to(*k, producer_delivery.order_hash, EntryKind::Order),
            spec_refers_to(*k, producer_delivery.producer_hash, EntryKind::Producer),
        ),
{
    let order_ok = k.refers_to(&producer_delivery.order_hash, EntryKind::Order);
    match order_ok {
        Ok(true) => {},
        _ => return verdict(order_ok, "Dependant action must be accompanied by an order entry"),
    }
    verdict(
        k.refers_to(&producer_delivery.producer_hash, EntryKind::Producer),
        "Dependant action must be accompanied by a producer entry",
    )
}

/// A revision of a delivery keeps its order and producer.
pub fn validate_update_producer_delivery(
    _action: &Action,
    producer_delivery: &ProducerDelivery,
    _original_action: &Action,
    original_producer_delivery: &ProducerDelivery,
) -> (r: Outcome)
    ensures
        verdict_of(r) == (if producer_delivery.order_hash != original_producer_delivery.order_hash { reject("Can't change the order_hash for a ProducerDelivery"@) } else if producer_delivery.producer_hash != original_producer_delivery.producer_hash { reject("Can't change the producer_hash for a ProducerDelivery"@) } else { accept() }),
        judge(r) == Ok::<bool, ValidationError>(
            producer_delivery.order_hash == original_producer_delivery.order_hash
                && producer_delivery.producer_hash == original_producer_delivery.producer_hash,
        ),
{
    if producer_delivery.order_hash != original_producer_delivery.order_hash {
        return invalid("Can't change the order_hash for a ProducerDelivery");
    }
    if producer_delivery.producer_hash != original_producer_delivery.producer_hash {
        return invalid("Can't change the producer_hash for a ProducerDelivery");
    }
    Ok(ValidateCallbackResult::Valid)
}

/// Deliveries may be deleted.
pub fn validate_delete_producer_delivery(_action: &Action, _original_action: &Action, _original_producer_delivery: &ProducerDelivery) -> (r: Outcome)
    ensures
        verdict_of(r) == accept(),
        judge(r) == Ok::<bool, ValidationError>(true),
{
    Ok(ValidateCallbackResult::Valid)
}

/// A link from an order to a delivery.
pub fn validate_create_link_order_to_producer_deliveries(
    k: &Known,
    _action: &Action,
    base_address: &AnyLinkableHash,
    target_address: &AnyLinkableHash,
) -> (r: Outcome)
    ensures
        verdict_of(r) == and_also(gate(spec_links_to(*k, *base_address, EntryKind::Order), "The base of an OrderToProducerDeliveries link must be an order"@), gate(spec_links_to(*k, *target_address, EntryKind::ProducerDelivery), "The target of an OrderToProducerDeliveries link must be a ProducerDelivery"@)),
        judge(r) == followed_by(
            spec_links_to(*k, *base_address, EntryKind::Order),
            spec_links_to(*k, *target_address, EntryKind::ProducerDelivery),
        ),
{
    let base_ok = links_to(k, base_address, EntryKind::Order);
    match base_ok {
        Ok(true) => {},
        _ => return verdict(base_ok, "The base of an OrderToProducerDeliveries link must be an order"),
    }
    verdict(
        links_to(k, target_address, EntryKind::ProducerDelivery),
        "The target of an OrderToProducerDeliveries link must be a ProducerDelivery",
    )
}

/// Deliveries may be unlinked from their order.
pub fn validate_delete_link_order_to_producer_deliveries(_action: &Action) -> (r: Outcome)
    ensures
        verdict_of(r) == accept(),
        judge(r) == Ok::<bool, ValidationError>(true),
{
    Ok(ValidateCallbackResult::Valid)
}

/// A link from a producer to a delivery.
pub fn validate_create_link_producer_to_producer_deliveries(
    k: &Known,
    _action: &Action,
    base_address: &AnyLinkableHash,
    target_address: &AnyLinkableHash,
) -> (r: Outcome)
    ensures
        verdict_of(r) == and_also(gate(spec_links_to(*k, *base_address, EntryKind::Producer), "The base of a ProducerToProducerDeliveries link must be a producer"@), gate(spec_links_to(*k, *target_address, EntryKind::ProducerDelivery), "The target of a ProducerToProducerDeliveries link must be a ProducerDelivery"@)),
        judge(r) == followed_by(
            spec_links_to(*k, *base_address, EntryKind::Producer),
            spec_links_to(*k, *target_address, EntryKind::ProducerDelivery),
        ),
{
    let base_ok = links_to(k, base_address, EntryKind::Producer);
    match base_ok {
        Ok(true) => {},
        _ => return verdict(base_ok, "The base of a ProducerToProducerDeliveries link must be a producer"),
    }
    verdict(
        links_to(k, target_address, EntryKind::ProducerDelivery),
        "The target of a ProducerToProducerDeliveries link must be a ProducerDelivery",
    )
}

/// Deliveries may be unlinked from their producer.
pub fn validate_delete_link_producer_to_producer_deliveries(_action: &Action) -> (r: Outcome)
    ensures
        verdict_of(r) == accept(),
        judge(r) == Ok::<bool, ValidationError>(true),
{
    Ok(ValidateCallbackResult::Valid)
}

/// An invoice must refer to an order and a producer, and be made by a
/// bookkeeper.
pub fn validate_create_producer_invoice(k: &Known, zome_names: &Vec<String>, action: &Action, producer_invoice: &ProducerInvoice) -> (r: Outcome)
    ensures
        verdict_of(r) == and_also(gate(spec_refers_to(*k, producer_invoice.order_hash, EntryKind::Order), "Dependant action must be accompanied by an order entry"@), and_also(gate(spec_refers_to(*k, producer_invoice.producer_hash, EntryKind::Producer), "Dependant action must be accompanied by a producer entry"@), spec_role_verdict(*k, zome_names@, action.author, action.hash, BOOKKEEPER_ROLE@, ROLES_INTEGRITY_ZOME_NAME@))),
        judge(r) == followed_by(
            spec_refers_to(*k, producer_invoice.order_hash, EntryKind::Order),
            followed_by(
                spec_refers_to(*k, producer_invoice.producer_hash, EntryKind::Producer),
                spec_role_gate(*k, zome_names@, action.author, action.hash, BOOKKEEPER_ROLE@),
            ),
        ),
{
    let order_ok = k.refers_to(&producer_invoice.order_hash, EntryKind::Order);
    match order_ok {
        Ok(true) => {},
        _ => return verdict(order_ok, "Dependant action must be accompanied by an order entry"),
    }
    let producer_ok = k.refers_to(&producer_invoice.producer_hash, EntryKind::Producer);
    match producer_ok {
        Ok(true) => {},
        _ => return verdict(producer_ok, "Dependant action must be accompanied by a producer entry"),
    }
    role_check(k, zome_names, action, BOOKKEEPER_ROLE)
}

/// A revision of an invoice keeps its order and producer, and is made by a
/// bookkeeper.
pub fn validate_update_producer_invoice(
    k: &Known,
    zome_names: &Vec<String>,
    action: &Action,
    producer_invoice: &ProducerInvoice,
    _original_action: &Action,
    original_producer_invoice: &ProducerInvoice,
) -> (r: Outcome)
    ensures
        verdict_of(r) == (if producer_invoice.order_hash != original_producer_invoice.order_hash { reject("Can't change the order_hash for a ProducerInvoice"@) } else if producer_invoice.producer_hash != original_producer_invoice.producer_hash { reject("Can't change the producer_hash for a ProducerInvoice"@) } else { spec_role_verdict(*k, zome_names@, action.author, action.hash, BOOKKEEPER_ROLE@, ROLES_INTEGRITY_ZOME_NAME@) }),
        judge(r) == followed_by(
            Ok(producer_invoice.order_hash == original_producer_invoice.order_hash
                && producer_invoice.producer_hash == original_producer_invoice.producer_hash),
            spec_role_gate(*k, zome_names@, action.author, action.hash, BOOKKEEPER_ROLE@),
        ),
{
    if producer_invoice.order_hash != original_producer_invoice.order_hash {
        return invalid("Can't change the order_hash for a ProducerInvoice");
    }
    if producer_invoice.producer_hash != original_producer_invoice.producer_hash {
        return invalid("Can't change the producer_hash for a ProducerInvoice");
    }
    role_check(k, zome_names, action, BOOKKEEPER_ROLE)
}

/// Only bookkeepers delete invoices.
pub fn validate_delete_producer_invoice(
    k: &Known,
    zome_names: &Vec<String>,
    action: &Action,
    _original_action: &Action,
    _original_producer_invoice: &ProducerInvoice,
) -> (r: Outcome)
    ensures
        verdict_of(r) == spec_role_verdict(*k, zome_names@, action.author, action.hash, BOOKKEEPER_ROLE@, ROLES_INTEGRITY_ZOME_NAME@),
        judge(r) == spec_role_gate(*k, zome_names@, action.author, action.hash, BOOKKEEPER_ROLE@),
{
    role_check(k, zome_names, action, BOOKKEEPER_ROLE)
}

/// A link from an order to an invoice, made by a bookkeeper.
pub fn validate_create_link_order_to_producer_invoices(
    k: &Known,
    zome_names: &Vec<String>,
    action: &Action,
    base_address: &AnyLinkableHash,
    target_address: &AnyLinkableHash,
) -> (r: Outcome)
    ensures
        verdict_of(r) == and_also(gate(spec_links_to(*k, *base_address, EntryKind::Order), "The base of an OrderToProducerInvoices link must be an order"@), and_also(gate(spec_links_to(*k, *target_address, EntryKind::ProducerInvoice), "The target of an OrderToProducerInvoices link must be a ProducerInvoice"@), spec_role_verdict(*k, zome_names@, action.author, action.hash, BOOKKEEPER_ROLE@, ROLES_INTEGRITY_ZOME_NAME@))),
        judge(r) == followed_by(
            spec_links_to(*k, *base_address, EntryKind::Order),
            followed_by(
                spec_links_to(*k, *target_address, EntryKind::ProducerInvoice),
                spec_role_gate(*k, zome_names@, action.author, action.hash, BOOKKEEPER_ROLE@),
            ),
        ),
{
    let base_ok = links_to(k, base_address, EntryKind::Order);
    match base_ok {
        Ok(true) => {},
        _ => return verdict(base_ok, "The base of an OrderToProducerInvoices link must be an order"),
    }
    let target_ok = links_to(k, target_address, EntryKind::ProducerInvoice);
    match target_ok {
        Ok(true) => {},
        _ => return verdict(target_ok, "The target of an OrderToProducerInvoices link must be a ProducerInvoice"),
    }
    role_check(k, zome_names, action, BOOKKEEPER_ROLE)
}

/// Only bookkeepers unlink an invoice from its order.
pub fn validate_delete_link_order_to_producer_invoices(k: &Known, zome_names: &Vec<String>, action: &Action) -> (r: Outcome)
    ensures
        verdict_of(r) == spec_role_verdict(*k, zome_names@, action.author, action.hash, BOOKKEEPER_ROLE@, ROLES_INTEGRITY_ZOME_NAME@),
        judge(r) == spec_role_gate(*k, zome_names@, action.author, action.hash, BOOKKEEPER_ROLE@),
{
    role_check(k, zome_names, action, BOOKKEEPER_ROLE)
}

/// A link from a producer to an invoice, made by a bookkeeper.
pub fn validate_create_link_producer_to_producer_invoices(
    k: &Known,
    zome_names: &Vec<String>,
    action: &Action,
    base_address: &AnyLinkableHash,
    target_address: &AnyLinkableHash,
) -> (r: Outcome)
    ensures
        verdict_of(r) == and_also(gate(spec_links_to(*k, *base_address, EntryKind::Producer), "The base of a ProducerToProducerInvoices link must be a producer"@), and_also(gate(spec_links_to(*k, *target_address, EntryKind::ProducerInvoice), "The target of a ProducerToProducerInvoices link must be a ProducerInvoice"@), spec_role_verdict(*k, zome_names@, action.author, action.hash, BOOKKEEPER_ROLE@, ROLES_INTEGRITY_ZOME_NAME@))),
        judge(r) == followed_by(
            spec_links_to(*k, *base_address, EntryKind::Producer),
            followed_by(
                spec_links_to(*k, *target_address, EntryKind::ProducerInvoice),
                spec_role_gate(*k, zome_names@, action.author, action.hash, BOOKKEEPER_ROLE@),
            ),
        ),
{
    let base_ok = links_to(k, base_address, EntryKind::Producer);
    match base_ok {
        Ok(true) => {},
        _ => return verdict(base_ok, "The base of a ProducerToProducerInvoices link must be a producer"),
    }
    let target_ok = links_to(k, target_address, EntryKind::ProducerInvoice);
    match target_ok {
        Ok(true) => {},
        _ => return verdict(target_ok, "The target of a ProducerToProducerInvoices link must be a ProducerInvoice"),
    }
    role_check(k, zome_names, action, BOOKKEEPER_ROLE)
}

/// Only bookkeepers unlink an invoice from its producer.
pub fn validate_delete_link_producer_to_producer_invoices(k: &Known, zome_names: &Vec<String>, action: &Action) -> (r: Outcome)
    ensures
        verdict_of(r) == spec_role_verdict(*k, zome_names@, action.author, action.hash, BOOKKEEPER_ROLE@, ROLES_INTEGRITY_ZOME_NAME@),
        judge(r) == spec_role_gate(*k, zome_names@, action.author, action.hash, BOOKKEEPER_ROLE@),
{
    role_check(k, zome_names, action, BOOKKEEPER_ROLE)
}

} // verus!
