//! The single entry point of the orders zome: each operation is routed by
//! its kind and by the (zome index, type index) of its entry or link to the
//! rule for it.
use vstd::prelude::*;
use crate::action::{spec_app_entry_type, Action, ActionContent};
use crate::dispatch::Op;
use crate::entries::{spec_kind_of, EntryKind, EntryValue};
use crate::hash::{ActionHash, AnyLinkableHash, LinkableKind};
use crate::known::{
    followed_by, invalid, judge, spec_action_at, spec_entry_at, spec_links_to, spec_refers_to, Known, Outcome,
    ValidateCallbackResult, ValidationError,
};
use crate::membership::spec_was_member_at_the_time;
use crate::orders::{
    BOOKKEEPER_ROLE, ORDER_MANAGER, spec_can_change_available_products, spec_household_of_order, spec_offer_gate, spec_order_member_gate, spec_role_gate, validate_create_available_products, validate_create_household_order, validate_create_link_all_orders, validate_create_link_available_products_updates, validate_create_link_household_order_updates, validate_create_link_household_to_household_orders, validate_create_link_order_to_available_products, validate_create_link_order_to_household_orders, validate_create_link_order_to_producer_deliveries, validate_create_link_order_to_producer_invoices, validate_create_link_order_updates, validate_create_link_producer_to_producer_deliveries, validate_create_link_producer_to_producer_invoices, validate_create_order, validate_create_producer_delivery, validate_create_producer_invoice, validate_delete_available_products, validate_delete_household_order, validate_delete_link_all_orders, validate_delete_link_available_products_updates, validate_delete_link_household_order_updates, validate_delete_link_household_to_household_orders, validate_delete_link_order_to_available_products, validate_delete_link_order_to_household_orders, validate_delete_link_order_to_producer_deliveries, validate_delete_link_order_to_producer_invoices, validate_delete_link_order_updates, validate_delete_link_producer_to_producer_deliveries, validate_delete_link_producer_to_producer_invoices, validate_delete_order, validate_delete_producer_delivery, validate_delete_producer_invoice, validate_update_available_products, validate_update_household_order, validate_update_order, validate_update_producer_delivery, validate_update_producer_invoice,
};

verus! {

/// Link type indices of the orders zome.
pub const ORDER_UPDATES: u8 = 0;
pub const ORDER_TO_HOUSEHOLD_ORDERS: u8 = 1;
pub const HOUSEHOLD_TO_HOUSEHOLD_ORDERS: u8 = 2;
pub const HOUSEHOLD_ORDER_UPDATES: u8 = 3;
pub const ORDER_TO_PRODUCER_DELIVERIES: u8 = 4;
pub const PRODUCER_TO_PRODUCER_DELIVERIES: u8 = 5;
pub const ORDER_TO_PRODUCER_INVOICES: u8 = 6;
pub const PRODUCER_TO_PRODUCER_INVOICES: u8 = 7;
pub const ALL_ORDERS: u8 = 8;
pub const ORDER_TO_AVAILABLE_PRODUCTS: u8 = 9;
pub const AVAILABLE_PRODUCTS_UPDATES: u8 = 10;

/// The entry kind of the entry type `entry_index` of the orders zome.
pub open spec fn spec_orders_entry_kind(entry_index: u8) -> Option<EntryKind> {
    if entry_index == 0 {
        Some(EntryKind::Order)
    } else if entry_index == 1 {
        Some(EntryKind::HouseholdOrder)
    } else if entry_index == 2 {
        Some(EntryKind::ProducerDelivery)
    } else if entry_index == 3 {
        Some(EntryKind::ProducerInvoice)
    } else if entry_index == 4 {
        Some(EntryKind::AvailableProducts)
    } else {
        None
    }
}

/// The entry kind of the entry type `entry_index` of the orders zome.
pub fn orders_entry_kind(entry_index: u8) -> (r: Option<EntryKind>)
    ensures
        r == spec_orders_entry_kind(entry_index),
{
    if entry_index == 0 {
        Some(EntryKind::Order)
    } else if entry_index == 1 {
        Some(EntryKind::HouseholdOrder)
    } else if entry_index == 2 {
        Some(EntryKind::ProducerDelivery)
    } else if entry_index == 3 {
        Some(EntryKind::ProducerInvoice)
    } else if entry_index == 4 {
        Some(EntryKind::AvailableProducts)
    } else {
        None
    }
}

/// The rule for a link of type `link_type` of the orders zome created by `a`.
pub open spec fn spec_orders_create_link_rule(
    k: Known,
    names: Seq<String>,
    a: Action,
    link_type: u8,
    base: AnyLinkableHash,
    target: AnyLinkableHash,
) -> Result<bool, ValidationError> {
    if link_type == ORDER_UPDATES {
        followed_by(spec_links_to(k, base, EntryKind::Order), spec_links_to(k, target, EntryKind::Order))
    } else if link_type == ORDER_TO_HOUSEHOLD_ORDERS {
        followed_by(spec_links_to(k, base, EntryKind::Order), spec_order_member_gate(k, names, a, target))
    } else if link_type == HOUSEHOLD_TO_HOUSEHOLD_ORDERS {
        followed_by(
            spec_links_to(k, base, EntryKind::Household),
            match spec_household_of_order(k, target) {
                Err(e) => Err(e),
                Ok(None) => Ok(false),
                Ok(Some(h)) => if h != base.hash {
                    Ok(false)
                } else {
                    spec_was_member_at_the_time(k, names, a.author, a.hash, h)
                },
            },
        )
    } else if link_type == HOUSEHOLD_ORDER_UPDATES {
        followed_by(spec_links_to(k, base, EntryKind::HouseholdOrder), spec_order_member_gate(k, names, a, target))
    } else if link_type == ORDER_TO_PRODUCER_DELIVERIES {
        followed_by(spec_links_to(k, base, EntryKind::Order), spec_links_to(k, target, EntryKind::ProducerDelivery))
    } else if link_type == PRODUCER_TO_PRODUCER_DELIVERIES {
        followed_by(spec_links_to(k, base, EntryKind::Producer), spec_links_to(k, target, EntryKind::ProducerDelivery))
    } else if link_type == ORDER_TO_PRODUCER_INVOICES {
        followed_by(
            spec_links_to(k, base, EntryKind::Order),
            followed_by(
                spec_links_to(k, target, EntryKind::ProducerInvoice),
                spec_role_gate(k, names, a.author, a.hash, BOOKKEEPER_ROLE@),
            ),
        )
    } else if link_type == PRODUCER_TO_PRODUCER_INVOICES {
        followed_by(
            spec_links_to(k, base, EntryKind::Producer),
            followed_by(
                spec_links_to(k, target, EntryKind::ProducerInvoice),
                spec_role_gate(k, names, a.author, a.hash, BOOKKEEPER_ROLE@),
            ),
        )
    } else if link_type == ALL_ORDERS {
        spec_links_to(k, target, EntryKind::Order)
    } else if link_type == ORDER_TO_AVAILABLE_PRODUCTS {
        followed_by(spec_links_to(k, base, EntryKind::Order), spec_offer_gate(k, names, a, target))
    } else if link_type == AVAILABLE_PRODUCTS_UPDATES {
        followed_by(spec_links_to(k, base, EntryKind::AvailableProducts), spec_offer_gate(k, names, a, target))
    } else {
        Ok(false)
    }
}

/// The rule for the deletion by `a` of a link of type `link_type` of the
/// orders zome.
pub open spec fn spec_orders_delete_link_rule(
    k: Known,
    names: Seq<String>,
    a: Action,
    link_type: u8,
    base: AnyLinkableHash,
    target: AnyLinkableHash,
) -> Result<bool, ValidationError> {
    if link_type == ORDER_TO_HOUSEHOLD_ORDERS {
        spec_order_member_gate(k, names, a, target)
    } else if link_type == HOUSEHOLD_TO_HOUSEHOLD_ORDERS {
        if base.kind == LinkableKind::Action {
            spec_was_member_at_the_time(k, names, a.author, a.hash, base.hash)
        } else {
            Ok(false)
        }
    } else if link_type == ORDER_TO_PRODUCER_DELIVERIES || link_type == PRODUCER_TO_PRODUCER_DELIVERIES
        || link_type == ALL_ORDERS {
        Ok(true)
    } else if link_type == ORDER_TO_PRODUCER_INVOICES || link_type == PRODUCER_TO_PRODUCER_INVOICES {
        spec_role_gate(k, names, a.author, a.hash, BOOKKEEPER_ROLE@)
    } else if link_type == ORDER_TO_AVAILABLE_PRODUCTS {
        spec_offer_gate(k, names, a, target)
    } else {
        Ok(false)
    }
}

/// The rule for an entry of the orders zome stored by its creating action.
pub open spec fn spec_orders_create_rule(k: Known, names: Seq<String>, a: Action, entry: Option<EntryValue>) -> Result<
    bool,
    ValidationError,
> {
    match entry {
        Some(EntryValue::Order(_)) => spec_role_gate(k, names, a.author, a.hash, ORDER_MANAGER@),
        Some(EntryValue::HouseholdOrder(o)) => followed_by(
            spec_refers_to(k, o.order_hash, EntryKind::Order),
            followed_by(
                spec_refers_to(k, o.household_hash, EntryKind::Household),
                spec_was_member_at_the_time(k, names, a.author, a.hash, o.household_hash),
            ),
        ),
        Some(EntryValue::ProducerDelivery(d)) => followed_by(
            spec_refers_to(k, d.order_hash, EntryKind::Order),
            spec_refers_to(k, d.producer_hash, EntryKind::Producer),
        ),
        Some(EntryValue::ProducerInvoice(i)) => followed_by(
            spec_refers_to(k, i.order_hash, EntryKind::Order),
            followed_by(
                spec_refers_to(k, i.producer_hash, EntryKind::Producer),
                spec_role_gate(k, names, a.author, a.hash, BOOKKEEPER_ROLE@),
            ),
        ),
        Some(EntryValue::AvailableProducts(p)) => followed_by(
            spec_refers_to(k, p.order_hash, EntryKind::Order),
            followed_by(
                spec_refers_to(k, p.original_producer_hash, EntryKind::Producer),
                spec_can_change_available_products(k, names, a.author, a.hash, p),
            ),
        ),
        _ => Ok(true),
    }
}

/// The rule for `a` revising the entry `original` into `entry`.
pub open spec fn spec_orders_update_rule(k: Known, names: Seq<String>, a: Action, entry: EntryValue, original: EntryValue) -> Result<
    bool,
    ValidationError,
> {
    match (entry, original) {
        (EntryValue::HouseholdOrder(o), EntryValue::HouseholdOrder(p)) => followed_by(
            Ok(o.order_hash == p.order_hash && o.household_hash == p.household_hash),
            spec_was_member_at_the_time(k, names, a.author, a.hash, o.household_hash),
        ),
        (EntryValue::ProducerDelivery(d), EntryValue::ProducerDelivery(e)) => Ok(
            d.order_hash == e.order_hash && d.producer_hash == e.producer_hash,
        ),
        (EntryValue::ProducerInvoice(i), EntryValue::ProducerInvoice(j)) => followed_by(
            Ok(i.order_hash == j.order_hash && i.producer_hash == j.producer_hash),
            spec_role_gate(k, names, a.author, a.hash, BOOKKEEPER_ROLE@),
        ),
        (EntryValue::AvailableProducts(p), EntryValue::AvailableProducts(q)) => followed_by(
            Ok(p.order_hash == q.order_hash && p.original_producer_hash == q.original_producer_hash),
            spec_can_change_available_products(k, names, a.author, a.hash, p),
        ),
        _ => Ok(true),
    }
}

/// The rule for an update `a` registered at the entry it revises.
pub open spec fn spec_orders_register_update(k: Known, names: Seq<String>, a: Action, entry: Option<EntryValue>) -> Result<
    bool,
    ValidationError,
> {
    match (a.content, entry) {
        (ActionContent::Update { original_action_address, .. }, Some(v)) => match spec_action_at(
            k,
            original_action_address,
        ) {
            None => Err(ValidationError::RecordUnavailable { hash: original_action_address, kind: None }),
            Some(original) => if !original.content.spec_creates_entry() {
                Ok(false)
            } else {
                match spec_entry_at(k, original_action_address, spec_kind_of(v)) {
                    None => Err(
                        ValidationError::RecordUnavailable { hash: original_action_address, kind: Some(spec_kind_of(v)) },
                    ),
                    Some(None) => Ok(false),
                    Some(Some(o)) => spec_orders_update_rule(k, names, a, v, o),
                }
            },
        },
        _ => Ok(true),
    }
}

/// The rule for the delete `a` of the record at `deleted` of the orders zome
/// at `z`, where a record without its entry passes if `private_passes` and
/// its type is private.
pub open spec fn spec_orders_delete_rule(
    k: Known,
    names: Seq<String>,
    z: u8,
    a: Action,
    deleted: ActionHash,
    private_passes: bool,
) -> Result<bool, ValidationError> {
    match spec_action_at(k, deleted) {
        None => Err(ValidationError::RecordUnavailable { hash: deleted, kind: None }),
        Some(original) => if !original.content.spec_creates_entry() {
            Ok(false)
        } else {
            match spec_app_entry_type(original.content) {
                None => Ok(true),
                Some(def) => if def.zome_index != z {
                    Ok(false)
                } else {
                    match spec_orders_entry_kind(def.entry_index) {
                        None => Ok(false),
                        Some(kind) => match spec_entry_at(k, deleted, kind) {
                            None => Err(ValidationError::RecordUnavailable { hash: deleted, kind: Some(kind) }),
                            Some(None) => Ok(private_passes && !def.public),
                            Some(Some(v)) => match v {
                                EntryValue::Order(_) => spec_role_gate(k, names, a.author, a.hash, ORDER_MANAGER@),
                                EntryValue::HouseholdOrder(o) => spec_was_member_at_the_time(
                                    k,
                                    names,
                                    a.author,
                                    a.hash,
                                    o.household_hash,
                                ),
                                EntryValue::ProducerInvoice(_) => spec_role_gate(
                                    k,
                                    names,
                                    a.author,
                                    a.hash,
                                    BOOKKEEPER_ROLE@,
                                ),
                                EntryValue::AvailableProducts(p) => spec_can_change_available_products(
                                    k,
                                    names,
                                    a.author,
                                    a.hash,
                                    p,
                                ),
                                _ => Ok(true),
                            },
                        },
                    }
                },
            }
        },
    }
}

fn create_link_rule(
    k: &Known,
    names: &Vec<String>,
    a: &Action,
    link_type: u8,
    base: &AnyLinkableHash,
    target: &AnyLinkableHash,
) -> (r: Outcome)
    ensures
        judge(r) == spec_orders_create_link_rule(*k, names@, *a, link_type, *base, *target),
{
    if link_type == ORDER_UPDATES {
        validate_create_link_order_updates(k, a, base, target)
    } else if link_type == ORDER_TO_HOUSEHOLD_ORDERS {
        validate_create_link_order_to_household_orders(k, names, a, base, target)
    } else if link_type == HOUSEHOLD_TO_HOUSEHOLD_ORDERS {
        validate_create_link_household_to_household_orders(k, names, a, base, target)
    } else if link_type == HOUSEHOLD_ORDER_UPDATES {
        validate_create_link_household_order_updates(k, names, a, base, target)
    } else if link_type == ORDER_TO_PRODUCER_DELIVERIES {
        validate_create_link_order_to_producer_deliveries(k, a, base, target)
    } else if link_type == PRODUCER_TO_PRODUCER_DELIVERIES {
        validate_create_link_producer_to_producer_deliveries(k, a, base, target)
    } else if link_type == ORDER_TO_PRODUCER_INVOICES {
        validate_create_link_order_to_producer_invoices(k, names, a, base, target)
    } else if link_type == PRODUCER_TO_PRODUCER_INVOICES {
        validate_create_link_producer_to_producer_invoices(k, names, a, base, target)
    } else if link_type == ALL_ORDERS {
        validate_create_link_all_orders(k, a, target)
    } else if link_type == ORDER_TO_AVAILABLE_PRODUCTS {
        validate_create_link_order_to_available_products(k, names, a, base, target)
    } else if link_type == AVAILABLE_PRODUCTS_UPDATES {
        validate_create_link_available_products_updates(k, names, a, base, target)
    } else {
        invalid("Unknown link type of the orders zome")
    }
}

fn delete_link_rule(
    k: &Known,
    names: &Vec<String>,
    a: &Action,
    link_type: u8,
    base: &AnyLinkableHash,
    target: &AnyLinkableHash,
) -> (r: Outcome)
    ensures
        judge(r) == spec_orders_delete_link_rule(*k, names@, *a, link_type, *base, *target),
{
    if link_type == ORDER_UPDATES {
        validate_delete_link_order_updates(a)
    } else if link_type == ORDER_TO_HOUSEHOLD_ORDERS {
        validate_delete_link_order_to_household_orders(k, names, a, base, target)
    } else if link_type == HOUSEHOLD_TO_HOUSEHOLD_ORDERS {
        validate_delete_link_household_to_household_orders(k, names, a, base, target)
    } else if link_type == HOUSEHOLD_ORDER_UPDATES {
        validate_delete_link_household_order_updates(a)
    } else if link_type == ORDER_TO_PRODUCER_DELIVERIES {
        validate_delete_link_order_to_producer_deliveries(a)
    } else if link_type == PRODUCER_TO_PRODUCER_DELIVERIES {
        validate_delete_link_producer_to_producer_deliveries(a)
    } else if link_type == ORDER_TO_PRODUCER_INVOICES {
        validate_delete_link_order_to_producer_invoices(k, names, a)
    } else if link_type == PRODUCER_TO_PRODUCER_INVOICES {
        validate_delete_link_producer_to_producer_invoices(k, names, a)
    } else if link_type == ALL_ORDERS {
        validate_delete_link_all_orders(a)
    } else if link_type == ORDER_TO_AVAILABLE_PRODUCTS {
        validate_delete_link_order_to_available_products(k, names, a, base, target)
    } else if link_type == AVAILABLE_PRODUCTS_UPDATES {
        validate_delete_link_available_products_updates(a)
    } else {
        invalid("Unknown link type of the orders zome")
    }
}

fn create_rule(k: &Known, names: &Vec<String>, a: &Action, entry: &Option<EntryValue>) -> (r: Outcome)
    ensures
        judge(r) == spec_orders_create_rule(*k, names@, *a, *entry),
{
    match entry {
        Some(EntryValue::Order(o)) => validate_create_order(k, names, a, o),
        Some(EntryValue::HouseholdOrder(o)) => validate_create_household_order(k, names, a, o),
        Some(EntryValue::ProducerDelivery(d)) => validate_create_producer_delivery(k, a, d),
        Some(EntryValue::ProducerInvoice(i)) => validate_create_producer_invoice(k, names, a, i),
        Some(EntryValue::AvailableProducts(p)) => validate_create_available_products(k, names, a, p),
        _ => Ok(ValidateCallbackResult::Valid),
    }
}

fn update_rule(k: &Known, names: &Vec<String>, a: &Action, entry: &EntryValue, original_action: &Action, original: &EntryValue) -> (r: Outcome)
    ensures
        judge(r) == spec_orders_update_rule(*k, names@, *a, *entry, *original),
{
    match (entry, original) {
        (EntryValue::Order(o), EntryValue::Order(p)) => validate_update_order(a, o, original_action, p),
        (EntryValue::HouseholdOrder(o), EntryValue::HouseholdOrder(p)) => validate_update_household_order(
            k,
            names,
            a,
            o,
            original_action,
            p,
        ),
        (EntryValue::ProducerDelivery(d), EntryValue::ProducerDelivery(e)) => validate_update_producer_delivery(
            a,
            d,
            original_action,
            e,
        ),
        (EntryValue::ProducerInvoice(i), EntryValue::ProducerInvoice(j)) => validate_update_producer_invoice(
            k,
            names,
            a,
            i,
            original_action,
            j,
        ),
        (EntryValue::AvailableProducts(p), EntryValue::AvailableProducts(q)) => validate_update_available_products(
            k,
            names,
            a,
            p,
            original_action,
            q,
        ),
        _ => Ok(ValidateCallbackResult::Valid),
    }
}

fn register_update(k: &Known, names: &Vec<String>, a: &Action, entry: &Option<EntryValue>) -> (r: Outcome)
    ensures
        judge(r) == spec_orders_register_update(*k, names@, *a, *entry),
{
    let ActionContent::Update { original_action_address, .. } = a.content else {
        return Ok(ValidateCallbackResult::Valid);
    };
    let Some(v) = entry else {
        return Ok(ValidateCallbackResult::Valid);
    };
    let original_action = match k.action_at(&original_action_address) {
        Err(e) => return Err(e),
        Ok(o) => o,
    };
    if !original_action.content.is_entry_creation() {
        return invalid("Expected to get an entry creation action as the original of an update");
    }
    match k.entry_at(&original_action_address, v.kind()) {
        Err(e) => Err(e),
        Ok(None) => invalid("The original of an update must hold an entry of the same type"),
        Ok(Some(o)) => update_rule(k, names, a, v, &original_action, o),
    }
}

fn delete_rule(k: &Known, names: &Vec<String>, z: u8, a: &Action, deleted: &ActionHash, private_passes: bool) -> (r: Outcome)
    ensures
        judge(r) == spec_orders_delete_rule(*k, names@, z, *a, *deleted, private_passes),
{
    let original = match k.action_at(deleted) {
        Err(e) => return Err(e),
        Ok(o) => o,
    };
    if !original.content.is_entry_creation() {
        return invalid("Original action for a delete must be a Create or Update action");
    }
    let Some(def) = original.content.app_entry_type() else {
        return Ok(ValidateCallbackResult::Valid);
    };
    if def.zome_index != z {
        return invalid("Original app entry must be one of the defined entry types for this zome");
    }
    let Some(kind) = orders_entry_kind(def.entry_index) else {
        return invalid("Original app entry must be one of the defined entry types for this zome");
    };
    match k.entry_at(deleted, kind) {
        Err(e) => Err(e),
        Ok(None) => {
            if private_passes && !def.public {
                Ok(ValidateCallbackResult::Valid)
            } else {
                invalid("Original record for a delete must contain an entry")
            }
        },
        Ok(Some(EntryValue::Order(o))) => validate_delete_order(k, names, a, &original, o),
        Ok(Some(EntryValue::HouseholdOrder(o))) => validate_delete_household_order(k, names, a, &original, o),
        Ok(Some(EntryValue::ProducerDelivery(d))) => validate_delete_producer_delivery(a, &original, d),
        Ok(Some(EntryValue::ProducerInvoice(i))) => validate_delete_producer_invoice(k, names, a, &original, i),
        Ok(Some(EntryValue::AvailableProducts(p))) => validate_delete_available_products(k, names, a, &original, p),
        Ok(Some(_)) => Ok(ValidateCallbackResult::Valid),
    }
}

/// The verdict of the orders zome on `op`, where the zome has index
/// `zome_index` in the DNA.
pub open spec fn spec_validate_orders(k: Known, names: Seq<String>, zome_index: u8, op: Op) -> Result<bool, ValidationError> {
    match op {
        Op::StoreEntry { action, entry } => if action.content.spec_creates_entry() {
            spec_orders_create_rule(k, names, action, entry)
        } else {
            Ok(true)
        },
        Op::RegisterUpdate { action, entry } => spec_orders_register_update(k, names, action, entry),
        Op::StoreRecord { action, entry } => match action.content {
            ActionContent::Create { .. } => spec_orders_create_rule(k, names, action, entry),
            ActionContent::Update { .. } => followed_by(
                spec_orders_create_rule(k, names, action, entry),
                spec_orders_register_update(k, names, action, entry),
            ),
            ActionContent::Delete { deletes_address } => spec_orders_delete_rule(
                k,
                names,
                zome_index,
                action,
                deletes_address,
                true,
            ),
            ActionContent::CreateLink { base_address, target_address, zome_index: z, link_type } => if z
                == zome_index {
                spec_orders_create_link_rule(k, names, action, link_type, base_address, target_address)
            } else {
                Ok(true)
            },
            ActionContent::DeleteLink { link_add_address, base_address } => match spec_action_at(k, link_add_address) {
                None => Err(ValidationError::RecordUnavailable { hash: link_add_address, kind: None }),
                Some(original) => match original.content {
                    ActionContent::CreateLink { target_address, zome_index: z, link_type, .. } => if z == zome_index {
                        spec_orders_delete_link_rule(k, names, action, link_type, base_address, target_address)
                    } else {
                        Ok(true)
                    },
                    _ => Ok(false),
                },
            },
            _ => Ok(true),
        },
        Op::RegisterDelete { action } => match action.content {
            ActionContent::Delete { deletes_address } => spec_orders_delete_rule(
                k,
                names,
                zome_index,
                action,
                deletes_address,
                false,
            ),
            _ => Ok(true),
        },
        Op::RegisterCreateLink { action } => match action.content {
            ActionContent::CreateLink { base_address, target_address, zome_index: z, link_type } => if z
                == zome_index {
                spec_orders_create_link_rule(k, names, action, link_type, base_address, target_address)
            } else {
                Ok(true)
            },
            _ => Ok(true),
        },
        Op::RegisterDeleteLink { action, original_action } => match (action.content, original_action.content) {
            (
                ActionContent::DeleteLink { base_address, .. },
                ActionContent::CreateLink { target_address, zome_index: z, link_type, .. },
            ) => if z == zome_index {
                spec_orders_delete_link_rule(k, names, action, link_type, base_address, target_address)
            } else {
                Ok(true)
            },
            _ => Ok(true),
        },
        Op::RegisterAgentActivity { previous, .. } => match previous {
            None => Ok(true),
            Some(p) => match spec_action_at(k, p) {
                None => Err(ValidationError::RecordUnavailable { hash: p, kind: None }),
                Some(a) => Ok(a.content is AgentValidationPkg),
            },
        },
    }
}

/// The verdict of the orders zome, at index `zome_index` of the DNA whose
/// zomes are `zome_names`, on the operation `op`.
pub fn validate_orders(k: &Known, zome_names: &Vec<String>, zome_index: u8, op: &Op) -> (r: Outcome)
    ensures
        judge(r) == spec_validate_orders(*k, zome_names@, zome_index, *op),
{
    match op {
        Op::StoreEntry { action, entry } => {
            if action.content.is_entry_creation() {
                create_rule(k, zome_names, action, entry)
            } else {
                Ok(ValidateCallbackResult::Valid)
            }
        },
        Op::RegisterUpdate { action, entry } => register_update(k, zome_names, action, entry),
        Op::StoreRecord { action, entry } => match action.content {
            ActionContent::Create { .. } => create_rule(k, zome_names, action, entry),
            ActionContent::Update { .. } => {
                let created = create_rule(k, zome_names, action, entry);
                match created {
                    Ok(ValidateCallbackResult::Valid) => register_update(k, zome_names, action, entry),
                    _ => created,
                }
            },
            ActionContent::Delete { deletes_address } => delete_rule(k, zome_names, zome_index, action, &deletes_address, true),
            ActionContent::CreateLink { base_address, target_address, zome_index: z, link_type } => {
                if z == zome_index {
                    create_link_rule(k, zome_names, action, link_type, &base_address, &target_address)
                } else {
                    Ok(ValidateCallbackResult::Valid)
                }
            },
            ActionContent::DeleteLink { link_add_address, base_address } => {
                let original = match k.action_at(&link_add_address) {
                    Err(e) => return Err(e),
                    Ok(o) => o,
                };
                match original.content {
                    ActionContent::CreateLink { target_address, zome_index: z, link_type, .. } => {
                        if z == zome_index {
                            delete_link_rule(k, zome_names, action, link_type, &base_address, &target_address)
                        } else {
                            Ok(ValidateCallbackResult::Valid)
                        }
                    },
                    _ => invalid("The action that a DeleteLink deletes must be a CreateLink"),
                }
            },
            _ => Ok(ValidateCallbackResult::Valid),
        },
        Op::RegisterDelete { action } => match action.content {
            ActionContent::Delete { deletes_address } => delete_rule(k, zome_names, zome_index, action, &deletes_address, false),
            _ => Ok(ValidateCallbackResult::Valid),
        },
        Op::RegisterCreateLink { action } => match action.content {
            ActionContent::CreateLink { base_address, target_address, zome_index: z, link_type } => {
                if z == zome_index {
                    create_link_rule(k, zome_names, action, link_type, &base_address, &target_address)
                } else {
                    Ok(ValidateCallbackResult::Valid)
                }
            },
            _ => Ok(ValidateCallbackResult::Valid),
        },
        Op::RegisterDeleteLink { action, original_action } => match (action.content, original_action.content) {
            (
                ActionContent::DeleteLink { base_address, .. },
                ActionContent::CreateLink { target_address, zome_index: z, link_type, .. },
            ) => {
                if z == zome_index {
                    delete_link_rule(k, zome_names, action, link_type, &base_address, &target_address)
                } else {
                    Ok(ValidateCallbackResult::Valid)
                }
            },
            _ => Ok(ValidateCallbackResult::Valid),
        },
        Op::RegisterAgentActivity { previous, .. } => match previous {
            None => Ok(ValidateCallbackResult::Valid),
            Some(p) => {
                let a = match k.action_at(p) {
                    Err(e) => return Err(e),
                    Ok(a) => a,
                };
                match a.content {
                    ActionContent::AgentValidationPkg => Ok(ValidateCallbackResult::Valid),
                    _ => invalid("The previous action for a `CreateAgent` action must be an `AgentValidationPkg`"),
                }
            },
        },
    }
}

} // verus!
