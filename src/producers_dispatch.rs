//! The single entry point of the producers zome.
use vstd::prelude::*;
use crate::action::{spec_app_entry_type, ActionContent};
use crate::dispatch::Op;
use crate::entries::{EntryKind, EntryValue};
use crate::hash::AnyLinkableHash;
use crate::known::{
    followed_by, invalid, judge, spec_action_at, spec_entry_at, spec_links_to, spec_refers_to, Known, Outcome,
    ValidateCallbackResult, ValidationError,
};
use crate::action::Action;
use crate::hash::ActionHash;
use crate::producers::{
    validate_create_link_all_producers, validate_create_link_liason_to_producers, validate_create_link_producer_to_products,
    validate_create_link_producer_updates, validate_create_link_product_updates, validate_create_producer,
    validate_create_product, validate_delete_link_all_producers, validate_delete_link_liason_to_producers,
    validate_delete_link_producer_to_products, validate_delete_link_producer_updates, validate_delete_link_product_updates,
    validate_delete_producer, validate_delete_product,
};

verus! {

/// Link type indices of the producers zome.
pub const LIASON_TO_PRODUCERS: u8 = 0;
pub const CATEGORIES_PATH: u8 = 1;
pub const CATEGORY_TO_PRODUCT: u8 = 2;
pub const PRODUCER_UPDATES: u8 = 3;
pub const ALL_PRODUCERS: u8 = 4;
pub const PRODUCER_TO_PRODUCTS: u8 = 5;
pub const PRODUCT_UPDATES: u8 = 6;

/// The rule for a link of type `link_type` of the producers zome. The
/// category index links carry no rule.
pub open spec fn spec_producers_create_link_rule(k: Known, link_type: u8, base: AnyLinkableHash, target: AnyLinkableHash) -> Result<
    bool,
    ValidationError,
> {
    if link_type == LIASON_TO_PRODUCERS || link_type == ALL_PRODUCERS {
        spec_links_to(k, target, EntryKind::Producer)
    } else if link_type == CATEGORIES_PATH || link_type == CATEGORY_TO_PRODUCT {
        Ok(true)
    } else if link_type == PRODUCER_UPDATES {
        followed_by(spec_links_to(k, base, EntryKind::Producer), spec_links_to(k, target, EntryKind::Producer))
    } else if link_type == PRODUCER_TO_PRODUCTS {
        followed_by(spec_links_to(k, base, EntryKind::Producer), spec_links_to(k, target, EntryKind::Product))
    } else if link_type == PRODUCT_UPDATES {
        followed_by(spec_links_to(k, base, EntryKind::Product), spec_links_to(k, target, EntryKind::Product))
    } else {
        Ok(false)
    }
}

/// The rule for the deletion of a link of type `link_type`: revision links
/// stay, the others may go.
pub open spec fn spec_producers_delete_link_rule(link_type: u8) -> Result<bool, ValidationError> {
    Ok(link_type <= PRODUCT_UPDATES && link_type != PRODUCER_UPDATES && link_type != PRODUCT_UPDATES)
}

/// The rule for an entry of the producers zome stored by its creating action.
pub open spec fn spec_producers_create_rule(k: Known, entry: Option<EntryValue>) -> Result<bool, ValidationError> {
    match entry {
        Some(EntryValue::Product(p)) => spec_refers_to(k, p.producer_hash, EntryKind::Producer),
        _ => Ok(true),
    }
}

/// The rule for the delete `a` of the record at `deleted` of the producers
/// zome at `z`.
pub open spec fn spec_producers_delete_rule(k: Known, z: u8, deleted: ActionHash, private_passes: bool) -> Result<
    bool,
    ValidationError,
> {
    match spec_action_at(k, deleted) {
        None => Err(ValidationError::RecordUnavailable { hash: deleted, kind: None }),
        Some(original) => if !original.content.spec_creates_entry() {
            Ok(false)
        } else {
            match spec_app_entry_type(original.content) {
                None => Ok(true),
                Some(def) => if def.zome_index != z || def.entry_index > 1 {
                    Ok(false)
                } else {
                    let kind = if def.entry_index == 0 {
                        EntryKind::Producer
                    } else {
                        EntryKind::Product
                    };
                    match spec_entry_at(k, deleted, kind) {
                        None => Err(ValidationError::RecordUnavailable { hash: deleted, kind: Some(kind) }),
                        Some(None) => Ok(private_passes && !def.public),
                        Some(Some(_)) => Ok(true),
                    }
                },
            }
        },
    }
}

/// The entry kind of the entry type `entry_index` of the producers zome.
pub fn producers_entry_kind(entry_index: u8) -> (r: Option<EntryKind>)
    ensures
        entry_index == 0 ==> r == Some(EntryKind::Producer),
        entry_index == 1 ==> r == Some(EntryKind::Product),
        entry_index > 1 ==> r is None,
{
    if entry_index == 0 {
        Some(EntryKind::Producer)
    } else if entry_index == 1 {
        Some(EntryKind::Product)
    } else {
        None
    }
}

fn create_link_rule(k: &Known, a: &Action, link_type: u8, base: &AnyLinkableHash, target: &AnyLinkableHash) -> (r: Outcome)
    ensures
        judge(r) == spec_producers_create_link_rule(*k, link_type, *base, *target),
{
    if link_type == LIASON_TO_PRODUCERS {
        validate_create_link_liason_to_producers(k, a, target)
    } else if link_type == ALL_PRODUCERS {
        validate_create_link_all_producers(k, a, target)
    } else if link_type == CATEGORIES_PATH || link_type == CATEGORY_TO_PRODUCT {
        Ok(ValidateCallbackResult::Valid)
    } else if link_type == PRODUCER_UPDATES {
        validate_create_link_producer_updates(k, a, base, target)
    } else if link_type == PRODUCER_TO_PRODUCTS {
        validate_create_link_producer_to_products(k, a, base, target)
    } else if link_type == PRODUCT_UPDATES {
        validate_create_link_product_updates(k, a, base, target)
    } else {
        invalid("Unknown link type of the producers zome")
    }
}

fn delete_link_rule(a: &Action, link_type: u8) -> (r: Outcome)
    ensures
        judge(r) == spec_producers_delete_link_rule(link_type),
{
    if link_type == LIASON_TO_PRODUCERS {
        validate_delete_link_liason_to_producers(a)
    } else if link_type == ALL_PRODUCERS {
        validate_delete_link_all_producers(a)
    } else if link_type == CATEGORIES_PATH || link_type == CATEGORY_TO_PRODUCT {
        Ok(ValidateCallbackResult::Valid)
    } else if link_type == PRODUCER_UPDATES {
        validate_delete_link_producer_updates(a)
    } else if link_type == PRODUCER_TO_PRODUCTS {
        validate_delete_link_producer_to_products(a)
    } else if link_type == PRODUCT_UPDATES {
        validate_delete_link_product_updates(a)
    } else {
        invalid("Unknown link type of the producers zome")
    }
}

fn create_rule(k: &Known, a: &Action, entry: &Option<EntryValue>) -> (r: Outcome)
    ensures
        judge(r) == spec_producers_create_rule(*k, *entry),
{
    match entry {
        Some(EntryValue::Producer(p)) => validate_create_producer(a, p),
        Some(EntryValue::Product(p)) => validate_create_product(k, a, p),
        _ => Ok(ValidateCallbackResult::Valid),
    }
}

fn delete_rule(k: &Known, z: u8, a: &Action, deleted: &ActionHash, private_passes: bool) -> (r: Outcome)
    ensures
        judge(r) == spec_producers_delete_rule(*k, z, *deleted, private_passes),
{
    let original = match k.action_at(deleted) {
        Err(e) => return Err(e),
        Ok(o) => o,
    };
    if !original.content.is_entry_creation() {
        return invalid("Original action for a delete must be a Create or Update action");
    }
    let Some(def) = original.content.app_entry_type() else {
        return Ok(ValidateCallbackResult::Valid);
    };
    if def.zome_index != z || def.entry_index > 1 {
        return invalid("Original app entry must be one of the defined entry types for this zome");
    }
    let kind = if def.entry_index == 0 {
        EntryKind::Producer
    } else {
        EntryKind::Product
    };
    match k.entry_at(deleted, kind) {
        Err(e) => Err(e),
        Ok(None) => {
            if private_passes && !def.public {
                Ok(ValidateCallbackResult::Valid)
            } else {
                invalid("Original record for a delete must contain an entry")
            }
        },
        Ok(Some(EntryValue::Producer(p))) => validate_delete_producer(a, &original, p),
        Ok(Some(EntryValue::Product(p))) => validate_delete_product(a, &original, p),
        Ok(Some(_)) => Ok(ValidateCallbackResult::Valid),
    }
}

/// The verdict of the producers zome on `op`, where the zome has index
/// `zome_index` in the DNA. Revisions of producers and products are free.
pub open spec fn spec_validate_producers(k: Known, zome_index: u8, op: Op) -> Result<bool, ValidationError> {
    match op {
        Op::StoreEntry { action, entry } => if action.content.spec_creates_entry() {
            spec_producers_create_rule(k, entry)
        } else {
            Ok(true)
        },
        Op::RegisterUpdate { .. } => Ok(true),
        Op::StoreRecord { action, entry } => match action.content {
            ActionContent::Create { .. } => spec_producers_create_rule(k, entry),
            ActionContent::Update { .. } => spec_producers_create_rule(k, entry),
            ActionContent::Delete { deletes_address } => spec_producers_delete_rule(k, zome_index, deletes_address, true),
            ActionContent::CreateLink { base_address, target_address, zome_index: z, link_type } => if z
                == zome_index {
                spec_producers_create_link_rule(k, link_type, base_address, target_address)
            } else {
                Ok(true)
            },
            ActionContent::DeleteLink { link_add_address, .. } => match spec_action_at(k, link_add_address) {
                None => Err(ValidationError::RecordUnavailable { hash: link_add_address, kind: None }),
                Some(original) => match original.content {
                    ActionContent::CreateLink { zome_index: z, link_type, .. } => if z == zome_index {
                        spec_producers_delete_link_rule(link_type)
                    } else {
                        Ok(true)
                    },
                    _ => Ok(false),
                },
            },
            _ => Ok(true),
        },
        Op::RegisterDelete { action } => match action.content {
            ActionContent::Delete { deletes_address } => spec_producers_delete_rule(k, zome_index, deletes_address, false),
            _ => Ok(true),
        },
        Op::RegisterCreateLink { action } => match action.content {
            ActionContent::CreateLink { base_address, target_address, zome_index: z, link_type } => if z
                == zome_index {
                spec_producers_create_link_rule(k, link_type, base_address, target_address)
            } else {
                Ok(true)
            },
            _ => Ok(true),
        },
        Op::RegisterDeleteLink { action, original_action } => match (action.content, original_action.content) {
            (ActionContent::DeleteLink { .. }, ActionContent::CreateLink { zome_index: z, link_type, .. }) => if z
                == zome_index {
                spec_producers_delete_link_rule(link_type)
            } else {
                Ok(true)
            },
            _ => Ok(true),
        },
        Op::RegisterAgentActivity { previous, .. } => match previous {
            None => Ok(true),
            Some(p) => match spec_action_at(k, p) {
                None => Err(ValidationError::RecordUnavailable { hash: p, kind: None }),
                Some(a) => Ok(a.content is AgentValidationPkg),
            },
        },
    }
}

/// The verdict of the producers zome, at index `zome_index` of the DNA, on
/// the operation `op`.
pub fn validate_producers(k: &Known, zome_index: u8, op: &Op) -> (r: Outcome)
    ensures
        judge(r) == spec_validate_producers(*k, zome_index, *op),
{
    match op {
        Op::StoreEntry { action, entry } => {
            if action.content.is_entry_creation() {
                create_rule(k, action, entry)
            } else {
                Ok(ValidateCallbackResult::Valid)
            }
        },
        Op::RegisterUpdate { .. } => Ok(ValidateCallbackResult::Valid),
        Op::StoreRecord { action, entry } => match action.content {
            ActionContent::Create { .. } => create_rule(k, action, entry),
            ActionContent::Update { .. } => create_rule(k, action, entry),
            ActionContent::Delete { deletes_address } => delete_rule(k, zome_index, action, &deletes_address, true),
            ActionContent::CreateLink { base_address, target_address, zome_index: z, link_type } => {
                if z == zome_index {
                    create_link_rule(k, action, link_type, &base_address, &target_address)
                } else {
                    Ok(ValidateCallbackResult::Valid)
                }
            },
            ActionContent::DeleteLink { link_add_address, .. } => {
                let original = match k.action_at(&link_add_address) {
                    Err(e) => return Err(e),
                    Ok(o) => o,
                };
                match original.content {
                    ActionContent::CreateLink { zome_index: z, link_type, .. } => {
                        if z == zome_index {
                            delete_link_rule(action, link_type)
                        } else {
                            Ok(ValidateCallbackResult::Valid)
                        }
                    },
                    _ => invalid("The action that a DeleteLink deletes must be a CreateLink"),
                }
            },
            _ => Ok(ValidateCallbackResult::Valid),
        },
        Op::RegisterDelete { action } => match action.content {
            ActionContent::Delete { deletes_address } => delete_rule(k, zome_index, action, &deletes_address, false),
            _ => Ok(ValidateCallbackResult::Valid),
        },
        Op::RegisterCreateLink { action } => match action.content {
            ActionContent::CreateLink { base_address, target_address, zome_index: z, link_type } => {
                if z == zome_index {
                    create_link_rule(k, action, link_type, &base_address, &target_address)
                } else {
                    Ok(ValidateCallbackResult::Valid)
                }
            },
            _ => Ok(ValidateCallbackResult::Valid),
        },
        Op::RegisterDeleteLink { action, original_action } => match (action.content, original_action.content) {
            (ActionContent::DeleteLink { .. }, ActionContent::CreateLink { zome_index: z, link_type, .. }) => {
                if z == zome_index {
                    delete_link_rule(action, link_type)
                } else {
                    Ok(ValidateCallbackResult::Valid)
                }
            },
            _ => Ok(ValidateCallbackResult::Valid),
        },
        Op::RegisterAgentActivity { previous, .. } => match previous {
            None => Ok(ValidateCallbackResult::Valid),
            Some(p) => {
                let a = match k.action_at(p) {
                    Err(e) => return Err(e),
                    Ok(a) => a,
                };
                match a.content {
                    ActionContent::AgentValidationPkg => Ok(ValidateCallbackResult::Valid),
                    _ => invalid("The previous action for a `CreateAgent` action must be an `AgentValidationPkg`"),
                }
            },
        },
    }
}

} // verus!
