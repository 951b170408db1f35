//! The single entry point of the households zome: each operation that a peer
//! observes is routed by its kind and by the (zome index, type index) of its
//! entry or link to the rule for it.
use vstd::prelude::*;
use crate::action::{spec_app_entry_type, Action, ActionContent};
use crate::entries::{EntryKind, EntryValue};
use crate::hash::{ActionHash, AnyLinkableHash};
use crate::households::{
    spec_claim_grounded, spec_member_gate, spec_requestor_gate, validate_create_household,
    validate_create_household_membership_claim, validate_create_link_active_households,
    validate_create_link_household_to_members, validate_create_link_household_to_requestors,
    validate_create_link_household_updates, validate_create_link_member_to_households,
    validate_create_link_requestor_to_households, validate_delete_household,
    validate_delete_household_membership_claim, validate_delete_link_active_households,
    validate_delete_link_household_to_members, validate_delete_link_household_to_requestors,
    validate_delete_link_household_updates, validate_delete_link_member_to_households,
    validate_delete_link_requestor_to_households, validate_update_household,
    validate_update_household_membership_claim, ACTIVE_HOUSEHOLDS, HOUSEHOLD_ENTRY_TYPE_INDEX,
    HOUSEHOLD_TO_MEMBERS, HOUSEHOLD_TO_REQUESTORS, HOUSEHOLD_UPDATES, MEMBER_TO_HOUSEHOLDS,
    REQUESTOR_TO_HOUSEHOLDS,
};
use crate::claims::HOUSEHOLD_MEMBERSHIP_CLAIM_ENTRY_TYPE_INDEX;
use crate::hash::LinkableKind;
use crate::known::{
    followed_by, invalid, judge, spec_action_at, spec_entry_at, spec_links_to, Known, Outcome, ValidateCallbackResult,
    ValidationError,
};

verus! {

/// An operation to validate, with its entry decoded as one of the entry
/// types of the zome (`None` where it is none of them).
#[derive(Clone, Debug)]
pub enum Op {
    /// An entry, stored by the action that created it.
    StoreEntry { action: Action, entry: Option<EntryValue> },
    /// An update, registered at the entry it revises.
    RegisterUpdate { action: Action, entry: Option<EntryValue> },
    /// A whole record, stored at its action's address.
    StoreRecord { action: Action, entry: Option<EntryValue> },
    /// A delete, registered at the entry it deletes.
    RegisterDelete { action: Action },
    /// A link, registered at its base.
    RegisterCreateLink { action: Action },
    /// A link deletion, registered at the link's base; `original_action`
    /// created the link.
    RegisterDeleteLink { action: Action, original_action: Action },
    /// An action, registered at its author. For the action that publishes
    /// the author's key, `previous` is the action before it.
    RegisterAgentActivity { action: Action, previous: Option<ActionHash> },
}

/// The entry kind of the entry type `entry_index` of the households zome.
pub open spec fn spec_households_entry_kind(entry_index: u8) -> Option<EntryKind> {
    if entry_index == HOUSEHOLD_ENTRY_TYPE_INDEX {
        Some(EntryKind::Household)
    } else if entry_index == HOUSEHOLD_MEMBERSHIP_CLAIM_ENTRY_TYPE_INDEX {
        Some(EntryKind::HouseholdMembershipClaim)
    } else {
        None
    }
}

/// The rule for a link of type `link_type` created by `action`.
pub open spec fn spec_create_link_rule(
    k: Known,
    z: u8,
    action: Action,
    link_type: u8,
    base: AnyLinkableHash,
    target: AnyLinkableHash,
) -> Result<bool, ValidationError> {
    if link_type == HOUSEHOLD_UPDATES {
        followed_by(
            spec_links_to(k, base, EntryKind::Household),
            spec_links_to(k, target, EntryKind::Household),
        )
    } else if link_type == HOUSEHOLD_TO_REQUESTORS {
        followed_by(
            spec_links_to(k, base, EntryKind::Household),
            spec_requestor_gate(k, z, action.hash, action.author, base, target),
        )
    } else if link_type == REQUESTOR_TO_HOUSEHOLDS {
        followed_by(
            spec_links_to(k, target, EntryKind::Household),
            Ok(base.kind == LinkableKind::Entry && base.hash == action.author),
        )
    } else if link_type == HOUSEHOLD_TO_MEMBERS {
        followed_by(
            spec_links_to(k, base, EntryKind::Household),
            spec_member_gate(k, z, action.hash, action.author, base),
        )
    } else if link_type == MEMBER_TO_HOUSEHOLDS {
        followed_by(
            spec_links_to(k, target, EntryKind::Household),
            spec_member_gate(k, z, action.hash, action.author, target),
        )
    } else if link_type == ACTIVE_HOUSEHOLDS {
        spec_links_to(k, target, EntryKind::Household)
    } else {
        Ok(false)
    }
}

/// The rule for the deletion by `action` of a link of type `link_type`.
pub open spec fn spec_delete_link_rule(
    k: Known,
    z: u8,
    action: Action,
    link_type: u8,
    base: AnyLinkableHash,
    target: AnyLinkableHash,
) -> Result<bool, ValidationError> {
    if link_type == HOUSEHOLD_UPDATES {
        Ok(false)
    } else if link_type == HOUSEHOLD_TO_REQUESTORS {
        spec_requestor_gate(k, z, action.hash, action.author, base, target)
    } else if link_type == REQUESTOR_TO_HOUSEHOLDS {
        spec_requestor_gate(k, z, action.hash, action.author, target, base)
    } else if link_type == HOUSEHOLD_TO_MEMBERS {
        spec_member_gate(k, z, action.hash, action.author, base)
    } else if link_type == MEMBER_TO_HOUSEHOLDS {
        spec_member_gate(k, z, action.hash, action.author, target)
    } else if link_type == ACTIVE_HOUSEHOLDS {
        Ok(true)
    } else {
        Ok(false)
    }
}

/// The rule for an entry stored by its creating action.
pub open spec fn spec_store_entry_rule(k: Known, z: u8, action: Action, entry: Option<EntryValue>) -> Result<
    bool,
    ValidationError,
> {
    match entry {
        Some(EntryValue::HouseholdMembershipClaim(c)) => spec_claim_grounded(k, z, action.author, c),
        _ => Ok(true),
    }
}

/// The rule for an update registered at the entry it revises.
pub open spec fn spec_update_rule(entry: Option<EntryValue>) -> Result<bool, ValidationError> {
    match entry {
        Some(EntryValue::HouseholdMembershipClaim(_)) => Ok(false),
        _ => Ok(true),
    }
}

/// The rule for `action` deleting the record at `deleted`, where a record
/// without its entry passes if `private_passes` and its type is private.
pub open spec fn spec_delete_rule(k: Known, z: u8, action: Action, deleted: ActionHash, private_passes: bool) -> Result<
    bool,
    ValidationError,
> {
    match spec_action_at(k, deleted) {
        None => Err(ValidationError::RecordUnavailable { hash: deleted, kind: None }),
        Some(original) => if !original.content.spec_creates_entry() {
            Ok(false)
        } else {
            match spec_app_entry_type(original.content) {
                None => Ok(true),
                Some(def) => if def.zome_index != z {
                    Ok(false)
                } else {
                    match spec_households_entry_kind(def.entry_index) {
                        None => Ok(false),
                        Some(kind) => match spec_entry_at(k, deleted, kind) {
                            None => Err(ValidationError::RecordUnavailable { hash: deleted, kind: Some(kind) }),
                            Some(None) => Ok(private_passes && !def.public),
                            Some(Some(_)) => if kind == EntryKind::HouseholdMembershipClaim {
                                Ok(action.author == original.author)
                            } else {
                                Ok(true)
                            },
                        },
                    }
                },
            }
        },
    }
}

/// The entry kind of the entry type `entry_index` of the households zome.
pub fn households_entry_kind(entry_index: u8) -> (r: Option<EntryKind>)
    ensures
        r == spec_households_entry_kind(entry_index),
{
    if entry_index == HOUSEHOLD_ENTRY_TYPE_INDEX {
        Some(EntryKind::Household)
    } else if entry_index == HOUSEHOLD_MEMBERSHIP_CLAIM_ENTRY_TYPE_INDEX {
        Some(EntryKind::HouseholdMembershipClaim)
    } else {
        None
    }
}

fn create_link_rule(
    k: &Known,
    z: u8,
    action: &Action,
    link_type: u8,
    base: &AnyLinkableHash,
    target: &AnyLinkableHash,
) -> (r: Outcome)
    ensures
        judge(r) == spec_create_link_rule(*k, z, *action, link_type, *base, *target),
{
    if link_type == HOUSEHOLD_UPDATES {
        validate_create_link_household_updates(k, action, base, target)
    } else if link_type == HOUSEHOLD_TO_REQUESTORS {
        validate_create_link_household_to_requestors(k, z, action, base, target)
    } else if link_type == REQUESTOR_TO_HOUSEHOLDS {
        validate_create_link_requestor_to_households(k, action, base, target)
    } else if link_type == HOUSEHOLD_TO_MEMBERS {
        validate_create_link_household_to_members(k, z, action, base, target)
    } else if link_type == MEMBER_TO_HOUSEHOLDS {
        validate_create_link_member_to_households(k, z, action, base, target)
    } else if link_type == ACTIVE_HOUSEHOLDS {
        validate_create_link_active_households(k, action, target)
    } else {
        invalid("Unknown link type of the households zome")
    }
}

fn delete_link_rule(
    k: &Known,
    z: u8,
    action: &Action,
    link_type: u8,
    base: &AnyLinkableHash,
    target: &AnyLinkableHash,
) -> (r: Outcome)
    ensures
        judge(r) == spec_delete_link_rule(*k, z, *action, link_type, *base, *target),
{
    if link_type == HOUSEHOLD_UPDATES {
        validate_delete_link_household_updates(action)
    } else if link_type == HOUSEHOLD_TO_REQUESTORS {
        validate_delete_link_household_to_requestors(k, z, action, base, target)
    } else if link_type == REQUESTOR_TO_HOUSEHOLDS {
        validate_delete_link_requestor_to_households(k, z, action, base, target)
    } else if link_type == HOUSEHOLD_TO_MEMBERS {
        validate_delete_link_household_to_members(k, z, action, base, target)
    } else if link_type == MEMBER_TO_HOUSEHOLDS {
        validate_delete_link_member_to_households(k, z, action, base, target)
    } else if link_type == ACTIVE_HOUSEHOLDS {
        validate_delete_link_active_households(action)
    } else {
        invalid("Unknown link type of the households zome")
    }
}

fn store_entry_rule(k: &Known, z: u8, action: &Action, entry: &Option<EntryValue>) -> (r: Outcome)
    ensures
        judge(r) == spec_store_entry_rule(*k, z, *action, *entry),
{
    match entry {
        Some(EntryValue::Household(h)) => validate_create_household(action, h),
        Some(EntryValue::HouseholdMembershipClaim(c)) => validate_create_household_membership_claim(k, z, action, c),
        _ => Ok(ValidateCallbackResult::Valid),
    }
}

fn update_rule(action: &Action, entry: &Option<EntryValue>) -> (r: Outcome)
    ensures
        judge(r) == spec_update_rule(*entry),
{
    match entry {
        Some(EntryValue::Household(h)) => validate_update_household(action, h),
        Some(EntryValue::HouseholdMembershipClaim(c)) => validate_update_household_membership_claim(action, c),
        _ => Ok(ValidateCallbackResult::Valid),
    }
}

fn delete_rule(k: &Known, z: u8, action: &Action, deleted: &ActionHash, private_passes: bool) -> (r: Outcome)
    ensures
        judge(r) == spec_delete_rule(*k, z, *action, *deleted, private_passes),
{
    let original = match k.action_at(deleted) {
        Err(e) => return Err(e),
        Ok(a) => a,
    };
    if !original.content.is_entry_creation() {
        return invalid("Original action for a delete must be a Create or Update action");
    }
    let Some(def) = original.content.app_entry_type() else {
        return Ok(ValidateCallbackResult::Valid);
    };
    if def.zome_index != z {
        return invalid("Original app entry must be one of the defined entry types for this zome");
    }
    let kind = if def.entry_index == HOUSEHOLD_ENTRY_TYPE_INDEX {
        EntryKind::Household
    } else if def.entry_index == HOUSEHOLD_MEMBERSHIP_CLAIM_ENTRY_TYPE_INDEX {
        EntryKind::HouseholdMembershipClaim
    } else {
        return invalid("Original app entry must be one of the defined entry types for this zome");
    };
    match k.entry_at(deleted, kind) {
        Err(e) => Err(e),
        Ok(None) => {
            if private_passes && !def.public {
                Ok(ValidateCallbackResult::Valid)
            } else {
                invalid("Original record for a delete must contain an entry")
            }
        },
        Ok(Some(EntryValue::Household(h))) => validate_delete_household(action, &original, h),
        Ok(Some(EntryValue::HouseholdMembershipClaim(c))) => validate_delete_household_membership_claim(action, &original, c),
        Ok(Some(_)) => invalid("Original app entry must be one of the defined entry types for this zome"),
    }
}

/// The verdict of the households zome on `op`, where the zome has index
/// `zome_index` in the DNA.
pub open spec fn spec_validate(k: Known, zome_index: u8, op: Op) -> Result<bool, ValidationError> {
    match op {
        Op::StoreEntry { action, entry } => if action.content.spec_creates_entry() {
            spec_store_entry_rule(k, zome_index, action, entry)
        } else {
            Ok(true)
        },
        Op::RegisterUpdate { action, entry } => if action.content is Update {
            spec_update_rule(entry)
        } else {
            Ok(true)
        },
        Op::StoreRecord { action, entry } => match action.content {
            ActionContent::Create { .. } => spec_store_entry_rule(k, zome_index, action, entry),
            ActionContent::Update { .. } => followed_by(
                spec_store_entry_rule(k, zome_index, action, entry),
                spec_update_rule(entry),
            ),
            ActionContent::Delete { deletes_address } => spec_delete_rule(k, zome_index, action, deletes_address, true),
            ActionContent::CreateLink { base_address, target_address, zome_index: z, link_type } => if z == zome_index {
                spec_create_link_rule(k, zome_index, action, link_type, base_address, target_address)
            } else {
                Ok(true)
            },
            ActionContent::DeleteLink { link_add_address, base_address } => match spec_action_at(k, link_add_address) {
                None => Err(ValidationError::RecordUnavailable { hash: link_add_address, kind: None }),
                Some(original) => match original.content {
                    ActionContent::CreateLink { target_address, zome_index: z, link_type, .. } => if z == zome_index {
                        spec_delete_link_rule(k, zome_index, action, link_type, base_address, target_address)
                    } else {
                        Ok(true)
                    },
                    _ => Ok(false),
                },
            },
            _ => Ok(true),
        },
        Op::RegisterDelete { action } => match action.content {
            ActionContent::Delete { deletes_address } => spec_delete_rule(k, zome_index, action, deletes_address, false),
            _ => Ok(true),
        },
        Op::RegisterCreateLink { action } => match action.content {
            ActionContent::CreateLink { base_address, target_address, zome_index: z, link_type } => if z == zome_index {
                spec_create_link_rule(k, zome_index, action, link_type, base_address, target_address)
            } else {
                Ok(true)
            },
            _ => Ok(true),
        },
        Op::RegisterDeleteLink { action, original_action } => match (action.content, original_action.content) {
            (
                ActionContent::DeleteLink { base_address, .. },
                ActionContent::CreateLink { target_address, zome_index: z, link_type, .. },
            ) => if z == zome_index {
                spec_delete_link_rule(k, zome_index, action, link_type, base_address, target_address)
            } else {
                Ok(true)
            },
            _ => Ok(true),
        },
        Op::RegisterAgentActivity { previous, .. } => match previous {
            None => Ok(true),
            Some(p) => match spec_action_at(k, p) {
                None => Err(ValidationError::RecordUnavailable { hash: p, kind: None }),
                Some(a) => Ok(a.content is AgentValidationPkg),
            },
        },
    }
}

/// The verdict of the households zome, at index `zome_index` of the DNA,
/// on the operation `op`.
pub fn validate(k: &Known, zome_index: u8, op: &Op) -> (r: Outcome)
    ensures
        judge(r) == spec_validate(*k, zome_index, *op),
{
    match op {
        Op::StoreEntry { action, entry } => {
            if action.content.is_entry_creation() {
                store_entry_rule(k, zome_index, action, entry)
            } else {
                Ok(ValidateCallbackResult::Valid)
            }
        },
        Op::RegisterUpdate { action, entry } => {
            if let ActionContent::Update { .. } = action.content {
                update_rule(action, entry)
            } else {
                Ok(ValidateCallbackResult::Valid)
            }
        },
        Op::StoreRecord { action, entry } => match action.content {
            ActionContent::Create { .. } => store_entry_rule(k, zome_index, action, entry),
            ActionContent::Update { .. } => {
                let created = store_entry_rule(k, zome_index, action, entry);
                match created {
                    Ok(ValidateCallbackResult::Valid) => update_rule(action, entry),
                    _ => created,
                }
            },
            ActionContent::Delete { deletes_address } => delete_rule(k, zome_index, action, &deletes_address, true),
            ActionContent::CreateLink { base_address, target_address, zome_index: z, link_type } => {
                if z == zome_index {
                    create_link_rule(k, zome_index, action, link_type, &base_address, &target_address)
                } else {
                    Ok(ValidateCallbackResult::Valid)
                }
            },
            ActionContent::DeleteLink { link_add_address, base_address } => {
                let original = match k.action_at(&link_add_address) {
                    Err(e) => return Err(e),
                    Ok(a) => a,
                };
                match original.content {
                    ActionContent::CreateLink { target_address, zome_index: z, link_type, .. } => {
                        if z == zome_index {
                            delete_link_rule(k, zome_index, action, link_type, &base_address, &target_address)
                        } else {
                            Ok(ValidateCallbackResult::Valid)
                        }
                    },
                    _ => invalid("The action that a DeleteLink deletes must be a CreateLink"),
                }
            },
            _ => Ok(ValidateCallbackResult::Valid),
        },
        Op::RegisterDelete { action } => match action.content {
            ActionContent::Delete { deletes_address } => delete_rule(k, zome_index, action, &deletes_address, false),
            _ => Ok(ValidateCallbackResult::Valid),
        },
        Op::RegisterCreateLink { action } => match action.content {
            ActionContent::CreateLink { base_address, target_address, zome_index: z, link_type } => {
                if z == zome_index {
                    create_link_rule(k, zome_index, action, link_type, &base_address, &target_address)
                } else {
                    Ok(ValidateCallbackResult::Valid)
                }
            },
            _ => Ok(ValidateCallbackResult::Valid),
        },
        Op::RegisterDeleteLink { action, original_action } => match (action.content, original_action.content) {
            (
                ActionContent::DeleteLink { base_address, .. },
                ActionContent::CreateLink { target_address, zome_index: z, link_type, .. },
            ) => {
                if z == zome_index {
                    delete_link_rule(k, zome_index, action, link_type, &base_address, &target_address)
                } else {
                    Ok(ValidateCallbackResult::Valid)
                }
            },
            _ => Ok(ValidateCallbackResult::Valid),
        },
        Op::RegisterAgentActivity { previous, .. } => match previous {
            None => Ok(ValidateCallbackResult::Valid),
            Some(p) => {
                let a = match k.action_at(p) {
                    Err(e) => return Err(e),
                    Ok(a) => a,
                };
                match a.content {
                    ActionContent::AgentValidationPkg => Ok(ValidateCallbackResult::Valid),
                    _ => invalid("The previous action for a `CreateAgent` action must be an `AgentValidationPkg`"),
                }
            },
        },
    }
}

} // verus!
