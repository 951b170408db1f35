//! Validation rules of the households zome: households, membership claims,
//! and the links between households, members and join requests.
use vstd::prelude::*;
use crate::action::{Action, ActionContent};
use crate::claims::{spec_held_at, Target};
use crate::entries::{EntryKind, Household, HouseholdMembershipClaim};
use crate::hash::{ActionHash, AgentPubKey, AnyLinkableHash, LinkableKind};
use crate::known::{
    accept, and_also, gate, invalid, judge, links_to, reject, spec_action_at, spec_links_to, followed_by, verdict,
    verdict_of, Known, Outcome, ValidateCallbackResult, ValidationError, Verdict,
};
use crate::membership::{membership_claim_type, was_member_of_household, NOT_A_MEMBER};

verus! {

/// Link type indices of the households zome.
pub const HOUSEHOLD_UPDATES: u8 = 0;
pub const HOUSEHOLD_TO_REQUESTORS: u8 = 1;
pub const REQUESTOR_TO_HOUSEHOLDS: u8 = 2;
pub const HOUSEHOLD_TO_MEMBERS: u8 = 3;
pub const MEMBER_TO_HOUSEHOLDS: u8 = 4;
pub const ACTIVE_HOUSEHOLDS: u8 = 5;

/// Entry type indices of the households zome.
pub const HOUSEHOLD_ENTRY_TYPE_INDEX: u8 = 0;

/// Whether `author` was a member of the household at `household` as of
/// its action `action_hash`; an address that is no action names no household.
pub open spec fn spec_member_gate(
    k: Known,
    zome_index: u8,
    action_hash: ActionHash,
    author: AgentPubKey,
    household: AnyLinkableHash,
) -> Result<bool, ValidationError> {
    if household.kind == LinkableKind::Action {
        spec_held_at(k, author, action_hash, membership_claim_type(zome_index as int), Target::Household(household.hash))
    } else {
        Ok(false)
    }
}

/// Whether `author` may touch a join request of `requestor` for
/// `household`: the requestor itself always may, anyone else only as a member.
pub open spec fn spec_requestor_gate(
    k: Known,
    zome_index: u8,
    action_hash: ActionHash,
    author: AgentPubKey,
    household: AnyLinkableHash,
    requestor: AnyLinkableHash,
) -> Result<bool, ValidationError> {
    if household.kind != LinkableKind::Action || requestor.kind != LinkableKind::Entry {
        Ok(false)
    } else if requestor.hash == author {
        Ok(true)
    } else {
        spec_member_gate(k, zome_index, action_hash, author, household)
    }
}

/// Whether action `a` created a `HouseholdToMembers` link of the zome
/// `zome_index` from `household` to `member`.
pub open spec fn is_member_link(a: Action, zome_index: u8, household: ActionHash, member: AgentPubKey) -> bool {
    match a.content {
        ActionContent::CreateLink { base_address, target_address, zome_index: z, link_type } => {
            &&& z == zome_index
            &&& link_type == HOUSEHOLD_TO_MEMBERS
            &&& base_address.kind == LinkableKind::Action
            &&& base_address.hash == household
            &&& target_address.kind == LinkableKind::Entry
            &&& target_address.hash == member
        },
        _ => false,
    }
}

/// The verdict on a claim by `author`, with the reason of a rejection.
pub open spec fn spec_claim_verdict(k: Known, zome_index: u8, author: AgentPubKey, claim: HouseholdMembershipClaim) -> Result<
    Verdict,
    ValidationError,
> {
    match spec_action_at(k, claim.member_create_link_hash) {
        None => Err(ValidationError::RecordUnavailable { hash: claim.member_create_link_hash, kind: None }),
        Some(a) => match a.content {
            ActionContent::CreateLink { base_address, target_address, zome_index: z, link_type } => if z != zome_index
                || link_type != HOUSEHOLD_TO_MEMBERS {
                reject("membership claim must point to a HouseholdToMember CreateLink"@)
            } else if base_address.kind != LinkableKind::Action {
                reject("member CreateLink action must have an ActionHash as its base"@)
            } else if base_address.hash != claim.household_hash {
                reject("The member link has a different household hash than that from the household membership claim"@)
            } else if target_address.kind != LinkableKind::Entry {
                reject("member CreateLink action must have an agent as its target"@)
            } else if target_address.hash != author {
                reject("The member link does not add the author of the household membership claim"@)
            } else {
                accept()
            },
            _ => reject("member_create_link_hash must point to a CreateLink action"@),
        },
    }
}

/// Whether a claim by `author` cites a genuine membership link: one that
/// adds `author` to the household that the claim names.
pub open spec fn spec_claim_grounded(k: Known, zome_index: u8, author: AgentPubKey, claim: HouseholdMembershipClaim) -> Result<
    bool,
    ValidationError,
> {
    match spec_action_at(k, claim.member_create_link_hash) {
        None => Err(ValidationError::RecordUnavailable { hash: claim.member_create_link_hash, kind: None }),
        Some(a) => Ok(is_member_link(a, zome_index, claim.household_hash, author)),
    }
}

fn member_gate(k: &Known, zome_index: u8, action_hash: &ActionHash, author: &AgentPubKey, household: &AnyLinkableHash) -> (r: Result<
    bool,
    ValidationError,
>)
    ensures
        r == spec_member_gate(*k, zome_index, *action_hash, *author, *household),
{
    match household.into_action_hash() {
        Some(h) => was_member_of_household(k, zome_index, author, action_hash, &h),
        None => Ok(false),
    }
}

fn requestor_gate(
    k: &Known,
    zome_index: u8,
    action_hash: &ActionHash,
    author: &AgentPubKey,
    household: &AnyLinkableHash,
    requestor: &AnyLinkableHash,
) -> (r: Result<bool, ValidationError>)
    ensures
        r == spec_requestor_gate(*k, zome_index, *action_hash, *author, *household, *requestor),
{
    let Some(_) = household.into_action_hash() else {
        return Ok(false);
    };
    let Some(requestor_key) = requestor.into_agent_pub_key() else {
        return Ok(false);
    };
    if requestor_key == *author {
        return Ok(true);
    }
    member_gate(k, zome_index, action_hash, author, household)
}

/// Anyone may found a household.
pub fn validate_create_household(_action: &Action, _household: &Household) -> (r: Outcome)
    ensures
        verdict_of(r) == accept(),
        judge(r) == Ok::<bool, ValidationError>(true),
{
    Ok(ValidateCallbackResult::Valid)
}

/// Households may be revised; who may revise them is left open.
pub fn validate_update_household(_action: &Action, _household: &Household) -> (r: Outcome)
    ensures
        verdict_of(r) == accept(),
        judge(r) == Ok::<bool, ValidationError>(true),
{
    Ok(ValidateCallbackResult::Valid)
}

/// Households may be archived.
pub fn validate_delete_household(_action: &Action, _original_action: &Action, _original_household: &Household) -> (r: Outcome)
    ensures
        verdict_of(r) == accept(),
        judge(r) == Ok::<bool, ValidationError>(true),
{
    Ok(ValidateCallbackResult::Valid)
}

/// A membership claim created by `action` must cite a `HouseholdToMembers`
/// link of this zome (at `zome_index`) from the claimed household to the
/// claim's own author.
pub fn validate_create_household_membership_claim(
    k: &Known,
    zome_index: u8,
    action: &Action,
    household_membership_claim: &HouseholdMembershipClaim,
) -> (r: Outcome)
    ensures
        verdict_of(r) == spec_claim_verdict(*k, zome_index, action.author, *household_membership_claim),
        judge(r) == spec_claim_grounded(*k, zome_index, action.author, *household_membership_claim),
{
    let link = match k.action_at(&household_membership_claim.member_create_link_hash) {
        Ok(a) => a,
        Err(e) => return Err(e),
    };
    let ActionContent::CreateLink { base_address, target_address, zome_index: z, link_type } = link.content else {
        return invalid("member_create_link_hash must point to a CreateLink action");
    };
    if z != zome_index || link_type != HOUSEHOLD_TO_MEMBERS {
        return invalid("membership claim must point to a HouseholdToMember CreateLink");
    }
    let Some(household_hash) = base_address.into_action_hash() else {
        return invalid("member CreateLink action must have an ActionHash as its base");
    };
    if household_hash != household_membership_claim.household_hash {
        return invalid(
            "The member link has a different household hash than that from the household membership claim",
        );
    }
    let Some(member) = target_address.into_agent_pub_key() else {
        return invalid("member CreateLink action must have an agent as its target");
    };
    if member != action.author {
        return invalid("The member link does not add the author of the household membership claim");
    }
    Ok(ValidateCallbackResult::Valid)
}

/// Membership claims are never revised.
pub fn validate_update_household_membership_claim(
    _action: &Action,
    _household_membership_claim: &HouseholdMembershipClaim,
) -> (r: Outcome)
    ensures
        verdict_of(r) == reject("Household Membership Claims cannot be updated"@),
        judge(r) == Ok::<bool, ValidationError>(false),
{
    invalid("Household Membership Claims cannot be updated")
}

/// Only the author of a membership claim may delete it.
pub fn validate_delete_household_membership_claim(
    action: &Action,
    original_action: &Action,
    _original_household_membership_claim: &HouseholdMembershipClaim,
) -> (r: Outcome)
    ensures
        verdict_of(r) == (if action.author == original_action.author { accept() } else { reject("Only the authors of household membership claims can delete them"@) }),
        judge(r) == Ok::<bool, ValidationError>(action.author == original_action.author),
{
    if action.author == original_action.author {
        Ok(ValidateCallbackResult::Valid)
    } else {
        invalid("Only the authors of household membership claims can delete them")
    }
}

/// A revision link must lead from a household to a household.
pub fn validate_create_link_household_updates(
    k: &Known,
    _action: &Action,
    base_address: &AnyLinkableHash,
    target_address: &AnyLinkableHash,
) -> (r: Outcome)
    ensures
        verdict_of(r) == and_also(gate(spec_links_to(*k, *base_address, EntryKind::Household), "The base of a HouseholdUpdates link must be a household"@), gate(spec_links_to(*k, *target_address, EntryKind::Household), "The target of a HouseholdUpdates link must be a household"@)),
        judge(r) == followed_by(
            spec_links_to(*k, *base_address, EntryKind::Household),
            spec_links_to(*k, *target_address, EntryKind::Household),
        ),
{
    let base_ok = links_to(k, base_address, EntryKind::Household);
    match base_ok {
        Ok(true) => {},
        _ => return verdict(base_ok, "The base of a HouseholdUpdates link must be a household"),
    }
    verdict(
        links_to(k, target_address, EntryKind::Household),
        "The target of a HouseholdUpdates link must be a household",
    )
}

/// Revision links are never deleted.
pub fn validate_delete_link_household_updates(_action: &Action) -> (r: Outcome)
    ensures
        verdict_of(r) == reject("HouseholdUpdates links cannot be deleted"@),
        judge(r) == Ok::<bool, ValidationError>(false),
{
    invalid("HouseholdUpdates links cannot be deleted")
}

/// The index of active households may only point at households.
pub fn validate_create_link_active_households(k: &Known, _action: &Action, target_address: &AnyLinkableHash) -> (r: Outcome)
    ensures
        verdict_of(r) == gate(spec_links_to(*k, *target_address, EntryKind::Household), "The target of an ActiveHouseholds link must be a household"@),
        judge(r) == spec_links_to(*k, *target_address, EntryKind::Household),
{
    verdict(
        links_to(k, target_address, EntryKind::Household),
        "The target of an ActiveHouseholds link must be a household",
    )
}

/// Households may leave the index of active ones.
pub fn validate_delete_link_active_households(_action: &Action) -> (r: Outcome)
    ensures
        verdict_of(r) == accept(),
        judge(r) == Ok::<bool, ValidationError>(true),
{
    Ok(ValidateCallbackResult::Valid)
}

/// A join request from a household to a requestor: the base must be a
/// household, and the author the requestor or a member of the household.
pub fn validate_create_link_household_to_requestors(
    k: &Known,
    zome_index: u8,
    action: &Action,
    base_address: &AnyLinkableHash,
    target_address: &AnyLinkableHash,
) -> (r: Outcome)
    ensures
        verdict_of(r) == and_also(gate(spec_links_to(*k, *base_address, EntryKind::Household), "The base of a HouseholdToRequestors link must be a household"@), gate(spec_requestor_gate(*k, zome_index, action.hash, action.author, *base_address, *target_address), "Only the requestor or members of the household can create join household requests"@)),
        judge(r) == followed_by(
            spec_links_to(*k, *base_address, EntryKind::Household),
            spec_requestor_gate(*k, zome_index, action.hash, action.author, *base_address, *target_address),
        ),
{
    let base_ok = links_to(k, base_address, EntryKind::Household);
    match base_ok {
        Ok(true) => {},
        _ => return verdict(base_ok, "The base of a HouseholdToRequestors link must be a household"),
    }
    verdict(
        requestor_gate(k, zome_index, &action.hash, &action.author, base_address, target_address),
        "Only the requestor or members of the household can create join household requests",
    )
}

/// A join request may be withdrawn by its requestor or removed by a member.
pub fn validate_delete_link_household_to_requestors(
    k: &Known,
    zome_index: u8,
    action: &Action,
    base: &AnyLinkableHash,
    target: &AnyLinkableHash,
) -> (r: Outcome)
    ensures
        verdict_of(r) == gate(spec_requestor_gate(*k, zome_index, action.hash, action.author, *base, *target), "Only members of households can remove join household requests"@),
        judge(r) == spec_requestor_gate(*k, zome_index, action.hash, action.author, *base, *target),
{
    verdict(
        requestor_gate(k, zome_index, &action.hash, &action.author, base, target),
        "Only members of households can remove join household requests",
    )
}

/// An agent's own index of its join requests: the target must be a
/// household and the base the author itself.
pub fn validate_create_link_requestor_to_households(
    k: &Known,
    action: &Action,
    base_address: &AnyLinkableHash,
    target_address: &AnyLinkableHash,
) -> (r: Outcome)
    ensures
        verdict_of(r) == and_also(gate(spec_links_to(*k, *target_address, EntryKind::Household), "The target of a RequestorToHouseholds link must be a household"@), if base_address.kind != LinkableKind::Entry { reject("The base of a RequestorToHouseholds link must be an agent"@) } else if base_address.hash != action.author { reject("The author of a RequestorToHouseholds link must be the base address for that link"@) } else { accept() }),
        judge(r) == followed_by(
            spec_links_to(*k, *target_address, EntryKind::Household),
            Ok(base_address.kind == LinkableKind::Entry && base_address.hash == action.author),
        ),
{
    let target_ok = links_to(k, target_address, EntryKind::Household);
    match target_ok {
        Ok(true) => {},
        _ => return verdict(target_ok, "The target of a RequestorToHouseholds link must be a household"),
    }
    let Some(requestor) = base_address.into_agent_pub_key() else {
        return invalid("The base of a RequestorToHouseholds link must be an agent");
    };
    if requestor != action.author {
        return invalid("The author of a RequestorToHouseholds link must be the base address for that link");
    }
    Ok(ValidateCallbackResult::Valid)
}

/// The reverse index of a join request may be removed by its requestor or by
/// a member of the household.
pub fn validate_delete_link_requestor_to_households(
    k: &Known,
    zome_index: u8,
    action: &Action,
    base: &AnyLinkableHash,
    target: &AnyLinkableHash,
) -> (r: Outcome)
    ensures
        verdict_of(r) == gate(spec_requestor_gate(*k, zome_index, action.hash, action.author, *target, *base), "Only members of households can remove join household requests"@),
        judge(r) == spec_requestor_gate(*k, zome_index, action.hash, action.author, *target, *base),
{
    verdict(
        requestor_gate(k, zome_index, &action.hash, &action.author, target, base),
        "Only members of households can remove join household requests",
    )
}

/// Only members add members: the base must be a household of which the
/// author was a member as of this action.
pub fn validate_create_link_household_to_members(
    k: &Known,
    zome_index: u8,
    action: &Action,
    base_address: &AnyLinkableHash,
    _target_address: &AnyLinkableHash,
) -> (r: Outcome)
    ensures
        verdict_of(r) == and_also(gate(spec_links_to(*k, *base_address, EntryKind::Household), "The base of a HouseholdToMembers link must be a household"@), gate(spec_member_gate(*k, zome_index, action.hash, action.author, *base_address), NOT_A_MEMBER@)),
        judge(r) == followed_by(
            spec_links_to(*k, *base_address, EntryKind::Household),
            spec_member_gate(*k, zome_index, action.hash, action.author, *base_address),
        ),
{
    let base_ok = links_to(k, base_address, EntryKind::Household);
    match base_ok {
        Ok(true) => {},
        _ => return verdict(base_ok, "The base of a HouseholdToMembers link must be a household"),
    }
    verdict(
        member_gate(k, zome_index, &action.hash, &action.author, base_address),
        NOT_A_MEMBER,
    )
}

/// Only members remove members.
pub fn validate_delete_link_household_to_members(
    k: &Known,
    zome_index: u8,
    action: &Action,
    base: &AnyLinkableHash,
    _target: &AnyLinkableHash,
) -> (r: Outcome)
    ensures
        verdict_of(r) == gate(spec_member_gate(*k, zome_index, action.hash, action.author, *base), NOT_A_MEMBER@),
        judge(r) == spec_member_gate(*k, zome_index, action.hash, action.author, *base),
{
    verdict(
        member_gate(k, zome_index, &action.hash, &action.author, base),
        NOT_A_MEMBER,
    )
}

/// The reverse index of a membership: the target must be a household of
/// which the author was a member as of this action.
pub fn validate_create_link_member_to_households(
    k: &Known,
    zome_index: u8,
    action: &Action,
    _base_address: &AnyLinkableHash,
    target_address: &AnyLinkableHash,
) -> (r: Outcome)
    ensures
        verdict_of(r) == and_also(gate(spec_links_to(*k, *target_address, EntryKind::Household), "The target of a MemberToHouseholds link must be a household"@), gate(spec_member_gate(*k, zome_index, action.hash, action.author, *target_address), NOT_A_MEMBER@)),
        judge(r) == followed_by(
            spec_links_to(*k, *target_address, EntryKind::Household),
            spec_member_gate(*k, zome_index, action.hash, action.author, *target_address),
        ),
{
    let target_ok = links_to(k, target_address, EntryKind::Household);
    match target_ok {
        Ok(true) => {},
        _ => return verdict(target_ok, "The target of a MemberToHouseholds link must be a household"),
    }
    verdict(
        member_gate(k, zome_index, &action.hash, &action.author, target_address),
        NOT_A_MEMBER,
    )
}

/// Only members remove the reverse index of a membership.
pub fn validate_delete_link_member_to_households(
    k: &Known,
    zome_index: u8,
    action: &Action,
    _base: &AnyLinkableHash,
    target: &AnyLinkableHash,
) -> (r: Outcome)
    ensures
        verdict_of(r) == gate(spec_member_gate(*k, zome_index, action.hash, action.author, *target), NOT_A_MEMBER@),
        judge(r) == spec_member_gate(*k, zome_index, action.hash, action.author, *target),
{
    verdict(
        member_gate(k, zome_index, &action.hash, &action.author, target),
        NOT_A_MEMBER,
    )
}

} // verus!
