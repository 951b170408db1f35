//! Laws of the membership protocol, proved over the rules' own contracts.
use vstd::prelude::*;
use crate::action::{Action, ActionContent, AppEntryDef};
use crate::claims::{
    claim_entry, claim_is_for, creates_claim, deleted_set, held, is_creation_of, live_claim, scan, spec_held_at,
    unreadable_claim, ClaimType, Target, HOUSEHOLD_MEMBERSHIP_CLAIM_ENTRY_TYPE_INDEX,
};
use crate::dispatch::{spec_create_link_rule, spec_delete_link_rule, spec_validate, Op};
use crate::entries::{EntryValue, HouseholdMembershipClaim};
use crate::hash::{ActionHash, AgentPubKey, AnyLinkableHash, LinkableKind};
use crate::households::{
    is_member_link, spec_claim_grounded, spec_member_gate, HOUSEHOLD_TO_REQUESTORS,
    HOUSEHOLD_UPDATES, REQUESTOR_TO_HOUSEHOLDS,
};
use crate::known::{first_chain, spec_action_at, spec_links_to, ChainItem, Known, KnownRecord, ValidationError};
use crate::membership::membership_claim_type;
use crate::orders_dispatch::{spec_orders_delete_link_rule, AVAILABLE_PRODUCTS_UPDATES, HOUSEHOLD_ORDER_UPDATES, ORDER_UPDATES};
use crate::producers_dispatch::{spec_producers_delete_link_rule, PRODUCER_UPDATES, PRODUCT_UPDATES};

verus! {

/// Whether item `i` of `items` decides a scan for `t` in favour: the
/// creation action of the household, or a live claim.
pub open spec fn grants(recs: Seq<KnownRecord>, items: Seq<ChainItem>, i: int, ct: ClaimType, t: Target) -> bool {
    is_creation_of(items[i].action, t) || live_claim(recs, items[i], deleted_set(items), ct, t)
}

proof fn lemma_scan_sound(recs: Seq<KnownRecord>, items: Seq<ChainItem>, deleted: Set<ActionHash>, ct: ClaimType, t: Target)
    ensures
        scan(recs, items, deleted, ct, t) == Ok::<bool, ValidationError>(true) ==> exists|i: int|
            0 <= i < items.len() && (is_creation_of(#[trigger] items[i].action, t) || live_claim(recs, items[i], deleted, ct, t)),
    decreases items.len(),
{
    if items.len() > 0 {
        lemma_scan_sound(recs, items.drop_first(), deleted, ct, t);
        if scan(recs, items, deleted, ct, t) == Ok::<bool, ValidationError>(true) {
            if !is_creation_of(items[0].action, t) && !live_claim(recs, items[0], deleted, ct, t) {
                let j = choose|j: int|
                    0 <= j < items.drop_first().len() && (is_creation_of(#[trigger] items.drop_first()[j].action, t)
                        || live_claim(recs, items.drop_first()[j], deleted, ct, t));
                assert(items.drop_first()[j] == items[j + 1]);
            }
        }
    }
}

proof fn lemma_scan_complete(recs: Seq<KnownRecord>, items: Seq<ChainItem>, deleted: Set<ActionHash>, ct: ClaimType, t: Target)
    requires
        forall|i: int| 0 <= i < items.len() ==> !unreadable_claim(recs, #[trigger] items[i], ct, t),
    ensures
        scan(recs, items, deleted, ct, t) == Ok::<bool, ValidationError>(
            exists|i: int|
                0 <= i < items.len() && (is_creation_of(#[trigger] items[i].action, t) || live_claim(recs, items[i], deleted, ct, t)),
        ),
    decreases items.len(),
{
    if items.len() > 0 {
        let rest = items.drop_first();
        assert forall|i: int| 0 <= i < rest.len() implies !unreadable_claim(recs, #[trigger] rest[i], ct, t) by {
            assert(rest[i] == items[i + 1]);
        }
        lemma_scan_complete(recs, rest, deleted, ct, t);
        assert(!unreadable_claim(recs, items[0], ct, t));
        if exists|i: int|
            0 <= i < rest.len() && (is_creation_of(#[trigger] rest[i].action, t) || live_claim(recs, rest[i], deleted, ct, t)) {
            let j = choose|j: int|
                0 <= j < rest.len() && (is_creation_of(#[trigger] rest[j].action, t) || live_claim(recs, rest[j], deleted, ct, t));
            assert(rest[j] == items[j + 1]);
        }
        if exists|i: int|
            0 <= i < items.len() && (is_creation_of(#[trigger] items[i].action, t) || live_claim(recs, items[i], deleted, ct, t)) {
            let j = choose|j: int|
                0 <= j < items.len() && (is_creation_of(#[trigger] items[j].action, t) || live_claim(recs, items[j], deleted, ct, t));
            if j > 0 {
                assert(rest[j - 1] == items[j]);
            }
        }
    }
}

/// The creator of a household is a member of it as of the action that
/// created it, whatever claims its chain holds: a walk from that action
/// starts with it.
pub proof fn law_creator_is_member(k: Known, agent: AgentPubKey, household: ActionHash, zome_index: u8)
    requires
        first_chain(k.chains@, agent, household, crate::entries::EntryKind::HouseholdMembershipClaim) matches Some(c)
            && c.items@.len() > 0 && c.items@[0].action.hash == household,
    ensures
        spec_held_at(k, agent, household, membership_claim_type(zome_index as int), Target::Household(household))
            == Ok::<bool, ValidationError>(true),
{
}

/// Where every claim of a walk can be read, the walk shows membership of a
/// household exactly when one of its actions created the household or is a
/// live claim for it: a claim for that household that no action of the walk
/// deletes.
pub proof fn law_membership_iff_live_claim(recs: Seq<KnownRecord>, items: Seq<ChainItem>, ct: ClaimType, household: ActionHash)
    requires
        forall|i: int| 0 <= i < items.len() ==> !unreadable_claim(recs, #[trigger] items[i], ct, Target::Household(household)),
    ensures
        held(recs, items, ct, Target::Household(household)) == Ok::<bool, ValidationError>(
            exists|i: int| 0 <= i < items.len() && #[trigger] grants(recs, items, i, ct, Target::Household(household)),
        ),
{
    let t = Target::Household(household);
    lemma_scan_complete(recs, items, deleted_set(items), ct, t);
    if exists|i: int| 0 <= i < items.len() && #[trigger] grants(recs, items, i, ct, t) {
        let j = choose|j: int| 0 <= j < items.len() && #[trigger] grants(recs, items, j, ct, t);
        assert(is_creation_of(items[j].action, t) || live_claim(recs, items[j], deleted_set(items), ct, t));
    }
    if exists|i: int|
        0 <= i < items.len() && (is_creation_of(#[trigger] items[i].action, t) || live_claim(recs, items[i], deleted_set(items), ct, t)) {
        let j = choose|j: int|
            0 <= j < items.len() && (is_creation_of(#[trigger] items[j].action, t) || live_claim(recs, items[j], deleted_set(items), ct, t));
        assert(grants(recs, items, j, ct, t));
    }
}

/// The membership claim that item `it` holds, read as one for `household`.
pub open spec fn membership_claim_of(recs: Seq<KnownRecord>, it: ChainItem, household: ActionHash) -> Option<
    HouseholdMembershipClaim,
> {
    match claim_entry(recs, it, Target::Household(household)) {
        Some(Some(EntryValue::HouseholdMembershipClaim(c))) => Some(c),
        _ => None,
    }
}

/// A membership claim passes validation only where the link it cites is a
/// genuine `HouseholdToMembers` link from the claimed household to the
/// claim's author; so a walk that shows membership without being the
/// household's creator rests on a live claim whose cited link adds the agent
/// to the household, wherever its claims all passed validation.
pub proof fn law_claim_grounding(
    k: Known,
    zome_index: u8,
    agent: AgentPubKey,
    items: Seq<ChainItem>,
    household: ActionHash,
)
    requires
        forall|i: int|
            0 <= i < items.len() && (#[trigger] membership_claim_of(k.records@, items[i], household)) is Some
                ==> spec_claim_grounded(k, zome_index, agent, membership_claim_of(k.records@, items[i], household)->Some_0)
                == Ok::<bool, ValidationError>(true),
        forall|i: int| 0 <= i < items.len() ==> !is_creation_of(#[trigger] items[i].action, Target::Household(household)),
        held(k.records@, items, membership_claim_type(zome_index as int), Target::Household(household))
            == Ok::<bool, ValidationError>(true),
    ensures
        exists|i: int|
            0 <= i < items.len() && live_claim(
                k.records@,
                #[trigger] items[i],
                deleted_set(items),
                membership_claim_type(zome_index as int),
                Target::Household(household),
            ) && membership_claim_of(k.records@, items[i], household) is Some && spec_action_at(
                k,
                membership_claim_of(k.records@, items[i], household)->Some_0.member_create_link_hash,
            ) is Some && is_member_link(
                spec_action_at(k, membership_claim_of(k.records@, items[i], household)->Some_0.member_create_link_hash)->Some_0,
                zome_index,
                household,
                agent,
            ),
{
    let recs = k.records@;
    let ct = membership_claim_type(zome_index as int);
    let t = Target::Household(household);
    lemma_scan_sound(recs, items, deleted_set(items), ct, t);
    let j = choose|j: int|
        0 <= j < items.len() && (is_creation_of(#[trigger] items[j].action, t) || live_claim(recs, items[j], deleted_set(items), ct, t));
    assert(live_claim(recs, items[j], deleted_set(items), ct, t));
    assert(membership_claim_of(recs, items[j], household) is Some);
}

/// A claim that the walk deletes never counts: where every claim for a
/// household in a walk is deleted by some action of that same walk (before
/// or after the claim) and the walk did not create the household, the walk
/// does not show membership.
pub proof fn law_deleted_claims_never_count(recs: Seq<KnownRecord>, items: Seq<ChainItem>, ct: ClaimType, household: ActionHash)
    requires
        forall|i: int| 0 <= i < items.len() ==> !is_creation_of(#[trigger] items[i].action, Target::Household(household)),
        forall|i: int|
            0 <= i < items.len() && creates_claim((#[trigger] items[i]).action, ct) && (claim_entry(recs, items[i], Target::Household(household))
                matches Some(Some(v)) && claim_is_for(v, Target::Household(household))) ==> deleted_set(items).contains(items[i].action.hash),
    ensures
        held(recs, items, ct, Target::Household(household)) != Ok::<bool, ValidationError>(true),
{
    lemma_scan_sound(recs, items, deleted_set(items), ct, Target::Household(household));
}

/// A membership claim can never be revised: its update is rejected, whether
/// registered at the claim or stored with its record.
pub proof fn law_claims_are_immutable(k: Known, zome_index: u8, action: Action, claim: HouseholdMembershipClaim)
    requires
        action.content is Update,
    ensures
        spec_validate(
            k,
            zome_index,
            Op::RegisterUpdate { action, entry: Some(EntryValue::HouseholdMembershipClaim(claim)) },
        ) == Ok::<bool, ValidationError>(false),
        spec_validate(
            k,
            zome_index,
            Op::StoreRecord { action, entry: Some(EntryValue::HouseholdMembershipClaim(claim)) },
        ) != Ok::<bool, ValidationError>(true),
{
}

/// Only its author retracts a membership claim: a delete of a public claim
/// record by anyone else is never valid.
pub proof fn law_only_author_retracts_claim(
    k: Known,
    zome_index: u8,
    action: Action,
    original: Action,
    def: AppEntryDef,
)
    requires
        action.content matches ActionContent::Delete { deletes_address } && deletes_address == original.hash,
        spec_action_at(k, original.hash) == Some(original),
        original.content.spec_creates_entry(),
        crate::action::spec_app_entry_type(original.content) == Some(def),
        def.zome_index == zome_index,
        def.entry_index == HOUSEHOLD_MEMBERSHIP_CLAIM_ENTRY_TYPE_INDEX,
        def.public,
        action.author != original.author,
    ensures
        spec_validate(k, zome_index, Op::RegisterDelete { action }) != Ok::<bool, ValidationError>(true),
        spec_validate(k, zome_index, Op::StoreRecord { action, entry: None }) != Ok::<bool, ValidationError>(true),
{
}

/// Revision links are never deleted: every delete of a link of an
/// "Updates" type, of households, orders, household orders, offers,
/// producers or products, is rejected.
pub proof fn law_updates_links_are_append_only(
    k: Known,
    names: Seq<String>,
    zome_index: u8,
    action: Action,
    base: AnyLinkableHash,
    target: AnyLinkableHash,
)
    ensures
        spec_delete_link_rule(k, zome_index, action, HOUSEHOLD_UPDATES, base, target)
            == Ok::<bool, ValidationError>(false),
        forall|original: Action|
            action.content is DeleteLink && (original.content matches ActionContent::CreateLink { zome_index: z, link_type, .. }
                && z == zome_index && link_type == HOUSEHOLD_UPDATES) ==> #[trigger] spec_validate(
                k,
                zome_index,
                Op::RegisterDeleteLink { action, original_action: original },
            ) == Ok::<bool, ValidationError>(false),
        spec_orders_delete_link_rule(k, names, action, ORDER_UPDATES, base, target) == Ok::<bool, ValidationError>(false),
        spec_orders_delete_link_rule(k, names, action, HOUSEHOLD_ORDER_UPDATES, base, target)
            == Ok::<bool, ValidationError>(false),
        spec_orders_delete_link_rule(k, names, action, AVAILABLE_PRODUCTS_UPDATES, base, target)
            == Ok::<bool, ValidationError>(false),
        spec_producers_delete_link_rule(PRODUCER_UPDATES) == Ok::<bool, ValidationError>(false),
        spec_producers_delete_link_rule(PRODUCT_UPDATES) == Ok::<bool, ValidationError>(false),
{
}

/// Join requests are self-service: the requestor may always make or
/// withdraw its own request for an existing household, without being a
/// member, while a third party who is no member may do neither.
pub proof fn law_self_service_join_requests(
    k: Known,
    zome_index: u8,
    action: Action,
    household: AnyLinkableHash,
    requestor: AnyLinkableHash,
)
    requires
        household.kind == LinkableKind::Action,
        requestor.kind == LinkableKind::Entry,
        spec_links_to(k, household, crate::entries::EntryKind::Household) == Ok::<bool, ValidationError>(true),
    ensures
        requestor.hash == action.author ==> {
            &&& spec_create_link_rule(k, zome_index, action, HOUSEHOLD_TO_REQUESTORS, household, requestor)
                == Ok::<bool, ValidationError>(true)
            &&& spec_create_link_rule(k, zome_index, action, REQUESTOR_TO_HOUSEHOLDS, requestor, household)
                == Ok::<bool, ValidationError>(true)
            &&& spec_delete_link_rule(k, zome_index, action, HOUSEHOLD_TO_REQUESTORS, household, requestor)
                == Ok::<bool, ValidationError>(true)
            &&& spec_delete_link_rule(k, zome_index, action, REQUESTOR_TO_HOUSEHOLDS, requestor, household)
                == Ok::<bool, ValidationError>(true)
        },
        (requestor.hash != action.author && spec_member_gate(k, zome_index, action.hash, action.author, household)
            == Ok::<bool, ValidationError>(false)) ==> {
            &&& spec_create_link_rule(k, zome_index, action, HOUSEHOLD_TO_REQUESTORS, household, requestor)
                == Ok::<bool, ValidationError>(false)
            &&& spec_create_link_rule(k, zome_index, action, REQUESTOR_TO_HOUSEHOLDS, requestor, household)
                == Ok::<bool, ValidationError>(false)
            &&& spec_delete_link_rule(k, zome_index, action, HOUSEHOLD_TO_REQUESTORS, household, requestor)
                == Ok::<bool, ValidationError>(false)
            &&& spec_delete_link_rule(k, zome_index, action, REQUESTOR_TO_HOUSEHOLDS, requestor, household)
                == Ok::<bool, ValidationError>(false)
        },
{
}

/// A verdict is fixed once given. Membership as of an action is read from
/// the walk back from that action alone, so a claim live in that walk counts
/// for it whatever the agent does afterwards; the actions `later` that the
/// agent appends after it only add to the deletes that later walks see.
pub proof fn law_verdict_fixed_once_given(
    recs: Seq<KnownRecord>,
    later: Seq<ChainItem>,
    items: Seq<ChainItem>,
    ct: ClaimType,
    household: ActionHash,
)
    requires
        forall|i: int| 0 <= i < items.len() ==> !unreadable_claim(recs, #[trigger] items[i], ct, Target::Household(household)),
        exists|i: int| 0 <= i < items.len() && #[trigger] grants(recs, items, i, ct, Target::Household(household)),
    ensures
        held(recs, items, ct, Target::Household(household)) == Ok::<bool, ValidationError>(true),
        deleted_set(items).subset_of(deleted_set(later + items)),
{
    law_membership_iff_live_claim(recs, items, ct, household);
    assert forall|h: ActionHash| deleted_set(items).contains(h) implies deleted_set(later + items).contains(h) by {
        let i = choose|i: int|
            0 <= i < items.len() && (#[trigger] items[i]).action.content is Delete
                && items[i].action.content->Delete_deletes_address == h;
        assert((later + items)[later.len() + i] == items[i]);
    }
}

} // verus!
