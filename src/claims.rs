//! Membership and role claims, checked by replaying an agent's own chain.
//!
//! An agent held a claim as of an action of its chain when, walking that chain
//! from the action back to genesis, some action created a claim of the
//! expected entry type (matched by zome index and entry index) for the
//! expected household or role, and no action of the walk deleted it. A delete
//! counts wherever it sits in the walk. For households, the action that created
//! the household also counts: its author is a member from the start.
//!
//! The question is asked as of an action, and only that action's own history
//! answers it: a delete that the agent makes after the action is not part of
//! the walk, so a claim that was live at the action still counts for it, and
//! stops counting for every later action. This is a deliberate choice. Peers
//! do not agree on how far an agent's chain reaches beyond a given action,
//! but they all hold the same walk back from it, so each verdict is the same
//! on every peer and stays fixed once given; deletes only ever add to what
//! later walks see (`laws::law_verdict_fixed_once_given`).
use vstd::prelude::*;
use crate::action::{spec_app_entry_type, Action, ActionContent};
use crate::entries::{EntryKind, EntryValue};
use crate::hash::{contains_hash, ActionHash, AgentPubKey};
use crate::known::{first_chain, first_record, ChainItem, Known, KnownRecord, ValidationError};

verus! {

/// Entry index of the membership claim type within the households zome.
pub const HOUSEHOLD_MEMBERSHIP_CLAIM_ENTRY_TYPE_INDEX: u8 = 1;

/// Entry index of the role claim type within the roles zome.
pub const ROLE_CLAIM_ENTRY_TYPE_INDEX: u8 = 0;

/// Name of the integrity zome that defines households and their claims.
pub const HOUSEHOLDS_INTEGRITY_ZOME_NAME: &'static str = "households_integrity";

/// What a claim must be about to count.
#[derive(Clone, Debug)]
pub enum ClaimTarget {
    /// Membership of the household created by this action.
    Household(ActionHash),
    /// The role of this name.
    Role(String),
}

/// What a claim must be about, as a mathematical value.
pub enum Target {
    Household(ActionHash),
    Role(Seq<char>),
}

impl View for ClaimTarget {
    type V = Target;

    open spec fn view(&self) -> Target {
        match self {
            ClaimTarget::Household(h) => Target::Household(*h),
            ClaimTarget::Role(name) => Target::Role(name@),
        }
    }
}

/// The entry type of a claim: the zome that defines it and its index there.
#[derive(Clone, Copy, Debug)]
pub struct ClaimType {
    pub zome_index: usize,
    pub entry_index: u8,
}

/// The kind of entry that a claim for `t` is.
pub open spec fn claim_kind(t: Target) -> EntryKind {
    match t {
        Target::Household(_) => EntryKind::HouseholdMembershipClaim,
        Target::Role(_) => EntryKind::RoleClaim,
    }
}

/// Whether action `a` created an entry of the claim type `ct`.
pub open spec fn creates_claim(a: Action, ct: ClaimType) -> bool {
    match spec_app_entry_type(a.content) {
        Some(d) => d.entry_index == ct.entry_index && d.zome_index as usize == ct.zome_index,
        None => false,
    }
}

/// Whether the decoded entry `v` is a claim of the kind that `t` expects.
pub open spec fn readable_claim(v: EntryValue, t: Target) -> bool {
    match t {
        Target::Household(_) => v is HouseholdMembershipClaim,
        Target::Role(_) => v is RoleClaim,
    }
}

/// Whether the decoded claim `v` is about `t`.
pub open spec fn claim_is_for(v: EntryValue, t: Target) -> bool {
    match t {
        Target::Household(h) => v is HouseholdMembershipClaim && v->HouseholdMembershipClaim_0.household_hash == h,
        Target::Role(name) => v is RoleClaim && v->RoleClaim_0.role@ == name,
    }
}

/// Whether action `a` is the creation of the household that `t` names.
pub open spec fn is_creation_of(a: Action, t: Target) -> bool {
    match t {
        Target::Household(h) => a.hash == h,
        Target::Role(_) => false,
    }
}

/// The addresses that some action of `items` deletes.
pub open spec fn deleted_set(items: Seq<ChainItem>) -> Set<ActionHash> {
    Set::new(
        |h: ActionHash|
            exists|i: int|
                0 <= i < items.len() && (#[trigger] items[i]).action.content is Delete
                    && items[i].action.content->Delete_deletes_address == h,
    )
}

/// The entry of the claim action of item `it`: the cached entry where the
/// walk brought one, else that of the fetched record of the action read as
/// a claim for `t`. `None` while neither is at hand; `Some(None)` where the
/// record holds no entry that could be read.
pub open spec fn claim_entry(recs: Seq<KnownRecord>, it: ChainItem, t: Target) -> Option<Option<EntryValue>> {
    match it.entry {
        Some(v) => Some(Some(v)),
        None => match first_record(recs, it.action.hash, Some(claim_kind(t))) {
            None => None,
            Some(r) => Some(r.entry),
        },
    }
}

/// Whether item `it` is a live claim for `t`: a readable claim of type `ct`
/// about `t` whose action is not in `deleted`.
pub open spec fn live_claim(recs: Seq<KnownRecord>, it: ChainItem, deleted: Set<ActionHash>, ct: ClaimType, t: Target) -> bool {
    &&& creates_claim(it.action, ct)
    &&& claim_entry(recs, it, t) matches Some(Some(v)) && claim_is_for(v, t)
    &&& !deleted.contains(it.action.hash)
}

/// Whether item `it` is a claim of type `ct` that cannot be read as one:
/// its entry is not at hand or is no claim for `t`.
pub open spec fn unreadable_claim(recs: Seq<KnownRecord>, it: ChainItem, ct: ClaimType, t: Target) -> bool {
    &&& creates_claim(it.action, ct)
    &&& !(claim_entry(recs, it, t) matches Some(Some(v)) && readable_claim(v, t))
}

/// Why the unreadable claim of item `it` stops a scan.
pub open spec fn unreadable_error(recs: Seq<KnownRecord>, it: ChainItem, t: Target) -> ValidationError {
    match claim_entry(recs, it, t) {
        None => ValidationError::RecordUnavailable { hash: it.action.hash, kind: Some(claim_kind(t)) },
        Some(_) => ValidationError::MalformedClaim { hash: it.action.hash },
    }
}

/// The scan of `items` in order: the first creation action or live claim
/// decides for, the first unreadable claim stops the scan with an error,
/// and the end of the walk decides against.
pub open spec fn scan(recs: Seq<KnownRecord>, items: Seq<ChainItem>, deleted: Set<ActionHash>, ct: ClaimType, t: Target) -> Result<
    bool,
    ValidationError,
>
    decreases items.len(),
{
    if items.len() == 0 {
        Ok(false)
    } else if is_creation_of(items[0].action, t) {
        Ok(true)
    } else if unreadable_claim(recs, items[0], ct, t) {
        Err(unreadable_error(recs, items[0], t))
    } else if live_claim(recs, items[0], deleted, ct, t) {
        Ok(true)
    } else {
        scan(recs, items.drop_first(), deleted, ct, t)
    }
}

/// Whether the walk `items` shows the claim `t` held, with `recs` the
/// fetched records.
pub open spec fn held(recs: Seq<KnownRecord>, items: Seq<ChainItem>, ct: ClaimType, t: Target) -> Result<bool, ValidationError> {
    scan(recs, items, deleted_set(items), ct, t)
}

/// Whether `agent` held the claim `t` as of `top`, from what `k` holds.
pub open spec fn spec_held_at(k: Known, agent: AgentPubKey, top: ActionHash, ct: ClaimType, t: Target) -> Result<
    bool,
    ValidationError,
> {
    match first_chain(k.chains@, agent, top, claim_kind(t)) {
        None => Err(ValidationError::ChainUnavailable { agent, chain_top: top, claim: claim_kind(t) }),
        Some(c) => held(k.records@, c.items@, ct, t),
    }
}

proof fn lemma_scan_step(recs: Seq<KnownRecord>, items: Seq<ChainItem>, i: int, deleted: Set<ActionHash>, ct: ClaimType, t: Target)
    requires
        0 <= i < items.len(),
    ensures
        scan(recs, items.subrange(i, items.len() as int), deleted, ct, t) == (if is_creation_of(items[i].action, t) {
            Ok(true)
        } else if unreadable_claim(recs, items[i], ct, t) {
            Err(unreadable_error(recs, items[i], t))
        } else if live_claim(recs, items[i], deleted, ct, t) {
            Ok(true)
        } else {
            scan(recs, items.subrange(i + 1, items.len() as int), deleted, ct, t)
        }),
{
    assert(items.subrange(i, items.len() as int).drop_first() =~= items.subrange(i + 1, items.len() as int));
}

/// The addresses that the actions of a walked chain delete.
pub fn deleted_actions(items: &Vec<ChainItem>) -> (r: Vec<ActionHash>)
    ensures
        forall|h: ActionHash| r@.contains(h) <==> deleted_set(items@).contains(h),
{
    let mut r: Vec<ActionHash> = Vec::new();
    let mut i: usize = 0;
    while i < items.len()
        invariant
            i <= items@.len(),
            forall|h: ActionHash|
                r@.contains(h) <==> exists|j: int|
                    0 <= j < i && (#[trigger] items@[j]).action.content is Delete
                        && items@[j].action.content->Delete_deletes_address == h,
        decreases items@.len() - i,
    {
        if let ActionContent::Delete { deletes_address } = items[i].action.content {
            let ghost old_r = r@;
            r.push(deletes_address);
            proof {
                assert forall|h: ActionHash|
                    r@.contains(h) <==> exists|j: int|
                        0 <= j < i + 1 && (#[trigger] items@[j]).action.content is Delete
                            && items@[j].action.content->Delete_deletes_address == h by {
                    if r@.contains(h) {
                        let k = choose|k: int| 0 <= k < r@.len() && r@[k] == h;
                        if k < old_r.len() {
                            assert(old_r[k] == h);
                            assert(old_r.contains(h));
                        } else {
                            assert(h == deletes_address);
                            assert(items@[i as int].action.content is Delete);
                        }
                    }
                    if exists|j: int|
                        0 <= j < i + 1 && (#[trigger] items@[j]).action.content is Delete
                            && items@[j].action.content->Delete_deletes_address == h {
                        let j = choose|j: int|
                            0 <= j < i + 1 && (#[trigger] items@[j]).action.content is Delete
                                && items@[j].action.content->Delete_deletes_address == h;
                        if j < i {
                            assert(old_r.contains(h));
                            let k = choose|k: int| 0 <= k < old_r.len() && old_r[k] == h;
                            assert(r@[k] == h);
                        } else {
                            assert(r@[old_r.len() as int] == h);
                        }
                    }
                }
            }
        }
        i = i + 1;
    }
    proof {
        assert forall|h: ActionHash| r@.contains(h) <==> deleted_set(items@).contains(h) by {
            if r@.contains(h) {
                let j = choose|j: int|
                    0 <= j < items@.len() && (#[trigger] items@[j]).action.content is Delete
                        && items@[j].action.content->Delete_deletes_address == h;
                assert(deleted_set(items@).contains(h));
            }
        }
    }
    r
}

/// Scans a walked chain for the claim `t` of type `ct`, given the addresses
/// that the walk deletes and the records fetched so far.
pub fn scan_claims(k: &Known, items: &Vec<ChainItem>, deleted: &Vec<ActionHash>, ct: ClaimType, t: &ClaimTarget) -> (r: Result<
    bool,
    ValidationError,
>)
    ensures
        r == scan(k.records@, items@, deleted@.to_set(), ct, t@),
{
    let kind = match t {
        ClaimTarget::Household(_) => EntryKind::HouseholdMembershipClaim,
        ClaimTarget::Role(_) => EntryKind::RoleClaim,
    };
    let mut i: usize = 0;
    assert(items@.subrange(0, items@.len() as int) =~= items@);
    while i < items.len()
        invariant
            i <= items@.len(),
            kind == claim_kind(t@),
            scan(k.records@, items@, deleted@.to_set(), ct, t@) == scan(
                k.records@,
                items@.subrange(i as int, items@.len() as int),
                deleted@.to_set(),
                ct,
                t@,
            ),
        decreases items@.len() - i,
    {
        proof {
            lemma_scan_step(k.records@, items@, i as int, deleted@.to_set(), ct, t@);
        }
        let it = &items[i];
        let creation = match t {
            ClaimTarget::Household(h) => it.action.hash == *h,
            ClaimTarget::Role(_) => false,
        };
        if creation {
            return Ok(true);
        }
        let is_claim = match it.action.content.app_entry_type() {
            Some(d) => d.entry_index == ct.entry_index && d.zome_index as usize == ct.zome_index,
            None => false,
        };
        if is_claim {
            let entry: &Option<EntryValue> = match &it.entry {
                Some(_) => &it.entry,
                None => match k.find_record(&it.action.hash, Some(kind)) {
                    None => {
                        return Err(ValidationError::RecordUnavailable { hash: it.action.hash, kind: Some(kind) });
                    },
                    Some(j) => &k.records[j].entry,
                },
            };
            let about = match (entry, t) {
                (Some(EntryValue::HouseholdMembershipClaim(c)), ClaimTarget::Household(h)) => Some(
                    c.household_hash == *h,
                ),
                (Some(EntryValue::RoleClaim(c)), ClaimTarget::Role(name)) => Some(c.role == *name),
                _ => None,
            };
            match about {
                None => {
                    return Err(ValidationError::MalformedClaim { hash: it.action.hash });
                },
                Some(true) => {
                    if !contains_hash(deleted, &it.action.hash) {
                        return Ok(true);
                    }
                },
                Some(false) => {},
            }
        }
        i = i + 1;
    }
    proof {
        assert(items@.subrange(i as int, items@.len() as int).len() == 0);
    }
    Ok(false)
}

/// Whether `agent` held the claim `t` of type `ct` as of its action `top`,
/// replaying the chain from `top` back to genesis.
pub fn held_at(k: &Known, agent: &AgentPubKey, top: &ActionHash, ct: ClaimType, t: &ClaimTarget) -> (r: Result<
    bool,
    ValidationError,
>)
    ensures
        r == spec_held_at(*k, *agent, *top, ct, t@),
{
    let kind = match t {
        ClaimTarget::Household(_) => EntryKind::HouseholdMembershipClaim,
        ClaimTarget::Role(_) => EntryKind::RoleClaim,
    };
    match k.find_chain(agent, top, kind) {
        None => Err(ValidationError::ChainUnavailable { agent: *agent, chain_top: *top, claim: kind }),
        Some(i) => {
            let items = &k.chains[i].items;
            let deleted = deleted_actions(items);
            proof {
                assert(deleted@.to_set() =~= deleted_set(items@));
            }
            scan_claims(k, items, &deleted, ct, t)
        },
    }
}

} // verus!
