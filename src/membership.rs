//! The questions that the rules ask of the claim replay: was an agent a
//! member of a household, or did it hold a role, when it performed an action.
use vstd::prelude::*;
use crate::claims::{
    held_at, spec_held_at, ClaimTarget, Target, ClaimType, HOUSEHOLDS_INTEGRITY_ZOME_NAME,
    HOUSEHOLD_MEMBERSHIP_CLAIM_ENTRY_TYPE_INDEX, ROLE_CLAIM_ENTRY_TYPE_INDEX,
};
use crate::hash::{ActionHash, AgentPubKey};
use crate::known::{gate, invalid, judge, reject, verdict, verdict_of, Known, Outcome, ValidationError, Verdict};

verus! {

/// Whether `names[i]` is the first of `names` equal to `name`.
pub open spec fn is_first_index(names: Seq<String>, name: Seq<char>, i: int) -> bool {
    &&& 0 <= i < names.len()
    &&& names[i]@ == name
    &&& forall|j: int| 0 <= j < i ==> names[j]@ != name
}

/// Position of the zome called `name` among the zomes of the DNA.
pub open spec fn spec_zome_index(names: Seq<String>, name: Seq<char>) -> Option<int> {
    if exists|i: int| is_first_index(names, name, i) {
        Some(choose|i: int| is_first_index(names, name, i))
    } else {
        None
    }
}

proof fn lemma_first_index_unique(names: Seq<String>, name: Seq<char>, i: int, j: int)
    requires
        is_first_index(names, name, i),
        is_first_index(names, name, j),
    ensures
        i == j,
{
    if i < j {
        assert(names[i]@ == name);
    } else if j < i {
        assert(names[j]@ == name);
    }
}

/// Position of the zome called `name` among the zomes of the DNA.
pub fn zome_index_of(zome_names: &Vec<String>, name: &String) -> (r: Option<usize>)
    ensures
        match spec_zome_index(zome_names@, name@) {
            Some(i) => r == Some(i as usize),
            None => r is None,
        },
{
    let mut i: usize = 0;
    while i < zome_names.len()
        invariant
            i <= zome_names@.len(),
            forall|j: int| 0 <= j < i ==> zome_names@[j]@ != name@,
        decreases zome_names@.len() - i,
    {
        if zome_names[i] == *name {
            proof {
                assert(is_first_index(zome_names@, name@, i as int));
                let c = choose|c: int| is_first_index(zome_names@, name@, c);
                lemma_first_index_unique(zome_names@, name@, i as int, c);
            }
            return Some(i);
        }
        i = i + 1;
    }
    None
}

/// The membership claim type of the households zome at `zome_index`.
pub open spec fn membership_claim_type(zome_index: int) -> ClaimType {
    ClaimType { zome_index: zome_index as usize, entry_index: HOUSEHOLD_MEMBERSHIP_CLAIM_ENTRY_TYPE_INDEX }
}

/// The role claim type of the roles zome at `zome_index`.
pub open spec fn role_claim_type(zome_index: int) -> ClaimType {
    ClaimType { zome_index: zome_index as usize, entry_index: ROLE_CLAIM_ENTRY_TYPE_INDEX }
}

/// Whether `agent` was a member of `household` as of its action `top`,
/// where `zome_names` lists the zomes of the DNA. Without a households
/// zome nobody is a member.
pub open spec fn spec_was_member_at_the_time(
    k: Known,
    zome_names: Seq<String>,
    agent: AgentPubKey,
    top: ActionHash,
    household: ActionHash,
) -> Result<bool, ValidationError> {
    match spec_zome_index(zome_names, HOUSEHOLDS_INTEGRITY_ZOME_NAME@) {
        None => Ok(false),
        Some(i) => spec_held_at(k, agent, top, membership_claim_type(i), Target::Household(household)),
    }
}

/// Whether `agent` held `role` as of its action `top`, where the roles zome
/// is called `roles_zome`. Without such a zome nobody holds a role.
pub open spec fn spec_had_role_at_the_time(
    k: Known,
    zome_names: Seq<String>,
    agent: AgentPubKey,
    top: ActionHash,
    role: Seq<char>,
    roles_zome: Seq<char>,
) -> Result<bool, ValidationError> {
    match spec_zome_index(zome_names, roles_zome) {
        None => Ok(false),
        Some(i) => spec_held_at(k, agent, top, role_claim_type(i), Target::Role(role)),
    }
}

/// Why a non-member is rejected.
pub const NOT_A_MEMBER: &'static str = "Agent was not a member of the household when they committed the given entry";

/// Why a DNA without a households zome rejects membership.
pub const NO_HOUSEHOLDS_ZOME: &'static str = "Unreachable: there is no 'households_integrity' integrity zome in this DNA";

/// Why an agent without the role is rejected.
pub const ROLE_NOT_HELD: &'static str = "Agent did not hold the required role when they committed the given action";

/// Why a DNA without the roles zome rejects roles.
pub const NO_ROLES_ZOME: &'static str = "There is no roles integrity zome in this DNA";

/// The verdict on whether `agent` was a member of `household` as of its
/// action `top`, with its reason.
pub open spec fn spec_member_verdict(
    k: Known,
    zome_names: Seq<String>,
    agent: AgentPubKey,
    top: ActionHash,
    household: ActionHash,
) -> Result<Verdict, ValidationError> {
    match spec_zome_index(zome_names, HOUSEHOLDS_INTEGRITY_ZOME_NAME@) {
        None => reject(NO_HOUSEHOLDS_ZOME@),
        Some(i) => gate(
            spec_held_at(k, agent, top, membership_claim_type(i), Target::Household(household)),
            NOT_A_MEMBER@,
        ),
    }
}

/// The verdict on whether `agent` held `role` as of its action `top`, with
/// its reason.
pub open spec fn spec_role_verdict(
    k: Known,
    zome_names: Seq<String>,
    agent: AgentPubKey,
    top: ActionHash,
    role: Seq<char>,
    roles_zome: Seq<char>,
) -> Result<Verdict, ValidationError> {
    match spec_zome_index(zome_names, roles_zome) {
        None => reject(NO_ROLES_ZOME@),
        Some(i) => gate(spec_held_at(k, agent, top, role_claim_type(i), Target::Role(role)), ROLE_NOT_HELD@),
    }
}

/// Valid when `agent` was a member of the household created by
/// `household_hash` as of its action `chain_top`.
pub fn validate_agent_was_member_of_household_at_the_time(
    k: &Known,
    zome_names: &Vec<String>,
    agent_pub_key: &AgentPubKey,
    chain_top: &ActionHash,
    household_hash: &ActionHash,
) -> (r: Outcome)
    ensures
        verdict_of(r) == spec_member_verdict(*k, zome_names@, *agent_pub_key, *chain_top, *household_hash),
        judge(r) == spec_was_member_at_the_time(*k, zome_names@, *agent_pub_key, *chain_top, *household_hash),
{
    let zome_name = HOUSEHOLDS_INTEGRITY_ZOME_NAME.to_owned();
    let Some(zome_index) = zome_index_of(zome_names, &zome_name) else {
        return invalid(NO_HOUSEHOLDS_ZOME);
    };
    let ct = ClaimType { zome_index, entry_index: HOUSEHOLD_MEMBERSHIP_CLAIM_ENTRY_TYPE_INDEX };
    let t = ClaimTarget::Household(*household_hash);
    verdict(held_at(k, agent_pub_key, chain_top, ct, &t), NOT_A_MEMBER)
}

/// Whether `agent` was a member of the household created by
/// `household_hash` as of its action `chain_top`, where the membership claims
/// are those of the zome at `zome_index`.
pub fn was_member_of_household(
    k: &Known,
    zome_index: u8,
    agent_pub_key: &AgentPubKey,
    chain_top: &ActionHash,
    household_hash: &ActionHash,
) -> (r: Result<bool, ValidationError>)
    ensures
        r == spec_held_at(
            *k,
            *agent_pub_key,
            *chain_top,
            membership_claim_type(zome_index as int),
            Target::Household(*household_hash),
        ),
{
    let ct = ClaimType { zome_index: zome_index as usize, entry_index: HOUSEHOLD_MEMBERSHIP_CLAIM_ENTRY_TYPE_INDEX };
    held_at(k, agent_pub_key, chain_top, ct, &ClaimTarget::Household(*household_hash))
}

/// Valid when `agent` held an undeleted claim of `role` as of its action
/// `chain_top`, the claims being those of the zome called `roles_zome_name`.
pub fn validate_agent_had_undeleted_role_claim_at_the_time(
    k: &Known,
    zome_names: &Vec<String>,
    agent: &AgentPubKey,
    chain_top: &ActionHash,
    role: &String,
    roles_zome_name: &String,
) -> (r: Outcome)
    ensures
        verdict_of(r) == spec_role_verdict(*k, zome_names@, *agent, *chain_top, role@, roles_zome_name@),
        judge(r) == spec_had_role_at_the_time(*k, zome_names@, *agent, *chain_top, role@, roles_zome_name@),
{
    let Some(zome_index) = zome_index_of(zome_names, roles_zome_name) else {
        return invalid(NO_ROLES_ZOME);
    };
    let ct = ClaimType { zome_index, entry_index: ROLE_CLAIM_ENTRY_TYPE_INDEX };
    let t = ClaimTarget::Role(role.clone());
    verdict(held_at(k, agent, chain_top, ct, &t), ROLE_NOT_HELD)
}

} // verus!
