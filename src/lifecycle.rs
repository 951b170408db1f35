//! Leaving a household: which links and claims go, and when the household
//! itself is archived. A household is archived when its last member leaves.
use vstd::prelude::*;
use crate::entries::HouseholdMembershipClaim;
use crate::hash::{ActionHash, AgentPubKey, AnyLinkableHash, LinkableKind};
use crate::revisions::{links_targeting, Link};

verus! {

/// What removing a member from a household takes.
#[derive(Clone, Debug)]
pub struct MemberRemoval {
    /// The member links to delete, by the actions that created them.
    pub delete_links: Vec<ActionHash>,
    /// Whether no member is left, so that the household is archived.
    pub archive_household: bool,
}

/// The linkable address of an agent.
pub open spec fn agent_address(agent: AgentPubKey) -> AnyLinkableHash {
    AnyLinkableHash { kind: LinkableKind::Entry, hash: agent }
}

/// Plans the removal of `member` from a household whose member links are
/// `links`. `None` where some link does not point at an agent.
pub fn plan_member_removal(links: &Vec<Link>, member: &AgentPubKey) -> (r: Option<MemberRemoval>)
    ensures
        r is None <==> exists|i: int| 0 <= i < links@.len() && (#[trigger] links@[i]).target.kind != LinkableKind::Entry,
        r matches Some(plan) ==> {
            &&& plan.delete_links@ == links@.filter(|l: Link| l.target == agent_address(*member)).map_values(
                |l: Link| l.create_link_hash,
            )
            &&& plan.archive_household == (links@.len() > 0 && forall|i: int|
                0 <= i < links@.len() ==> (#[trigger] links@[i]).target.hash == *member)
        },
{
    let mut i: usize = 0;
    let mut all_member = true;
    while i < links.len()
        invariant
            i <= links@.len(),
            forall|j: int| 0 <= j < i ==> (#[trigger] links@[j]).target.kind == LinkableKind::Entry,
            all_member == (forall|j: int| 0 <= j < i ==> (#[trigger] links@[j]).target.hash == *member),
        decreases links@.len() - i,
    {
        if links[i].target.kind != LinkableKind::Entry {
            return None;
        }
        if links[i].target.hash != *member {
            all_member = false;
        }
        i = i + 1;
    }
    let address = AnyLinkableHash { kind: LinkableKind::Entry, hash: *member };
    let delete_links = links_targeting(links, &address);
    Some(MemberRemoval { delete_links, archive_household: links.len() > 0 && all_member })
}

/// One of an agent's own membership claims, with the action that created it.
#[derive(Clone, Copy, Debug)]
pub struct OwnClaim {
    pub action_hash: ActionHash,
    pub claim: HouseholdMembershipClaim,
}

/// The claims among `claims` to retract on leaving `household`: those for
/// that household, by the actions that created them.
pub fn claims_to_retract(claims: &Vec<OwnClaim>, household: &ActionHash) -> (r: Vec<ActionHash>)
    ensures
        r@ == claims@.filter(|c: OwnClaim| c.claim.household_hash == *household).map_values(
            |c: OwnClaim| c.action_hash,
        ),
{
    let mut r: Vec<ActionHash> = Vec::new();
    let mut i: usize = 0;
    while i < claims.len()
        invariant
            i <= claims@.len(),
            r@ == claims@.subrange(0, i as int).filter(|c: OwnClaim| c.claim.household_hash == *household).map_values(
                |c: OwnClaim| c.action_hash,
            ),
        decreases claims@.len() - i,
    {
        let c = claims[i];
        proof {
            reveal(Seq::filter);
            assert(claims@.subrange(0, i + 1).drop_last() =~= claims@.subrange(0, i as int));
        }
        if c.claim.household_hash == *household {
            r.push(c.action_hash);
            proof {
                let f = claims@.subrange(0, i as int).filter(|c: OwnClaim| c.claim.household_hash == *household);
                assert(f.push(c).map_values(|c: OwnClaim| c.action_hash) =~= f.map_values(|c: OwnClaim| c.action_hash).push(
                    c.action_hash,
                ));
            }
        }
        i = i + 1;
    }
    assert(claims@.subrange(0, claims@.len() as int) =~= claims@);
    r
}

} // verus!
