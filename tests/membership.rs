use plenty::action::{Action, ActionContent, AppEntryDef};
use plenty::claims::{held_at, ClaimTarget, ClaimType};
use plenty::entries::{EntryKind, EntryValue, Household, HouseholdMembershipClaim, RoleClaim};
use plenty::hash::{AnyLinkableHash, RawHash, LinkableKind};
use plenty::households::{
    validate_create_household_membership_claim, validate_delete_household_membership_claim,
    validate_delete_link_household_to_members, validate_update_household_membership_claim, HOUSEHOLD_TO_MEMBERS,
};
use plenty::known::{ChainItem, Known, KnownChain, KnownRecord, ValidateCallbackResult, ValidationError};
use plenty::membership::{
    validate_agent_had_undeleted_role_claim_at_the_time, validate_agent_was_member_of_household_at_the_time,
    was_member_of_household, zome_index_of,
};

const ZOME: u8 = 0;

fn h(n: u8) -> RawHash {
    RawHash { bytes: [n; 36] }
}

fn action_link(n: u8) -> AnyLinkableHash {
    AnyLinkableHash { kind: LinkableKind::Action, hash: h(n) }
}

fn agent_link(n: u8) -> AnyLinkableHash {
    AnyLinkableHash { kind: LinkableKind::Entry, hash: h(n) }
}

fn def(entry_index: u8) -> Option<AppEntryDef> {
    Some(AppEntryDef { entry_index, zome_index: ZOME, public: true })
}

fn act(hash: u8, author: u8, timestamp: i64, content: ActionContent) -> Action {
    Action { hash: h(hash), author: h(author), timestamp, content }
}

fn item(a: Action) -> ChainItem {
    ChainItem { action: a, entry: None }
}

fn claim_item(a: Action, member_create_link_hash: u8, household: u8) -> ChainItem {
    ChainItem {
        action: a,
        entry: Some(EntryValue::HouseholdMembershipClaim(HouseholdMembershipClaim {
            member_create_link_hash: h(member_create_link_hash),
            household_hash: h(household),
        })),
    }
}

fn chain(agent: u8, top: u8, items: Vec<ChainItem>) -> KnownChain {
    KnownChain { agent: h(agent), chain_top: h(top), claim: EntryKind::HouseholdMembershipClaim, items }
}

const ALICE: u8 = 1;
const BOB: u8 = 2;
const CAROL: u8 = 3;
const DAVE: u8 = 4;
const LOREM: u8 = 10;
const ADD_BOB: u8 = 11;
const BOB_CLAIM: u8 = 12;
const BOB_DELETE: u8 = 13;
const BOB_LATER: u8 = 14;
const GENESIS: u8 = 99;

fn lorem_creation() -> Action {
    act(LOREM, ALICE, 100, ActionContent::Create { entry_type: def(0) })
}

fn add_bob() -> Action {
    act(
        ADD_BOB,
        ALICE,
        200,
        ActionContent::CreateLink {
            base_address: action_link(LOREM),
            target_address: agent_link(BOB),
            zome_index: ZOME,
            link_type: HOUSEHOLD_TO_MEMBERS,
        },
    )
}

fn bob_claim_action() -> Action {
    act(BOB_CLAIM, BOB, 300, ActionContent::Create { entry_type: def(1) })
}

fn bob_claim() -> HouseholdMembershipClaim {
    HouseholdMembershipClaim { member_create_link_hash: h(ADD_BOB), household_hash: h(LOREM) }
}

fn lorem_record() -> KnownRecord {
    KnownRecord {
        action: lorem_creation(),
        kind: Some(EntryKind::Household),
        entry: Some(EntryValue::Household(Household { name: "Lorem".to_string(), avatar: h(50) })),
    }
}

fn scenario_known() -> Known {
    let genesis = act(GENESIS, BOB, 0, ActionContent::Other);
    let bob_delete = act(BOB_DELETE, BOB, 400, ActionContent::Delete { deletes_address: h(BOB_CLAIM) });
    let bob_later = act(BOB_LATER, BOB, 500, ActionContent::Other);
    Known {
        records: vec![
            lorem_record(),
            KnownRecord { action: add_bob(), kind: None, entry: None },
        ],
        chains: vec![
            chain(ALICE, ADD_BOB, vec![item(add_bob()), item(lorem_creation()), item(act(GENESIS, ALICE, 0, ActionContent::Other))]),
            chain(BOB, BOB_CLAIM, vec![claim_item(bob_claim_action(), ADD_BOB, LOREM), item(genesis)]),
            chain(
                BOB,
                BOB_LATER,
                vec![
                    item(bob_later),
                    item(bob_delete),
                    claim_item(bob_claim_action(), ADD_BOB, LOREM),
                    item(genesis),
                ],
            ),
            chain(DAVE, 30, vec![item(act(30, DAVE, 600, ActionContent::Other))]),
        ],
    }
}

fn is_valid(r: &Result<ValidateCallbackResult, ValidationError>) -> bool {
    matches!(r, Ok(ValidateCallbackResult::Valid))
}

fn is_invalid(r: &Result<ValidateCallbackResult, ValidationError>) -> bool {
    matches!(r, Ok(ValidateCallbackResult::Invalid(_)))
}

#[test]
fn creator_is_member_without_claims() {
    let k = scenario_known();
    assert_eq!(was_member_of_household(&k, ZOME, &h(ALICE), &h(ADD_BOB), &h(LOREM)), Ok(true));
    let k = Known {
        records: vec![],
        chains: vec![chain(ALICE, LOREM, vec![item(lorem_creation())])],
    };
    assert_eq!(was_member_of_household(&k, ZOME, &h(ALICE), &h(LOREM), &h(LOREM)), Ok(true));
}

#[test]
fn scenario_alice_adds_bob() {
    let k = scenario_known();
    let r = validate_create_household_membership_claim(&k, ZOME, &bob_claim_action(), &bob_claim());
    assert!(is_valid(&r));
    assert_eq!(was_member_of_household(&k, ZOME, &h(BOB), &h(BOB_CLAIM), &h(LOREM)), Ok(true));
    let names = vec!["households_integrity".to_string()];
    let r = validate_agent_was_member_of_household_at_the_time(&k, &names, &h(BOB), &h(BOB_CLAIM), &h(LOREM));
    assert!(is_valid(&r));
}

#[test]
fn scenario_bob_leaves() {
    let k = scenario_known();
    assert_eq!(was_member_of_household(&k, ZOME, &h(BOB), &h(BOB_LATER), &h(LOREM)), Ok(false));
    let names = vec!["households_integrity".to_string()];
    let r = validate_agent_was_member_of_household_at_the_time(&k, &names, &h(BOB), &h(BOB_LATER), &h(LOREM));
    assert!(is_invalid(&r));
}

#[test]
fn deletion_counts_wherever_it_sits_in_the_walk() {
    let claim = claim_item(bob_claim_action(), ADD_BOB, LOREM);
    let delete = item(act(BOB_DELETE, BOB, 400, ActionContent::Delete { deletes_address: h(BOB_CLAIM) }));
    let k = Known {
        records: vec![],
        chains: vec![chain(BOB, 70, vec![claim, delete])],
    };
    assert_eq!(was_member_of_household(&k, ZOME, &h(BOB), &h(70), &h(LOREM)), Ok(false));
}

#[test]
fn scenario_carol_fabricates_a_claim() {
    let k = scenario_known();
    let carol_claim_action = act(20, CAROL, 700, ActionContent::Create { entry_type: def(1) });
    // cites the link that added Bob, not Carol
    let r = validate_create_household_membership_claim(&k, ZOME, &carol_claim_action, &bob_claim());
    assert!(is_invalid(&r));
    // cites an action that is no link
    let claim = HouseholdMembershipClaim { member_create_link_hash: h(LOREM), household_hash: h(LOREM) };
    let k2 = Known {
        records: vec![KnownRecord { action: lorem_creation(), kind: None, entry: None }],
        chains: vec![],
    };
    assert!(is_invalid(&validate_create_household_membership_claim(&k2, ZOME, &carol_claim_action, &claim)));
    // cites the right link but another household
    let claim = HouseholdMembershipClaim { member_create_link_hash: h(ADD_BOB), household_hash: h(77) };
    assert!(is_invalid(&validate_create_household_membership_claim(&k, ZOME, &bob_claim_action(), &claim)));
    // cites a link that was never created
    let claim = HouseholdMembershipClaim { member_create_link_hash: h(88), household_hash: h(LOREM) };
    assert_eq!(
        validate_create_household_membership_claim(&k, ZOME, &carol_claim_action, &claim).err(),
        Some(ValidationError::RecordUnavailable { hash: h(88), kind: None })
    );
}

#[test]
fn claim_citing_a_link_of_another_type_is_invalid() {
    let mut link = add_bob();
    link.content = ActionContent::CreateLink {
        base_address: action_link(LOREM),
        target_address: agent_link(BOB),
        zome_index: ZOME,
        link_type: 1,
    };
    let k = Known { records: vec![KnownRecord { action: link, kind: None, entry: None }], chains: vec![] };
    assert!(is_invalid(&validate_create_household_membership_claim(&k, ZOME, &bob_claim_action(), &bob_claim())));
}

#[test]
fn scenario_dave_cannot_remove_bob() {
    let k = scenario_known();
    let dave_delete = act(
        30,
        DAVE,
        600,
        ActionContent::DeleteLink { link_add_address: h(ADD_BOB), base_address: action_link(LOREM) },
    );
    let r = validate_delete_link_household_to_members(&k, ZOME, &dave_delete, &action_link(LOREM), &agent_link(BOB));
    assert!(is_invalid(&r));
}

#[test]
fn claims_cannot_be_updated() {
    let a = act(40, BOB, 800, ActionContent::Update { entry_type: def(1), original_action_address: h(BOB_CLAIM) });
    let r = validate_update_household_membership_claim(&a, &bob_claim());
    assert!(is_invalid(&r));
}

#[test]
fn only_the_author_deletes_a_claim() {
    let by_bob = act(41, BOB, 800, ActionContent::Delete { deletes_address: h(BOB_CLAIM) });
    let by_alice = act(42, ALICE, 800, ActionContent::Delete { deletes_address: h(BOB_CLAIM) });
    assert!(is_valid(&validate_delete_household_membership_claim(&by_bob, &bob_claim_action(), &bob_claim())));
    assert!(is_invalid(&validate_delete_household_membership_claim(&by_alice, &bob_claim_action(), &bob_claim())));
}

#[test]
fn missing_chain_is_unavailable() {
    let k = Known { records: vec![], chains: vec![] };
    assert_eq!(
        was_member_of_household(&k, ZOME, &h(BOB), &h(BOB_CLAIM), &h(LOREM)),
        Err(ValidationError::ChainUnavailable {
            agent: h(BOB),
            chain_top: h(BOB_CLAIM),
            claim: EntryKind::HouseholdMembershipClaim,
        })
    );
}

#[test]
fn uncached_claim_is_read_from_its_record() {
    let mut k = Known {
        records: vec![],
        chains: vec![chain(BOB, BOB_CLAIM, vec![item(bob_claim_action())])],
    };
    assert_eq!(
        was_member_of_household(&k, ZOME, &h(BOB), &h(BOB_CLAIM), &h(LOREM)),
        Err(ValidationError::RecordUnavailable { hash: h(BOB_CLAIM), kind: Some(EntryKind::HouseholdMembershipClaim) })
    );
    k.records.push(KnownRecord {
        action: bob_claim_action(),
        kind: Some(EntryKind::HouseholdMembershipClaim),
        entry: Some(EntryValue::HouseholdMembershipClaim(bob_claim())),
    });
    assert_eq!(was_member_of_household(&k, ZOME, &h(BOB), &h(BOB_CLAIM), &h(LOREM)), Ok(true));
}

#[test]
fn unreadable_claim_is_malformed() {
    let k = Known {
        records: vec![KnownRecord { action: bob_claim_action(), kind: Some(EntryKind::HouseholdMembershipClaim), entry: None }],
        chains: vec![chain(BOB, BOB_CLAIM, vec![item(bob_claim_action())])],
    };
    assert_eq!(
        was_member_of_household(&k, ZOME, &h(BOB), &h(BOB_CLAIM), &h(LOREM)),
        Err(ValidationError::MalformedClaim { hash: h(BOB_CLAIM) })
    );
}

#[test]
fn claims_of_another_zome_or_household_do_not_count() {
    let foreign = act(
        BOB_CLAIM,
        BOB,
        300,
        ActionContent::Create { entry_type: Some(AppEntryDef { entry_index: 1, zome_index: 5, public: true }) },
    );
    let k = Known {
        records: vec![],
        chains: vec![
            chain(BOB, BOB_CLAIM, vec![claim_item(foreign, ADD_BOB, LOREM)]),
            chain(BOB, 61, vec![claim_item(act(61, BOB, 300, ActionContent::Create { entry_type: def(1) }), ADD_BOB, 62)]),
        ],
    };
    assert_eq!(was_member_of_household(&k, ZOME, &h(BOB), &h(BOB_CLAIM), &h(LOREM)), Ok(false));
    assert_eq!(was_member_of_household(&k, ZOME, &h(BOB), &h(61), &h(LOREM)), Ok(false));
}

#[test]
fn two_live_claims_are_harmless() {
    let c1 = claim_item(act(63, BOB, 300, ActionContent::Create { entry_type: def(1) }), ADD_BOB, LOREM);
    let c2 = claim_item(act(64, BOB, 301, ActionContent::Create { entry_type: def(1) }), ADD_BOB, LOREM);
    let del = item(act(65, BOB, 302, ActionContent::Delete { deletes_address: h(63) }));
    let k = Known { records: vec![], chains: vec![chain(BOB, 65, vec![del, c2, c1])] };
    assert_eq!(was_member_of_household(&k, ZOME, &h(BOB), &h(65), &h(LOREM)), Ok(true));
}

#[test]
fn zome_lookup_by_name() {
    let names = vec!["a".to_string(), "households_integrity".to_string(), "households_integrity".to_string()];
    assert_eq!(zome_index_of(&names, &"households_integrity".to_string()), Some(1));
    assert_eq!(zome_index_of(&names, &"roles_integrity".to_string()), None);
    let k = scenario_known();
    let r = validate_agent_was_member_of_household_at_the_time(&k, &vec![], &h(ALICE), &h(ADD_BOB), &h(LOREM));
    assert!(is_invalid(&r));
}

#[test]
fn role_claims_are_replayed_like_memberships() {
    let role_def = Some(AppEntryDef { entry_index: 0, zome_index: 1, public: true });
    let grant = act(80, BOB, 100, ActionContent::Create { entry_type: role_def });
    let role_item = ChainItem {
        action: grant,
        entry: Some(EntryValue::RoleClaim(RoleClaim { role: "bookkeeper".to_string() })),
    };
    let del = item(act(81, BOB, 200, ActionContent::Delete { deletes_address: h(80) }));
    let k = Known {
        records: vec![],
        chains: vec![
            KnownChain { agent: h(BOB), chain_top: h(80), claim: EntryKind::RoleClaim, items: vec![role_item.clone()] },
            KnownChain { agent: h(BOB), chain_top: h(81), claim: EntryKind::RoleClaim, items: vec![del, role_item] },
        ],
    };
    let names = vec!["households_integrity".to_string(), "roles_integrity".to_string()];
    let roles = "roles_integrity".to_string();
    let ok = validate_agent_had_undeleted_role_claim_at_the_time(&k, &names, &h(BOB), &h(80), &"bookkeeper".to_string(), &roles);
    assert!(is_valid(&ok));
    let other = validate_agent_had_undeleted_role_claim_at_the_time(&k, &names, &h(BOB), &h(80), &"order_manager".to_string(), &roles);
    assert!(is_invalid(&other));
    let deleted = validate_agent_had_undeleted_role_claim_at_the_time(&k, &names, &h(BOB), &h(81), &"bookkeeper".to_string(), &roles);
    assert!(is_invalid(&deleted));
    let ct = ClaimType { zome_index: 1, entry_index: 0 };
    assert_eq!(held_at(&k, &h(BOB), &h(80), ct, &ClaimTarget::Role("bookkeeper".to_string())), Ok(true));
}

fn reason(r: &Result<ValidateCallbackResult, ValidationError>) -> Option<String> {
    match r {
        Ok(ValidateCallbackResult::Invalid(s)) => Some(s.clone()),
        _ => None,
    }
}

#[test]
fn a_delete_after_the_chain_top_does_not_reach_back() {
    // Bob's walk from his claim holds the claim; the delete he makes later
    // is in the walk from the later action only.
    let k = scenario_known();
    assert_eq!(was_member_of_household(&k, ZOME, &h(BOB), &h(BOB_CLAIM), &h(LOREM)), Ok(true));
    assert_eq!(was_member_of_household(&k, ZOME, &h(BOB), &h(BOB_LATER), &h(LOREM)), Ok(false));
}

#[test]
fn rejections_carry_their_reasons() {
    let k = scenario_known();
    let names = vec!["households_integrity".to_string()];
    let r = validate_agent_was_member_of_household_at_the_time(&k, &names, &h(BOB), &h(BOB_LATER), &h(LOREM));
    assert_eq!(reason(&r).as_deref(), Some("Agent was not a member of the household when they committed the given entry"));
    let r = validate_agent_was_member_of_household_at_the_time(&k, &vec![], &h(BOB), &h(BOB_LATER), &h(LOREM));
    assert_eq!(reason(&r).as_deref(), Some("Unreachable: there is no 'households_integrity' integrity zome in this DNA"));
    let a = act(40, BOB, 800, ActionContent::Update { entry_type: def(1), original_action_address: h(BOB_CLAIM) });
    assert_eq!(
        reason(&validate_update_household_membership_claim(&a, &bob_claim())).as_deref(),
        Some("Household Membership Claims cannot be updated")
    );
    let by_alice = act(42, ALICE, 800, ActionContent::Delete { deletes_address: h(BOB_CLAIM) });
    assert_eq!(
        reason(&validate_delete_household_membership_claim(&by_alice, &bob_claim_action(), &bob_claim())).as_deref(),
        Some("Only the authors of household membership claims can delete them")
    );
    let k2 = Known { records: vec![KnownRecord { action: lorem_creation(), kind: None, entry: None }], chains: vec![] };
    let claim = HouseholdMembershipClaim { member_create_link_hash: h(LOREM), household_hash: h(LOREM) };
    assert_eq!(
        reason(&validate_create_household_membership_claim(&k2, ZOME, &bob_claim_action(), &claim)).as_deref(),
        Some("member_create_link_hash must point to a CreateLink action")
    );
}
