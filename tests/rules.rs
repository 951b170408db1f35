use plenty::action::{Action, ActionContent, AppEntryDef};
use plenty::dispatch::{validate, Op};
use plenty::entries::{
    AvailableProducts, EntryKind, EntryValue, Household, HouseholdMembershipClaim, HouseholdOrder, Order, Producer,
    ProducerInvoice, Product, RoleClaim,
};
use plenty::hash::{AnyLinkableHash, LinkableKind, RawHash};
use plenty::households::{
    validate_create_link_household_to_requestors, validate_create_link_household_updates,
    validate_create_link_requestor_to_households, validate_delete_link_household_to_requestors,
    validate_delete_link_household_updates, validate_delete_link_requestor_to_households, HOUSEHOLD_TO_MEMBERS,
    HOUSEHOLD_TO_REQUESTORS, HOUSEHOLD_UPDATES,
};
use plenty::known::{ChainItem, Known, KnownChain, KnownRecord, ValidateCallbackResult, ValidationError};
use plenty::orders::{
    validate_can_change_available_products, validate_create_household_order, validate_create_link_household_to_household_orders,
    validate_create_order, validate_create_producer_invoice, validate_delete_link_available_products_updates,
    validate_delete_link_household_order_updates, validate_delete_link_order_updates, validate_update_household_order,
    validate_update_producer_delivery,
};
use plenty::producers::{validate_create_product, validate_delete_link_producer_updates, validate_delete_link_product_updates};
use plenty::revisions::{hash_less, latest_revision, links_targeting, newest_link, oldest_delete, Link};
use plenty::entries::ProducerDelivery;
use plenty::lifecycle::{claims_to_retract, plan_member_removal, OwnClaim};
use plenty::orders_dispatch::{validate_orders, AVAILABLE_PRODUCTS_UPDATES, ORDER_TO_PRODUCER_INVOICES};
use plenty::producers_dispatch::{validate_producers, PRODUCER_TO_PRODUCTS, PRODUCT_UPDATES};

const ZOME: u8 = 0;
const ALICE: u8 = 1;
const BOB: u8 = 2;
const EVE: u8 = 5;
const HOME: u8 = 10;

fn h(n: u8) -> RawHash {
    RawHash { bytes: [n; 36] }
}

fn action_link(n: u8) -> AnyLinkableHash {
    AnyLinkableHash { kind: LinkableKind::Action, hash: h(n) }
}

fn agent_link(n: u8) -> AnyLinkableHash {
    AnyLinkableHash { kind: LinkableKind::Entry, hash: h(n) }
}

fn act(hash: u8, author: u8, timestamp: i64, content: ActionContent) -> Action {
    Action { hash: h(hash), author: h(author), timestamp, content }
}

fn entry_def(entry_index: u8, zome_index: u8) -> Option<AppEntryDef> {
    Some(AppEntryDef { entry_index, zome_index, public: true })
}

fn record(hash: u8, kind: EntryKind, entry: EntryValue) -> KnownRecord {
    KnownRecord { action: act(hash, ALICE, 1, ActionContent::Create { entry_type: None }), kind: Some(kind), entry: Some(entry) }
}

fn household(hash: u8) -> KnownRecord {
    record(hash, EntryKind::Household, EntryValue::Household(Household { name: "Lorem".to_string(), avatar: h(50) }))
}

fn empty_chain(agent: u8, top: u8) -> KnownChain {
    KnownChain {
        agent: h(agent),
        chain_top: h(top),
        claim: EntryKind::HouseholdMembershipClaim,
        items: vec![ChainItem { action: act(top, agent, 1, ActionContent::Other), entry: None }],
    }
}

fn is_valid(r: &Result<ValidateCallbackResult, ValidationError>) -> bool {
    matches!(r, Ok(ValidateCallbackResult::Valid))
}

fn is_invalid(r: &Result<ValidateCallbackResult, ValidationError>) -> bool {
    matches!(r, Ok(ValidateCallbackResult::Invalid(_)))
}

#[test]
fn requestor_joins_and_leaves_without_membership() {
    let k = Known { records: vec![household(HOME)], chains: vec![] };
    let a = act(20, BOB, 5, ActionContent::Other);
    assert!(is_valid(&validate_create_link_household_to_requestors(&k, ZOME, &a, &action_link(HOME), &agent_link(BOB))));
    assert!(is_valid(&validate_create_link_requestor_to_households(&k, &a, &agent_link(BOB), &action_link(HOME))));
    assert!(is_valid(&validate_delete_link_household_to_requestors(&k, ZOME, &a, &action_link(HOME), &agent_link(BOB))));
    assert!(is_valid(&validate_delete_link_requestor_to_households(&k, ZOME, &a, &agent_link(BOB), &action_link(HOME))));
}

#[test]
fn third_party_non_member_cannot_touch_requests() {
    let k = Known { records: vec![household(HOME)], chains: vec![empty_chain(EVE, 21)] };
    let a = act(21, EVE, 5, ActionContent::Other);
    assert!(is_invalid(&validate_create_link_household_to_requestors(&k, ZOME, &a, &action_link(HOME), &agent_link(BOB))));
    assert!(is_invalid(&validate_create_link_requestor_to_households(&k, &a, &agent_link(BOB), &action_link(HOME))));
    assert!(is_invalid(&validate_delete_link_household_to_requestors(&k, ZOME, &a, &action_link(HOME), &agent_link(BOB))));
    assert!(is_invalid(&validate_delete_link_requestor_to_households(&k, ZOME, &a, &agent_link(BOB), &action_link(HOME))));
}

#[test]
fn member_may_remove_a_request() {
    let claim_action = act(22, ALICE, 3, ActionContent::Create { entry_type: entry_def(1, ZOME) });
    let chain = KnownChain {
        agent: h(ALICE),
        chain_top: h(23),
        claim: EntryKind::HouseholdMembershipClaim,
        items: vec![
            ChainItem { action: act(23, ALICE, 4, ActionContent::Other), entry: None },
            ChainItem {
                action: claim_action,
                entry: Some(EntryValue::HouseholdMembershipClaim(HouseholdMembershipClaim {
                    member_create_link_hash: h(30),
                    household_hash: h(HOME),
                })),
            },
        ],
    };
    let k = Known { records: vec![household(HOME)], chains: vec![chain] };
    let a = act(23, ALICE, 4, ActionContent::Other);
    assert!(is_valid(&validate_delete_link_household_to_requestors(&k, ZOME, &a, &action_link(HOME), &agent_link(BOB))));
}

#[test]
fn updates_links_are_never_deleted() {
    let a = act(24, ALICE, 5, ActionContent::Other);
    assert!(is_invalid(&validate_delete_link_household_updates(&a)));
    assert!(is_invalid(&validate_delete_link_order_updates(&a)));
    assert!(is_invalid(&validate_delete_link_household_order_updates(&a)));
    assert!(is_invalid(&validate_delete_link_available_products_updates(&a)));
    assert!(is_invalid(&validate_delete_link_producer_updates(&a)));
    assert!(is_invalid(&validate_delete_link_product_updates(&a)));
}

#[test]
fn updates_link_needs_households_at_both_ends() {
    let k = Known { records: vec![household(HOME), household(11)], chains: vec![] };
    let a = act(25, ALICE, 5, ActionContent::Other);
    assert!(is_valid(&validate_create_link_household_updates(&k, &a, &action_link(HOME), &action_link(11))));
    assert!(is_invalid(&validate_create_link_household_updates(&k, &a, &action_link(HOME), &agent_link(11))));
    assert_eq!(
        validate_create_link_household_updates(&k, &a, &action_link(HOME), &action_link(12)).err(),
        Some(ValidationError::RecordUnavailable { hash: h(12), kind: Some(EntryKind::Household) })
    );
    let wrong = Known {
        records: vec![household(HOME), KnownRecord { action: act(11, ALICE, 1, ActionContent::Other), kind: Some(EntryKind::Household), entry: None }],
        chains: vec![],
    };
    assert!(is_invalid(&validate_create_link_household_updates(&wrong, &a, &action_link(HOME), &action_link(11))));
}

#[test]
fn dispatch_routes_link_deletes_by_type() {
    let k = Known { records: vec![household(HOME)], chains: vec![empty_chain(EVE, 26)] };
    let original = act(
        27,
        ALICE,
        1,
        ActionContent::CreateLink {
            base_address: action_link(HOME),
            target_address: action_link(11),
            zome_index: ZOME,
            link_type: HOUSEHOLD_UPDATES,
        },
    );
    let delete = act(26, EVE, 2, ActionContent::DeleteLink { link_add_address: h(27), base_address: action_link(HOME) });
    let op = Op::RegisterDeleteLink { action: delete, original_action: original };
    assert!(is_invalid(&validate(&k, ZOME, &op)));
    let member_link = act(
        28,
        ALICE,
        1,
        ActionContent::CreateLink {
            base_address: action_link(HOME),
            target_address: agent_link(BOB),
            zome_index: ZOME,
            link_type: HOUSEHOLD_TO_MEMBERS,
        },
    );
    let op = Op::RegisterDeleteLink { action: delete, original_action: member_link };
    assert!(is_invalid(&validate(&k, ZOME, &op)));
    let request = act(
        29,
        BOB,
        1,
        ActionContent::CreateLink {
            base_address: action_link(HOME),
            target_address: agent_link(BOB),
            zome_index: ZOME,
            link_type: HOUSEHOLD_TO_REQUESTORS,
        },
    );
    let withdraw = act(31, BOB, 2, ActionContent::DeleteLink { link_add_address: h(29), base_address: action_link(HOME) });
    let op = Op::RegisterDeleteLink { action: withdraw, original_action: request };
    assert!(is_valid(&validate(&k, ZOME, &op)));
}

#[test]
fn dispatch_rejects_claim_updates_and_foreign_deletes() {
    let claim = HouseholdMembershipClaim { member_create_link_hash: h(30), household_hash: h(HOME) };
    let update = act(32, BOB, 3, ActionContent::Update { entry_type: entry_def(1, ZOME), original_action_address: h(33) });
    let k = Known { records: vec![], chains: vec![] };
    let op = Op::RegisterUpdate { action: update, entry: Some(EntryValue::HouseholdMembershipClaim(claim)) };
    assert!(is_invalid(&validate(&k, ZOME, &op)));

    let claim_action = act(33, BOB, 2, ActionContent::Create { entry_type: entry_def(1, ZOME) });
    let k = Known {
        records: vec![KnownRecord {
            action: claim_action,
            kind: Some(EntryKind::HouseholdMembershipClaim),
            entry: Some(EntryValue::HouseholdMembershipClaim(claim)),
        }],
        chains: vec![],
    };
    let by_alice = act(34, ALICE, 4, ActionContent::Delete { deletes_address: h(33) });
    let by_bob = act(35, BOB, 4, ActionContent::Delete { deletes_address: h(33) });
    assert!(is_invalid(&validate(&k, ZOME, &Op::RegisterDelete { action: by_alice })));
    assert!(is_valid(&validate(&k, ZOME, &Op::RegisterDelete { action: by_bob })));
    assert!(is_invalid(&validate(&k, ZOME, &Op::StoreRecord { action: by_alice, entry: None })));
}

#[test]
fn dispatch_checks_new_agents() {
    let pkg = act(36, BOB, 0, ActionContent::AgentValidationPkg);
    let other = act(37, BOB, 0, ActionContent::Other);
    let k = Known {
        records: vec![
            KnownRecord { action: pkg, kind: None, entry: None },
            KnownRecord { action: other, kind: None, entry: None },
        ],
        chains: vec![],
    };
    let agent = act(38, BOB, 1, ActionContent::Create { entry_type: None });
    assert!(is_valid(&validate(&k, ZOME, &Op::RegisterAgentActivity { action: agent, previous: Some(h(36)) })));
    assert!(is_invalid(&validate(&k, ZOME, &Op::RegisterAgentActivity { action: agent, previous: Some(h(37)) })));
}

fn role_chain(agent: u8, top: u8, role: &str) -> KnownChain {
    let grant = act(top, agent, 1, ActionContent::Create { entry_type: entry_def(0, 1) });
    KnownChain {
        agent: h(agent),
        chain_top: h(top),
        claim: EntryKind::RoleClaim,
        items: vec![ChainItem {
            action: grant,
            entry: Some(EntryValue::RoleClaim(RoleClaim { role: role.to_string() })),
        }],
    }
}

fn zome_names() -> Vec<String> {
    vec!["households_integrity".to_string(), "roles_integrity".to_string()]
}

#[test]
fn only_order_managers_open_orders() {
    let k = Known { records: vec![], chains: vec![role_chain(ALICE, 40, "order_manager"), role_chain(BOB, 41, "bookkeeper")] };
    let order = Order { name: "Spring".to_string() };
    let by_alice = act(40, ALICE, 1, ActionContent::Create { entry_type: entry_def(0, 2) });
    let by_bob = act(41, BOB, 1, ActionContent::Create { entry_type: entry_def(0, 2) });
    assert!(is_valid(&validate_create_order(&k, &zome_names(), &by_alice, &order)));
    assert!(is_invalid(&validate_create_order(&k, &zome_names(), &by_bob, &order)));
}

#[test]
fn invoices_need_a_bookkeeper_and_real_references() {
    let order = record(60, EntryKind::Order, EntryValue::Order(Order { name: "Spring".to_string() }));
    let producer = record(61, EntryKind::Producer, EntryValue::Producer(Producer { name: "Farm".to_string(), liason: h(ALICE) }));
    let k = Known { records: vec![order, producer], chains: vec![role_chain(BOB, 42, "bookkeeper"), role_chain(ALICE, 43, "order_manager")] };
    let invoice = ProducerInvoice { order_hash: h(60), producer_hash: h(61), invoice: h(62) };
    let by_bob = act(42, BOB, 1, ActionContent::Other);
    let by_alice = act(43, ALICE, 1, ActionContent::Other);
    assert!(is_valid(&validate_create_producer_invoice(&k, &zome_names(), &by_bob, &invoice)));
    assert!(is_invalid(&validate_create_producer_invoice(&k, &zome_names(), &by_alice, &invoice)));
    let swapped = ProducerInvoice { order_hash: h(61), producer_hash: h(60), invoice: h(62) };
    assert_eq!(
        validate_create_producer_invoice(&k, &zome_names(), &by_bob, &swapped).err(),
        Some(ValidationError::RecordUnavailable { hash: h(61), kind: Some(EntryKind::Order) })
    );
}

#[test]
fn liaison_or_order_manager_changes_offers() {
    let producer = record(61, EntryKind::Producer, EntryValue::Producer(Producer { name: "Farm".to_string(), liason: h(ALICE) }));
    let k = Known { records: vec![producer], chains: vec![role_chain(BOB, 44, "bookkeeper"), role_chain(EVE, 45, "order_manager")] };
    let ap = AvailableProducts { order_hash: h(60), original_producer_hash: h(61), latest_producer_hash: h(61) };
    assert!(is_valid(&validate_can_change_available_products(&k, &zome_names(), &h(ALICE), &h(46), &ap)));
    assert!(is_valid(&validate_can_change_available_products(&k, &zome_names(), &h(EVE), &h(45), &ap)));
    assert!(is_invalid(&validate_can_change_available_products(&k, &zome_names(), &h(BOB), &h(44), &ap)));
}

fn member_chain(agent: u8, top: u8, household: u8) -> KnownChain {
    KnownChain {
        agent: h(agent),
        chain_top: h(top),
        claim: EntryKind::HouseholdMembershipClaim,
        items: vec![ChainItem {
            action: act(top, agent, 1, ActionContent::Create { entry_type: entry_def(1, 0) }),
            entry: Some(EntryValue::HouseholdMembershipClaim(HouseholdMembershipClaim {
                member_create_link_hash: h(30),
                household_hash: h(household),
            })),
        }],
    }
}

#[test]
fn household_orders_need_membership() {
    let order = record(60, EntryKind::Order, EntryValue::Order(Order { name: "Spring".to_string() }));
    let ho = HouseholdOrder { order_hash: h(60), household_hash: h(HOME), products: vec![] };
    let ho_record = record(70, EntryKind::HouseholdOrder, EntryValue::HouseholdOrder(ho.clone()));
    let k = Known {
        records: vec![order, household(HOME), ho_record],
        chains: vec![member_chain(BOB, 47, HOME), empty_chain(EVE, 48)],
    };
    let by_bob = act(47, BOB, 1, ActionContent::Other);
    let by_eve = act(48, EVE, 1, ActionContent::Other);
    assert!(is_valid(&validate_create_household_order(&k, &zome_names(), &by_bob, &ho)));
    assert!(is_invalid(&validate_create_household_order(&k, &zome_names(), &by_eve, &ho)));
    let moved = HouseholdOrder { order_hash: h(60), household_hash: h(11), products: vec![] };
    assert!(is_invalid(&validate_update_household_order(&k, &zome_names(), &by_bob, &moved, &by_bob, &ho)));
    assert!(is_valid(&validate_create_link_household_to_household_orders(&k, &zome_names(), &by_bob, &action_link(HOME), &action_link(70))));
    assert!(is_invalid(&validate_create_link_household_to_household_orders(&k, &zome_names(), &by_eve, &action_link(HOME), &action_link(70))));
}

#[test]
fn deliveries_keep_their_order_and_producer() {
    let a = act(49, BOB, 1, ActionContent::Other);
    let pd = ProducerDelivery { order_hash: h(60), producer_hash: h(61) };
    let moved = ProducerDelivery { order_hash: h(60), producer_hash: h(62) };
    assert!(is_valid(&validate_update_producer_delivery(&a, &pd, &a, &pd)));
    assert!(is_invalid(&validate_update_producer_delivery(&a, &moved, &a, &pd)));
}

#[test]
fn products_need_a_producer() {
    let producer = record(61, EntryKind::Producer, EntryValue::Producer(Producer { name: "Farm".to_string(), liason: h(ALICE) }));
    let k = Known { records: vec![producer, household(HOME)], chains: vec![] };
    let a = act(50, BOB, 1, ActionContent::Other);
    assert!(is_valid(&validate_create_product(&k, &a, &Product { producer_hash: h(61), name: "Kale".to_string() })));
    assert_eq!(
        validate_create_product(&k, &a, &Product { producer_hash: h(HOME), name: "Kale".to_string() }).err(),
        Some(ValidationError::RecordUnavailable { hash: h(HOME), kind: Some(EntryKind::Producer) })
    );
    let not_a_producer = Known {
        records: vec![KnownRecord { action: act(HOME, ALICE, 1, ActionContent::Other), kind: Some(EntryKind::Producer), entry: None }],
        chains: vec![],
    };
    assert!(is_invalid(&validate_create_product(&not_a_producer, &a, &Product { producer_hash: h(HOME), name: "Kale".to_string() })));
}

fn link(target: u8, timestamp: i64, create: u8) -> Link {
    Link { target: action_link(target), timestamp, create_link_hash: h(create) }
}

#[test]
fn latest_revision_is_newest_link_with_hash_tie_break() {
    assert_eq!(latest_revision(&h(1), &vec![]), Some(h(1)));
    let links = vec![link(2, 10, 7), link(3, 30, 5), link(4, 30, 6), link(5, 20, 9)];
    assert_eq!(newest_link(&links), Some(2));
    assert_eq!(latest_revision(&h(1), &links), Some(h(4)));
    let reordered = vec![link(4, 30, 6), link(5, 20, 9), link(3, 30, 5), link(2, 10, 7)];
    assert_eq!(latest_revision(&h(1), &reordered), Some(h(4)));
    let to_agent = vec![Link { target: agent_link(8), timestamp: 1, create_link_hash: h(9) }];
    assert_eq!(latest_revision(&h(1), &to_agent), None);
}

#[test]
fn oldest_delete_is_earliest() {
    assert_eq!(oldest_delete(&vec![]), None);
    let d = |hash: u8, t: i64| act(hash, BOB, t, ActionContent::Delete { deletes_address: h(1) });
    assert_eq!(oldest_delete(&vec![d(9, 50), d(8, 20), d(7, 20), d(6, 40)]), Some(2));
    assert!(hash_less(&h(7), &h(8)));
    assert!(!hash_less(&h(8), &h(8)));
}

#[test]
fn links_to_delete_are_those_at_the_target() {
    let links = vec![link(2, 1, 20), link(3, 1, 21), link(2, 1, 22), Link { target: agent_link(2), timestamp: 1, create_link_hash: h(23) }];
    assert_eq!(links_targeting(&links, &action_link(2)), vec![h(20), h(22)]);
    assert_eq!(links_targeting(&links, &agent_link(2)), vec![h(23)]);
    assert_eq!(links_targeting(&links, &action_link(9)), Vec::<RawHash>::new());
}

#[test]
fn orders_dispatch_routes_entries_and_links() {
    let order = record(60, EntryKind::Order, EntryValue::Order(Order { name: "Spring".to_string() }));
    let invoice = record(63, EntryKind::ProducerInvoice, EntryValue::ProducerInvoice(ProducerInvoice { order_hash: h(60), producer_hash: h(61), invoice: h(62) }));
    let k = Known {
        records: vec![order, invoice],
        chains: vec![role_chain(ALICE, 51, "order_manager"), role_chain(BOB, 52, "bookkeeper"), role_chain(EVE, 53, "bookkeeper")],
    };
    let names = zome_names();
    let create_order = act(51, ALICE, 1, ActionContent::Create { entry_type: entry_def(0, 2) });
    let op = Op::StoreEntry { action: create_order, entry: Some(EntryValue::Order(Order { name: "Spring".to_string() })) };
    assert!(is_valid(&validate_orders(&k, &names, 2, &op)));
    let by_bob = act(52, BOB, 1, ActionContent::Create { entry_type: entry_def(0, 2) });
    let op = Op::StoreEntry { action: by_bob, entry: Some(EntryValue::Order(Order { name: "Spring".to_string() })) };
    assert!(is_invalid(&validate_orders(&k, &names, 2, &op)));
    let link = act(
        52,
        BOB,
        1,
        ActionContent::CreateLink {
            base_address: action_link(60),
            target_address: action_link(63),
            zome_index: 2,
            link_type: ORDER_TO_PRODUCER_INVOICES,
        },
    );
    assert!(is_valid(&validate_orders(&k, &names, 2, &Op::RegisterCreateLink { action: link })));
    let updates = act(
        54,
        ALICE,
        1,
        ActionContent::CreateLink {
            base_address: action_link(70),
            target_address: action_link(71),
            zome_index: 2,
            link_type: AVAILABLE_PRODUCTS_UPDATES,
        },
    );
    let removal = act(55, ALICE, 2, ActionContent::DeleteLink { link_add_address: h(54), base_address: action_link(70) });
    let op = Op::RegisterDeleteLink { action: removal, original_action: updates };
    assert!(is_invalid(&validate_orders(&k, &names, 2, &op)));
}

#[test]
fn orders_dispatch_checks_updates_against_the_original() {
    let original = ProducerInvoice { order_hash: h(60), producer_hash: h(61), invoice: h(62) };
    let original_record = KnownRecord {
        action: act(63, BOB, 1, ActionContent::Create { entry_type: entry_def(3, 2) }),
        kind: Some(EntryKind::ProducerInvoice),
        entry: Some(EntryValue::ProducerInvoice(original)),
    };
    let k = Known { records: vec![original_record], chains: vec![role_chain(BOB, 64, "bookkeeper")] };
    let update = act(64, BOB, 2, ActionContent::Update { entry_type: entry_def(3, 2), original_action_address: h(63) });
    let same = ProducerInvoice { order_hash: h(60), producer_hash: h(61), invoice: h(65) };
    let moved = ProducerInvoice { order_hash: h(66), producer_hash: h(61), invoice: h(65) };
    let names = zome_names();
    let op = Op::RegisterUpdate { action: update, entry: Some(EntryValue::ProducerInvoice(same)) };
    assert!(is_valid(&validate_orders(&k, &names, 2, &op)));
    let op = Op::RegisterUpdate { action: update, entry: Some(EntryValue::ProducerInvoice(moved)) };
    assert!(is_invalid(&validate_orders(&k, &names, 2, &op)));
}

#[test]
fn producers_dispatch_keeps_revision_links() {
    let k = Known { records: vec![], chains: vec![] };
    let mk = |t: u8| act(56, ALICE, 1, ActionContent::CreateLink { base_address: action_link(61), target_address: action_link(67), zome_index: 3, link_type: t });
    let removal = act(57, ALICE, 2, ActionContent::DeleteLink { link_add_address: h(56), base_address: action_link(61) });
    assert!(is_invalid(&validate_producers(&k, 3, &Op::RegisterDeleteLink { action: removal, original_action: mk(PRODUCT_UPDATES) })));
    assert!(is_valid(&validate_producers(&k, 3, &Op::RegisterDeleteLink { action: removal, original_action: mk(PRODUCER_TO_PRODUCTS) })));
}

#[test]
fn households_dispatch_accepts_a_grounded_claim() {
    let add_bob = act(
        80,
        ALICE,
        1,
        ActionContent::CreateLink {
            base_address: action_link(HOME),
            target_address: agent_link(BOB),
            zome_index: ZOME,
            link_type: HOUSEHOLD_TO_MEMBERS,
        },
    );
    let k = Known { records: vec![KnownRecord { action: add_bob, kind: None, entry: None }], chains: vec![] };
    let claim = HouseholdMembershipClaim { member_create_link_hash: h(80), household_hash: h(HOME) };
    let create = act(81, BOB, 2, ActionContent::Create { entry_type: entry_def(1, ZOME) });
    let op = Op::StoreEntry { action: create, entry: Some(EntryValue::HouseholdMembershipClaim(claim)) };
    assert!(is_valid(&validate(&k, ZOME, &op)));
    let by_carol = act(82, 3, 2, ActionContent::Create { entry_type: entry_def(1, ZOME) });
    let op = Op::StoreRecord { action: by_carol, entry: Some(EntryValue::HouseholdMembershipClaim(claim)) };
    assert!(is_invalid(&validate(&k, ZOME, &op)));
}

#[test]
fn last_member_leaving_archives_the_household() {
    let member = |t: u8, c: u8| Link { target: agent_link(t), timestamp: 1, create_link_hash: h(c) };
    let plan = plan_member_removal(&vec![member(BOB, 90)], &h(BOB)).unwrap();
    assert_eq!(plan.delete_links, vec![h(90)]);
    assert!(plan.archive_household);
    let plan = plan_member_removal(&vec![member(ALICE, 91), member(BOB, 92), member(BOB, 93)], &h(BOB)).unwrap();
    assert_eq!(plan.delete_links, vec![h(92), h(93)]);
    assert!(!plan.archive_household);
    let plan = plan_member_removal(&vec![], &h(BOB)).unwrap();
    assert!(plan.delete_links.is_empty());
    assert!(!plan.archive_household);
    assert!(plan_member_removal(&vec![member(ALICE, 91), link(HOME, 1, 94)], &h(BOB)).is_none());
}

#[test]
fn leaving_retracts_only_that_households_claims() {
    let claim = |a: u8, household: u8| OwnClaim {
        action_hash: h(a),
        claim: HouseholdMembershipClaim { member_create_link_hash: h(30), household_hash: h(household) },
    };
    let claims = vec![claim(95, HOME), claim(96, 11), claim(97, HOME)];
    assert_eq!(claims_to_retract(&claims, &h(HOME)), vec![h(95), h(97)]);
    assert!(claims_to_retract(&claims, &h(12)).is_empty());
}

fn reason(r: &Result<ValidateCallbackResult, ValidationError>) -> Option<String> {
    match r {
        Ok(ValidateCallbackResult::Invalid(s)) => Some(s.clone()),
        _ => None,
    }
}

#[test]
fn rule_rejections_carry_their_reasons() {
    let a = act(24, ALICE, 5, ActionContent::Other);
    assert_eq!(reason(&validate_delete_link_household_updates(&a)).as_deref(), Some("HouseholdUpdates links cannot be deleted"));
    assert_eq!(reason(&validate_delete_link_order_updates(&a)).as_deref(), Some("OrderUpdates links cannot be deleted"));
    assert_eq!(
        reason(&validate_delete_link_household_order_updates(&a)).as_deref(),
        Some("HouseholdOrderUpdates links cannot be deleted")
    );
    assert_eq!(reason(&validate_delete_link_producer_updates(&a)).as_deref(), Some("ProducerUpdates links cannot be deleted"));
    assert_eq!(reason(&validate_delete_link_product_updates(&a)).as_deref(), Some("ProductUpdates links cannot be deleted"));
    let k = Known { records: vec![household(HOME)], chains: vec![empty_chain(EVE, 21)] };
    let eve = act(21, EVE, 5, ActionContent::Other);
    assert_eq!(
        reason(&validate_delete_link_household_to_requestors(&k, ZOME, &eve, &action_link(HOME), &agent_link(BOB))).as_deref(),
        Some("Only members of households can remove join household requests")
    );
    assert_eq!(
        reason(&validate_create_link_requestor_to_households(&k, &eve, &agent_link(BOB), &action_link(HOME))).as_deref(),
        Some("The author of a RequestorToHouseholds link must be the base address for that link")
    );
}

#[test]
fn role_and_membership_rejections_are_handed_on() {
    let order = record(60, EntryKind::Order, EntryValue::Order(Order { name: "Spring".to_string() }));
    let producer = record(61, EntryKind::Producer, EntryValue::Producer(Producer { name: "Farm".to_string(), liason: h(ALICE) }));
    let ho = HouseholdOrder { order_hash: h(60), household_hash: h(HOME), products: vec![] };
    let k = Known {
        records: vec![order, producer, household(HOME)],
        chains: vec![role_chain(ALICE, 43, "order_manager"), empty_chain(EVE, 48)],
    };
    let by_alice = act(43, ALICE, 1, ActionContent::Other);
    let invoice = ProducerInvoice { order_hash: h(60), producer_hash: h(61), invoice: h(62) };
    assert_eq!(
        reason(&validate_create_producer_invoice(&k, &zome_names(), &by_alice, &invoice)).as_deref(),
        Some("Agent did not hold the required role when they committed the given action")
    );
    let by_eve = act(48, EVE, 1, ActionContent::Other);
    assert_eq!(
        reason(&validate_create_household_order(&k, &zome_names(), &by_eve, &ho)).as_deref(),
        Some("Agent was not a member of the household when they committed the given entry")
    );
}
