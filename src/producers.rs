//! Validation rules of the producers zome: producers, their products, and
//! the links that index and revise them.
use vstd::prelude::*;
use crate::action::Action;
use crate::entries::{EntryKind, Producer, Product};
use crate::hash::AnyLinkableHash;
use crate::known::{
    accept, and_also, gate, reject, verdict_of, invalid, judge, links_to, spec_links_to, spec_refers_to, followed_by, verdict, Known, Outcome,
    ValidateCallbackResult, ValidationError,
};

verus! {

/// Anyone may add a producer.
pub fn validate_create_producer(_action: &Action, _producer: &Producer) -> (r: Outcome)
    ensures
        verdict_of(r) == accept(),
        judge(r) == Ok::<bool, ValidationError>(true),
{
    Ok(ValidateCallbackResult::Valid)
}

/// Producers may be revised.
pub fn validate_update_producer(_action: &Action, _producer: &Producer, _original_action: &Action, _original_producer: &Producer) -> (r: Outcome)
    ensures
        verdict_of(r) == accept(),
        judge(r) == Ok::<bool, ValidationError>(true),
{
    Ok(ValidateCallbackResult::Valid)
}

/// Producers may be deleted.
pub fn validate_delete_producer(_action: &Action, _original_action: &Action, _original_producer: &Producer) -> (r: Outcome)
    ensures
        verdict_of(r) == accept(),
        judge(r) == Ok::<bool, ValidationError>(true),
{
    Ok(ValidateCallbackResult::Valid)
}

/// A liaison's index of producers may only point at producers.
pub fn validate_create_link_liason_to_producers(k: &Known, _action: &Action, target_address: &AnyLinkableHash) -> (r: Outcome)
    ensures
        verdict_of(r) == gate(spec_links_to(*k, *target_address, EntryKind::Producer), "The target of a LiasonToProducers link must be a producer"@),
        judge(r) == spec_links_to(*k, *target_address, EntryKind::Producer),
{
    verdict(links_to(k, target_address, EntryKind::Producer), "The target of a LiasonToProducers link must be a producer")
}

/// Producers may leave a liaison's index.
pub fn validate_delete_link_liason_to_producers(_action: &Action) -> (r: Outcome)
    ensures
        verdict_of(r) == accept(),
        judge(r) == Ok::<bool, ValidationError>(true),
{
    Ok(ValidateCallbackResult::Valid)
}

/// A revision link of producers must lead from a producer to a producer.
pub fn validate_create_link_producer_updates(k: &Known, _action: &Action, base_address: &AnyLinkableHash, target_address: &AnyLinkableHash) -> (r: Outcome)
    ensures
        verdict_of(r) == and_also(gate(spec_links_to(*k, *base_address, EntryKind::Producer), "The base of a ProducerUpdates link must be a producer"@), gate(spec_links_to(*k, *target_address, EntryKind::Producer), "The target of a ProducerUpdates link must be a producer"@)),
        judge(r) == followed_by(
            spec_links_to(*k, *base_address, EntryKind::Producer),
            spec_links_to(*k, *target_address, EntryKind::Producer),
        ),
{
    let base_ok = links_to(k, base_address, EntryKind::Producer);
    match base_ok {
        Ok(true) => {},
        _ => return verdict(base_ok, "The base of a ProducerUpdates link must be a producer"),
    }
    verdict(links_to(k, target_address, EntryKind::Producer), "The target of a ProducerUpdates link must be a producer")
}

/// Revision links of producers are never deleted.
pub fn validate_delete_link_producer_updates(_action: &Action) -> (r: Outcome)
    ensures
        verdict_of(r) == reject("ProducerUpdates links cannot be deleted"@),
        judge(r) == Ok::<bool, ValidationError>(false),
{
    invalid("ProducerUpdates links cannot be deleted")
}

/// The index of all producers may only point at producers.
pub fn validate_create_link_all_producers(k: &Known, _action: &Action, target_address: &AnyLinkableHash) -> (r: Outcome)
    ensures
        verdict_of(r) == gate(spec_links_to(*k, *target_address, EntryKind::Producer), "The target of an AllProducers link must be a producer"@),
        judge(r) == spec_links_to(*k, *target_address, EntryKind::Producer),
{
    verdict(links_to(k, target_address, EntryKind::Producer), "The target of an AllProducers link must be a producer")
}

/// Producers may leave the index of all producers.
pub fn validate_delete_link_all_producers(_action: &Action) -> (r: Outcome)
    ensures
        verdict_of(r) == accept(),
        judge(r) == Ok::<bool, ValidationError>(true),
{
    Ok(ValidateCallbackResult::Valid)
}

/// A product must refer to a producer.
pub fn validate_create_product(k: &Known, _action: &Action, product: &Product) -> (r: Outcome)
    ensures
        verdict_of(r) == gate(spec_refers_to(*k, product.producer_hash, EntryKind::Producer), "Dependant action must be accompanied by a producer entry"@),
        judge(r) == spec_refers_to(*k, product.producer_hash, EntryKind::Producer),
{
    verdict(
        k.refers_to(&product.producer_hash, EntryKind::Producer),
        "Dependant action must be accompanied by a producer entry",
    )
}

/// Products may be revised.
pub fn validate_update_product(_action: &Action, _product: &Product, _original_action: &Action, _original_product: &Product) -> (r: Outcome)
    ensures
        verdict_of(r) == accept(),
        judge(r) == Ok::<bool, ValidationError>(true),
{
    Ok(ValidateCallbackResult::Valid)
}

/// Products may be deleted.
pub fn validate_delete_product(_action: &Action, _original_action: &Action, _original_product: &Product) -> (r: Outcome)
    ensures
        verdict_of(r) == accept(),
        judge(r) == Ok::<bool, ValidationError>(true),
{
    Ok(ValidateCallbackResult::Valid)
}

/// A link from a producer to one of its products.
pub fn validate_create_link_producer_to_products(k: &Known, _action: &Action, base_address: &AnyLinkableHash, target_address: &AnyLinkableHash) -> (r: Outcome)
    ensures
        verdict_of(r) == and_also(gate(spec_links_to(*k, *base_address, EntryKind::Producer), "The base of a ProducerToProducts link must be a producer"@), gate(spec_links_to(*k, *target_address, EntryKind::Product), "The target of a ProducerToProducts link must be a product"@)),
        judge(r) == followed_by(
            spec_links_to(*k, *base_address, EntryKind::Producer),
            spec_links_to(*k, *target_address, EntryKind::Product),
        ),
{
    let base_ok = links_to(k, base_address, EntryKind::Producer);
    match base_ok {
        Ok(true) => {},
        _ => return verdict(base_ok, "The base of a ProducerToProducts link must be a producer"),
    }
    verdict(links_to(k, target_address, EntryKind::Product), "The target of a ProducerToProducts link must be a product")
}

/// Products may be unlinked from their producer.
pub fn validate_delete_link_producer_to_products(_action: &Action) -> (r: Outcome)
    ensures
        verdict_of(r) == accept(),
        judge(r) == Ok::<bool, ValidationError>(true),
{
    Ok(ValidateCallbackResult::Valid)
}

/// A revision link of products must lead from a product to a product.
pub fn validate_create_link_product_updates(k: &Known, _action: &Action, base_address: &AnyLinkableHash, target_address: &AnyLinkableHash) -> (r: Outcome)
    ensures
        verdict_of(r) == and_also(gate(spec_links_to(*k, *base_address, EntryKind::Product), "The base of a ProductUpdates link must be a product"@), gate(spec_links_to(*k, *target_address, EntryKind::Product), "The target of a ProductUpdates link must be a product"@)),
        judge(r) == followed_by(
            spec_links_to(*k, *base_address, EntryKind::Product),
            spec_links_to(*k, *target_address, EntryKind::Product),
        ),
{
    let base_ok = links_to(k, base_address, EntryKind::Product);
    match base_ok {
        Ok(true) => {},
        _ => return verdict(base_ok, "The base of a ProductUpdates link must be a product"),
    }
    verdict(links_to(k, target_address, EntryKind::Product), "The target of a ProductUpdates link must be a product")
}

/// Revision links of products are never deleted.
pub fn validate_delete_link_product_updates(_action: &Action) -> (r: Outcome)
    ensures
        verdict_of(r) == reject("ProductUpdates links cannot be deleted"@),
        judge(r) == Ok::<bool, ValidationError>(false),
{
    invalid("ProductUpdates links cannot be deleted")
}

} // verus!
