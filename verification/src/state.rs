//! The persistent store of the ledger: one owner record, one fee
//! accumulator and one balance per address, kept in a
//! `cosmwasm_std::MemoryStorage` through the typed handles of
//! `cw_storage_plus`.
//!
//! The store itself is opaque to the verifier. Three names say what it
//! holds, and each function of this module states, without proof, what one
//! call into `cw_storage_plus` returns or changes in terms of those names.
//! The owner record lies under the key `state`, the fee accumulator under
//! `fee`, and the balance of an address under the namespace `amount`
//! followed by the address; no two of these keys coincide.

use vstd::prelude::*;
use cosmwasm_std::{MemoryStorage, StdError};
use crate::ledger::Ledger;

verus! {

/// The record of who owns the ledger.
#[derive(Clone, Debug, PartialEq, Eq)]
pub struct State {
    pub owner: String,
}

/// The in-memory key-value store of `cosmwasm_std`. Opaque here: what it
/// holds is spoken of through [`stored_owner`], [`stored_fee`] and
/// [`stored_amounts`].
#[verifier::external_type_specification]
#[verifier::external_body]
pub struct ExMemoryStorage(cosmwasm_std::MemoryStorage);

/// The owner that the store holds under the key `state`: `None` where the
/// key is absent or its bytes do not read as an address.
pub uninterp spec fn stored_owner(store: MemoryStorage) -> Option<Seq<char>>;

/// The fee total that the store holds under the key `fee`: `None` where the
/// key is absent or its bytes do not read as an amount.
pub uninterp spec fn stored_fee(store: MemoryStorage) -> Option<u128>;

/// The balance entries that the store holds under the namespace `amount`:
/// each address that has an entry, with the amount that the entry reads as,
/// or `None` where its bytes do not read as an amount.
pub uninterp spec fn stored_amounts(store: MemoryStorage) -> Map<Seq<char>, Option<u128>>;

/// The store read as a ledger.
pub open spec fn ledger_of(store: MemoryStorage) -> Ledger {
    Ledger {
        owner: stored_owner(store),
        fee: stored_fee(store),
        amounts: stored_amounts(store),
    }
}

/// `cw_storage_plus::Item::load` on the owner record: the address under the
/// key `state`, or an error where there is none to read.
#[verifier::external_body]
pub(crate) fn load_owner(store: &MemoryStorage) -> (r: Result<String, StdError>)
    ensures
        match r {
            Ok(owner) => stored_owner(*store) == Some(owner@),
            Err(_) => stored_owner(*store) is None,
        },
{
    cw_storage_plus::Item::<cosmwasm_std::Addr>::new("state").load(store).map(
        cosmwasm_std::Addr::into_string,
    )
}

/// `cw_storage_plus::Item::save` on the owner record: writes `owner` under
/// the key `state` and touches no other key. Writing an address does not
/// fail.
#[verifier::external_body]
pub(crate) fn save_owner(store: &mut MemoryStorage, owner: &String) -> (r: Result<(), StdError>)
    ensures
        r is Ok,
        stored_owner(*final(store)) == Some(owner@),
        stored_fee(*final(store)) == stored_fee(*old(store)),
        stored_amounts(*final(store)) == stored_amounts(*old(store)),
{
    cw_storage_plus::Item::<cosmwasm_std::Addr>::new("state").save(
        store,
        &cosmwasm_std::Addr::unchecked(owner.as_str()),
    )
}

/// `cw_storage_plus::Item::load` on the fee accumulator: the amount under
/// the key `fee`, or an error where there is none to read.
#[verifier::external_body]
pub(crate) fn load_fee(store: &MemoryStorage) -> (r: Result<u128, StdError>)
    ensures
        match r {
            Ok(fee) => stored_fee(*store) == Some(fee),
            Err(_) => stored_fee(*store) is None,
        },
{
    cw_storage_plus::Item::<u128>::new("fee").load(store)
}

/// `cw_storage_plus::Item::save` on the fee accumulator: writes `fee` under
/// the key `fee` and touches no other key. Writing an amount does not fail.
#[verifier::external_body]
pub(crate) fn save_fee(store: &mut MemoryStorage, fee: u128) -> (r: Result<(), StdError>)
    ensures
        r is Ok,
        stored_fee(*final(store)) == Some(fee),
        stored_owner(*final(store)) == stored_owner(*old(store)),
        stored_amounts(*final(store)) == stored_amounts(*old(store)),
{
    cw_storage_plus::Item::<u128>::new("fee").save(store, &fee)
}

/// `cw_storage_plus::Map::load` on the balances: the amount in the entry of
/// `address`, or an error where the entry is absent or cannot be read.
#[verifier::external_body]
pub(crate) fn load_amount(store: &MemoryStorage, address: &String) -> (r: Result<u128, StdError>)
    ensures
        match r {
            Ok(amount) => stored_amounts(*store).contains_key(address@) && stored_amounts(
                *store,
            )[address@] == Some(amount),
            Err(_) => !(stored_amounts(*store).contains_key(address@) && stored_amounts(
                *store,
            )[address@] is Some),
        },
{
    cw_storage_plus::Map::<cosmwasm_std::Addr, u128>::new("amount").load(
        store,
        cosmwasm_std::Addr::unchecked(address.as_str()),
    )
}

/// `cw_storage_plus::Map::may_load` on the balances: the amount in the
/// entry of `address`, `None` where it has no entry, or an error where the
/// entry cannot be read.
#[verifier::external_body]
pub(crate) fn may_load_amount(store: &MemoryStorage, address: &String) -> (r: Result<
    Option<u128>,
    StdError,
>)
    ensures
        match r {
            Ok(Some(amount)) => stored_amounts(*store).contains_key(address@) && stored_amounts(
                *store,
            )[address@] == Some(amount),
            Ok(None) => !stored_amounts(*store).contains_key(address@),
            Err(_) => stored_amounts(*store).contains_key(address@) && stored_amounts(
                *store,
            )[address@] is None,
        },
{
    cw_storage_plus::Map::<cosmwasm_std::Addr, u128>::new("amount").may_load(
        store,
        cosmwasm_std::Addr::unchecked(address.as_str()),
    )
}

/// `cw_storage_plus::Map::save` on the balances: writes `amount` as the
/// entry of `address` and touches no other key. Writing an amount does not
/// fail.
#[verifier::external_body]
pub(crate) fn save_amount(store: &mut MemoryStorage, address: &String, amount: u128) -> (r:
    Result<(), StdError>)
    ensures
        r is Ok,
        stored_amounts(*final(store)) == stored_amounts(*old(store)).insert(
            address@,
            Some(amount),
        ),
        stored_owner(*final(store)) == stored_owner(*old(store)),
        stored_fee(*final(store)) == stored_fee(*old(store)),
{
    cw_storage_plus::Map::<cosmwasm_std::Addr, u128>::new("amount").save(
        store,
        cosmwasm_std::Addr::unchecked(address.as_str()),
        &amount,
    )
}

/// `cw_storage_plus::Map::remove` on the balances: drops the entry of
/// `address`, if there is one, and touches no other key.
#[verifier::external_body]
pub(crate) fn remove_amount(store: &mut MemoryStorage, address: &String)
    ensures
        stored_amounts(*final(store)) == stored_amounts(*old(store)).remove(address@),
        stored_owner(*final(store)) == stored_owner(*old(store)),
        stored_fee(*final(store)) == stored_fee(*old(store)),
{
    cw_storage_plus::Map::<cosmwasm_std::Addr, u128>::new("amount").remove(
        store,
        cosmwasm_std::Addr::unchecked(address.as_str()),
    )
}

/// `cw2::set_contract_version`: writes the ledger's name and version under
/// the key `contract_info` and touches no key of the ledger. Writing two
/// strings does not fail.
#[verifier::external_body]
pub(crate) fn set_contract_version(store: &mut MemoryStorage, name: &str, version: &str) -> (r:
    Result<(), StdError>)
    ensures
        r is Ok,
        ledger_of(*final(store)) == ledger_of(*old(store)),
{
    cw2::set_contract_version(store, name, version)
}

} // verus!
