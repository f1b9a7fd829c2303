//! The calls that the ledger answers: setting it up, the three calls that
//! change it, and the two that read it.
//!
//! Each handler reads everything it needs before it writes anything, so a
//! call that is refused leaves the store as it found it.

use vstd::prelude::*;
use vstd::string::StringExecFns;
use cosmwasm_std::{MemoryStorage, StdError};
use crate::error::{ContractError, ErrorView};
use crate::helpers::validate_and_extract_coin;
use crate::ledger;
use crate::ledger::{Ledger, Outcome, FUND_DENOM};
use crate::msg::{
    coin,
    coins_view,
    Coin,
    ExecuteMsg,
    InstantiateMsg,
    MessageInfo,
    QueryMsg,
    QueryResponse,
    QueryResponseView,
};
use crate::response::{BankMsg, Response};
use crate::state::{
    ledger_of,
    load_amount,
    load_fee,
    load_owner,
    may_load_amount,
    remove_amount,
    save_amount,
    save_fee,
    save_owner,
    set_contract_version,
    State,
};

verus! {

/// The name under which the ledger records its version.
pub const CONTRACT_NAME: &'static str = "crates.io:split-transfer";

/// The version that the ledger records.
pub const CONTRACT_VERSION: &'static str = "0.1.0";

/// Whether a call that took the ledger from `before` to `after` and
/// returned `result` did what `expected` asks: the ledger is the expected one
/// where the call was to go through and as before where it was to be
/// refused, and the response or the error is the expected one.
pub open spec fn handled(
    before: Ledger,
    after: Ledger,
    result: Result<Response, ContractError>,
    expected: Outcome,
) -> bool {
    &&& after == ledger::ledger_after(before, expected)
    &&& match expected {
        Ok((_, response)) => result matches Ok(r) && r@ == response,
        Err(error) => result matches Err(e) && e@ == error,
    }
}

/// What [`execute`] makes of a ledger.
pub open spec fn execute_outcome(ledger: Ledger, info: MessageInfo, msg: ExecuteMsg) -> Outcome {
    match msg {
        ExecuteMsg::Split { recipient1, recipient2 } => ledger::split(
            ledger,
            coins_view(info.funds@),
            recipient1@,
            recipient2@,
        ),
        ExecuteMsg::Withdraw { quantity } => ledger::withdraw(ledger, info.sender@, quantity),
        ExecuteMsg::WithdrawFees {  } => ledger::withdraw_fees(ledger, info.sender@),
    }
}

/// Whether [`execute`] stays within what the store's amounts can hold: true
/// of every call but a split that would take the fee accumulator or a
/// balance past the largest amount.
pub open spec fn execute_fits(ledger: Ledger, info: MessageInfo, msg: ExecuteMsg) -> bool {
    match msg {
        ExecuteMsg::Split { recipient1, recipient2 } => ledger::split_fits(
            ledger,
            coins_view(info.funds@),
            recipient1@,
            recipient2@,
        ),
        _ => true,
    }
}

/// What [`query`] reads from a ledger.
pub open spec fn query_outcome(ledger: Ledger, msg: QueryMsg) -> Result<
    QueryResponseView,
    ErrorView,
> {
    match msg {
        QueryMsg::OwnerQuery {  } => ledger::query_owner(ledger),
        QueryMsg::WithdrawableAmount { address } => ledger::query_withdrawable(ledger, address@),
    }
}

/// Sets the ledger up: records its version, makes the caller its owner and
/// starts the fee accumulator at zero. Always succeeds; the response names
/// the method and the owner and holds no transfer.
pub fn instantiate(store: &mut MemoryStorage, info: MessageInfo, _msg: InstantiateMsg) -> (r: Result<
    Response,
    ContractError,
>)
    ensures
        r is Ok,
        handled(
            ledger_of(*old(store)),
            ledger_of(*final(store)),
            r,
            ledger::instantiate(ledger_of(*old(store)), info.sender@),
        ),
{
    match set_contract_version(store, CONTRACT_NAME, CONTRACT_VERSION) {
        Ok(()) => {},
        Err(e) => {
            return Err(ContractError::Std(e));
        },
    }
    match save_owner(store, &info.sender) {
        Ok(()) => {},
        Err(e) => {
            return Err(ContractError::Std(e));
        },
    }
    match save_fee(store, 0) {
        Ok(()) => {},
        Err(e) => {
            return Err(ContractError::Std(e));
        },
    }
    let response = Response::new().add_attribute(
        String::from_str("method"),
        String::from_str("instantiate"),
    ).add_attribute(String::from_str("owner"), info.sender);
    assert(response@.attributes =~= seq![
        ledger::attribute("method"@, "instantiate"@),
        ledger::attribute("owner"@, info.sender@),
    ]);
    Ok(response)
}

/// Carries out `msg` for the caller named in `info`: see
/// [`ledger::split`], [`ledger::withdraw`] and [`ledger::withdraw_fees`]
/// for what each message does.
pub fn execute(store: &mut MemoryStorage, info: MessageInfo, msg: ExecuteMsg) -> (r: Result<
    Response,
    ContractError,
>)
    requires
        execute_fits(ledger_of(*old(store)), info, msg),
    ensures
        handled(
            ledger_of(*old(store)),
            ledger_of(*final(store)),
            r,
            execute_outcome(ledger_of(*old(store)), info, msg),
        ),
{
    match msg {
        ExecuteMsg::Split { recipient1, recipient2 } => split(store, info, recipient1, recipient2),
        ExecuteMsg::Withdraw { quantity } => withdraw(store, info, quantity),
        ExecuteMsg::WithdrawFees {  } => withdraw_fees(store, info),
    }
}

/// [`execute`] for a caller that cannot know what the store holds: carries
/// `msg` out as [`execute`] does wherever that stays within what the store's
/// amounts can hold, and otherwise returns `None` and leaves the store as it
/// is.
pub fn execute_checked(store: &mut MemoryStorage, info: MessageInfo, msg: ExecuteMsg) -> (r: Option<
    Result<Response, ContractError>,
>)
    ensures
        match r {
            Some(result) => execute_fits(ledger_of(*old(store)), info, msg) && handled(
                ledger_of(*old(store)),
                ledger_of(*final(store)),
                result,
                execute_outcome(ledger_of(*old(store)), info, msg),
            ),
            None => !execute_fits(ledger_of(*old(store)), info, msg) && ledger_of(*final(store))
                == ledger_of(*old(store)),
        },
{
    let fits = match &msg {
        ExecuteMsg::Split { recipient1, recipient2 } => split_fits(
            store,
            info.funds.as_slice(),
            recipient1,
            recipient2,
        ),
        _ => true,
    };
    if fits {
        Some(execute(store, info, msg))
    } else {
        None
    }
}

/// Whether a split of `funds` between the two recipients stays within what
/// the fee accumulator and the two balances can hold.
pub fn split_fits(store: &MemoryStorage, funds: &[Coin], recipient1: &String, recipient2: &String)
    -> (fits: bool)
    ensures
        fits == ledger::split_fits(
            ledger_of(*store),
            coins_view(funds@),
            recipient1@,
            recipient2@,
        ),
{
    let sent_coin = match validate_and_extract_coin(funds) {
        Ok(c) => c,
        Err(_) => {
            return true;
        },
    };
    let collected: u128 = match load_fee(store) {
        Ok(f) => f,
        Err(_) => {
            return true;
        },
    };
    let balance1: u128 = match may_load_amount(store, recipient1) {
        Ok(Some(b)) => b,
        Ok(None) => 0,
        Err(_) => {
            return true;
        },
    };
    let balance2: u128 = match may_load_amount(store, recipient2) {
        Ok(Some(b)) => b,
        Ok(None) => 0,
        Err(_) => {
            return true;
        },
    };
    let fee: u128 = sent_coin.amount / 100;
    let split_amount: u128 = (sent_coin.amount - fee) / 2;
    if collected > u128::MAX - fee || balance1 > u128::MAX - split_amount {
        return false;
    }
    let before2: u128 = if *recipient1 == *recipient2 {
        balance1 + split_amount
    } else {
        balance2
    };
    before2 <= u128::MAX - split_amount
}

/// Splits the payment in `info` between the two recipients: a hundredth of
/// it, rounded down, is added to the fee accumulator, and half of the rest,
/// rounded down, to the balance of each recipient, a recipient without an
/// entry starting from zero. Refused with the error of
/// [`validate_and_extract_coin`] where the payment is not one coin of the
/// accepted denomination, and with `Std` where the fee accumulator or a
/// recipient's entry cannot be read. Nothing is paid out.
pub fn split(store: &mut MemoryStorage, info: MessageInfo, recipient1: String, recipient2: String)
    -> (r: Result<Response, ContractError>)
    requires
        ledger::split_fits(
            ledger_of(*old(store)),
            coins_view(info.funds@),
            recipient1@,
            recipient2@,
        ),
    ensures
        handled(
            ledger_of(*old(store)),
            ledger_of(*final(store)),
            r,
            ledger::split(
                ledger_of(*old(store)),
                coins_view(info.funds@),
                recipient1@,
                recipient2@,
            ),
        ),
{
    let sent_coin = match validate_and_extract_coin(info.funds.as_slice()) {
        Ok(c) => c,
        Err(e) => {
            return Err(e);
        },
    };
    let fee: u128 = sent_coin.amount / 100;
    let split_amount: u128 = (sent_coin.amount - fee) / 2;

    let collected: u128 = match load_fee(store) {
        Ok(f) => f,
        Err(e) => {
            return Err(ContractError::Std(e));
        },
    };
    let balance1: u128 = match may_load_amount(store, &recipient1) {
        Ok(Some(b)) => b,
        Ok(None) => 0,
        Err(e) => {
            return Err(ContractError::Std(e));
        },
    };
    let balance2: u128 = match may_load_amount(store, &recipient2) {
        Ok(Some(b)) => b,
        Ok(None) => 0,
        Err(e) => {
            return Err(ContractError::Std(e));
        },
    };

    match save_fee(store, collected + fee) {
        Ok(()) => {},
        Err(e) => {
            return Err(ContractError::Std(e));
        },
    }
    let credited1: u128 = balance1 + split_amount;
    match save_amount(store, &recipient1, credited1) {
        Ok(()) => {},
        Err(e) => {
            return Err(ContractError::Std(e));
        },
    }
    let before2: u128 = if recipient1 == recipient2 {
        credited1
    } else {
        balance2
    };
    match save_amount(store, &recipient2, before2 + split_amount) {
        Ok(()) => {},
        Err(e) => {
            return Err(ContractError::Std(e));
        },
    }
    Ok(Response::new().add_attribute(String::from_str("method"), String::from_str("split")))
}

/// Pays the collected fees out to the owner and starts the accumulator
/// again at zero. Refused with `NotOwner` where the caller is not the
/// owner, and with `Std` where the owner record or the accumulator cannot
/// be read.
pub fn withdraw_fees(store: &mut MemoryStorage, info: MessageInfo) -> (r: Result<
    Response,
    ContractError,
>)
    ensures
        handled(
            ledger_of(*old(store)),
            ledger_of(*final(store)),
            r,
            ledger::withdraw_fees(ledger_of(*old(store)), info.sender@),
        ),
{
    let owner = match load_owner(store) {
        Ok(o) => o,
        Err(e) => {
            return Err(ContractError::Std(e));
        },
    };
    if info.sender != owner {
        return Err(ContractError::NotOwner {  });
    }
    let amount: u128 = match load_fee(store) {
        Ok(f) => f,
        Err(e) => {
            return Err(ContractError::Std(e));
        },
    };
    match save_fee(store, 0) {
        Ok(()) => {},
        Err(e) => {
            return Err(ContractError::Std(e));
        },
    }
    Ok(send_tokens(info.sender, one_coin(amount), "withdraw"))
}

/// Pays out of the caller's balance. With a quantity, that much is paid and
/// the balance is lowered by it, the entry staying even at zero; a quantity
/// above the balance is refused with `ExceededQuantity`. Without one, the
/// whole balance is paid and the entry is removed. Refused with `Std` where
/// the caller has no entry or it cannot be read.
pub fn withdraw(store: &mut MemoryStorage, info: MessageInfo, quantity: Option<u128>) -> (r:
    Result<Response, ContractError>)
    ensures
        handled(
            ledger_of(*old(store)),
            ledger_of(*final(store)),
            r,
            ledger::withdraw(ledger_of(*old(store)), info.sender@, quantity),
        ),
{
    let amount: u128 = match load_amount(store, &info.sender) {
        Ok(a) => a,
        Err(e) => {
            return Err(ContractError::Std(e));
        },
    };
    if let Some(quantity) = quantity {
        if quantity > amount {
            Err(ContractError::ExceededQuantity {  })
        } else {
            match save_amount(store, &info.sender, amount - quantity) {
                Ok(()) => {},
                Err(e) => {
                    return Err(ContractError::Std(e));
                },
            }
            Ok(send_tokens(info.sender, one_coin(quantity), "withdraw"))
        }
    } else {
        remove_amount(store, &info.sender);
        Ok(send_tokens(info.sender, one_coin(amount), "withdraw"))
    }
}

/// `amount` of the accepted denomination, as the one coin of a transfer.
fn one_coin(amount: u128) -> (coins: Vec<Coin>)
    ensures
        coins_view(coins@) == seq![ledger::fund_coin(amount)],
{
    let coins = vec![coin(amount, FUND_DENOM)];
    assert(coins_view(coins@) =~= seq![ledger::fund_coin(amount)]);
    coins
}

/// The response that tells the host to send `amount` to `to_address`: one
/// transfer, and the attributes `action` and `to`.
pub fn send_tokens(to_address: String, amount: Vec<Coin>, action: &str) -> (response: Response)
    ensures
        response@ == ledger::payout(to_address@, coins_view(amount@), action@),
{
    Response::new().add_message(BankMsg::Send { to_address: to_address.clone(), amount })
        .add_attribute(String::from_str("action"), String::from_str(action)).add_attribute(
        String::from_str("to"),
        to_address,
    )
}

/// Answers `msg` from the store, which it does not change: the owner, or
/// what an address may withdraw.
pub fn query(store: &MemoryStorage, msg: QueryMsg) -> (r: Result<QueryResponse, StdError>)
    ensures
        match query_outcome(ledger_of(*store), msg) {
            Ok(answer) => r matches Ok(a) && a@ == answer,
            Err(_) => r is Err,
        },
{
    match msg {
        QueryMsg::OwnerQuery {  } => match query_state(store) {
            Ok(state) => Ok(QueryResponse::Owner(state)),
            Err(e) => Err(e),
        },
        QueryMsg::WithdrawableAmount { address } => match withdrawable_amount(store, address) {
            Ok(amount) => Ok(QueryResponse::WithdrawableAmount(amount)),
            Err(e) => Err(e),
        },
    }
}

/// The owner record, or an error where it cannot be read.
pub fn query_state(store: &MemoryStorage) -> (r: Result<State, StdError>)
    ensures
        match ledger_of(*store).owner {
            Some(owner) => r matches Ok(state) && state.owner@ == owner,
            None => r is Err,
        },
{
    match load_owner(store) {
        Ok(owner) => Ok(State { owner }),
        Err(e) => Err(e),
    }
}

/// What `address` may withdraw: its balance, and zero where it has no
/// entry; an error only where its entry cannot be read.
pub fn withdrawable_amount(store: &MemoryStorage, address: String) -> (r: Result<u128, StdError>)
    ensures
        match r {
            Ok(amount) => ledger::readable(ledger_of(*store).amounts, address@)
                && amount == ledger::balance_of(ledger_of(*store).amounts, address@),
            Err(_) => !ledger::readable(ledger_of(*store).amounts, address@),
        },
{
    match may_load_amount(store, &address) {
        Ok(Some(amount)) => Ok(amount),
        Ok(None) => Ok(0),
        Err(e) => Err(e),
    }
}

} // verus!
