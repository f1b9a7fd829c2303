//! The ledger as a mathematical value, and what each call makes of it.
//!
//! The handlers in [`crate::contract`] are specified against the functions
//! of this module: each takes the ledger before a call and gives either the
//! ledger after it with the response, or the error.

use vstd::prelude::*;
use crate::error::ErrorView;
use crate::msg::{CoinView, QueryResponseView};
use crate::response::{AttributeView, BankMsgView, ResponseView};

verus! {

/// The only denomination in which payments are accepted and made.
pub const FUND_DENOM: &'static str = "usei";

/// What the store holds, read as a ledger.
#[verifier::ext_equal]
pub struct Ledger {
    /// The owner record, if one is stored and readable.
    pub owner: Option<Seq<char>>,
    /// The fees collected and not yet withdrawn, if the accumulator is
    /// stored and readable.
    pub fee: Option<u128>,
    /// Each address that has an entry, with its balance; `None` marks an
    /// entry whose bytes do not read as an amount.
    pub amounts: Map<Seq<char>, Option<u128>>,
}

/// What a call comes to: the ledger after it and the response, or the error.
pub type Outcome = Result<(Ledger, ResponseView), ErrorView>;

/// The ledger that a call leaves behind: the new one where the call went
/// through, and the one before it where the call was refused.
pub open spec fn ledger_after(before: Ledger, outcome: Outcome) -> Ledger {
    match outcome {
        Ok((after, _)) => after,
        Err(_) => before,
    }
}

/// The fee on a payment: a hundredth of it, rounded down.
pub open spec fn fee_of(amount: u128) -> u128 {
    amount / 100
}

/// What each of the two recipients gets of a payment: half of what the fee
/// leaves, rounded down.
pub open spec fn share_of(amount: u128) -> u128 {
    ((amount - fee_of(amount)) / 2) as u128
}

/// The one coin of a payment, where the payment is exactly one coin of the
/// accepted denomination.
pub open spec fn checked_coin(funds: Seq<CoinView>) -> Result<CoinView, ErrorView> {
    if funds.len() != 1 {
        Err(ErrorView::WrongCoinSent)
    } else if funds[0].denom != FUND_DENOM@ {
        Err(ErrorView::WrongFundCoin { expected: FUND_DENOM@, got: funds[0].denom })
    } else {
        Ok(funds[0])
    }
}

/// Whether `address` has an entry that holds an amount.
pub open spec fn holds(amounts: Map<Seq<char>, Option<u128>>, address: Seq<char>) -> bool {
    amounts.contains_key(address) && amounts[address] is Some
}

/// Whether the entry of `address` can be read: it is absent, or it holds an
/// amount.
pub open spec fn readable(amounts: Map<Seq<char>, Option<u128>>, address: Seq<char>) -> bool {
    amounts.contains_key(address) ==> amounts[address] is Some
}

/// The balance of `address`: what its entry holds, and zero without one.
pub open spec fn balance_of(amounts: Map<Seq<char>, Option<u128>>, address: Seq<char>) -> u128 {
    if holds(amounts, address) {
        amounts[address].unwrap()
    } else {
        0
    }
}

/// The balances after `amount` is added to that of `address`.
pub open spec fn credit(
    amounts: Map<Seq<char>, Option<u128>>,
    address: Seq<char>,
    amount: u128,
) -> Map<Seq<char>, Option<u128>> {
    amounts.insert(address, Some((balance_of(amounts, address) + amount) as u128))
}

/// An attribute with the given key and value.
pub open spec fn attribute(key: Seq<char>, value: Seq<char>) -> AttributeView {
    AttributeView { key, value }
}

/// The response that pays `amount` out to `to_address`: one transfer, and
/// the attributes `action` and `to`.
pub open spec fn payout(to_address: Seq<char>, amount: Seq<CoinView>, action: Seq<char>)
    -> ResponseView {
    ResponseView {
        messages: seq![BankMsgView { to_address, amount }],
        attributes: seq![attribute("action"@, action), attribute("to"@, to_address)],
    }
}

/// One coin of the accepted denomination.
pub open spec fn fund_coin(amount: u128) -> CoinView {
    CoinView { denom: FUND_DENOM@, amount }
}

/// Setting the ledger up: `sender` becomes the owner and the fee
/// accumulator starts at zero. No balance is touched and nothing is paid.
pub open spec fn instantiate(ledger: Ledger, sender: Seq<char>) -> Outcome {
    Ok(
        (
            Ledger { owner: Some(sender), fee: Some(0), amounts: ledger.amounts },
            ResponseView {
                messages: seq![],
                attributes: seq![
                    attribute("method"@, "instantiate"@),
                    attribute("owner"@, sender),
                ],
            },
        ),
    )
}

/// Whether a split of `funds` between the two recipients stays within what
/// the fee accumulator and the two balances can hold. A split that is
/// refused changes no amount, and so fits.
pub open spec fn split_fits(
    ledger: Ledger,
    funds: Seq<CoinView>,
    recipient1: Seq<char>,
    recipient2: Seq<char>,
) -> bool {
    split_proceeds(ledger, funds, recipient1, recipient2) ==> {
        let amount = funds[0].amount;
        let credited = credit(ledger.amounts, recipient1, share_of(amount));
        &&& ledger.fee.unwrap() + fee_of(amount) <= u128::MAX
        &&& balance_of(ledger.amounts, recipient1) + share_of(amount) <= u128::MAX
        &&& balance_of(credited, recipient2) + share_of(amount) <= u128::MAX
    }
}

/// Whether a split is carried out: the payment is one coin of the accepted
/// denomination, and the fee accumulator and both recipients' entries can be
/// read.
pub open spec fn split_proceeds(
    ledger: Ledger,
    funds: Seq<CoinView>,
    recipient1: Seq<char>,
    recipient2: Seq<char>,
) -> bool {
    &&& checked_coin(funds) is Ok
    &&& ledger.fee is Some
    &&& readable(ledger.amounts, recipient1)
    &&& readable(ledger.amounts, recipient2)
}

/// Splitting a payment: the fee goes to the accumulator, and each recipient
/// is credited its share. Nothing is paid out.
pub open spec fn split(
    ledger: Ledger,
    funds: Seq<CoinView>,
    recipient1: Seq<char>,
    recipient2: Seq<char>,
) -> Outcome {
    match checked_coin(funds) {
        Err(e) => Err(e),
        Ok(coin) => if !split_proceeds(ledger, funds, recipient1, recipient2) {
            Err(ErrorView::Std)
        } else {
            let share = share_of(coin.amount);
            Ok(
                (
                    Ledger {
                        owner: ledger.owner,
                        fee: Some((ledger.fee.unwrap() + fee_of(coin.amount)) as u128),
                        amounts: credit(credit(ledger.amounts, recipient1, share), recipient2, share),
                    },
                    ResponseView {
                        messages: seq![],
                        attributes: seq![attribute("method"@, "split"@)],
                    },
                ),
            )
        },
    }
}

/// Withdrawing from the balance of `sender`: `quantity` of it, where one is
/// given and the balance covers it, and the entry stays; else all of it, and
/// the entry goes.
pub open spec fn withdraw(ledger: Ledger, sender: Seq<char>, quantity: Option<u128>) -> Outcome {
    if !holds(ledger.amounts, sender) {
        Err(ErrorView::Std)
    } else {
        let balance = balance_of(ledger.amounts, sender);
        match quantity {
            Some(quantity) => if quantity > balance {
                Err(ErrorView::ExceededQuantity)
            } else {
                Ok(
                    (
                        Ledger {
                            owner: ledger.owner,
                            fee: ledger.fee,
                            amounts: ledger.amounts.insert(
                                sender,
                                Some((balance - quantity) as u128),
                            ),
                        },
                        payout(sender, seq![fund_coin(quantity)], "withdraw"@),
                    ),
                )
            },
            None => Ok(
                (
                    Ledger {
                        owner: ledger.owner,
                        fee: ledger.fee,
                        amounts: ledger.amounts.remove(sender),
                    },
                    payout(sender, seq![fund_coin(balance)], "withdraw"@),
                ),
            ),
        }
    }
}

/// Withdrawing the fees: the owner is paid what the accumulator holds, and
/// the accumulator starts again at zero.
pub open spec fn withdraw_fees(ledger: Ledger, sender: Seq<char>) -> Outcome {
    if ledger.owner is None {
        Err(ErrorView::Std)
    } else if ledger.owner != Some(sender) {
        Err(ErrorView::NotOwner)
    } else if ledger.fee is None {
        Err(ErrorView::Std)
    } else {
        Ok(
            (
                Ledger { owner: ledger.owner, fee: Some(0), amounts: ledger.amounts },
                payout(sender, seq![fund_coin(ledger.fee.unwrap())], "withdraw"@),
            ),
        )
    }
}

/// The owner of the ledger, where the record can be read.
pub open spec fn query_owner(ledger: Ledger) -> Result<QueryResponseView, ErrorView> {
    match ledger.owner {
        Some(owner) => Ok(QueryResponseView::Owner(owner)),
        None => Err(ErrorView::Std),
    }
}

/// What `address` may withdraw: its balance, zero without an entry; an
/// error only where the entry cannot be read.
pub open spec fn query_withdrawable(ledger: Ledger, address: Seq<char>) -> Result<
    QueryResponseView,
    ErrorView,
> {
    if readable(ledger.amounts, address) {
        Ok(QueryResponseView::WithdrawableAmount(balance_of(ledger.amounts, address)))
    } else {
        Err(ErrorView::Std)
    }
}

/// The one transfer of `amount` in the accepted denomination to
/// `to_address`.
pub open spec fn transfer(to_address: Seq<char>, amount: u128) -> BankMsgView {
    BankMsgView { to_address, amount: seq![fund_coin(amount)] }
}

/// Of every payment the fee is a hundredth, rounded down, and each share is
/// half of the rest, rounded down. The fee and the two shares together never
/// exceed the payment, and fall short of it by at most one unit, which stays
/// with the ledger unaccounted.
pub proof fn lemma_shares_of_payment(amount: u128)
    ensures
        fee_of(amount) == amount / 100,
        share_of(amount) == (amount - amount / 100) / 2,
        fee_of(amount) + 2 * share_of(amount) <= amount,
        amount - (fee_of(amount) + 2 * share_of(amount)) <= 1,
        amount - (fee_of(amount) + 2 * share_of(amount)) == (amount - amount / 100) % 2,
{
}

/// A split that is carried out within the amounts' range adds the fee to the
/// accumulator and a share to each recipient's balance, two shares where the
/// two recipients are one address. It touches no other balance and not the
/// owner, and pays nothing out.
pub proof fn lemma_split_credits(
    ledger: Ledger,
    funds: Seq<CoinView>,
    recipient1: Seq<char>,
    recipient2: Seq<char>,
)
    requires
        split_proceeds(ledger, funds, recipient1, recipient2),
        split_fits(ledger, funds, recipient1, recipient2),
    ensures
        (split(ledger, funds, recipient1, recipient2) matches Ok((after, response)) && {
            let amount = funds[0].amount;
            &&& after.owner == ledger.owner
            &&& after.fee == Some((ledger.fee.unwrap() + fee_of(amount)) as u128)
            &&& after.fee.unwrap() == ledger.fee.unwrap() + amount / 100
            &&& holds(after.amounts, recipient1)
            &&& holds(after.amounts, recipient2)
            &&& recipient1 != recipient2 ==> balance_of(after.amounts, recipient1) == balance_of(
                ledger.amounts,
                recipient1,
            ) + share_of(amount)
            &&& recipient1 != recipient2 ==> balance_of(after.amounts, recipient2) == balance_of(
                ledger.amounts,
                recipient2,
            ) + share_of(amount)
            &&& recipient1 == recipient2 ==> balance_of(after.amounts, recipient1) == balance_of(
                ledger.amounts,
                recipient1,
            ) + 2 * share_of(amount)
            &&& after.amounts.remove(recipient1).remove(recipient2) == ledger.amounts.remove(
                recipient1,
            ).remove(recipient2)
            &&& response.messages.len() == 0
        }),
{
    let after = ledger_after(ledger, split(ledger, funds, recipient1, recipient2));
    assert(after.amounts.remove(recipient1).remove(recipient2) =~= ledger.amounts.remove(
        recipient1,
    ).remove(recipient2));
}

/// Credits to one address add up: after `first` and then `second`, its
/// balance is what it was and both on top.
pub proof fn lemma_credits_accumulate(
    amounts: Map<Seq<char>, Option<u128>>,
    address: Seq<char>,
    first: u128,
    second: u128,
)
    requires
        balance_of(amounts, address) + first + second <= u128::MAX,
    ensures
        balance_of(credit(credit(amounts, address, first), address, second), address)
            == balance_of(amounts, address) + first + second,
        !holds(amounts, address) ==> balance_of(
            credit(credit(amounts, address, first), address, second),
            address,
        ) == first + second,
{
}

/// Two splits to the same two recipients add up: after both, each balance
/// has grown by its share of the first payment and its share of the second,
/// and the accumulator by both fees.
pub proof fn lemma_splits_accumulate(
    ledger: Ledger,
    first: Seq<CoinView>,
    second: Seq<CoinView>,
    recipient1: Seq<char>,
    recipient2: Seq<char>,
)
    requires
        recipient1 != recipient2,
        split_proceeds(ledger, first, recipient1, recipient2),
        split_fits(ledger, first, recipient1, recipient2),
        checked_coin(second) is Ok,
        split_fits(
            ledger_after(ledger, split(ledger, first, recipient1, recipient2)),
            second,
            recipient1,
            recipient2,
        ),
    ensures
        (split(ledger, first, recipient1, recipient2) matches Ok((between, _)) && split(
            between,
            second,
            recipient1,
            recipient2,
        ) matches Ok((after, _)) && {
            &&& balance_of(after.amounts, recipient1) == balance_of(ledger.amounts, recipient1)
                + share_of(first[0].amount) + share_of(second[0].amount)
            &&& balance_of(after.amounts, recipient2) == balance_of(ledger.amounts, recipient2)
                + share_of(first[0].amount) + share_of(second[0].amount)
            &&& after.fee.unwrap() == ledger.fee.unwrap() + fee_of(first[0].amount) + fee_of(
                second[0].amount,
            )
        }),
{
    lemma_split_credits(ledger, first, recipient1, recipient2);
    let between = ledger_after(ledger, split(ledger, first, recipient1, recipient2));
    lemma_split_credits(between, second, recipient1, recipient2);
}

/// Withdrawing a quantity that the balance covers lowers the balance by
/// exactly that quantity, keeps the entry, touches nothing else, and yields
/// one transfer of the quantity to the caller. A quantity above the balance
/// is refused with `ExceededQuantity`, and the ledger stays as it is.
pub proof fn lemma_withdraw_quantity(ledger: Ledger, sender: Seq<char>, quantity: u128)
    requires
        holds(ledger.amounts, sender),
    ensures
        quantity <= balance_of(ledger.amounts, sender) ==> (withdraw(
            ledger,
            sender,
            Some(quantity),
        ) matches Ok((after, response)) && {
            &&& holds(after.amounts, sender)
            &&& balance_of(after.amounts, sender) == balance_of(ledger.amounts, sender) - quantity
            &&& after.owner == ledger.owner
            &&& after.fee == ledger.fee
            &&& after.amounts.remove(sender) == ledger.amounts.remove(sender)
            &&& response.messages == seq![transfer(sender, quantity)]
        }),
        quantity > balance_of(ledger.amounts, sender) ==> withdraw(ledger, sender, Some(quantity))
            == Err::<(Ledger, ResponseView), ErrorView>(ErrorView::ExceededQuantity),
        quantity > balance_of(ledger.amounts, sender) ==> ledger_after(
            ledger,
            withdraw(ledger, sender, Some(quantity)),
        ) == ledger,
{
    if quantity <= balance_of(ledger.amounts, sender) {
        let after = ledger_after(ledger, withdraw(ledger, sender, Some(quantity)));
        assert(after.amounts.remove(sender) =~= ledger.amounts.remove(sender));
    }
}

/// Withdrawing without a quantity removes the caller's entry, so that the
/// balance is zero, touches nothing else, and yields one transfer of the
/// whole balance as it was to the caller.
pub proof fn lemma_withdraw_all(ledger: Ledger, sender: Seq<char>)
    requires
        holds(ledger.amounts, sender),
    ensures
        (withdraw(ledger, sender, None) matches Ok((after, response)) && {
            &&& !after.amounts.contains_key(sender)
            &&& balance_of(after.amounts, sender) == 0
            &&& after.owner == ledger.owner
            &&& after.fee == ledger.fee
            &&& after.amounts == ledger.amounts.remove(sender)
            &&& response.messages == seq![transfer(sender, balance_of(ledger.amounts, sender))]
        }),
{
}

/// An address without an entry has nothing to withdraw, and is told so in
/// two ways: asking for its balance gives zero, while withdrawing, even a
/// quantity of zero, is refused.
pub proof fn lemma_without_entry(ledger: Ledger, address: Seq<char>, quantity: Option<u128>)
    requires
        !ledger.amounts.contains_key(address),
    ensures
        query_withdrawable(ledger, address) == Ok::<QueryResponseView, ErrorView>(
            QueryResponseView::WithdrawableAmount(0),
        ),
        withdraw(ledger, address, quantity) == Err::<(Ledger, ResponseView), ErrorView>(
            ErrorView::Std,
        ),
{
}

/// Withdrawing the fees is refused with `NotOwner` for every caller but the
/// owner, and the ledger stays as it is. For the owner it sets the
/// accumulator to zero, touches nothing else, and yields one transfer of the
/// total as it was to the owner.
pub proof fn lemma_withdraw_fees(ledger: Ledger, sender: Seq<char>)
    requires
        ledger.owner is Some,
        ledger.fee is Some,
    ensures
        ledger.owner != Some(sender) ==> withdraw_fees(ledger, sender) == Err::<
            (Ledger, ResponseView),
            ErrorView,
        >(ErrorView::NotOwner),
        ledger.owner != Some(sender) ==> ledger_after(ledger, withdraw_fees(ledger, sender))
            == ledger,
        ledger.owner == Some(sender) ==> (withdraw_fees(ledger, sender) matches Ok(
            (after, response),
        ) && {
            &&& after.fee == Some(0u128)
            &&& after.owner == ledger.owner
            &&& after.amounts == ledger.amounts
            &&& response.messages == seq![transfer(sender, ledger.fee.unwrap())]
        }),
{
}

} // verus!
