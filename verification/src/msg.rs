//! What a caller hands to the ledger: the payment that comes with a call,
//! and the three kinds of message.

use vstd::prelude::*;
use vstd::string::StringExecFns;
use crate::state::State;

verus! {

/// An amount of one denomination.
#[derive(Clone, Debug, PartialEq, Eq)]
pub struct Coin {
    pub denom: String,
    pub amount: u128,
}

/// A [`Coin`] as contracts speak of it.
pub struct CoinView {
    pub denom: Seq<char>,
    pub amount: u128,
}

impl View for Coin {
    type V = CoinView;

    open spec fn view(&self) -> CoinView {
        CoinView { denom: self.denom@, amount: self.amount }
    }
}

/// A coin of `amount` in `denom`.
pub fn coin(amount: u128, denom: &str) -> (c: Coin)
    ensures
        c@ == (CoinView { denom: denom@, amount }),
{
    Coin { denom: String::from_str(denom), amount }
}

/// The coins of a list, each by its view.
pub open spec fn coins_view(coins: Seq<Coin>) -> Seq<CoinView> {
    Seq::new(coins.len(), |i: int| coins[i]@)
}

/// Who makes a call, and what is paid with it.
#[derive(Clone, Debug, PartialEq, Eq)]
pub struct MessageInfo {
    pub sender: String,
    pub funds: Vec<Coin>,
}

/// Sets the ledger up; the caller becomes its owner.
#[derive(Clone, Debug, PartialEq, Eq)]
pub struct InstantiateMsg {}

/// A call that may change the ledger.
#[derive(Clone, Debug, PartialEq, Eq)]
pub enum ExecuteMsg {
    /// Splits the payment between two recipients.
    Split { recipient1: String, recipient2: String },
    /// Pays out `quantity` of the caller's balance, or all of it.
    Withdraw { quantity: Option<u128> },
    /// Pays out the fees collected so far to the owner.
    WithdrawFees {},
}

/// A call that only reads the ledger.
#[derive(Clone, Debug, PartialEq, Eq)]
pub enum QueryMsg {
    /// The amount that `address` may withdraw.
    WithdrawableAmount { address: String },
    /// The owner of the ledger.
    OwnerQuery {},
}

/// The answer to [`QueryMsg::OwnerQuery`].
pub type OwnerResponse = State;

/// The answer to a [`QueryMsg`].
#[derive(Clone, Debug, PartialEq, Eq)]
pub enum QueryResponse {
    WithdrawableAmount(u128),
    Owner(State),
}

/// A [`QueryResponse`] as contracts speak of it.
pub enum QueryResponseView {
    WithdrawableAmount(u128),
    Owner(Seq<char>),
}

impl View for QueryResponse {
    type V = QueryResponseView;

    open spec fn view(&self) -> QueryResponseView {
        match *self {
            QueryResponse::WithdrawableAmount(amount) => QueryResponseView::WithdrawableAmount(
                amount,
            ),
            QueryResponse::Owner(state) => QueryResponseView::Owner(state.owner@),
        }
    }
}

} // verus!
