//! Checks on what is paid with a call.

use vstd::prelude::*;
use vstd::string::StringExecFns;
use crate::error::ContractError;
use crate::ledger::{checked_coin, FUND_DENOM};
use crate::msg::{coins_view, Coin};

verus! {

/// The one coin of a payment. A payment of no coin or of several is refused
/// with `WrongCoinSent`; one coin of another denomination than the accepted
/// one with `WrongFundCoin`, which names both denominations.
pub fn validate_and_extract_coin(sent_funds: &[Coin]) -> (r: Result<Coin, ContractError>)
    ensures
        match checked_coin(coins_view(sent_funds@)) {
            Ok(coin) => r matches Ok(c) && c@ == coin,
            Err(e) => r matches Err(c) && c@ == e,
        },
{
    if sent_funds.len() != 1 {
        return Err(ContractError::WrongCoinSent {  });
    }
    let expected = String::from_str(FUND_DENOM);
    if sent_funds[0].denom != expected {
        return Err(ContractError::WrongFundCoin { expected, got: sent_funds[0].denom.clone() });
    }
    Ok(Coin { denom: sent_funds[0].denom.clone(), amount: sent_funds[0].amount })
}

} // verus!
