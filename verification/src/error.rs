//! The ways in which a call to the ledger fails.

use vstd::prelude::*;

verus! {

/// The error type of `cosmwasm_std`. Opaque here: it is only carried through.
#[verifier::external_type_specification]
#[verifier::external_body]
pub struct ExStdError(cosmwasm_std::StdError);

/// Why a call was refused. A refused call leaves the store as it was.
#[derive(Debug)]
pub enum ContractError {
    /// The store could not hand out a record that the call needs.
    Std(cosmwasm_std::StdError),
    /// Reserved; no call returns it.
    Unauthorized {},
    /// More was asked for than the caller's balance holds.
    ExceededQuantity {},
    /// The payment is not exactly one coin.
    WrongCoinSent {},
    /// The payment is in another denomination than the accepted one.
    WrongFundCoin { expected: String, got: String },
    /// Only the owner may collect the fees.
    NotOwner {},
}

/// What a [`ContractError`] says, without the store's own error value.
pub enum ErrorView {
    Std,
    Unauthorized,
    ExceededQuantity,
    WrongCoinSent,
    WrongFundCoin { expected: Seq<char>, got: Seq<char> },
    NotOwner,
}

impl View for ContractError {
    type V = ErrorView;

    open spec fn view(&self) -> ErrorView {
        match *self {
            ContractError::Std(_) => ErrorView::Std,
            ContractError::Unauthorized {  } => ErrorView::Unauthorized,
            ContractError::ExceededQuantity {  } => ErrorView::ExceededQuantity,
            ContractError::WrongCoinSent {  } => ErrorView::WrongCoinSent,
            ContractError::WrongFundCoin { expected, got } => ErrorView::WrongFundCoin {
                expected: expected@,
                got: got@,
            },
            ContractError::NotOwner {  } => ErrorView::NotOwner,
        }
    }
}

} // verus!
