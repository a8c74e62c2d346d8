//! Errors of the escrow actions.

use vstd::prelude::*;

verus! {

/// Why an action was refused. Every refusal leaves the ledger unchanged.
#[derive(Debug, Clone, Copy, PartialEq, Eq, Structural)]
pub enum ContractError {
    /// A failure of the storage or of the hosting environment.
    Std {},
    /// No escrow is stored under the requested id.
    NotFound {},
    Unauthorized {},
    EmptyBalance {},
    AlreadyInUse {},
    InvalidTokenAddress {},
    AlreadyCancel {},
    TokenToGetCoin {},
    InvalidAmount {},
    AlreadyComplete {},
}

impl ContractError {
    /// The message of each error.
    pub open spec fn message_text(&self) -> Seq<char> {
        match self {
            ContractError::Std {} => "Storage or environment failure"@,
            ContractError::NotFound {} => "Escrow not found"@,
            ContractError::Unauthorized {} => "Unauthorized"@,
            ContractError::EmptyBalance {} => "Send some coins to create an escrow"@,
            ContractError::AlreadyInUse {} => "Escrow id already in use"@,
            ContractError::InvalidTokenAddress {} => "Invalid CW20 token address"@,
            ContractError::AlreadyCancel {} => "This escrow was already cancelled"@,
            ContractError::TokenToGetCoin {} => "You must put token to get coin"@,
            ContractError::InvalidAmount {} => "Invalid amount"@,
            ContractError::AlreadyComplete {} => "This escrow was already completed"@,
        }
    }

    /// A human-readable message for the error.
    pub fn message(&self) -> (r: String)
        ensures
            r@ == self.message_text(),
    {
        match self {
            ContractError::Std {} => String::from_str("Storage or environment failure"),
            ContractError::NotFound {} => String::from_str("Escrow not found"),
            ContractError::Unauthorized {} => String::from_str("Unauthorized"),
            ContractError::EmptyBalance {} => String::from_str("Send some coins to create an escrow"),
            ContractError::AlreadyInUse {} => String::from_str("Escrow id already in use"),
            ContractError::InvalidTokenAddress {} => String::from_str("Invalid CW20 token address"),
            ContractError::AlreadyCancel {} => String::from_str("This escrow was already cancelled"),
            ContractError::TokenToGetCoin {} => String::from_str("You must put token to get coin"),
            ContractError::InvalidAmount {} => String::from_str("Invalid amount"),
            ContractError::AlreadyComplete {} => String::from_str("This escrow was already completed"),
        }
    }
}

} // verus!
