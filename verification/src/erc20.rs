use vstd::prelude::*;

use crate::contract_env::{AccountId, Balance};

verus! {

/// The ERC-20 error conditions.
#[derive(Clone, Copy, Debug, PartialEq, Eq, Structural)]
pub enum Error {
    /// Not enough balance to fulfill the request.
    InsufficientBalance,
    /// Not enough allowance to fulfill the request.
    InsufficientAllowance,
}

/// The interface every ERC-20 respecting token contract offers; the button
/// games' payout schedules are settled against an implementation of it.
pub trait Erc20 {
    /// Returns the total token supply.
    fn total_supply(&self) -> Balance;

    /// Returns the account balance of `owner`.
    fn balance_of(&self, owner: AccountId) -> Balance;

    /// Returns the amount `spender` may still withdraw from `owner`.
    fn allowance(&self, owner: AccountId, spender: AccountId) -> Balance;

    /// Transfers `value` tokens from the caller's account to `to`.
    fn transfer(&mut self, to: AccountId, value: Balance) -> Result<(), Error>;

    /// Allows `spender` to withdraw up to `value` from the caller's account.
    fn approve(&mut self, spender: AccountId, value: Balance) -> Result<(), Error>;

    /// Transfers `value` tokens on behalf of `from` to `to`.
    fn transfer_from(&mut self, from: AccountId, to: AccountId, value: Balance) -> Result<
        (),
        Error,
    >;
}

} // verus!
