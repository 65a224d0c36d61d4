//! The failures that the library reports.

use vstd::prelude::*;

verus! {

/// A configuration value that the client cannot start with.
#[derive(Clone, Copy, Debug, PartialEq, Eq, Structural)]
pub enum ConfigError {
    /// The chain selector names no known network.
    UnrecognizedChain,
    /// The private key is not the hexadecimal form of a field element.
    InvalidPrivateKey,
    /// The account address is not the hexadecimal form of a field element.
    InvalidAccountAddress,
    /// The registry contract's address is not the hexadecimal form of a field element.
    InvalidRegistryAddress,
}

impl ConfigError {
    /// The text of `message`, by variant.
    pub open spec fn spec_message(self) -> Seq<char> {
        match self {
            ConfigError::UnrecognizedChain => "Chain must be either 'MAINNET' or 'TESTNET'"@,
            ConfigError::InvalidPrivateKey => "Invalid private key"@,
            ConfigError::InvalidAccountAddress => "Invalid account address"@,
            ConfigError::InvalidRegistryAddress => "Invalid address for badge_registry"@,
        }
    }

    /// A line for the operator. It never holds the value that was refused.
    pub fn message(&self) -> (text: &'static str)
        ensures
            text@ == self.spec_message(),
    {
        match self {
            ConfigError::UnrecognizedChain => "Chain must be either 'MAINNET' or 'TESTNET'",
            ConfigError::InvalidPrivateKey => "Invalid private key",
            ConfigError::InvalidAccountAddress => "Invalid account address",
            ConfigError::InvalidRegistryAddress => "Invalid address for badge_registry",
        }
    }
}

/// Why waiting for finality ended without an accepted transaction.
#[derive(Clone, Copy, Debug, PartialEq, Eq, Structural)]
pub enum ConfirmationError {
    /// The chain refused the transaction. This is a verdict of the network, not a
    /// failure to reach it.
    TransactionRejected,
}

impl ConfirmationError {
    /// The text of `message`, by variant.
    pub open spec fn spec_message(self) -> Seq<char> {
        match self {
            ConfirmationError::TransactionRejected => "Transaction rejected"@,
        }
    }

    /// A line for the caller.
    pub fn message(&self) -> (text: &'static str)
        ensures
            text@ == self.spec_message(),
    {
        match self {
            ConfirmationError::TransactionRejected => "Transaction rejected",
        }
    }
}

} // verus!
