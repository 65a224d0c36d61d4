//! The transaction client: one network, one signing identity and one registry
//! contract, fixed when the client is made.

use crate::chain::StarkNetChain;
use crate::error::ConfigError;
use crate::felt::{felt_hex_value, is_felt_hex, is_malformed_hex, Felt};
use crate::poller::{ConfirmationPoller, PollState};
use crate::transaction::TransactionHandle;
use vstd::prelude::*;

verus! {

/// The account that authorizes transactions: its address and the secret scalar that
/// signs for it. The scalar lives in memory only; the type has no `Debug` and no
/// `Clone`, and nothing in this library prints or copies it but `secret_scalar`.
pub struct SigningIdentity {
    secret_scalar: Felt,
    address: Felt,
}

/// The first of the identity's two texts that is malformed, as the error it gives; the
/// private key is looked at first.
pub open spec fn first_identity_error(
    hex_private_key: Seq<char>,
    hex_account_address: Seq<char>,
) -> Option<ConfigError> {
    if !is_felt_hex(hex_private_key) {
        Some(ConfigError::InvalidPrivateKey)
    } else if !is_felt_hex(hex_account_address) {
        Some(ConfigError::InvalidAccountAddress)
    } else {
        None
    }
}

/// The first of the client's three texts that is malformed, as the error it gives: the
/// private key is looked at first, then the account address, then the registry's
/// address.
pub open spec fn first_config_error(
    hex_account_address: Seq<char>,
    hex_private_key: Seq<char>,
    hex_badge_registry_address: Seq<char>,
) -> Option<ConfigError> {
    match first_identity_error(hex_private_key, hex_account_address) {
        Some(error) => Some(error),
        None => if !is_felt_hex(hex_badge_registry_address) {
            Some(ConfigError::InvalidRegistryAddress)
        } else {
            None
        },
    }
}

impl SigningIdentity {
    /// The secret scalar.
    pub closed spec fn spec_secret_scalar(&self) -> Felt {
        self.secret_scalar
    }

    /// The account's address.
    pub closed spec fn spec_address(&self) -> Felt {
        self.address
    }

    /// Makes the identity from the hexadecimal texts of the secret scalar and of the
    /// account's address. A malformed text gives its error and no identity; where both
    /// are malformed the private key's error comes first.
    pub fn from_hex(hex_private_key: &str, hex_account_address: &str) -> (identity: Result<
        SigningIdentity,
        ConfigError,
    >)
        ensures
            match first_identity_error(hex_private_key@, hex_account_address@) {
                Some(error) => identity == Err::<SigningIdentity, ConfigError>(error),
                None => identity matches Ok(id) && id.secret_scalar()@ == felt_hex_value(
                    hex_private_key@,
                ) && id.address()@ == felt_hex_value(hex_account_address@),
            },
    {
        let secret_scalar = match Felt::from_hex_be(hex_private_key) {
            Some(scalar) => scalar,
            None => {
                return Err(ConfigError::InvalidPrivateKey);
            },
        };
        let address = match Felt::from_hex_be(hex_account_address) {
            Some(address) => address,
            None => {
                return Err(ConfigError::InvalidAccountAddress);
            },
        };
        Ok(SigningIdentity { secret_scalar, address })
    }

    /// The secret scalar, for the signer. Do not log it.
    #[verifier::when_used_as_spec(spec_secret_scalar)]
    pub fn secret_scalar(&self) -> (scalar: Felt)
        ensures
            scalar == self.spec_secret_scalar(),
    {
        self.secret_scalar
    }

    /// The account's address.
    #[verifier::when_used_as_spec(spec_address)]
    pub fn address(&self) -> (address: Felt)
        ensures
            address == self.spec_address(),
    {
        self.address
    }
}

/// The client of the badge registry. It owns the network profile, the signing identity
/// and the registry's address from the moment it is made, and nothing changes them
/// afterwards: every query and every submission made through one client goes to the
/// network that `chain` names.
pub struct StarkNetClient {
    chain: StarkNetChain,
    identity: SigningIdentity,
    badge_registry_address: Felt,
}

impl StarkNetClient {
    /// The network that the client is bound to.
    pub closed spec fn spec_chain(&self) -> StarkNetChain {
        self.chain
    }

    /// The identity that signs the client's transactions.
    pub closed spec fn spec_identity(&self) -> &SigningIdentity {
        &self.identity
    }

    /// The address of the registry contract.
    pub closed spec fn spec_badge_registry_address(&self) -> Felt {
        self.badge_registry_address
    }

    /// Makes the client from values that are already validated. This cannot fail.
    pub fn from_parts(
        chain: StarkNetChain,
        identity: SigningIdentity,
        badge_registry_address: Felt,
    ) -> (client: StarkNetClient)
        ensures
            client.chain() == chain,
            *client.identity() == identity,
            client.badge_registry_address() == badge_registry_address,
    {
        StarkNetClient { chain, identity, badge_registry_address }
    }

    /// Makes the client for `chain` from the hexadecimal texts of the account's
    /// address, of the private key and of the registry contract's address.
    ///
    /// The texts are checked in the order private key, account address, registry
    /// address, and the first malformed one gives its error. Where all three are well
    /// formed the client holds exactly what they write, bound to `chain`.
    pub fn new(
        hex_account_address: &str,
        hex_private_key: &str,
        hex_badge_registry_address: &str,
        chain: StarkNetChain,
    ) -> (client: Result<StarkNetClient, ConfigError>)
        ensures
            match first_config_error(
                hex_account_address@,
                hex_private_key@,
                hex_badge_registry_address@,
            ) {
                Some(error) => client == Err::<StarkNetClient, ConfigError>(error),
                None => client matches Ok(c) && c.chain() == chain
                    && c.identity().secret_scalar()@ == felt_hex_value(hex_private_key@)
                    && c.identity().address()@ == felt_hex_value(hex_account_address@)
                    && c.badge_registry_address()@ == felt_hex_value(
                    hex_badge_registry_address@,
                ),
            },
    {
        let identity = match SigningIdentity::from_hex(hex_private_key, hex_account_address) {
            Ok(identity) => identity,
            Err(error) => {
                return Err(error);
            },
        };
        let badge_registry_address = match Felt::from_hex_be(hex_badge_registry_address) {
            Some(address) => address,
            None => {
                return Err(ConfigError::InvalidRegistryAddress);
            },
        };
        Ok(StarkNetClient::from_parts(chain, identity, badge_registry_address))
    }

    /// The network that the client is bound to.
    #[verifier::when_used_as_spec(spec_chain)]
    pub fn chain(&self) -> (chain: StarkNetChain)
        ensures
            chain == self.spec_chain(),
    {
        self.chain
    }

    /// The identity that signs the client's transactions.
    #[verifier::when_used_as_spec(spec_identity)]
    pub fn identity(&self) -> (identity: &SigningIdentity)
        ensures
            identity == self.spec_identity(),
    {
        &self.identity
    }

    /// The address of the registry contract.
    #[verifier::when_used_as_spec(spec_badge_registry_address)]
    pub fn badge_registry_address(&self) -> (address: Felt)
        ensures
            address == self.spec_badge_registry_address(),
    {
        self.badge_registry_address
    }

    /// Starts the wait for the finality of a submitted transaction: the poller for
    /// `transaction`, about to make its first query. The caller drives it: it performs
    /// the action that the poller asks for, reports the event, and goes on until the
    /// poller asks to finish.
    pub fn wait_for_transaction_acceptance(&self, transaction: TransactionHandle) -> (poller:
        ConfirmationPoller)
        ensures
            poller.handle() == transaction,
            poller.state() == PollState::Querying,
    {
        ConfirmationPoller::new(transaction)
    }
}

/// A malformed private key (wrong length, or a character that is no hexadecimal digit)
/// is refused as `InvalidPrivateKey`, whatever the other texts hold. Behind a
/// well-formed key, a malformed account address is refused as `InvalidAccountAddress`;
/// behind a well-formed key and address, a malformed registry address is refused as
/// `InvalidRegistryAddress`. In each case no identity and no client is made.
pub proof fn lemma_malformed_config_is_refused(
    hex_account_address: Seq<char>,
    hex_private_key: Seq<char>,
    hex_badge_registry_address: Seq<char>,
)
    ensures
        is_malformed_hex(hex_private_key) ==> first_identity_error(
            hex_private_key,
            hex_account_address,
        ) == Some(ConfigError::InvalidPrivateKey) && first_config_error(
            hex_account_address,
            hex_private_key,
            hex_badge_registry_address,
        ) == Some(ConfigError::InvalidPrivateKey),
        is_felt_hex(hex_private_key) && is_malformed_hex(hex_account_address)
            ==> first_identity_error(hex_private_key, hex_account_address) == Some(
            ConfigError::InvalidAccountAddress,
        ) && first_config_error(hex_account_address, hex_private_key, hex_badge_registry_address)
            == Some(ConfigError::InvalidAccountAddress),
        is_felt_hex(hex_private_key) && is_felt_hex(hex_account_address) && is_malformed_hex(
            hex_badge_registry_address,
        ) ==> first_config_error(hex_account_address, hex_private_key, hex_badge_registry_address)
            == Some(ConfigError::InvalidRegistryAddress),
{
}

} // verus!
