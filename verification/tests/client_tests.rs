use badge_client::chain::StarkNetChain;
use badge_client::client::{SigningIdentity, StarkNetClient};
use badge_client::error::ConfigError;
use badge_client::felt::Felt;
use badge_client::poller::{PollAction, PollState};
use badge_client::transaction::TransactionHandle;

const ACCOUNT: &str = "0x065f1506b7f974a1355aeebc1314579326c84a029cd8257a91f82384a6a0ace";
const KEY: &str = "0x0139fe4d6f02e666e86a6f58e65060f115cd3c185bd9e98bd829636931458f79";
const REGISTRY: &str = "0x04e74e0a3a1f7ffbd3c4c4e6d6a7c1c8c4b7c8b6c3e3f9f7b2d5b1f0e9e8d7c6";

fn felt(text: &str) -> Felt {
    Felt::from_hex_be(text).unwrap()
}

#[test]
fn client_holds_what_the_texts_write() {
    let client = match StarkNetClient::new(ACCOUNT, KEY, REGISTRY, StarkNetChain::Testnet) {
        Ok(client) => client,
        Err(error) => panic!("{:?}", error),
    };
    assert_eq!(client.chain(), StarkNetChain::Testnet);
    assert_eq!(client.identity().address(), felt(ACCOUNT));
    assert_eq!(client.identity().secret_scalar(), felt(KEY));
    assert_eq!(client.badge_registry_address(), felt(REGISTRY));
    assert_eq!(client.badge_registry_address().to_bytes_be()[0], 0x04);
    assert_eq!(client.identity().secret_scalar().to_bytes_be()[31], 0x79);
}

#[test]
fn client_is_bound_to_the_chain_given() {
    let client = StarkNetClient::new("0x1", "0x2", "0x3", StarkNetChain::Mainnet).ok().unwrap();
    assert_eq!(client.chain(), StarkNetChain::Mainnet);
    let client = StarkNetClient::new("0x1", "0x2", "0x3", StarkNetChain::Testnet).ok().unwrap();
    assert_eq!(client.chain(), StarkNetChain::Testnet);
}

#[test]
fn arguments_are_not_mixed_up() {
    let client = StarkNetClient::new("0x1", "0x2", "0x3", StarkNetChain::Mainnet).ok().unwrap();
    assert_eq!(client.identity().address(), felt("1"));
    assert_eq!(client.identity().secret_scalar(), felt("2"));
    assert_eq!(client.badge_registry_address(), felt("3"));
}

#[test]
fn malformed_private_key_is_refused() {
    for key in ["0xzz", "not hex", &"1".repeat(65), &"f".repeat(64)] {
        let result = StarkNetClient::new(ACCOUNT, key, REGISTRY, StarkNetChain::Testnet);
        assert_eq!(result.err(), Some(ConfigError::InvalidPrivateKey), "{:?}", key);
    }
}

#[test]
fn malformed_account_address_is_refused() {
    for address in ["0xzz", "account", &"1".repeat(65), &"f".repeat(64)] {
        let result = StarkNetClient::new(address, KEY, REGISTRY, StarkNetChain::Testnet);
        assert_eq!(result.err(), Some(ConfigError::InvalidAccountAddress), "{:?}", address);
    }
}

#[test]
fn malformed_registry_address_is_refused() {
    for address in ["0xzz", "registry", &"1".repeat(65), &"f".repeat(64)] {
        let result = StarkNetClient::new(ACCOUNT, KEY, address, StarkNetChain::Mainnet);
        assert_eq!(result.err(), Some(ConfigError::InvalidRegistryAddress), "{:?}", address);
    }
}

#[test]
fn private_key_is_checked_first_then_account_then_registry() {
    let result = StarkNetClient::new("bad!", "bad!", "bad!", StarkNetChain::Testnet);
    assert_eq!(result.err(), Some(ConfigError::InvalidPrivateKey));
    let result = StarkNetClient::new("bad!", KEY, "bad!", StarkNetChain::Testnet);
    assert_eq!(result.err(), Some(ConfigError::InvalidAccountAddress));
    let result = StarkNetClient::new(ACCOUNT, KEY, "bad!", StarkNetChain::Testnet);
    assert_eq!(result.err(), Some(ConfigError::InvalidRegistryAddress));
}

#[test]
fn identity_from_well_formed_texts() {
    let identity = SigningIdentity::from_hex(KEY, ACCOUNT).ok().unwrap();
    assert_eq!(identity.secret_scalar(), felt(KEY));
    assert_eq!(identity.address(), felt(ACCOUNT));
}

#[test]
fn identity_refuses_malformed_texts() {
    assert_eq!(SigningIdentity::from_hex("0xg", ACCOUNT).err(), Some(ConfigError::InvalidPrivateKey));
    assert_eq!(SigningIdentity::from_hex(KEY, "0xg").err(), Some(ConfigError::InvalidAccountAddress));
    assert_eq!(SigningIdentity::from_hex("0xg", "0xg").err(), Some(ConfigError::InvalidPrivateKey));
    assert_eq!(
        SigningIdentity::from_hex(&"0".repeat(65), ACCOUNT).err(),
        Some(ConfigError::InvalidPrivateKey)
    );
}

#[test]
fn client_from_validated_parts() {
    let identity = SigningIdentity::from_hex(KEY, ACCOUNT).ok().unwrap();
    let client = StarkNetClient::from_parts(StarkNetChain::Mainnet, identity, felt(REGISTRY));
    assert_eq!(client.chain(), StarkNetChain::Mainnet);
    assert_eq!(client.identity().address(), felt(ACCOUNT));
    assert_eq!(client.identity().secret_scalar(), felt(KEY));
    assert_eq!(client.badge_registry_address(), felt(REGISTRY));
}

#[test]
fn config_errors_have_messages() {
    assert_eq!(ConfigError::InvalidPrivateKey.message(), "Invalid private key");
    assert_eq!(ConfigError::InvalidAccountAddress.message(), "Invalid account address");
    assert_eq!(ConfigError::InvalidRegistryAddress.message(), "Invalid address for badge_registry");
}

#[test]
fn waiting_starts_with_a_query_for_the_transaction() {
    let client = StarkNetClient::new(ACCOUNT, KEY, REGISTRY, StarkNetChain::Testnet).ok().unwrap();
    let handle = TransactionHandle::new(felt("0xab"));
    let poller = client.wait_for_transaction_acceptance(handle);
    assert_eq!(poller.state(), PollState::Querying);
    assert_eq!(poller.handle(), handle);
    assert_eq!(poller.next_action(), PollAction::Query(handle));
}
