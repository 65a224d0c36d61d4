use badge_client::chain::StarkNetChain;
use badge_client::error::ConfigError;

#[test]
fn testnet_is_selected_by_its_name() {
    assert_eq!(StarkNetChain::from_str("TESTNET"), Ok(StarkNetChain::Testnet));
}

#[test]
fn mainnet_is_selected_by_its_name() {
    assert_eq!(StarkNetChain::from_str("MAINNET"), Ok(StarkNetChain::Mainnet));
}

#[test]
fn selection_is_case_sensitive() {
    assert_eq!(StarkNetChain::from_str("testnet"), Err(ConfigError::UnrecognizedChain));
    assert_eq!(StarkNetChain::from_str("Mainnet"), Err(ConfigError::UnrecognizedChain));
    assert_eq!(StarkNetChain::from_str("MAINNEt"), Err(ConfigError::UnrecognizedChain));
}

#[test]
fn selection_has_no_partial_match_and_no_default() {
    for input in ["", " ", "TEST", "TESTNET ", " TESTNET", "TESTNETS", "MAINNET\n", "MAIN", "GOERLI", "TESTNETMAINNET", "T\u{c9}STNET"] {
        assert_eq!(StarkNetChain::from_str(input), Err(ConfigError::UnrecognizedChain), "{:?}", input);
    }
}

#[test]
fn selection_is_deterministic() {
    for input in ["TESTNET", "MAINNET", "other"] {
        assert_eq!(StarkNetChain::from_str(input), StarkNetChain::from_str(input));
    }
}

#[test]
fn a_name_selects_its_own_chain() {
    for chain in [StarkNetChain::Testnet, StarkNetChain::Mainnet] {
        assert_eq!(StarkNetChain::from_str(chain.name()), Ok(chain));
    }
    assert_eq!(StarkNetChain::Testnet.name(), "TESTNET");
    assert_eq!(StarkNetChain::Mainnet.name(), "MAINNET");
}

#[test]
fn unrecognized_chain_has_a_message() {
    assert_eq!(
        ConfigError::UnrecognizedChain.message(),
        "Chain must be either 'MAINNET' or 'TESTNET'"
    );
}
