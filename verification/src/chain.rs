//! Selection of the network that the client talks to.

use crate::error::ConfigError;
use vstd::prelude::*;

verus! {

/// The networks that the client can be bound to. A value of this type is the whole
/// network profile: the endpoint for queries, the endpoint for submissions and the
/// chain identifier used in signing are all derived from it, so they cannot disagree.
#[derive(Clone, Copy, Debug, PartialEq, Eq, Structural)]
pub enum StarkNetChain {
    /// The public test network.
    Testnet,
    /// The main network.
    Mainnet,
}

/// The network that a selector names: `TESTNET` or `MAINNET`, in exactly this
/// spelling, and nothing else.
pub open spec fn selected_chain(input: Seq<char>) -> Option<StarkNetChain> {
    if input == "TESTNET"@ {
        Some(StarkNetChain::Testnet)
    } else if input == "MAINNET"@ {
        Some(StarkNetChain::Mainnet)
    } else {
        None
    }
}

/// Whether `input` and `word` hold the same characters.
fn same_text(input: &str, word: &str) -> (same: bool)
    ensures
        same == (input@ == word@),
{
    let n: usize = word.unicode_len();
    if input.unicode_len() != n {
        return false;
    }
    let mut i: usize = 0;
    while i < n
        invariant
            i <= n,
            n == word@.len(),
            n == input@.len(),
            forall|j: int| 0 <= j < i ==> input@[j] == word@[j],
        decreases n - i,
    {
        if input.get_char(i) != word.get_char(i) {
            return false;
        }
        i += 1;
    }
    assert(input@ =~= word@);
    true
}

impl StarkNetChain {
    /// The selector that names this network.
    pub open spec fn spec_name(self) -> Seq<char> {
        match self {
            StarkNetChain::Testnet => "TESTNET"@,
            StarkNetChain::Mainnet => "MAINNET"@,
        }
    }

    /// Reads a chain selector. Only `TESTNET` and `MAINNET` are known, case matters,
    /// and there is no default: every other input is `UnrecognizedChain`.
    pub fn from_str(input: &str) -> (chain: Result<StarkNetChain, ConfigError>)
        ensures
            chain == match selected_chain(input@) {
                Some(c) => Ok::<StarkNetChain, ConfigError>(c),
                None => Err(ConfigError::UnrecognizedChain),
            },
            chain is Ok <==> (input@ == "TESTNET"@ || input@ == "MAINNET"@),
            chain is Err ==> chain == Err::<StarkNetChain, ConfigError>(
                ConfigError::UnrecognizedChain,
            ),
    {
        if same_text(input, "TESTNET") {
            Ok(StarkNetChain::Testnet)
        } else if same_text(input, "MAINNET") {
            Ok(StarkNetChain::Mainnet)
        } else {
            Err(ConfigError::UnrecognizedChain)
        }
    }

    /// The selector that names this network.
    pub fn name(&self) -> (text: &'static str)
        ensures
            text@ == self.spec_name(),
    {
        match self {
            StarkNetChain::Testnet => "TESTNET",
            StarkNetChain::Mainnet => "MAINNET",
        }
    }
}

/// A selector names a network exactly where it is that network's own name: the two
/// names differ, and no other text selects anything.
pub proof fn lemma_selected_chain_is_exact(input: Seq<char>, chain: StarkNetChain)
    ensures
        selected_chain(input) == Some(chain) <==> input == chain.spec_name(),
        selected_chain(chain.spec_name()) == Some(chain),
{
    reveal_strlit("TESTNET");
    reveal_strlit("MAINNET");
    assert("TESTNET"@[0] != "MAINNET"@[0]);
}

} // verus!
