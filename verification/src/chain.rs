//! Chain identifiers: the numeric id a ledger runs under, and the registry
//! of reserved, human-readable chain names.

use vstd::prelude::*;

verus! {

/// A registry of named chain IDs.
/// Its main purpose is to improve human readability of reserved chain IDs in
/// configuration files and command-line input. When signing transactions for
/// such chains, the numerical chain ID is still what counts.
#[derive(Clone, Copy, Debug, PartialEq, Eq, Structural)]
pub enum NamedChain {
    /// The production chain, reserved for id 0.
    MAINNET,
    /// The chains below are non-reserved, non-production, and may change
    /// over time. They are listed for convenience.
    PREMAINNET,
    TESTNET,
    DEVNET,
    TESTING,
}

/// The numeric id of the executing ledger. A transaction is only valid for
/// the chain whose id it names.
#[derive(Clone, Copy, Debug, PartialEq, Eq, Structural)]
pub struct ChainId(pub u8);

/// The id reserved for each named chain.
pub open spec fn named_chain_id(c: NamedChain) -> u8 {
    match c {
        NamedChain::MAINNET => 0,
        NamedChain::PREMAINNET => 1,
        NamedChain::TESTNET => 2,
        NamedChain::DEVNET => 3,
        NamedChain::TESTING => 4,
    }
}

/// The reserved chain named by a string, if any.
pub open spec fn spec_named_chain_of(s: Seq<char>) -> Option<NamedChain> {
    if s == "MAINNET"@ {
        Some(NamedChain::MAINNET)
    } else if s == "PREMAINNET"@ {
        Some(NamedChain::PREMAINNET)
    } else if s == "TESTNET"@ {
        Some(NamedChain::TESTNET)
    } else if s == "DEVNET"@ {
        Some(NamedChain::DEVNET)
    } else if s == "TESTING"@ {
        Some(NamedChain::TESTING)
    } else {
        None
    }
}

/// String equality on views, computed by comparing owned copies.
fn str_eq(a: &str, b: &str) -> (r: bool)
    ensures
        r == (a@ == b@),
{
    let x = a.to_owned();
    let y = b.to_owned();
    x == y
}

impl NamedChain {
    /// The chain id of the reserved chain a string names, or `None` where
    /// the string names no reserved chain.
    pub fn str_to_chain_id(s: &str) -> (r: Option<ChainId>)
        ensures
            r == match spec_named_chain_of(s@) {
                Some(c) => Some(ChainId(named_chain_id(c))),
                None => None::<ChainId>,
            },
    {
        if str_eq(s, "MAINNET") {
            Some(ChainId::new(NamedChain::MAINNET.id()))
        } else if str_eq(s, "PREMAINNET") {
            Some(ChainId::new(NamedChain::PREMAINNET.id()))
        } else if str_eq(s, "TESTNET") {
            Some(ChainId::new(NamedChain::TESTNET.id()))
        } else if str_eq(s, "DEVNET") {
            Some(ChainId::new(NamedChain::DEVNET.id()))
        } else if str_eq(s, "TESTING") {
            Some(ChainId::new(NamedChain::TESTING.id()))
        } else {
            None
        }
    }

    /// The id reserved for this named chain.
    pub fn id(&self) -> (r: u8)
        ensures
            r == named_chain_id(*self),
    {
        match self {
            NamedChain::MAINNET => 0,
            NamedChain::PREMAINNET => 1,
            NamedChain::TESTNET => 2,
            NamedChain::DEVNET => 3,
            NamedChain::TESTING => 4,
        }
    }
}

impl Default for ChainId {
    /// The chain a ledger runs under when none is configured: the one
    /// reserved for testing.
    fn default() -> (r: Self)
        ensures
            r == ChainId(named_chain_id(NamedChain::TESTING)),
    {
        ChainId::test()
    }
}

impl ChainId {
    pub fn new(id: u8) -> (r: Self)
        ensures
            r == ChainId(id),
    {
        ChainId(id)
    }

    pub fn id(&self) -> (r: u8)
        ensures
            r == self.0,
    {
        self.0
    }

    /// The chain id used by tests: the one reserved for the TESTING chain.
    pub fn test() -> (r: Self)
        ensures
            r == ChainId(named_chain_id(NamedChain::TESTING)),
    {
        ChainId::new(NamedChain::TESTING.id())
    }
}

} // verus!
