//! Configuration of the DNS seed server.

use vstd::prelude::*;

verus! {

/// The network a DNS seed serves.
#[derive(Debug, Clone, Copy, PartialEq, Eq, Structural)]
pub enum Network {
    Mainnet,
    Testnet,
}

impl Network {
    /// The chain this network selects.
    pub fn chain_type(&self) -> (r: crate::options::ChainType)
        ensures
            self == Network::Mainnet ==> r == crate::options::ChainType::Mainnet,
            self == Network::Testnet ==> r == crate::options::ChainType::Testnet,
    {
        match self {
            Network::Mainnet => crate::options::ChainType::Mainnet,
            Network::Testnet => crate::options::ChainType::Testnet,
        }
    }
}

} // verus!
