//! Node options: chain selection and the data directory.

use vstd::prelude::*;

verus! {

/// The chain a node runs on.
#[derive(Debug, Clone, Copy, PartialEq, Eq, Structural)]
pub enum ChainType {
    Mainnet,
    Testnet,
    Regtest,
    Signet,
}

impl ChainType {
    /// The name of the chain, used as its directory name.
    pub fn name(&self) -> (r: &'static str)
        ensures
            self == ChainType::Mainnet ==> r@ == "mainnet"@,
            self == ChainType::Testnet ==> r@ == "testnet"@,
            self == ChainType::Regtest ==> r@ == "regtest"@,
            self == ChainType::Signet ==> r@ == "signet"@,
    {
        match self {
            ChainType::Mainnet => "mainnet",
            ChainType::Testnet => "testnet",
            ChainType::Regtest => "regtest",
            ChainType::Signet => "signet",
        }
    }
}

/// The data directory of a chain: the chain's directory under the common
/// base directory. Finding the base directory is the caller's concern.
pub fn default_data_dir(base_dir: &str, chain_type: ChainType) -> (r: String)
    ensures
        r@ == base_dir@ + "/"@ + (match chain_type {
            ChainType::Mainnet => "mainnet"@,
            ChainType::Testnet => "testnet"@,
            ChainType::Regtest => "regtest"@,
            ChainType::Signet => "signet"@,
        }),
{
    let mut r = base_dir.to_string();
    r.append("/");
    r.append(chain_type.name());
    r
}

} // verus!
