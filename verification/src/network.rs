//! The network a node configuration selects.

use vstd::prelude::*;

verus! {

/// The known networks a node can join.
pub enum Network {
    Mainnet,
    Testnet,
    Local,
}

impl Network {
    /// The display name of this network.
    pub open spec fn spec_name(self) -> Seq<char> {
        match self {
            Network::Mainnet => "Mainnet"@,
            Network::Testnet => "Testnet"@,
            Network::Local => "Local"@,
        }
    }

    /// Returns the display name of this network.
    pub fn as_str(&self) -> (r: &'static str)
        ensures
            r@ == self.spec_name(),
    {
        match self {
            Network::Mainnet => "Mainnet",
            Network::Testnet => "Testnet",
            Network::Local => "Local",
        }
    }
}

} // verus!
