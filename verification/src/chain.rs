//! The networks an Epic Cash node or wallet can run on.

use crate::text::same_text;
use vstd::prelude::*;

verus! {

/// The network a node or wallet is started on.
#[derive(Clone, Copy, Debug, PartialEq, Eq, Structural)]
pub enum ChainType {
    /// The private network used by automated tests.
    AutomatedTesting,
    /// A private network run by the user (`--usernet`).
    UserTesting,
    /// The public test network (`--floonet`).
    Floonet,
    /// The main network.
    Mainnet,
}

/// The short name of a network, as used for its directory under `~/.epic`.
pub open spec fn shortname_spec(chain: ChainType) -> Seq<char> {
    match chain {
        ChainType::AutomatedTesting => "auto"@,
        ChainType::UserTesting => "user"@,
        ChainType::Floonet => "floo"@,
        ChainType::Mainnet => "main"@,
    }
}

/// The network that a name given on the command line stands for: `auto`,
/// `user` or `usernet`, `floo` or `floonet`, `main` or `mainnet`.
pub open spec fn chain_from_name(name: Seq<char>) -> Option<ChainType> {
    if name == "auto"@ {
        Some(ChainType::AutomatedTesting)
    } else if name == "user"@ || name == "usernet"@ {
        Some(ChainType::UserTesting)
    } else if name == "floo"@ || name == "floonet"@ {
        Some(ChainType::Floonet)
    } else if name == "main"@ || name == "mainnet"@ {
        Some(ChainType::Mainnet)
    } else {
        None
    }
}

/// The networks that the node, wallet and miner commands can be run on; the
/// network for automated tests is not one of them.
pub open spec fn is_network_spec(chain: ChainType) -> bool {
    chain != ChainType::AutomatedTesting
}

impl ChainType {
    /// Whether the node, wallet and miner commands can be run on this network.
    pub fn is_network(&self) -> (network: bool)
        ensures
            network == is_network_spec(*self),
    {
        !matches!(self, ChainType::AutomatedTesting)
    }

    /// The short name of this network: `auto`, `user`, `floo` or `main`.
    pub fn shortname(&self) -> (name: String)
        ensures
            name@ == shortname_spec(*self),
    {
        match self {
            ChainType::AutomatedTesting => String::from_str("auto"),
            ChainType::UserTesting => String::from_str("user"),
            ChainType::Floonet => String::from_str("floo"),
            ChainType::Mainnet => String::from_str("main"),
        }
    }
}

/// The short name of a network.
pub fn chain_type_to_str(chain_type: ChainType) -> (name: String)
    ensures
        name@ == shortname_spec(chain_type),
{
    chain_type.shortname()
}

/// Whether a name stands for a network: `auto`, `user`, `usernet`, `floo`,
/// `floonet`, `main` or `mainnet`.
pub fn is_chain_name(shortname: &str) -> (known: bool)
    ensures
        known == chain_from_name(shortname@) is Some,
{
    same_text(shortname, "auto") || same_text(shortname, "user") || same_text(shortname, "usernet")
        || same_text(shortname, "floo") || same_text(shortname, "floonet") || same_text(
        shortname,
        "main",
    ) || same_text(shortname, "mainnet")
}

/// The network that a short name stands for; a name that stands for no
/// network is ruled out.
pub fn str_to_chain_type(shortname: &str) -> (chain: ChainType)
    requires
        chain_from_name(shortname@) is Some,
    ensures
        chain_from_name(shortname@) == Some(chain),
{
    if same_text(shortname, "auto") {
        ChainType::AutomatedTesting
    } else if same_text(shortname, "user") || same_text(shortname, "usernet") {
        ChainType::UserTesting
    } else if same_text(shortname, "floo") || same_text(shortname, "floonet") {
        ChainType::Floonet
    } else {
        ChainType::Mainnet
    }
}

/// Reading back the short name of a network gives that network.
pub proof fn law_shortname_round_trip(chain: ChainType)
    ensures
        chain_from_name(shortname_spec(chain)) == Some(chain),
{
    reveal_strlit("auto");
    reveal_strlit("user");
    reveal_strlit("usernet");
    reveal_strlit("floo");
    reveal_strlit("floonet");
    reveal_strlit("main");
    reveal_strlit("mainnet");
    match chain {
        ChainType::AutomatedTesting => {},
        ChainType::UserTesting => {
            assert("user"@[0] != "auto"@[0]);
        },
        ChainType::Floonet => {
            assert("floo"@[0] != "auto"@[0]);
            assert("floo"@[0] != "user"@[0]);
            assert("floo"@[0] != "usernet"@[0]);
        },
        ChainType::Mainnet => {
            assert("main"@[0] != "auto"@[0]);
            assert("main"@[0] != "user"@[0]);
            assert("main"@[0] != "usernet"@[0]);
            assert("main"@[0] != "floo"@[0]);
            assert("main"@[0] != "floonet"@[0]);
        },
    }
}

/// A name stands for a network exactly when it is the network's short name,
/// or, for the user's, test and main networks, the short name followed by
/// `net`.
pub proof fn law_network_names(name: Seq<char>, chain: ChainType)
    ensures
        chain_from_name(name) == Some(chain) <==> (name == shortname_spec(chain) || (chain
            != ChainType::AutomatedTesting && name == shortname_spec(chain) + "net"@)),
{
    reveal_strlit("auto");
    reveal_strlit("user");
    reveal_strlit("usernet");
    reveal_strlit("floo");
    reveal_strlit("floonet");
    reveal_strlit("main");
    reveal_strlit("mainnet");
    reveal_strlit("net");
    assert("user"@ + "net"@ =~= "usernet"@);
    assert("floo"@ + "net"@ =~= "floonet"@);
    assert("main"@ + "net"@ =~= "mainnet"@);
    law_shortname_round_trip(chain);
    let names = seq!["auto"@, "user"@, "usernet"@, "floo"@, "floonet"@, "main"@, "mainnet"@];
    assert forall|i: int, j: int| 0 <= i < j < 7 implies names[i] != names[j] by {
        if names[i].len() == names[j].len() {
            assert(names[i][0] != names[j][0]);
        }
    }
    assert(names[0] == "auto"@ && names[1] == "user"@ && names[2] == "usernet"@);
    assert(names[3] == "floo"@ && names[4] == "floonet"@ && names[5] == "main"@);
    assert(names[6] == "mainnet"@);
}

} // verus!
