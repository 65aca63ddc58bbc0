//! The Bitcoin networks a wallet can act on.

use vstd::prelude::*;

verus! {

/// The network whose coins and addresses are being handled.
#[derive(Clone, Copy, Debug, PartialEq, Eq, Structural, Hash)]
pub enum Network {
    /// The main network.
    Bitcoin,
    /// The public test network.
    Testnet,
    /// The signet test network.
    Signet,
    /// A local regression-test network.
    Regtest,
}

/// The name by which `bitcoind` knows each network in its `-chain` option
/// and in the section headers of `bitcoin.conf`.
pub open spec fn core_arg(network: Network) -> Seq<char> {
    match network {
        Network::Bitcoin => "main"@,
        Network::Testnet => "test"@,
        Network::Signet => "signet"@,
        Network::Regtest => "regtest"@,
    }
}

/// The network a `bitcoind` chain name stands for, if it is one.
pub open spec fn network_of_core_arg(arg: Seq<char>) -> Option<Network> {
    if arg == "main"@ {
        Some(Network::Bitcoin)
    } else if arg == "test"@ {
        Some(Network::Testnet)
    } else if arg == "signet"@ {
        Some(Network::Signet)
    } else if arg == "regtest"@ {
        Some(Network::Regtest)
    } else {
        None
    }
}

/// The position of a network in the order in which configuration files
/// list them.
pub open spec fn network_rank(network: Network) -> nat {
    match network {
        Network::Bitcoin => 0,
        Network::Testnet => 1,
        Network::Signet => 2,
        Network::Regtest => 3,
    }
}

/// The four chain names are pairwise different, so naming a network and
/// reading the name back gives the same network.
pub proof fn lemma_core_arg_round_trip(network: Network)
    ensures
        network_of_core_arg(core_arg(network)) == Some(network),
        forall|other: Network| core_arg(other) == core_arg(network) ==> other == network,
{
    reveal_strlit("main");
    reveal_strlit("test");
    reveal_strlit("signet");
    reveal_strlit("regtest");
    assert("main"@.len() == 4);
    assert("test"@.len() == 4);
    assert("signet"@.len() == 6);
    assert("regtest"@.len() == 7);
    assert("main"@[0] == 'm');
    assert("test"@[0] == 't');
}

} // verus!
