//! The `bitcoin.conf` file of a `bitcoind` that the installer runs
//! itself: one section for each network, with the ports to listen on and
//! the prune target.

use crate::btc::{network_core_arg, network_from_core_arg};
use crate::conf_ini::{
    ini_new, ini_read, ini_sections, ini_set, no_property_keyed, no_section_named,
    property_views, section_views, IniSection, PropertyView, SectionView,
};
use crate::decimal::{
    decimal_digits, format_u64, lemma_decimal_round_trip, parse_number, parse_outcome,
    IntErrorKind,
};
use crate::network::{core_arg, lemma_core_arg_round_trip, network_of_core_arg, Network};
use vstd::prelude::*;
use vstd::string::*;

verus! {

/// Default prune value used by internal bitcoind.
pub const PRUNE_DEFAULT: u32 = 15_000;

/// Default ports used by bitcoind across all networks.
pub const BITCOIND_DEFAULT_PORTS: [u16; 8] = [8332, 8333, 18332, 18333, 18443, 18444, 38332, 38333];

/// Whether `bitcoind` uses a port by default on some network.
pub open spec fn is_default_port(port: u16) -> bool {
    port == 8332 || port == 8333 || port == 18332 || port == 18333 || port == 18443 || port
        == 18444 || port == 38332 || port == 38333
}

/// Checks if port is valid for use by internal bitcoind: it is, unless
/// `bitcoind` uses it by default on some network.
pub fn port_is_valid(port: &u16) -> (r: bool)
    ensures
        r == !is_default_port(*port),
{
    let mut i: usize = 0;
    while i < 8
        invariant
            0 <= i <= 8,
            BITCOIND_DEFAULT_PORTS@ =~= seq![8332u16, 8333, 18332, 18333, 18443, 18444, 38332, 38333],
            forall|k: int| 0 <= k < i ==> BITCOIND_DEFAULT_PORTS@[k] != *port,
        decreases 8 - i,
    {
        if BITCOIND_DEFAULT_PORTS[i] == *port {
            return false;
        }
        i = i + 1;
    }
    proof {
        assert(BITCOIND_DEFAULT_PORTS@[0] != *port);
        assert(BITCOIND_DEFAULT_PORTS@[1] != *port);
        assert(BITCOIND_DEFAULT_PORTS@[2] != *port);
        assert(BITCOIND_DEFAULT_PORTS@[3] != *port);
        assert(BITCOIND_DEFAULT_PORTS@[4] != *port);
        assert(BITCOIND_DEFAULT_PORTS@[5] != *port);
        assert(BITCOIND_DEFAULT_PORTS@[6] != *port);
        assert(BITCOIND_DEFAULT_PORTS@[7] != *port);
    }
    true
}

/// How often a free port is asked for before the search is given up.
pub const PORT_ATTEMPTS: u32 = 10;

/// What becomes of the search for a port after one more attempt.
#[derive(Debug, PartialEq, Eq)]
pub enum PortSearch {
    /// The port can be used.
    Found(u16),
    /// The search is over without a port; the text says why.
    Failed(String),
    /// Another port is to be asked for.
    Again,
}

/// Judges one attempt to get a free port from the system, after `made`
/// earlier attempts. An error of the system ends the search with its text.
/// A port that `bitcoind` does not use by default is taken. Any other port
/// calls for another attempt, unless this was the last of
/// `PORT_ATTEMPTS`.
pub fn port_attempt(made: u32, outcome: Result<u16, String>) -> (r: PortSearch)
    ensures
        match outcome {
            Err(e) => r == PortSearch::Failed(e),
            Ok(port) => if !is_default_port(port) {
                r == PortSearch::Found(port)
            } else if made + 1 < PORT_ATTEMPTS {
                r == PortSearch::Again
            } else {
                r matches PortSearch::Failed(text) && text@ == "Exhausted attempts"@
            },
        },
{
    match outcome {
        Err(e) => PortSearch::Failed(e),
        Ok(port) => {
            if port_is_valid(&port) {
                PortSearch::Found(port)
            } else if made < PORT_ATTEMPTS - 1 {
                PortSearch::Again
            } else {
                PortSearch::Failed(String::from_str("Exhausted attempts"))
            }
        },
    }
}

/// Represents section for a single network in `bitcoin.conf` file.
#[derive(PartialEq, Eq, Structural, Debug, Clone, Copy)]
pub struct InternalBitcoindNetworkConfig {
    /// The port on which the RPC server listens.
    pub rpc_port: u16,
    /// Port for connections from peers.
    pub p2p_port: u16,
    /// Prune target, in MiB.
    pub prune: u32,
}

/// Why a `bitcoin.conf` cannot be used, read or written.
#[derive(PartialEq, Eq, Debug, Clone)]
pub enum InternalBitcoindConfigError {
    KeyNotFound(String),
    CouldNotParseValue(String),
    UnexpectedSection(String),
    TooManyElements(String),
    FileNotFound,
    ReadingFile(String),
    WritingFile(String),
    Unexpected(String),
}

/// The text that tells a user of an error.
pub open spec fn error_text(error: InternalBitcoindConfigError) -> Seq<char> {
    match error {
        InternalBitcoindConfigError::KeyNotFound(e) => "Config file does not contain expected key: "@
            + e@,
        InternalBitcoindConfigError::CouldNotParseValue(e) => "Value could not be parsed: "@ + e@,
        InternalBitcoindConfigError::UnexpectedSection(e) => "Unexpected section in file: "@ + e@,
        InternalBitcoindConfigError::TooManyElements(e) =>
            "Section in file contains too many elements: "@ + e@,
        InternalBitcoindConfigError::FileNotFound => "File not found"@,
        InternalBitcoindConfigError::ReadingFile(e) => "Error while reading file: "@ + e@,
        InternalBitcoindConfigError::WritingFile(e) => "Error while writing file: "@ + e@,
        InternalBitcoindConfigError::Unexpected(e) => "Unexpected error: "@ + e@,
    }
}

impl InternalBitcoindConfigError {
    /// The text that tells a user of this error.
    pub fn message(&self) -> (r: String)
        ensures
            r@ == error_text(*self),
    {
        match self {
            Self::KeyNotFound(e) => String::from_str(
                "Config file does not contain expected key: ",
            ).concat(e.as_str()),
            Self::CouldNotParseValue(e) => String::from_str("Value could not be parsed: ").concat(
                e.as_str(),
            ),
            Self::UnexpectedSection(e) => String::from_str("Unexpected section in file: ").concat(
                e.as_str(),
            ),
            Self::TooManyElements(e) => String::from_str(
                "Section in file contains too many elements: ",
            ).concat(e.as_str()),
            Self::FileNotFound => String::from_str("File not found"),
            Self::ReadingFile(e) => String::from_str("Error while reading file: ").concat(
                e.as_str(),
            ),
            Self::WritingFile(e) => String::from_str("Error while writing file: ").concat(
                e.as_str(),
            ),
            Self::Unexpected(e) => String::from_str("Unexpected error: ").concat(e.as_str()),
        }
    }
}

/// What is wrong with the sections of a file.
pub ghost enum ConfigFailure {
    /// A section lacks the key.
    KeyNotFound(Seq<char>),
    /// A value is no number of the expected size.
    CouldNotParseValue(IntErrorKind),
    /// A section has a name that is no network's.
    UnknownSection(Seq<char>),
    /// The general section holds a property.
    GeneralSectionNotEmpty,
    /// The section of that name has more than three different keys.
    TooManyElements(Seq<char>),
}

/// The words for each reason why a text is no number.
pub open spec fn int_error_text(kind: IntErrorKind) -> Seq<char> {
    match kind {
        IntErrorKind::Empty => "cannot parse integer from empty string"@,
        IntErrorKind::InvalidDigit => "invalid digit found in string"@,
        IntErrorKind::PosOverflow => "number too large to fit in target type"@,
    }
}

/// Whether an error reports a failure. Of a section that is no network's
/// the error carries a text that the `bitcoin` crate words.
pub open spec fn reports(error: InternalBitcoindConfigError, failure: ConfigFailure) -> bool {
    match failure {
        ConfigFailure::KeyNotFound(key) => error matches InternalBitcoindConfigError::KeyNotFound(e)
            && e@ == key,
        ConfigFailure::CouldNotParseValue(kind) => error
            matches InternalBitcoindConfigError::CouldNotParseValue(e) && e@ == int_error_text(
            kind,
        ),
        ConfigFailure::UnknownSection(_) => error is UnexpectedSection,
        ConfigFailure::GeneralSectionNotEmpty => error
            matches InternalBitcoindConfigError::UnexpectedSection(e) && e@
            == "General section should be empty"@,
        ConfigFailure::TooManyElements(name) => error
            matches InternalBitcoindConfigError::TooManyElements(e) && e@ == name,
    }
}

/// The first value that a list of properties gives a key.
pub open spec fn first_value(properties: Seq<PropertyView>, key: Seq<char>) -> Option<Seq<char>>
    decreases properties.len(),
{
    if properties.len() == 0 {
        None
    } else {
        match first_value(properties.drop_last(), key) {
            Some(value) => Some(value),
            None => if properties.last().0 == key {
                Some(properties.last().1)
            } else {
                None
            },
        }
    }
}

/// Number of different keys in a list of properties.
pub open spec fn key_count(properties: Seq<PropertyView>) -> nat
    decreases properties.len(),
{
    if properties.len() == 0 {
        0
    } else if no_property_keyed(properties.drop_last(), properties.last().0) {
        key_count(properties.drop_last()) + 1
    } else {
        key_count(properties.drop_last())
    }
}

/// The number that a section gives under a key, which must not exceed
/// `max`.
pub open spec fn number_under(properties: Seq<PropertyView>, key: Seq<char>, max: nat) -> Result<
    nat,
    ConfigFailure,
> {
    match first_value(properties, key) {
        None => Err(ConfigFailure::KeyNotFound(key)),
        Some(value) => match parse_outcome(value, max) {
            Ok(n) => Ok(n),
            Err(kind) => Err(ConfigFailure::CouldNotParseValue(kind)),
        },
    }
}

/// What a section with a name says: the network that the name stands for
/// and its configuration. The name is judged first, then the number of
/// keys, then `rpcport`, `port` and `prune` in this order.
pub open spec fn network_section_outcome(name: Seq<char>, properties: Seq<PropertyView>) -> Result<
    (Network, InternalBitcoindNetworkConfig),
    ConfigFailure,
> {
    match network_of_core_arg(name) {
        None => Err(ConfigFailure::UnknownSection(name)),
        Some(network) => if key_count(properties) > 3 {
            Err(ConfigFailure::TooManyElements(name))
        } else {
            match number_under(properties, "rpcport"@, u16::MAX as nat) {
                Err(failure) => Err(failure),
                Ok(rpc_port) => match number_under(properties, "port"@, u16::MAX as nat) {
                    Err(failure) => Err(failure),
                    Ok(p2p_port) => match number_under(properties, "prune"@, u32::MAX as nat) {
                        Err(failure) => Err(failure),
                        Ok(prune) => Ok(
                            (
                                network,
                                InternalBitcoindNetworkConfig {
                                    rpc_port: rpc_port as u16,
                                    p2p_port: p2p_port as u16,
                                    prune: prune as u32,
                                },
                            ),
                        ),
                    },
                },
            }
        },
    }
}

/// What the sections of a file say: the configuration of each network
/// that has a section, the last section of a network counting, or what is
/// wrong with the first section that is not as it should be.
pub open spec fn config_of_sections(sections: Seq<SectionView>) -> Result<
    Map<Network, InternalBitcoindNetworkConfig>,
    ConfigFailure,
>
    decreases sections.len(),
{
    if sections.len() == 0 {
        Ok(Map::empty())
    } else {
        match config_of_sections(sections.drop_last()) {
            Err(failure) => Err(failure),
            Ok(networks) => match sections.last().0 {
                None => if sections.last().1.len() == 0 {
                    Ok(networks)
                } else {
                    Err(ConfigFailure::GeneralSectionNotEmpty)
                },
                Some(name) => match network_section_outcome(name, sections.last().1) {
                    Err(failure) => Err(failure),
                    Ok((network, config)) => Ok(networks.insert(network, config)),
                },
            },
        }
    }
}

/// The section that a network's configuration is written as.
pub open spec fn section_of_network(
    network: Network,
    config: InternalBitcoindNetworkConfig,
) -> SectionView {
    (
        Some(core_arg(network)),
        seq![
            ("rpcport"@, decimal_digits(config.rpc_port as nat)),
            ("port"@, decimal_digits(config.p2p_port as nat)),
            ("prune"@, decimal_digits(config.prune as nat)),
        ],
    )
}

/// The sections so far, and that of a network if it is configured.
pub open spec fn with_section_of(
    sections: Seq<SectionView>,
    networks: Map<Network, InternalBitcoindNetworkConfig>,
    network: Network,
) -> Seq<SectionView> {
    if networks.contains_key(network) {
        sections.push(section_of_network(network, networks[network]))
    } else {
        sections
    }
}

/// The sections that a configuration is written as: an empty general
/// section, then one section for each configured network, the main network
/// first, then testnet, signet and regtest.
pub open spec fn sections_of_config(
    networks: Map<Network, InternalBitcoindNetworkConfig>,
) -> Seq<SectionView> {
    with_section_of(
        with_section_of(
            with_section_of(
                with_section_of(
                    seq![(None::<Seq<char>>, Seq::<PropertyView>::empty())],
                    networks,
                    Network::Bitcoin,
                ),
                networks,
                Network::Testnet,
            ),
            networks,
            Network::Signet,
        ),
        networks,
        Network::Regtest,
    )
}

/// Represents the `bitcoin.conf` file to be used by internal bitcoind.
#[derive(Debug, Clone, Copy)]
pub struct InternalBitcoindConfig {
    bitcoin: Option<InternalBitcoindNetworkConfig>,
    testnet: Option<InternalBitcoindNetworkConfig>,
    signet: Option<InternalBitcoindNetworkConfig>,
    regtest: Option<InternalBitcoindNetworkConfig>,
}

impl InternalBitcoindConfig {
    /// The entry of one network.
    pub closed spec fn entry(&self, network: Network) -> Option<InternalBitcoindNetworkConfig> {
        match network {
            Network::Bitcoin => self.bitcoin,
            Network::Testnet => self.testnet,
            Network::Signet => self.signet,
            Network::Regtest => self.regtest,
        }
    }
}

impl View for InternalBitcoindConfig {
    type V = Map<Network, InternalBitcoindNetworkConfig>;

    open spec fn view(&self) -> Map<Network, InternalBitcoindNetworkConfig> {
        Map::new(|network: Network| self.entry(network).is_some(), |network: Network| self.entry(network).unwrap())
    }
}

impl Default for InternalBitcoindConfig {
    fn default() -> (r: Self)
        ensures
            r@ == Map::<Network, InternalBitcoindNetworkConfig>::empty(),
    {
        Self::new()
    }
}

impl InternalBitcoindConfig {
    /// A configuration with no network.
    pub fn new() -> (r: Self)
        ensures
            r@ == Map::<Network, InternalBitcoindNetworkConfig>::empty(),
    {
        let r = Self { bitcoin: None, testnet: None, signet: None, regtest: None };
        proof {
            assert(r@ =~= Map::<Network, InternalBitcoindNetworkConfig>::empty());
        }
        r
    }

    /// The configuration of a network, if it has one.
    pub fn get(&self, network: Network) -> (r: Option<InternalBitcoindNetworkConfig>)
        ensures
            r.is_some() == self@.contains_key(network),
            r.is_some() ==> r.unwrap() == self@[network],
    {
        match network {
            Network::Bitcoin => self.bitcoin,
            Network::Testnet => self.testnet,
            Network::Signet => self.signet,
            Network::Regtest => self.regtest,
        }
    }

    /// Gives a network a configuration, in place of any it had.
    pub fn insert(&mut self, network: Network, config: InternalBitcoindNetworkConfig)
        ensures
            final(self)@ == old(self)@.insert(network, config),
    {
        match network {
            Network::Bitcoin => {
                self.bitcoin = Some(config);
            },
            Network::Testnet => {
                self.testnet = Some(config);
            },
            Network::Signet => {
                self.signet = Some(config);
            },
            Network::Regtest => {
                self.regtest = Some(config);
            },
        }
        proof {
            assert forall|n: Network| #[trigger]
                final(self)@.contains_key(n) == old(self)@.insert(network, config).contains_key(
                    n,
                ) by {
                assert(final(self).entry(n).is_some() == (n == network || old(self).entry(
                    n,
                ).is_some()));
            }
            assert(final(self)@ =~= old(self)@.insert(network, config));
        }
    }

    /// Number of networks that have a configuration.
    pub fn len(&self) -> (r: usize)
        ensures
            r == self@.len(),
    {
        proof {
            lemma_config_len(*self);
        }
        let mut n: usize = 0;
        if self.bitcoin.is_some() {
            n = n + 1;
        }
        if self.testnet.is_some() {
            n = n + 1;
        }
        if self.signet.is_some() {
            n = n + 1;
        }
        if self.regtest.is_some() {
            n = n + 1;
        }
        n
    }
}

/// Counts the entries of a configuration.
pub open spec fn count_entry(entry: Option<InternalBitcoindNetworkConfig>) -> nat {
    if entry.is_some() {
        1
    } else {
        0
    }
}

/// A configuration holds as many networks as it has entries.
pub proof fn lemma_config_len(config: InternalBitcoindConfig)
    ensures
        config@.dom().finite(),
        config@.len() == count_entry(config.entry(Network::Bitcoin)) + count_entry(
            config.entry(Network::Testnet),
        ) + count_entry(config.entry(Network::Signet)) + count_entry(
            config.entry(Network::Regtest),
        ),
{
    let all = set![Network::Bitcoin, Network::Testnet, Network::Signet, Network::Regtest];
    let d0 = Set::<Network>::empty();
    let d1 = if config.entry(Network::Bitcoin).is_some() {
        d0.insert(Network::Bitcoin)
    } else {
        d0
    };
    let d2 = if config.entry(Network::Testnet).is_some() {
        d1.insert(Network::Testnet)
    } else {
        d1
    };
    let d3 = if config.entry(Network::Signet).is_some() {
        d2.insert(Network::Signet)
    } else {
        d2
    };
    let d4 = if config.entry(Network::Regtest).is_some() {
        d3.insert(Network::Regtest)
    } else {
        d3
    };
    assert(config@.dom() =~= d4);
}

/// Finds the first value that a list of properties gives a key.
pub fn lookup<'a>(properties: &'a Vec<(String, String)>, key: &str) -> (r: Option<&'a String>)
    ensures
        match r {
            Some(value) => first_value(property_views(properties@), key@) == Some(value@),
            None => first_value(property_views(properties@), key@).is_none(),
        },
{
    let wanted: String = String::from_str(key);
    let mut i: usize = 0;
    while i < properties.len()
        invariant
            0 <= i <= properties.len(),
            wanted@ == key@,
            first_value(property_views(properties@.subrange(0, i as int)), key@).is_none(),
        decreases properties.len() - i,
    {
        proof {
            let next = property_views(properties@.subrange(0, i + 1));
            assert(next.drop_last() =~= property_views(properties@.subrange(0, i as int)));
            assert(next.last() == (properties@[i as int].0@, properties@[i as int].1@));
        }
        if properties[i].0 == wanted {
            proof {
                lemma_first_value_of_prefix(property_views(properties@), key@, i + 1);
                assert(property_views(properties@).subrange(0, i + 1) =~= property_views(
                    properties@.subrange(0, i + 1),
                ));
            }
            return Some(&properties[i].1);
        }
        i = i + 1;
    }
    proof {
        assert(properties@.subrange(0, i as int) =~= properties@);
    }
    None
}

/// A value found among the first properties of a list is the first value
/// of the whole list.
pub proof fn lemma_first_value_of_prefix(properties: Seq<PropertyView>, key: Seq<char>, upto: int)
    requires
        0 <= upto <= properties.len(),
        first_value(properties.subrange(0, upto), key).is_some(),
    ensures
        first_value(properties, key) == first_value(properties.subrange(0, upto), key),
    decreases properties.len() - upto,
{
    if upto == properties.len() {
        assert(properties.subrange(0, upto) =~= properties);
    } else {
        assert(properties.drop_last().subrange(0, upto) =~= properties.subrange(0, upto));
        lemma_first_value_of_prefix(properties.drop_last(), key, upto);
    }
}

/// Counts the different keys of a list of properties.
pub fn count_keys(properties: &Vec<(String, String)>) -> (r: usize)
    ensures
        r == key_count(property_views(properties@)),
{
    let ghost views = property_views(properties@);
    let mut count: usize = 0;
    let mut i: usize = 0;
    while i < properties.len()
        invariant
            0 <= i <= properties.len(),
            views == property_views(properties@),
            count == key_count(views.subrange(0, i as int)),
            count <= i,
        decreases properties.len() - i,
    {
        let mut seen: bool = false;
        let mut j: usize = 0;
        while j < i
            invariant
                0 <= j <= i < properties.len(),
                views == property_views(properties@),
                seen == !no_property_keyed(views.subrange(0, j as int), views[i as int].0),
            decreases i - j,
        {
            if properties[j].0 == properties[i].0 {
                seen = true;
                proof {
                    assert(views.subrange(0, j + 1)[j as int].0 == views[i as int].0);
                }
            } else {
                proof {
                    let key = views[i as int].0;
                    if no_property_keyed(views.subrange(0, j as int), key) {
                        assert forall|k: int| 0 <= k < j + 1 implies (#[trigger] views.subrange(
                            0,
                            j + 1,
                        )[k]).0 != key by {
                            if k < j {
                                assert(views.subrange(0, j as int)[k].0 != key);
                            }
                        }
                    } else {
                        let k = choose|k: int|
                            0 <= k < j && (#[trigger] views.subrange(0, j as int)[k]).0 == key;
                        assert(views.subrange(0, j + 1)[k].0 == key);
                    }
                }
            }
            j = j + 1;
        }
        proof {
            let next = views.subrange(0, i + 1);
            assert(next.drop_last() =~= views.subrange(0, i as int));
            assert(next.last() == views[i as int]);
        }
        if !seen {
            count = count + 1;
        }
        i = i + 1;
    }
    proof {
        assert(views.subrange(0, i as int) =~= views);
    }
    count
}

/// The words for a reason why a text is no number.
pub fn int_error_message(kind: IntErrorKind) -> (r: String)
    ensures
        r@ == int_error_text(kind),
{
    match kind {
        IntErrorKind::Empty => String::from_str("cannot parse integer from empty string"),
        IntErrorKind::InvalidDigit => String::from_str("invalid digit found in string"),
        IntErrorKind::PosOverflow => String::from_str("number too large to fit in target type"),
    }
}

/// Reads the number that a section gives under a key.
pub fn read_number(properties: &Vec<(String, String)>, key: &str, max: u64) -> (r: Result<
    u64,
    InternalBitcoindConfigError,
>)
    ensures
        match r {
            Ok(n) => number_under(property_views(properties@), key@, max as nat) == Ok::<
                nat,
                ConfigFailure,
            >(n as nat),
            Err(e) => number_under(property_views(properties@), key@, max as nat) matches Err(f)
                && reports(e, f),
        },
{
    match lookup(properties, key) {
        None => Err(InternalBitcoindConfigError::KeyNotFound(String::from_str(key))),
        Some(value) => match parse_number(value.as_str(), max) {
            Ok(n) => Ok(n),
            Err(kind) => Err(
                InternalBitcoindConfigError::CouldNotParseValue(int_error_message(kind)),
            ),
        },
    }
}

/// Reads the section of a network.
pub fn read_network_section(name: &str, properties: &Vec<(String, String)>) -> (r: Result<
    (Network, InternalBitcoindNetworkConfig),
    InternalBitcoindConfigError,
>)
    ensures
        match r {
            Ok(entry) => network_section_outcome(name@, property_views(properties@)) == Ok::<
                (Network, InternalBitcoindNetworkConfig),
                ConfigFailure,
            >(entry),
            Err(e) => network_section_outcome(name@, property_views(properties@)) matches Err(f)
                && reports(e, f),
        },
{
    let network: Network = match network_from_core_arg(name) {
        Ok(network) => network,
        Err(text) => {
            return Err(InternalBitcoindConfigError::UnexpectedSection(text));
        },
    };
    if count_keys(properties) > 3 {
        return Err(InternalBitcoindConfigError::TooManyElements(String::from_str(name)));
    }
    let rpc_port: u64 = match read_number(properties, "rpcport", 0xFFFF) {
        Ok(n) => n,
        Err(e) => {
            return Err(e);
        },
    };
    let p2p_port: u64 = match read_number(properties, "port", 0xFFFF) {
        Ok(n) => n,
        Err(e) => {
            return Err(e);
        },
    };
    let prune: u64 = match read_number(properties, "prune", 0xFFFF_FFFF) {
        Ok(n) => n,
        Err(e) => {
            return Err(e);
        },
    };
    Ok(
        (
            network,
            InternalBitcoindNetworkConfig {
                rpc_port: rpc_port as u16,
                p2p_port: p2p_port as u16,
                prune: prune as u32,
            },
        ),
    )
}

impl InternalBitcoindConfig {
    /// Reads the configuration from the sections of a file.
    pub fn from_sections(sections: &Vec<IniSection>) -> (r: Result<
        Self,
        InternalBitcoindConfigError,
    >)
        ensures
            match r {
                Ok(config) => config_of_sections(section_views(sections@)) matches Ok(networks)
                    && networks == config@,
                Err(e) => config_of_sections(section_views(sections@)) matches Err(f) && reports(
                    e,
                    f,
                ),
            },
    {
        let ghost views = section_views(sections@);
        let mut config = InternalBitcoindConfig::new();
        let mut i: usize = 0;
        while i < sections.len()
            invariant
                0 <= i <= sections.len(),
                views == section_views(sections@),
                config_of_sections(views.subrange(0, i as int)) matches Ok(networks) && networks
                    == config@,
            decreases sections.len() - i,
        {
            proof {
                let next = views.subrange(0, i + 1);
                assert(next.drop_last() =~= views.subrange(0, i as int));
                assert(next.last() == sections@[i as int]@);
            }
            match &sections[i].name {
                Some(name) => {
                    match read_network_section(name.as_str(), &sections[i].properties) {
                        Ok(entry) => {
                            config.insert(entry.0, entry.1);
                        },
                        Err(e) => {
                            proof {
                                lemma_failure_stays(views, i + 1);
                            }
                            return Err(e);
                        },
                    }
                },
                None => {
                    if sections[i].properties.len() > 0 {
                        proof {
                            lemma_failure_stays(views, i + 1);
                        }
                        return Err(
                            InternalBitcoindConfigError::UnexpectedSection(
                                String::from_str("General section should be empty"),
                            ),
                        );
                    }
                },
            }
            i = i + 1;
        }
        proof {
            assert(views.subrange(0, i as int) =~= views);
        }
        Ok(config)
    }

    /// Reads the configuration from a file in memory.
    pub fn from_ini(ini: &ini::Ini) -> (r: Result<Self, InternalBitcoindConfigError>)
        ensures
            match r {
                Ok(config) => config_of_sections(ini_sections(*ini)) matches Ok(networks)
                    && networks == config@,
                Err(e) => config_of_sections(ini_sections(*ini)) matches Err(f) && reports(e, f),
            },
    {
        let sections: Vec<IniSection> = ini_read(ini);
        Self::from_sections(&sections)
    }
}

/// What is wrong with the first sections of a file is wrong with the
/// file.
pub proof fn lemma_failure_stays(sections: Seq<SectionView>, upto: int)
    requires
        0 <= upto <= sections.len(),
        config_of_sections(sections.subrange(0, upto)).is_err(),
    ensures
        config_of_sections(sections) == config_of_sections(sections.subrange(0, upto)),
    decreases sections.len() - upto,
{
    if upto == sections.len() {
        assert(sections.subrange(0, upto) =~= sections);
    } else {
        assert(sections.drop_last().subrange(0, upto) =~= sections.subrange(0, upto));
        lemma_failure_stays(sections.drop_last(), upto);
    }
}

/// Writes the section of a network at the end of a file that has none
/// for it yet.
pub fn write_network_section(
    ini: &mut ini::Ini,
    network: Network,
    config: &InternalBitcoindNetworkConfig,
)
    requires
        no_section_named(ini_sections(*old(ini)), core_arg(network)),
    ensures
        ini_sections(*final(ini)) == ini_sections(*old(ini)).push(
            section_of_network(network, *config),
        ),
{
    let name: &'static str = network_core_arg(network);
    let rpc_port: String = format_u64(config.rpc_port as u64);
    let p2p_port: String = format_u64(config.p2p_port as u64);
    let prune: String = format_u64(config.prune as u64);
    let ghost before = ini_sections(*ini);
    proof {
        reveal_strlit("rpcport");
        reveal_strlit("port");
        reveal_strlit("prune");
        assert("rpcport"@.len() == 7);
        assert("port"@.len() == 4);
        assert("prune"@.len() == 5);
    }
    ini_set(ini, name, "rpcport", rpc_port.as_str());
    proof {
        let now = ini_sections(*ini);
        assert(now.drop_last() =~= before);
        assert(now.last().1[0].0 == "rpcport"@);
    }
    ini_set(ini, name, "port", p2p_port.as_str());
    proof {
        let now = ini_sections(*ini);
        assert(now.drop_last() =~= before);
        assert(now.last().1[0].0 == "rpcport"@);
        assert(now.last().1[1].0 == "port"@);
    }
    ini_set(ini, name, "prune", prune.as_str());
    proof {
        let now = ini_sections(*ini);
        assert(now.drop_last() =~= before);
        assert(now.last().1 =~= section_of_network(network, *config).1);
        assert(now =~= before.push(section_of_network(network, *config)));
    }
}

impl InternalBitcoindConfig {
    /// Writes the configuration as a file in memory.
    pub fn to_ini(&self) -> (r: ini::Ini)
        ensures
            ini_sections(r) == sections_of_config(self@),
    {
        let mut conf_ini: ini::Ini = ini_new();
        proof {
            lemma_core_arg_round_trip(Network::Bitcoin);
            lemma_core_arg_round_trip(Network::Testnet);
            lemma_core_arg_round_trip(Network::Signet);
            lemma_core_arg_round_trip(Network::Regtest);
        }
        match &self.bitcoin {
            Some(config) => {
                write_network_section(&mut conf_ini, Network::Bitcoin, config);
            },
            None => {},
        }
        match &self.testnet {
            Some(config) => {
                write_network_section(&mut conf_ini, Network::Testnet, config);
            },
            None => {},
        }
        match &self.signet {
            Some(config) => {
                write_network_section(&mut conf_ini, Network::Signet, config);
            },
            None => {},
        }
        match &self.regtest {
            Some(config) => {
                write_network_section(&mut conf_ini, Network::Regtest, config);
            },
            None => {},
        }
        conf_ini
    }
}

/// The directory, under the data directory of `bitcoind`, that holds the
/// files of a network; the main network has none of its own.
pub open spec fn network_dir(network: Network) -> Option<Seq<char>> {
    match network {
        Network::Bitcoin => None,
        Network::Testnet => Some("testnet3"@),
        Network::Signet => Some("signet"@),
        Network::Regtest => Some("regtest"@),
    }
}

/// Names the directory of a network under the data directory.
pub fn bitcoind_network_dir(network: &Network) -> (r: Option<String>)
    ensures
        match r {
            Some(dir) => network_dir(*network) == Some(dir@),
            None => network_dir(*network).is_none(),
        },
{
    let dir: &str = match network {
        Network::Bitcoin => {
            return None;
        },
        Network::Testnet => "testnet3",
        Network::Regtest => "regtest",
        Network::Signet => "signet",
    };
    Some(String::from_str(dir))
}

/// The address at which a `bitcoind` that runs on this machine with its
/// default settings serves RPC on a network.
pub open spec fn default_address(network: Network) -> Seq<char> {
    match network {
        Network::Bitcoin => "127.0.0.1:8332"@,
        Network::Testnet => "127.0.0.1:18332"@,
        Network::Regtest => "127.0.0.1:18443"@,
        Network::Signet => "127.0.0.1:38332"@,
    }
}

/// Gives the default RPC address of `bitcoind` on a network.
pub fn bitcoind_default_address(network: &Network) -> (r: String)
    ensures
        r@ == default_address(*network),
{
    match network {
        Network::Bitcoin => String::from_str("127.0.0.1:8332"),
        Network::Testnet => String::from_str("127.0.0.1:18332"),
        Network::Regtest => String::from_str("127.0.0.1:18443"),
        Network::Signet => String::from_str("127.0.0.1:38332"),
    }
}

/// RPC address for internal bitcoind: this machine, at the given port.
pub fn internal_bitcoind_address(rpc_port: u16) -> (r: String)
    ensures
        r@ == "127.0.0.1:"@ + decimal_digits(rpc_port as nat),
{
    String::from_str("127.0.0.1:").concat(format_u64(rpc_port as u64).as_str())
}

/// The section that a network's configuration is written as says that
/// configuration of that network.
pub proof fn lemma_section_round_trip(network: Network, config: InternalBitcoindNetworkConfig)
    ensures
        network_section_outcome(
            section_of_network(network, config).0.unwrap(),
            section_of_network(network, config).1,
        ) == Ok::<(Network, InternalBitcoindNetworkConfig), ConfigFailure>((network, config)),
{
    let properties = section_of_network(network, config).1;
    lemma_core_arg_round_trip(network);
    lemma_decimal_round_trip(config.rpc_port as nat, u16::MAX as nat);
    lemma_decimal_round_trip(config.p2p_port as nat, u16::MAX as nat);
    lemma_decimal_round_trip(config.prune as nat, u32::MAX as nat);
    reveal_strlit("rpcport");
    reveal_strlit("port");
    reveal_strlit("prune");
    assert("rpcport"@.len() == 7);
    assert("port"@.len() == 4);
    assert("prune"@.len() == 5);
    let one = properties.drop_last().drop_last();
    let two = properties.drop_last();
    assert(one =~= seq![("rpcport"@, decimal_digits(config.rpc_port as nat))]);
    assert(one.drop_last() =~= Seq::<PropertyView>::empty());
    assert(two.last() == ("port"@, decimal_digits(config.p2p_port as nat)));
    assert(properties.last() == ("prune"@, decimal_digits(config.prune as nat)));
    reveal_with_fuel(first_value, 4);
    reveal_with_fuel(key_count, 4);
    assert(no_property_keyed(one.drop_last(), "rpcport"@));
    assert(no_property_keyed(one, "port"@)) by {
        assert(one[0].0 == "rpcport"@);
    }
    assert(no_property_keyed(two, "prune"@)) by {
        assert(two[0].0 == "rpcport"@);
        assert(two[1].0 == "port"@);
    }
    assert(key_count(properties) == 3);
    assert(first_value(properties, "rpcport"@) == Some(decimal_digits(config.rpc_port as nat)));
    assert(first_value(properties, "port"@) == Some(decimal_digits(config.p2p_port as nat)));
    assert(first_value(properties, "prune"@) == Some(decimal_digits(config.prune as nat)));
}

/// Sections that say a configuration still do so, for one more network,
/// once the section of that network is written behind them.
pub proof fn lemma_with_section_of(
    sections: Seq<SectionView>,
    said: Map<Network, InternalBitcoindNetworkConfig>,
    networks: Map<Network, InternalBitcoindNetworkConfig>,
    network: Network,
)
    requires
        config_of_sections(sections) == Ok::<
            Map<Network, InternalBitcoindNetworkConfig>,
            ConfigFailure,
        >(said),
    ensures
        config_of_sections(with_section_of(sections, networks, network)) == Ok::<
            Map<Network, InternalBitcoindNetworkConfig>,
            ConfigFailure,
        >(with_entry_of(said, networks, network)),
{
    if networks.contains_key(network) {
        let next = with_section_of(sections, networks, network);
        assert(next.drop_last() =~= sections);
        assert(next.last() == section_of_network(network, networks[network]));
        lemma_section_round_trip(network, networks[network]);
    }
}

/// An empty general section says an empty configuration.
pub proof fn lemma_general_section_alone()
    ensures
        config_of_sections(seq![(None::<Seq<char>>, Seq::<PropertyView>::empty())]) == Ok::<
            Map<Network, InternalBitcoindNetworkConfig>,
            ConfigFailure,
        >(Map::empty()),
{
    let s0 = seq![(None::<Seq<char>>, Seq::<PropertyView>::empty())];
    assert(s0.drop_last() =~= Seq::<SectionView>::empty());
    assert(config_of_sections(s0.drop_last()) == Ok::<
        Map<Network, InternalBitcoindNetworkConfig>,
        ConfigFailure,
    >(Map::empty()));
    assert(s0.last().0.is_none());
    assert(s0.last().1.len() == 0);
}

/// The configuration `said` with that of `network`, where `networks` has
/// one.
pub open spec fn with_entry_of(
    said: Map<Network, InternalBitcoindNetworkConfig>,
    networks: Map<Network, InternalBitcoindNetworkConfig>,
    network: Network,
) -> Map<Network, InternalBitcoindNetworkConfig> {
    if networks.contains_key(network) {
        said.insert(network, networks[network])
    } else {
        said
    }
}

/// A configuration that is written and read back is the same
/// configuration.
pub proof fn lemma_config_round_trip(networks: Map<Network, InternalBitcoindNetworkConfig>)
    ensures
        config_of_sections(sections_of_config(networks)) == Ok::<
            Map<Network, InternalBitcoindNetworkConfig>,
            ConfigFailure,
        >(networks),
{
    let m0 = Map::<Network, InternalBitcoindNetworkConfig>::empty();
    let s0 = seq![(None::<Seq<char>>, Seq::<PropertyView>::empty())];
    lemma_general_section_alone();
    lemma_with_section_of(s0, m0, networks, Network::Bitcoin);
    let s1 = with_section_of(s0, networks, Network::Bitcoin);
    let m1 = with_entry_of(m0, networks, Network::Bitcoin);
    lemma_with_section_of(s1, m1, networks, Network::Testnet);
    let s2 = with_section_of(s1, networks, Network::Testnet);
    let m2 = with_entry_of(m1, networks, Network::Testnet);
    lemma_with_section_of(s2, m2, networks, Network::Signet);
    let s3 = with_section_of(s2, networks, Network::Signet);
    let m3 = with_entry_of(m2, networks, Network::Signet);
    lemma_with_section_of(s3, m3, networks, Network::Regtest);
    let m4 = with_entry_of(m3, networks, Network::Regtest);
    assert(m4 =~= networks) by {
        assert forall|n: Network| #[trigger] m4.contains_key(n) == networks.contains_key(n) by {
            match n {
                Network::Bitcoin => {},
                Network::Testnet => {},
                Network::Signet => {},
                Network::Regtest => {},
            }
        }
    }
}

} // verus!
