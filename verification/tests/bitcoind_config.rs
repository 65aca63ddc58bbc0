use ini::Ini;
use spend_draft::conf_ini::IniSection;
use spend_draft::internal_bitcoind::{
    bitcoind_default_address, bitcoind_network_dir, count_keys, int_error_message,
    internal_bitcoind_address, lookup, port_attempt, port_is_valid, read_network_section,
    read_number, write_network_section, InternalBitcoindConfig, InternalBitcoindConfigError,
    InternalBitcoindNetworkConfig, PortSearch, BITCOIND_DEFAULT_PORTS, PORT_ATTEMPTS,
    PRUNE_DEFAULT,
};
use spend_draft::decimal::IntErrorKind;
use spend_draft::network::Network;

// Test the format of the internal bitcoind configuration file.
#[test]
fn internal_bitcoind_config() {
    // A valid config
    let mut conf_ini = Ini::new();
    conf_ini
        .with_section(Some("main"))
        .set("rpcport", "43345")
        .set("port", "42355")
        .set("prune", "15246");
    conf_ini
        .with_section(Some("regtest"))
        .set("rpcport", "34067")
        .set("port", "45175")
        .set("prune", "2043");
    let conf = InternalBitcoindConfig::from_ini(&conf_ini).expect("Loading conf from ini");
    let main_conf = InternalBitcoindNetworkConfig {
        rpc_port: 43345,
        p2p_port: 42355,
        prune: 15246,
    };
    let regtest_conf = InternalBitcoindNetworkConfig {
        rpc_port: 34067,
        p2p_port: 45175,
        prune: 2043,
    };
    assert_eq!(conf.len(), 2);
    assert_eq!(
        &conf.get(Network::Bitcoin).expect("Missing main"),
        &main_conf
    );
    assert_eq!(
        &conf.get(Network::Regtest).expect("Missing regtest"),
        &regtest_conf
    );

    let mut conf = InternalBitcoindConfig::new();
    conf.insert(Network::Bitcoin, main_conf);
    conf.insert(Network::Regtest, regtest_conf);
    for (sec, prop) in &conf.to_ini() {
        if let Some(sec) = sec {
            assert_eq!(prop.len(), 3);
            let rpc_port = prop.get("rpcport").expect("rpcport");
            let p2p_port = prop.get("port").expect("port");
            let prune = prop.get("prune").expect("prune");
            if sec == "main" {
                assert_eq!(rpc_port, "43345");
                assert_eq!(p2p_port, "42355");
                assert_eq!(prune, "15246");
            } else if sec == "regtest" {
                assert_eq!(rpc_port, "34067");
                assert_eq!(p2p_port, "45175");
                assert_eq!(prune, "2043");
            } else {
                panic!("Unexpected section");
            }
        } else {
            assert!(prop.is_empty())
        }
    }
}

fn section(name: Option<&str>, properties: &[(&str, &str)]) -> IniSection {
    IniSection {
        name: name.map(|n| n.to_string()),
        properties: properties.iter().map(|(k, v)| (k.to_string(), v.to_string())).collect(),
    }
}

fn full(name: &str) -> IniSection {
    section(Some(name), &[("rpcport", "1"), ("port", "2"), ("prune", "3")])
}

#[test]
fn a_configuration_is_written_in_the_order_of_the_networks() {
    let mut conf = InternalBitcoindConfig::new();
    let nc = |n: u16| InternalBitcoindNetworkConfig { rpc_port: n, p2p_port: n + 1, prune: 550 };
    conf.insert(Network::Regtest, nc(40));
    conf.insert(Network::Testnet, nc(20));
    conf.insert(Network::Bitcoin, nc(10));
    conf.insert(Network::Signet, nc(30));
    conf.insert(Network::Testnet, nc(25));
    let ini = conf.to_ini();
    let written: Vec<(Option<String>, Vec<(String, String)>)> = ini
        .iter()
        .map(|(s, p)| (s.map(String::from), p.iter().map(|(k, v)| (k.to_string(), v.to_string())).collect()))
        .collect();
    let props = |n: u16| {
        vec![
            ("rpcport".to_string(), n.to_string()),
            ("port".to_string(), (n + 1).to_string()),
            ("prune".to_string(), "550".to_string()),
        ]
    };
    assert_eq!(
        written,
        vec![
            (None, vec![]),
            (Some("main".to_string()), props(10)),
            (Some("test".to_string()), props(25)),
            (Some("signet".to_string()), props(30)),
            (Some("regtest".to_string()), props(40)),
        ]
    );
    let back = InternalBitcoindConfig::from_ini(&ini).expect("reading back");
    assert_eq!(back.len(), 4);
    for network in [Network::Bitcoin, Network::Testnet, Network::Signet, Network::Regtest] {
        assert_eq!(back.get(network), conf.get(network));
    }
}

#[test]
fn an_empty_configuration_is_an_empty_general_section() {
    let conf = InternalBitcoindConfig::default();
    assert_eq!(conf.len(), 0);
    assert_eq!(conf.get(Network::Bitcoin), None);
    let ini = conf.to_ini();
    assert_eq!(ini.len(), 1);
    assert!(ini.general_section().is_empty());
    assert_eq!(InternalBitcoindConfig::from_ini(&ini).expect("reading back").len(), 0);
}

#[test]
fn a_file_written_by_hand_is_read() {
    let ini = Ini::load_from_str("[test]\nport=18444\nrpcport = 18443\nprune=+550\n").unwrap();
    let conf = InternalBitcoindConfig::from_ini(&ini).expect("reading");
    assert_eq!(conf.len(), 1);
    assert_eq!(
        conf.get(Network::Testnet),
        Some(InternalBitcoindNetworkConfig { rpc_port: 18443, p2p_port: 18444, prune: 550 })
    );
}

#[test]
fn the_last_section_of_a_network_counts() {
    let sections = vec![
        section(None, &[]),
        section(Some("main"), &[("rpcport", "1"), ("port", "2"), ("prune", "3")]),
        section(Some("main"), &[("rpcport", "4"), ("port", "5"), ("prune", "6")]),
    ];
    let conf = InternalBitcoindConfig::from_sections(&sections).expect("reading");
    assert_eq!(conf.len(), 1);
    assert_eq!(
        conf.get(Network::Bitcoin),
        Some(InternalBitcoindNetworkConfig { rpc_port: 4, p2p_port: 5, prune: 6 })
    );
}

#[test]
fn each_error_of_reading() {
    let read = |sections: Vec<IniSection>| InternalBitcoindConfig::from_sections(&sections).unwrap_err();
    assert_eq!(
        read(vec![section(None, &[("a", "b")])]),
        InternalBitcoindConfigError::UnexpectedSection("General section should be empty".to_string())
    );
    assert!(matches!(
        read(vec![section(Some("mainnet"), &[])]),
        InternalBitcoindConfigError::UnexpectedSection(_)
    ));
    assert_eq!(
        read(vec![section(Some("main"), &[("rpcport", "1"), ("port", "2"), ("prune", "3"), ("x", "4")])]),
        InternalBitcoindConfigError::TooManyElements("main".to_string())
    );
    assert_eq!(
        read(vec![section(Some("main"), &[("port", "2"), ("prune", "3")])]),
        InternalBitcoindConfigError::KeyNotFound("rpcport".to_string())
    );
    assert_eq!(
        read(vec![section(Some("main"), &[("rpcport", "1"), ("prune", "3")])]),
        InternalBitcoindConfigError::KeyNotFound("port".to_string())
    );
    assert_eq!(
        read(vec![section(Some("main"), &[("rpcport", "1"), ("port", "2")])]),
        InternalBitcoindConfigError::KeyNotFound("prune".to_string())
    );
    assert_eq!(
        read(vec![section(Some("main"), &[("rpcport", "65536"), ("port", "2"), ("prune", "3")])]),
        InternalBitcoindConfigError::CouldNotParseValue("65536".parse::<u16>().unwrap_err().to_string())
    );
    assert_eq!(
        read(vec![section(Some("main"), &[("rpcport", "1"), ("port", "p"), ("prune", "3")])]),
        InternalBitcoindConfigError::CouldNotParseValue("p".parse::<u16>().unwrap_err().to_string())
    );
    assert_eq!(
        read(vec![section(Some("main"), &[("rpcport", "1"), ("port", "2"), ("prune", "")])]),
        InternalBitcoindConfigError::CouldNotParseValue("".parse::<u32>().unwrap_err().to_string())
    );
    assert_eq!(
        read(vec![section(Some("main"), &[("rpcport", "1"), ("port", "2"), ("prune", "4294967296")])]),
        InternalBitcoindConfigError::CouldNotParseValue("4294967296".parse::<u32>().unwrap_err().to_string())
    );
}

#[test]
fn the_first_section_that_is_wrong_is_reported() {
    let sections = vec![full("main"), section(Some("test"), &[]), section(Some("nonsense"), &[])];
    assert_eq!(
        InternalBitcoindConfig::from_sections(&sections).unwrap_err(),
        InternalBitcoindConfigError::KeyNotFound("rpcport".to_string())
    );
    // the name is judged before the number of keys
    let sections = vec![section(Some("x"), &[("a", "1"), ("b", "2"), ("c", "3"), ("d", "4")])];
    assert!(matches!(
        InternalBitcoindConfig::from_sections(&sections).unwrap_err(),
        InternalBitcoindConfigError::UnexpectedSection(_)
    ));
}

#[test]
fn an_unknown_section_is_worded_by_the_bitcoin_crate() {
    let mut ini = Ini::new();
    ini.with_section(Some("bitcoin")).set("rpcport", "1");
    let expected = bitcoin::Network::from_core_arg("bitcoin").unwrap_err().to_string();
    assert_eq!(
        InternalBitcoindConfig::from_ini(&ini).unwrap_err(),
        InternalBitcoindConfigError::UnexpectedSection(expected)
    );
}

#[test]
fn keys_are_counted_once_and_the_first_value_wins() {
    let s = section(Some("main"), &[("rpcport", "1"), ("port", "2"), ("rpcport", "9"), ("prune", "3"), ("port", "8")]);
    assert_eq!(count_keys(&s.properties), 3);
    assert_eq!(lookup(&s.properties, "rpcport"), Some(&"1".to_string()));
    assert_eq!(lookup(&s.properties, "port"), Some(&"2".to_string()));
    assert_eq!(lookup(&s.properties, "missing"), None);
    assert_eq!(count_keys(&vec![]), 0);
    assert_eq!(read_number(&s.properties, "prune", 10), Ok(3));
    assert_eq!(
        read_network_section("main", &s.properties),
        Ok((Network::Bitcoin, InternalBitcoindNetworkConfig { rpc_port: 1, p2p_port: 2, prune: 3 }))
    );
    // the ini crate counts and looks up the same way
    let mut ini = Ini::new();
    for (k, v) in &s.properties {
        ini.section_mut(None::<String>).unwrap().append(k.clone(), v.clone());
    }
    let props = ini.general_section();
    assert_eq!(props.len(), 3);
    assert_eq!(props.get("rpcport"), Some("1"));
}

#[test]
fn section_names_are_those_of_bitcoind() {
    for (name, network) in [
        ("main", Network::Bitcoin),
        ("test", Network::Testnet),
        ("signet", Network::Signet),
        ("regtest", Network::Regtest),
    ] {
        let conf = InternalBitcoindConfig::from_sections(&vec![full(name)]).expect(name);
        assert_eq!(conf.len(), 1);
        assert!(conf.get(network).is_some());
        let mut ini = Ini::new();
        write_network_section(&mut ini, network, &conf.get(network).unwrap());
        assert_eq!(ini.sections().collect::<Vec<_>>(), vec![None, Some(name)]);
    }
    for name in ["", "Main", "bitcoin", "testnet", "mainnet", " main"] {
        assert!(InternalBitcoindConfig::from_sections(&vec![full(name)]).is_err(), "{:?}", name);
    }
}

#[test]
fn error_messages() {
    assert_eq!(InternalBitcoindConfigError::KeyNotFound("port".to_string()).message(), "Config file does not contain expected key: port");
    assert_eq!(InternalBitcoindConfigError::CouldNotParseValue("x".to_string()).message(), "Value could not be parsed: x");
    assert_eq!(InternalBitcoindConfigError::UnexpectedSection("y".to_string()).message(), "Unexpected section in file: y");
    assert_eq!(InternalBitcoindConfigError::TooManyElements("main".to_string()).message(), "Section in file contains too many elements: main");
    assert_eq!(InternalBitcoindConfigError::FileNotFound.message(), "File not found");
    assert_eq!(InternalBitcoindConfigError::ReadingFile("a".to_string()).message(), "Error while reading file: a");
    assert_eq!(InternalBitcoindConfigError::WritingFile("b".to_string()).message(), "Error while writing file: b");
    assert_eq!(InternalBitcoindConfigError::Unexpected("c".to_string()).message(), "Unexpected error: c");
    assert_eq!(int_error_message(IntErrorKind::Empty), "".parse::<u16>().unwrap_err().to_string());
    assert_eq!(int_error_message(IntErrorKind::InvalidDigit), "x".parse::<u16>().unwrap_err().to_string());
    assert_eq!(int_error_message(IntErrorKind::PosOverflow), "99999".parse::<u16>().unwrap_err().to_string());
}

#[test]
fn default_ports_are_not_valid() {
    assert_eq!(PRUNE_DEFAULT, 15_000);
    assert_eq!(BITCOIND_DEFAULT_PORTS, [8332, 8333, 18332, 18333, 18443, 18444, 38332, 38333]);
    for port in BITCOIND_DEFAULT_PORTS {
        assert!(!port_is_valid(&port));
    }
    for port in [0u16, 1, 8331, 8334, 18331, 18445, 38331, 38334, 43345, u16::MAX] {
        assert!(port_is_valid(&port));
    }
}

#[test]
fn defaults_of_each_network() {
    assert_eq!(bitcoind_network_dir(&Network::Bitcoin), None);
    assert_eq!(bitcoind_network_dir(&Network::Testnet), Some("testnet3".to_string()));
    assert_eq!(bitcoind_network_dir(&Network::Signet), Some("signet".to_string()));
    assert_eq!(bitcoind_network_dir(&Network::Regtest), Some("regtest".to_string()));
    assert_eq!(bitcoind_default_address(&Network::Bitcoin), "127.0.0.1:8332");
    assert_eq!(bitcoind_default_address(&Network::Testnet), "127.0.0.1:18332");
    assert_eq!(bitcoind_default_address(&Network::Regtest), "127.0.0.1:18443");
    assert_eq!(bitcoind_default_address(&Network::Signet), "127.0.0.1:38332");
    assert_eq!(internal_bitcoind_address(43345), "127.0.0.1:43345");
    assert_eq!(internal_bitcoind_address(0), "127.0.0.1:0");
}

#[test]
fn the_search_for_a_port() {
    assert_eq!(PORT_ATTEMPTS, 10);
    assert_eq!(port_attempt(0, Ok(43345)), PortSearch::Found(43345));
    assert_eq!(port_attempt(9, Ok(43345)), PortSearch::Found(43345));
    assert_eq!(port_attempt(0, Err("denied".to_string())), PortSearch::Failed("denied".to_string()));
    assert_eq!(port_attempt(0, Ok(8332)), PortSearch::Again);
    assert_eq!(port_attempt(8, Ok(18444)), PortSearch::Again);
    assert_eq!(port_attempt(9, Ok(18444)), PortSearch::Failed("Exhausted attempts".to_string()));
    assert_eq!(port_attempt(u32::MAX, Ok(8333)), PortSearch::Failed("Exhausted attempts".to_string()));
}
