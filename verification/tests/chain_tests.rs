use testing::chain::is_chain_name;
use testing::{chain_type_to_str, str_to_chain_type, ChainType};

#[test]
fn shortnames() {
    assert_eq!(chain_type_to_str(ChainType::AutomatedTesting), "auto");
    assert_eq!(chain_type_to_str(ChainType::UserTesting), "user");
    assert_eq!(chain_type_to_str(ChainType::Floonet), "floo");
    assert_eq!(chain_type_to_str(ChainType::Mainnet), "main");
}

#[test]
fn names_of_networks() {
    assert_eq!(str_to_chain_type("auto"), ChainType::AutomatedTesting);
    assert_eq!(str_to_chain_type("user"), ChainType::UserTesting);
    assert_eq!(str_to_chain_type("usernet"), ChainType::UserTesting);
    assert_eq!(str_to_chain_type("floo"), ChainType::Floonet);
    assert_eq!(str_to_chain_type("floonet"), ChainType::Floonet);
    assert_eq!(str_to_chain_type("main"), ChainType::Mainnet);
    assert_eq!(str_to_chain_type("mainnet"), ChainType::Mainnet);
}

#[test]
fn unknown_network_name() {
    assert!(!is_chain_name("testnet"));
    assert!(!is_chain_name(""));
    assert!(!is_chain_name("Main"));
    assert!(!is_chain_name("Floonet"));
    for name in ["auto", "user", "usernet", "floo", "floonet", "main", "mainnet"] {
        assert!(is_chain_name(name));
    }
}

#[test]
fn shortname_round_trip() {
    for chain in [
        ChainType::AutomatedTesting,
        ChainType::UserTesting,
        ChainType::Floonet,
        ChainType::Mainnet,
    ] {
        assert_eq!(str_to_chain_type(&chain_type_to_str(chain)), chain);
    }
}

#[test]
fn networks_that_commands_run_on() {
    assert!(!ChainType::AutomatedTesting.is_network());
    assert!(ChainType::UserTesting.is_network());
    assert!(ChainType::Floonet.is_network());
    assert!(ChainType::Mainnet.is_network());
}
