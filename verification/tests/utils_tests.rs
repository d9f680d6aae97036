use testing::utils::{
    find_passphrase, has_passphrase, output_text, LogLevel,
    amount_string, height_from_status, heights_from_list_peers, home_chain_parts,
    passphrase_from_text, sent_file_name, server_toml_changes, toml_path_parts,
    wallet_chain_data_parts,
};
use testing::{
    check_peers, generate_file_name, generate_response_file_name, generate_vec_to_sent,
    get_chain_height_peers, get_height_from_list_peers, get_height_from_status, get_http_wallet,
    local_now_str, ChainType,
};

const INIT_OUTPUT: &str = "20230101 Wallet seed file created\nYour recovery phrase is:\n\nlegal winner thank year wave sausage worth useful legal winner thank yellow\n\nPlease back-up these words in a non-digital format.\nCommand 'init' completed successfully\n";

#[test]
fn passphrase_is_the_long_line() {
    assert_eq!(
        passphrase_from_text(INIT_OUTPUT),
        "legal winner thank year wave sausage worth useful legal winner thank yellow"
    );
}

#[test]
fn passphrase_is_the_last_long_line() {
    let first = "a".repeat(60);
    let second = "b".repeat(56);
    let text = format!("{}\n{}\nshort", first, second);
    assert_eq!(passphrase_from_text(&text), second);
}

#[test]
fn passphrase_missing() {
    assert!(!has_passphrase("Please back-up these words in a non-digital format."));
    assert!(!has_passphrase(&"c".repeat(55)));
    assert!(has_passphrase(&"c".repeat(56)));
    assert_eq!(find_passphrase(b"short\nlines\n"), None);
}

#[test]
fn passphrase_counts_bytes() {
    // 28 two-byte characters: 56 bytes, 28 characters
    let text = "é".repeat(28);
    assert_eq!(passphrase_from_text(&text), text);
}

#[test]
fn passphrase_from_bytes() {
    assert_eq!(
        testing::utils::get_passphrase(INIT_OUTPUT.as_bytes()),
        passphrase_from_text(INIT_OUTPUT)
    );
    assert_eq!(
        find_passphrase(INIT_OUTPUT.as_bytes()),
        Some(passphrase_from_text(INIT_OUTPUT))
    );
    let mut bytes = vec![0xffu8];
    bytes.extend_from_slice("x".repeat(56).as_bytes());
    // the invalid byte becomes U+FFFD, three bytes long
    let expected = format!("\u{fffd}{}", "x".repeat(56));
    assert_eq!(testing::utils::get_passphrase(&bytes), expected);
}

const PEERS_OUTPUT: &str = "__________ Connected Peers __________\n\nPeer 0:\nCapabilities: FULL_NODE\nUser agent: MW/Epic 3.0.0\nVersion: 2\nPeer address: 10.0.0.1:3414\nHeight: 123456\nTotal difficulty: 9999\nDirection: Outbound\n\nPeer 1:\nCapabilities: FULL_NODE\nPeer address: 10.0.0.2:3414\nHeight: 123460\nTotal difficulty: 10000\nDirection: Inbound\n";

#[test]
fn heights_of_peers() {
    assert_eq!(heights_from_list_peers(PEERS_OUTPUT), Some(vec![123456, 123460]));
    assert_eq!(get_height_from_list_peers(PEERS_OUTPUT.as_bytes()), Some(vec![123456, 123460]));
}

#[test]
fn heights_of_no_peers() {
    assert_eq!(heights_from_list_peers("__________ Connected Peers __________\n"), Some(vec![]));
}

#[test]
fn height_of_peer_not_a_number() {
    assert_eq!(heights_from_list_peers("x\nHeight: abc\nTotal difficulty: 1"), None);
}

#[test]
fn height_from_node_status() {
    let status = "Protocol version: 2\nUser agent: MW/Epic 3.0.0\nConnections: 3\nChain height: 2875\nLast block hash: 0abc\n";
    assert_eq!(height_from_status(status), Some(2875));
    assert_eq!(get_height_from_status(status.as_bytes()), Some(2875));
    assert_eq!(height_from_status("no height here"), None);
    assert_eq!(height_from_status("x\nChain height: tall\n"), None);
}

#[test]
fn highest_peer() {
    assert_eq!(get_chain_height_peers(vec![3, 9, 4]), 9);
    assert_eq!(get_chain_height_peers(vec![-5, -2]), -2);
    assert_eq!(get_chain_height_peers(vec![]), 0);
}

#[test]
fn peers_present() {
    check_peers(vec![1]);
}

#[test]
fn http_wallet_address() {
    assert_eq!(get_http_wallet(ChainType::Floonet), "http://127.0.0.1:13415");
    assert_eq!(get_http_wallet(ChainType::UserTesting), "http://127.0.0.1:23415");
    assert_eq!(get_http_wallet(ChainType::Mainnet), "http://127.0.0.1:23415");
}

fn has_timestamp_shape(s: &str) -> bool {
    let chars: Vec<char> = s.chars().collect();
    let n = chars.len();
    if n < 19 {
        return false;
    }
    let suffix: String = chars[n - 15..].iter().collect();
    let pattern = "-dd-dd_dd-dd-dd";
    suffix.chars().zip(pattern.chars()).all(|(c, p)| if p == 'd' { c.is_ascii_digit() } else { c == p })
        && chars[..n - 15].iter().all(|c| c.is_ascii_digit())
}

#[test]
fn local_time_shape() {
    assert!(has_timestamp_shape(&local_now_str()));
}

#[test]
fn file_names() {
    assert_eq!(sent_file_name("2023-01-02_03-04-05"), "2023-01-02_03-04-05.txt");
    let name = generate_file_name();
    assert!(name.ends_with(".txt"));
    assert!(has_timestamp_shape(&name[..name.len() - 4]));
    assert_eq!(
        generate_response_file_name(&"2023-01-02_03-04-05.txt".to_string()),
        "2023-01-02_03-04-05.txt.response"
    );
}

#[test]
fn amounts() {
    assert_eq!(amount_string(5), "0.5");
    assert_eq!(amount_string(999), "0.999");
    assert_eq!(amount_string(-3), "0.-3");
}

#[test]
fn random_amounts_in_range() {
    let vals = generate_vec_to_sent(0, 1000, 21);
    assert_eq!(vals.len(), 21);
    for v in vals {
        let digits = v.strip_prefix("0.").expect("amount starts with 0.");
        let n: i32 = digits.parse().unwrap();
        assert!((0..1000).contains(&n));
    }
    assert!(generate_vec_to_sent(0, 1000, 0).is_empty());
    assert!(generate_vec_to_sent(0, 1000, -3).is_empty());
    assert_eq!(generate_vec_to_sent(7, 8, 3), vec!["0.7", "0.7", "0.7"]);
}

#[test]
fn server_configuration_changes() {
    for chain in [ChainType::UserTesting, ChainType::Floonet, ChainType::Mainnet] {
        let changes = server_toml_changes(chain);
        assert!(!changes.run_tui);
        assert_eq!(changes.stdout_log_level, LogLevel::Error);
        assert_eq!(changes.file_log_level, LogLevel::Debug);
    }
    let user = server_toml_changes(ChainType::UserTesting);
    assert_eq!(user.stratum_server_addr, Some("127.0.0.1:13416".to_string()));
    assert!(user.seeds.is_none());
    let floo = server_toml_changes(ChainType::Floonet);
    assert!(floo.stratum_server_addr.is_none());
    assert_eq!(floo.seeds, Some(vec!["15.229.31.27:23414".to_string()]));
    let main = server_toml_changes(ChainType::Mainnet);
    assert!(main.stratum_server_addr.is_none());
    assert!(main.seeds.is_none());
}

#[test]
fn paths_under_home() {
    assert_eq!(home_chain_parts(ChainType::UserTesting), vec![".epic", "user"]);
    assert_eq!(
        toml_path_parts(ChainType::Floonet),
        vec![".epic", "floo", "epic-server.toml"]
    );
    assert_eq!(
        wallet_chain_data_parts(ChainType::Mainnet, "wallet"),
        vec![".epic", "main", "wallet_data"]
    );
    assert_eq!(
        wallet_chain_data_parts(ChainType::Mainnet, "chain"),
        vec![".epic", "main", "chain_data"]
    );
}

#[test]
fn passphrase_by_place() {
    assert_eq!(
        testing::get_passphrase(INIT_OUTPUT.as_bytes()),
        "legal winner thank year wave sausage worth useful legal winner thank yellow"
    );
    assert_eq!(testing::find_passphrase_line(b"error\nno wallet\n"), None);
    assert_eq!(testing::find_passphrase_line(b"0\n1\n2\n3\n4"), None);
    assert!(!testing::has_passphrase_line("0\n1\n2\n3\n4"));
    assert!(testing::has_passphrase_line("0\n1\n2\n3\n4\n5"));
    assert_eq!(testing::get_passphrase(b"0\n1\n2\nthree\n4\n5"), "three");
    assert_eq!(
        testing::find_passphrase_line(b"0\n1\n2\nthree\n4\n5"),
        Some("three".to_string())
    );
}

#[test]
fn text_of_command_output() {
    assert_eq!(output_text(b"Chain height: 5\n"), "Chain height: 5\n");
    assert_eq!(output_text(&[b'a', 0xff, b'b']), "a\u{fffd}b");
}
