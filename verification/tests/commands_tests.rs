use testing::commands::{
    client_args, count_outputs, count_transactions_txs, list_peers_args, outputs_wallet_args,
    receive_finalize_coins_args, recover_command, scan_succeeded, send_coins_smallest_args,
    spawn_network_args, spawn_wallet_listen_args, status_args, wallet_command_args,
};
use testing::ChainType;

#[test]
fn node_arguments() {
    assert_eq!(
        spawn_network_args(ChainType::Floonet, Some("--onlyrandomx")),
        vec!["--floonet", "--onlyrandomx"]
    );
    assert_eq!(
        spawn_network_args(ChainType::UserTesting, Some("--onlyrandomx")),
        vec!["--usernet", "--onlyrandomx"]
    );
    assert_eq!(spawn_network_args(ChainType::UserTesting, None), vec!["--usernet"]);
    assert_eq!(spawn_network_args(ChainType::Floonet, None), vec!["--floonet"]);
    assert!(spawn_network_args(ChainType::Mainnet, Some("--onlyrandomx")).is_empty());
    assert!(spawn_network_args(ChainType::Mainnet, None).is_empty());
}

#[test]
fn wallet_init_arguments() {
    assert_eq!(
        wallet_command_args(ChainType::UserTesting, "1", "init"),
        vec!["-p", "1", "--usernet", "init"]
    );
    assert_eq!(
        wallet_command_args(ChainType::Floonet, "pw", "recover"),
        vec!["-p", "pw", "--floonet", "recover"]
    );
    assert_eq!(
        wallet_command_args(ChainType::Mainnet, "pw", "info"),
        vec!["-p", "pw", "info"]
    );
    assert_eq!(
        wallet_command_args(ChainType::AutomatedTesting, "pw", "txs"),
        vec!["-p", "pw", "txs"]
    );
}

#[test]
fn wallet_listen_arguments() {
    assert_eq!(
        spawn_wallet_listen_args(ChainType::Floonet, "1"),
        vec!["-p", "1", "--floonet", "listen"]
    );
    assert_eq!(
        spawn_wallet_listen_args(ChainType::Mainnet, "1"),
        vec!["-p", "1", "listen"]
    );
}

#[test]
fn outputs_arguments() {
    assert_eq!(
        outputs_wallet_args(ChainType::UserTesting, "1", true),
        vec!["-p", "1", "--usernet", "outputs", "--show_full_history"]
    );
    assert_eq!(
        outputs_wallet_args(ChainType::Mainnet, "1", false),
        vec!["-p", "1", "outputs"]
    );
}

#[test]
fn send_arguments_with_destination() {
    assert_eq!(
        send_coins_smallest_args(
            ChainType::UserTesting,
            "http",
            "1",
            "0.5",
            "http://127.0.0.1:23415"
        ),
        vec![
            "-p", "1", "--usernet", "send", "-m", "http", "-d", "http://127.0.0.1:23415", "-s",
            "smallest", "0.5"
        ]
    );
    assert_eq!(
        send_coins_smallest_args(ChainType::Mainnet, "http", "1", "0.5", "http://h"),
        vec!["-p", "1", "send", "-d", "http://h", "-m", "http", "-s", "smallest", "0.5"]
    );
}

#[test]
fn send_arguments_without_destination() {
    assert_eq!(
        send_coins_smallest_args(ChainType::Floonet, "file", "1", "0.25", ""),
        vec!["-p", "1", "--floonet", "send", "-m", "file", "-s", "smallest", "0.25"]
    );
    assert_eq!(
        send_coins_smallest_args(ChainType::Mainnet, "emoji", "1", "2", ""),
        vec!["-p", "1", "send", "-m", "emoji", "-s", "smallest", "2"]
    );
}

#[test]
fn receive_and_finalize_arguments() {
    assert_eq!(
        receive_finalize_coins_args(ChainType::UserTesting, "file", "1", "receive", "a.txt"),
        vec!["-p", "1", "--usernet", "receive", "-m", "file", "-i", "a.txt"]
    );
    assert_eq!(
        receive_finalize_coins_args(ChainType::Mainnet, "file", "1", "finalize", "a.txt.response"),
        vec!["-p", "1", "finalize", "-m", "file", "-i", "a.txt.response"]
    );
}

#[test]
fn node_client_arguments() {
    assert_eq!(
        list_peers_args(ChainType::Floonet),
        vec!["--floonet", "client", "listconnectedpeers"]
    );
    assert_eq!(list_peers_args(ChainType::UserTesting), vec!["client", "listconnectedpeers"]);
    assert_eq!(status_args(ChainType::Floonet), vec!["--floonet", "client", "status"]);
    assert_eq!(status_args(ChainType::UserTesting), vec!["--usernet", "client", "status"]);
    assert_eq!(status_args(ChainType::Mainnet), vec!["client", "status"]);
    assert_eq!(
        client_args(ChainType::AutomatedTesting, "listconnectedpeers"),
        vec!["client", "listconnectedpeers"]
    );
}

#[test]
fn recover_shell_line() {
    assert_eq!(
        recover_command(ChainType::UserTesting, "/bin/epic-wallet", "1"),
        "/bin/epic-wallet --usernet -p 1 init -r"
    );
    assert_eq!(
        recover_command(ChainType::Mainnet, "epic-wallet", "pw"),
        "epic-wallet  -p pw init -r"
    );
}

#[test]
fn transaction_counts_from_txs_listing() {
    let txs = "Id | Type | Confirmed? |\n 0 | Confirmed Coinbase | true |\n 1 | Sent Tx | true |\n 2 | Received Tx | true |\n 3 | Sent Tx | false |";
    assert_eq!(count_transactions_txs(txs), Some(vec![2, 1, 1]));
}

#[test]
fn transaction_counts_need_the_header() {
    assert_eq!(count_transactions_txs("nothing here"), None);
    assert_eq!(count_transactions_txs("Confirmed?"), Some(vec![0, 0, 0]));
}

#[test]
fn output_counts_from_outputs_listing() {
    let outputs = "Unconfirmed | true\nUnspent | false\nSpent | false\nLocked | false\nMining | true\nDeleted";
    assert_eq!(count_outputs(outputs), vec![1, 1, 1, 1, 1, 1, 2]);
}

#[test]
fn scan_result() {
    assert!(scan_succeeded("Command 'scan' completed successfully"));
    assert!(!scan_succeeded("Wallet command failed"));
}
