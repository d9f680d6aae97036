use std::time::Duration;
use testing::commands::{count_outputs, count_transactions_txs};
use testing::types::{
    info_field_indices, BigWalletWorld, OutputList, PackTransaction, WalletInformation,
};
use testing::ChainType;

fn info(sent: u32, received: u32, coinbase: u32) -> WalletInformation {
    WalletInformation::from(vec![sent, received, coinbase])
}

#[test]
fn wallet_information_from_counts() {
    let w = info(3, 4, 5);
    assert_eq!((w.sent_tx, w.received_tx, w.confirmed_coinbase), (3, 4, 5));
    assert!(w.sent_path.is_empty() && w.receive_path.is_empty());
    let empty = WalletInformation::from(vec![]);
    assert_eq!((empty.sent_tx, empty.received_tx, empty.confirmed_coinbase), (0, 0, 0));
}

#[test]
fn wallet_information_from_txs_listing() {
    let counts = count_transactions_txs("Confirmed?\nSent Tx Confirmed\nReceived Tx").unwrap();
    let w = WalletInformation::from(counts);
    assert_eq!((w.sent_tx, w.received_tx, w.confirmed_coinbase), (1, 1, 1));
}

#[test]
fn wallet_information_equality_counts_all_transactions() {
    assert!(info(2, 1, 4) == info(1, 2, 4));
    assert!(info(2, 1, 4) != info(2, 1, 5));
    assert!(info(2, 1, 4) != info(2, 2, 4));
    assert!(info(u32::MAX, 1, 0) == info(1, u32::MAX, 0));
}

#[test]
fn wallet_information_equality_is_an_equivalence() {
    let a = info(1, 2, 3);
    let b = info(3, 0, 3);
    let c = info(0, 3, 3);
    assert!(a == a);
    assert!(a == b && b == a);
    assert!(b == c && a == c);
}

#[test]
fn wallet_information_default() {
    let w = WalletInformation::default();
    assert_eq!((w.sent_tx, w.received_tx, w.confirmed_coinbase), (0, 0, 0));
}

fn outputs(v: [u32; 7]) -> OutputList {
    OutputList::from(v.to_vec())
}

#[test]
fn output_list_from_counts() {
    let o = outputs([1, 2, 3, 4, 5, 6, 7]);
    assert_eq!(
        (o.unconfirmed, o.unspent, o.locked, o.spent, o.deleted, o.mining, o.num_is_coinbase),
        (1, 2, 3, 4, 5, 6, 7)
    );
    let d = OutputList::from(vec![]);
    assert_eq!((d.unconfirmed, d.num_is_coinbase), (0, 0));
    let listed = OutputList::from(count_outputs("Unspent\nUnspent\nLocked"));
    assert_eq!((listed.unspent, listed.locked), (2, 1));
}

#[test]
fn outputs_after_confirmation() {
    // before: 2 unconfirmed, 5 unspent, 2 locked, 1 mining of 4 coinbase
    let before = outputs([2, 5, 2, 1, 0, 1, 4]);
    // after: the locks are freed and the mined output is no longer coinbase
    let after = outputs([0, 3, 0, 1, 0, 0, 3]);
    assert!(before == after);
}

#[test]
fn outputs_that_differ() {
    let before = outputs([2, 5, 2, 1, 0, 1, 4]);
    // spent changed
    assert!(before != outputs([0, 3, 0, 2, 0, 0, 3]));
    // coinbase count not reduced by the mined outputs
    assert!(before != outputs([0, 3, 0, 1, 0, 0, 4]));
    // unconfirmed left after
    assert!(before != outputs([1, 3, 0, 1, 0, 0, 3]));
    // odd number of unconfirmed before
    assert!(outputs([1, 5, 2, 1, 0, 1, 4]) != outputs([0, 3, 0, 1, 0, 0, 3]));
    // more mining than coinbase
    assert!(outputs([0, 0, 0, 0, 0, 2, 1]) != outputs([0, 0, 0, 0, 0, 0, 0]));
    // more freed locks than unspent
    assert!(outputs([0, 1, 5, 0, 0, 0, 0]) != outputs([0, 0, 0, 0, 0, 0, 0]));
}

#[test]
fn output_list_default() {
    let d = OutputList::default();
    assert_eq!(
        (d.unconfirmed, d.unspent, d.locked, d.spent, d.deleted, d.mining, d.num_is_coinbase),
        (0, 0, 0, 0, 0, 0, 0)
    );
}

#[test]
fn info_fields_for_full_report() {
    assert_eq!(
        info_field_indices(7),
        vec![Some(0), Some(1), Some(2), Some(3), Some(4), Some(5), Some(6)]
    );
    assert_eq!(
        info_field_indices(9),
        vec![Some(0), Some(1), Some(2), Some(3), Some(4), Some(5), Some(6)]
    );
}

#[test]
fn info_fields_without_immature_coinbase() {
    assert_eq!(
        info_field_indices(6),
        vec![Some(0), Some(1), None, Some(2), Some(3), Some(4), Some(5)]
    );
}

#[test]
fn info_fields_of_short_report() {
    assert_eq!(info_field_indices(0), vec![None; 7]);
    assert_eq!(info_field_indices(5), vec![None; 7]);
}

#[test]
fn big_wallet_world_default() {
    let w = BigWalletWorld::default();
    assert_eq!(w.chain_type, ChainType::UserTesting);
    assert_eq!(w.send_method, "http");
    assert_eq!(w.password, "1");
    assert!(w.http_path.is_empty() && w.server_binary.is_empty());
    assert!(w.wallet_binary.is_empty() && w.miner_binary.is_empty());
}

#[test]
fn pack_transaction_holds_a_run() {
    let pack = PackTransaction {
        number_transactions: 2,
        duration_time: vec![Duration::from_millis(5)],
        vec_amount: vec!["0.1".to_string(), "0.2".to_string()],
    };
    let copy = pack.clone();
    assert_eq!(copy.number_transactions, 2);
    assert_eq!(copy.vec_amount, pack.vec_amount);
    assert_eq!(copy.duration_time, pack.duration_time);
}
