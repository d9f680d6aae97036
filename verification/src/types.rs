//! The records that the tests keep and compare: what the wallet's `txs`,
//! `outputs` and `info` commands reported, and the settings of a long run.

use crate::chain::ChainType;
use std::time::Duration;
use vstd::prelude::*;
use vstd::std_specs::cmp::PartialEqSpecImpl;

verus! {

/// What the wallet's `txs` command reported, and the files that slates go
/// through for the `file` and `emoji` methods.
#[derive(Debug)]
pub struct WalletInformation {
    /// Number of sent transactions.
    pub sent_tx: u32,
    /// Number of received transactions.
    pub received_tx: u32,
    /// Number of confirmed coinbase transactions.
    pub confirmed_coinbase: u32,
    /// The file that a slate is sent to.
    pub sent_path: String,
    /// The file that the answer to a slate is received in.
    pub receive_path: String,
}

impl Default for WalletInformation {
    fn default() -> (info: WalletInformation)
        ensures
            info.sent_tx == 0,
            info.received_tx == 0,
            info.confirmed_coinbase == 0,
            info.sent_path@ == Seq::<char>::empty(),
            info.receive_path@ == Seq::<char>::empty(),
    {
        WalletInformation {
            sent_tx: 0,
            received_tx: 0,
            confirmed_coinbase: 0,
            sent_path: String::new(),
            receive_path: String::new(),
        }
    }
}

/// Two reports agree when they count as many transactions in all, sent and
/// received together, and as many confirmed coinbase transactions: a
/// transaction between two wallets of the same test is sent by one and
/// received by the other.
pub open spec fn wallet_information_eq(a: WalletInformation, b: WalletInformation) -> bool {
    &&& a.sent_tx + a.received_tx == b.sent_tx + b.received_tx
    &&& a.confirmed_coinbase == b.confirmed_coinbase
}

/// Agreement of `txs` reports is an equivalence: every report agrees with
/// itself, agreement goes both ways, and a report that agrees with a second
/// one agrees with every report that the second one agrees with.
pub proof fn law_wallet_information_eq_is_equivalence(
    a: WalletInformation,
    b: WalletInformation,
    c: WalletInformation,
)
    ensures
        wallet_information_eq(a, a),
        wallet_information_eq(a, b) == wallet_information_eq(b, a),
        wallet_information_eq(a, b) && wallet_information_eq(b, c) ==> wallet_information_eq(a, c),
{
}

/// Two `txs` reports agree exactly when they count the same confirmed coinbase
/// transactions and whatever one counts more as sent it counts less as
/// received than the other.
pub proof fn law_wallet_information_agreement(a: WalletInformation, b: WalletInformation)
    ensures
        wallet_information_eq(a, b) <==> (a.confirmed_coinbase == b.confirmed_coinbase
            && a.sent_tx - b.sent_tx == b.received_tx - a.received_tx),
{
}

impl PartialEq for WalletInformation {
    fn eq(&self, other: &Self) -> (same: bool) {
        (self.sent_tx as u64) + (self.received_tx as u64) == (other.sent_tx as u64) + (
        other.received_tx as u64) && self.confirmed_coinbase == other.confirmed_coinbase
    }
}

impl PartialEqSpecImpl for WalletInformation {
    open spec fn obeys_eq_spec() -> bool {
        true
    }

    open spec fn eq_spec(&self, other: &WalletInformation) -> bool {
        wallet_information_eq(*self, *other)
    }
}

impl WalletInformation {
    /// The report that counts `[sent, received, confirmed coinbase]` describe,
    /// as `count_transactions_txs` gives them; the empty report for no counts.
    pub fn from(item: Vec<u32>) -> (info: WalletInformation)
        requires
            item@.len() == 0 || item@.len() >= 3,
        ensures
            item@.len() == 0 ==> info.sent_tx == 0 && info.received_tx == 0
                && info.confirmed_coinbase == 0,
            item@.len() >= 3 ==> info.sent_tx == item@[0] && info.received_tx == item@[1]
                && info.confirmed_coinbase == item@[2],
            info.sent_path@ == Seq::<char>::empty(),
            info.receive_path@ == Seq::<char>::empty(),
    {
        if item.len() != 0 {
            WalletInformation {
                sent_tx: item[0],
                received_tx: item[1],
                confirmed_coinbase: item[2],
                sent_path: String::new(),
                receive_path: String::new(),
            }
        } else {
            WalletInformation::default()
        }
    }
}

/// What the wallet's `outputs` command reported: how many outputs are in each
/// state.
#[derive(Debug)]
pub struct OutputList {
    /// Number of unconfirmed outputs.
    pub unconfirmed: u32,
    /// Number of unspent outputs.
    pub unspent: u32,
    /// Number of locked outputs.
    pub locked: u32,
    /// Number of spent outputs.
    pub spent: u32,
    /// Number of deleted outputs.
    pub deleted: u32,
    /// Number of unconfirmed coinbase outputs (being mined).
    pub mining: u32,
    /// Number of coinbase outputs.
    pub num_is_coinbase: u32,
}

impl Default for OutputList {
    fn default() -> (outputs: OutputList)
        ensures
            outputs.unconfirmed == 0,
            outputs.unspent == 0,
            outputs.locked == 0,
            outputs.spent == 0,
            outputs.deleted == 0,
            outputs.mining == 0,
            outputs.num_is_coinbase == 0,
    {
        OutputList {
            unconfirmed: 0,
            unspent: 0,
            locked: 0,
            spent: 0,
            deleted: 0,
            mining: 0,
            num_is_coinbase: 0,
        }
    }
}

/// How many locked outputs were freed between the report `a` and the later
/// report `b` (none where `b` has more).
pub open spec fn freed_locks(a: OutputList, b: OutputList) -> int {
    if a.locked >= b.locked {
        a.locked - b.locked
    } else {
        0
    }
}

/// The report `b` is what `a` should turn into once every transaction is
/// confirmed: spent and deleted outputs stay; outputs being mined stop counting
/// as coinbase; each freed lock leaves the unspent ones and the locked ones
/// keep what is left; `a` had an even number of unconfirmed outputs (two per
/// transaction) and `b` has none.
pub open spec fn output_list_eq(a: OutputList, b: OutputList) -> bool {
    &&& a.spent == b.spent && a.deleted == b.deleted
    &&& a.num_is_coinbase - a.mining == b.num_is_coinbase
    &&& a.unspent - freed_locks(a, b) == b.unspent
    &&& a.locked - freed_locks(a, b) == b.locked
    &&& a.unconfirmed % 2 == 0 && b.unconfirmed == 0
}

/// A report agrees with a later one exactly when the spent and deleted counts
/// are unchanged, the coinbase count dropped by the outputs being mined, no
/// output got locked, every freed lock left the unspent count as well, the
/// earlier report had an even number of unconfirmed outputs and the later one
/// none.
pub proof fn law_outputs_after_confirmation(a: OutputList, b: OutputList)
    ensures
        output_list_eq(a, b) <==> {
            &&& a.spent == b.spent
            &&& a.deleted == b.deleted
            &&& a.num_is_coinbase == b.num_is_coinbase + a.mining
            &&& b.locked <= a.locked
            &&& a.unspent - b.unspent == a.locked - b.locked
            &&& a.unconfirmed % 2 == 0
            &&& b.unconfirmed == 0
        },
{
}

impl PartialEq for OutputList {
    fn eq(&self, other: &Self) -> (same: bool) {
        if !(self.spent == other.spent && self.deleted == other.deleted) {
            return false;
        }
        if !(self.num_is_coinbase >= self.mining && self.num_is_coinbase - self.mining
            == other.num_is_coinbase) {
            return false;
        }
        let diff_lock = if self.locked >= other.locked {
            self.locked - other.locked
        } else {
            0
        };
        if !(self.unspent >= diff_lock && self.unspent - diff_lock == other.unspent
            && self.locked - diff_lock == other.locked) {
            return false;
        }
        self.unconfirmed % 2 == 0 && other.unconfirmed == 0
    }
}

impl PartialEqSpecImpl for OutputList {
    open spec fn obeys_eq_spec() -> bool {
        true
    }

    open spec fn eq_spec(&self, other: &OutputList) -> bool {
        output_list_eq(*self, *other)
    }
}

impl OutputList {
    /// The report that counts, in the order of the fields, describe, as
    /// `count_outputs` gives them; the empty report for no counts.
    pub fn from(item: Vec<u32>) -> (outputs: OutputList)
        requires
            item@.len() == 0 || item@.len() >= 7,
        ensures
            item@.len() == 0 ==> outputs == (OutputList {
                unconfirmed: 0,
                unspent: 0,
                locked: 0,
                spent: 0,
                deleted: 0,
                mining: 0,
                num_is_coinbase: 0,
            }),
            item@.len() >= 7 ==> outputs == (OutputList {
                unconfirmed: item@[0],
                unspent: item@[1],
                locked: item@[2],
                spent: item@[3],
                deleted: item@[4],
                mining: item@[5],
                num_is_coinbase: item@[6],
            }),
    {
        if item.len() != 0 {
            OutputList {
                unconfirmed: item[0],
                unspent: item[1],
                locked: item[2],
                spent: item[3],
                deleted: item[4],
                mining: item[5],
                num_is_coinbase: item[6],
            }
        } else {
            OutputList::default()
        }
    }
}

/// Where each field of the wallet's `info` report is found among the numbers
/// that the `info` command printed, in the order chain height, confirmed
/// total, immature coinbase, awaiting confirmation, awaiting finalization,
/// locked by previous transaction, currently spendable. With six numbers the
/// wallet has mined nothing and prints no immature coinbase; with fewer the
/// report is empty. `None` stands for zero.
pub open spec fn info_field_indices_spec(len: nat) -> Seq<Option<usize>> {
    if len > 6 {
        seq![Some(0), Some(1), Some(2), Some(3), Some(4), Some(5), Some(6)]
    } else if len == 6 {
        seq![Some(0), Some(1), None, Some(2), Some(3), Some(4), Some(5)]
    } else {
        seq![None, None, None, None, None, None, None]
    }
}

/// Each field of the `info` report reads its own printed number, in the order of
/// the fields and within the numbers printed; with seven or more numbers every
/// field has one, with six all but the immature coinbase, with fewer none.
pub proof fn law_info_fields(len: nat)
    ensures
        ({
            let at = info_field_indices_spec(len);
            &&& at.len() == 7
            &&& forall|k: int| 0 <= k < 7 && #[trigger] at[k] is Some ==> at[k]->0 < len
            &&& forall|j: int, k: int|
                0 <= j < k < 7 && #[trigger] at[j] is Some && #[trigger] at[k] is Some ==> at[j]->0
                    < at[k]->0
            &&& len > 6 ==> forall|k: int| 0 <= k < 7 ==> #[trigger] at[k] is Some
            &&& len == 6 ==> at[2] is None && forall|k: int|
                0 <= k < 7 && k != 2 ==> #[trigger] at[k] is Some
            &&& len < 6 ==> forall|k: int| 0 <= k < 7 ==> #[trigger] at[k] is None
        }),
{
}

/// Where the fields of the `info` report are found among `len` printed numbers.
pub fn info_field_indices(len: usize) -> (indices: Vec<Option<usize>>)
    ensures
        indices@ == info_field_indices_spec(len as nat),
{
    let indices = if len > 6 {
        vec![Some(0), Some(1), Some(2), Some(3), Some(4), Some(5), Some(6)]
    } else if len == 6 {
        vec![Some(0), Some(1), None, Some(2), Some(3), Some(4), Some(5)]
    } else {
        vec![None, None, None, None, None, None, None]
    };
    assert(indices@ =~= info_field_indices_spec(len as nat));
    indices
}

/// A long run of transactions: how many, how long each took, and the amount
/// of each.
#[derive(Debug, Clone)]
pub struct PackTransaction {
    /// Number of transactions.
    pub number_transactions: i32,
    /// How long each transaction took.
    pub duration_time: Vec<Duration>,
    /// The amount of each transaction.
    pub vec_amount: Vec<String>,
}

/// The settings of a run that builds a large wallet.
#[derive(Debug, Clone)]
pub struct BigWalletWorld {
    /// The network.
    pub chain_type: ChainType,
    /// How coins are sent.
    pub send_method: String,
    /// Where coins are sent over HTTP.
    pub http_path: String,
    /// The wallet's password.
    pub password: String,
    /// The node's binary.
    pub server_binary: String,
    /// The wallet's binary.
    pub wallet_binary: String,
    /// The miner's binary.
    pub miner_binary: String,
}

impl Default for BigWalletWorld {
    fn default() -> (world: BigWalletWorld)
        ensures
            world.chain_type == ChainType::UserTesting,
            world.send_method@ == "http"@,
            world.http_path@ == Seq::<char>::empty(),
            world.password@ == "1"@,
            world.server_binary@ == Seq::<char>::empty(),
            world.wallet_binary@ == Seq::<char>::empty(),
            world.miner_binary@ == Seq::<char>::empty(),
    {
        BigWalletWorld {
            chain_type: ChainType::UserTesting,
            send_method: String::from_str("http"),
            http_path: String::new(),
            password: String::from_str("1"),
            server_binary: String::new(),
            wallet_binary: String::new(),
            miner_binary: String::new(),
        }
    }
}

} // verus!
