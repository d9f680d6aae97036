//! The command lines that start the node, the wallet and the miner, and what
//! the tests read from the text that the wallet prints.
//!
//! Each `*_args` function gives the arguments, in order, that follow the path
//! of the binary; the caller runs the binary with them.

use crate::chain::{is_network_spec, ChainType};
use crate::text::{
    contains_spec, contains_text, count_matches, count_spec, law_contains_iff_counted,
    law_split_counts_separators, lemma_count_from_bounded, split_spec,
};
use vstd::prelude::*;

verus! {

/// The flag that selects the network of a wallet or node command: none for the
/// main network (and for the network of automated tests).
pub open spec fn network_args(chain: ChainType) -> Seq<Seq<char>> {
    match chain {
        ChainType::UserTesting => seq!["--usernet"@],
        ChainType::Floonet => seq!["--floonet"@],
        _ => seq![],
    }
}

/// The flag that selects the network of the node's `client listconnectedpeers`
/// command: only the test network has one.
pub open spec fn client_network_args(chain: ChainType) -> Seq<Seq<char>> {
    match chain {
        ChainType::Floonet => seq!["--floonet"@],
        _ => seq![],
    }
}

/// The arguments that start the node.
pub open spec fn spawn_network_args_spec(chain: ChainType, policy: Option<Seq<char>>) -> Seq<
    Seq<char>,
> {
    if chain == ChainType::Mainnet {
        seq![]
    } else {
        match policy {
            Some(p) => network_args(chain).push(p),
            None => network_args(chain),
        }
    }
}

/// The arguments of a wallet command that takes no more than the password and
/// the network: `-p <password> [network] <command>`.
pub open spec fn wallet_command_args_spec(
    chain: ChainType,
    password: Seq<char>,
    command: Seq<char>,
) -> Seq<Seq<char>> {
    seq!["-p"@, password] + network_args(chain) + seq![command]
}

/// The arguments of the wallet's `outputs` command.
pub open spec fn outputs_wallet_args_spec(
    chain: ChainType,
    password: Seq<char>,
    show_full_history: bool,
) -> Seq<Seq<char>> {
    if show_full_history {
        wallet_command_args_spec(chain, password, "outputs"@).push("--show_full_history"@)
    } else {
        wallet_command_args_spec(chain, password, "outputs"@)
    }
}

/// The arguments of the wallet's `send` command, which sends `amount` in the
/// smallest selection strategy. Without a destination the wallet asks for none;
/// on the main network the destination comes before the method.
pub open spec fn send_coins_smallest_args_spec(
    chain: ChainType,
    method: Seq<char>,
    password: Seq<char>,
    amount: Seq<char>,
    destination: Seq<char>,
) -> Seq<Seq<char>> {
    if destination.len() > 0 {
        if chain == ChainType::Mainnet {
            seq![
                "-p"@,
                password,
                "send"@,
                "-d"@,
                destination,
                "-m"@,
                method,
                "-s"@,
                "smallest"@,
                amount,
            ]
        } else {
            seq!["-p"@, password] + network_args(chain) + seq![
                "send"@,
                "-m"@,
                method,
                "-d"@,
                destination,
                "-s"@,
                "smallest"@,
                amount,
            ]
        }
    } else {
        seq!["-p"@, password] + network_args(chain) + seq![
            "send"@,
            "-m"@,
            method,
            "-s"@,
            "smallest"@,
            amount,
        ]
    }
}

/// The arguments of the wallet's `receive` or `finalize` command.
pub open spec fn receive_finalize_coins_args_spec(
    chain: ChainType,
    method: Seq<char>,
    password: Seq<char>,
    receive_finalize: Seq<char>,
    destination: Seq<char>,
) -> Seq<Seq<char>> {
    seq!["-p"@, password] + network_args(chain) + seq![
        receive_finalize,
        "-m"@,
        method,
        "-i"@,
        destination,
    ]
}

/// The arguments of a `client` command of the node.
pub open spec fn client_args_spec(chain: ChainType, command: Seq<char>) -> Seq<Seq<char>> {
    client_network_args(chain) + seq!["client"@, command]
}

/// The arguments of the node's `client status` command: the flag of the user's
/// or the test network, none on the main network.
pub open spec fn status_args_spec(chain: ChainType) -> Seq<Seq<char>> {
    network_args(chain) + seq!["client"@, "status"@]
}

/// The network word in the shell line that recovers a wallet: empty on the
/// main network.
pub open spec fn network_word(chain: ChainType) -> Seq<char> {
    match chain {
        ChainType::UserTesting => "--usernet"@,
        ChainType::Floonet => "--floonet"@,
        _ => ""@,
    }
}

/// The shell line that recovers a wallet from its recovery phrase:
/// `<binary> <network> -p <password> init -r`.
pub open spec fn recover_command_spec(
    chain: ChainType,
    wallet_binary_path: Seq<char>,
    password: Seq<char>,
) -> Seq<char> {
    wallet_binary_path + " "@ + network_word(chain) + " -p "@ + password + " init -r"@
}

/// The counts that `get_number_transactions_txs` reads from the `txs` listing:
/// sent, received, and confirmed ones less the header's "Confirmed?" column;
/// `None` where the listing holds no "Confirmed" at all.
pub open spec fn transaction_counts_spec(txs: Seq<char>) -> Option<Seq<u32>> {
    let confirmed = count_spec(txs, "Confirmed"@) as u32;
    if confirmed == 0 {
        None
    } else {
        Some(
            seq![
                count_spec(txs, "Sent Tx"@) as u32,
                count_spec(txs, "Received Tx"@) as u32,
                (confirmed - 1) as u32,
            ],
        )
    }
}

/// The counts that `get_number_outputs` reads from the `outputs` listing, in
/// the order of the fields of `OutputList`.
pub open spec fn output_counts_spec(outputs: Seq<char>) -> Seq<u32> {
    seq![
        count_spec(outputs, "Unconfirmed"@) as u32,
        count_spec(outputs, "Unspent"@) as u32,
        count_spec(outputs, "Locked"@) as u32,
        count_spec(outputs, "Spent"@) as u32,
        count_spec(outputs, "Deleted"@) as u32,
        count_spec(outputs, "Mining"@) as u32,
        count_spec(outputs, "true"@) as u32,
    ]
}

/// Appends one argument.
fn push_arg(args: &mut Vec<String>, arg: &str)
    ensures
        final(args).deep_view() == old(args).deep_view().push(arg@),
{
    args.push(String::from_str(arg));
    assert(args.deep_view() =~= old(args).deep_view().push(arg@));
}

/// Appends the flag that selects the network, where there is one.
fn push_network_args(args: &mut Vec<String>, chain: ChainType)
    ensures
        final(args).deep_view() == old(args).deep_view() + network_args(chain),
{
    match chain {
        ChainType::UserTesting => push_arg(args, "--usernet"),
        ChainType::Floonet => push_arg(args, "--floonet"),
        _ => {},
    }
    assert(args.deep_view() =~= old(args).deep_view() + network_args(chain));
}

/// The arguments that start the node on `chain`, with the mining policy flag
/// where one is given (the main network takes neither).
pub fn spawn_network_args(chain: ChainType, policy: Option<&str>) -> (args: Vec<String>)
    requires
        is_network_spec(chain),
    ensures
        args.deep_view() == spawn_network_args_spec(
            chain,
            match policy {
                Some(p) => Some(p@),
                None => None,
            },
        ),
{
    let mut args: Vec<String> = Vec::new();
    if chain.is_network() && !matches!(chain, ChainType::Mainnet) {
        push_network_args(&mut args, chain);
        if let Some(p) = policy {
            push_arg(&mut args, p);
        }
    }
    assert(args.deep_view() =~= spawn_network_args_spec(
        chain,
        match policy {
            Some(p) => Some(p@),
            None => None,
        },
    ));
    args
}

/// The arguments of a wallet command that takes only the password and the
/// network: `init`, `recover`, `info`, `txs` and `scan`.
pub fn wallet_command_args(chain: ChainType, password: &str, command: &str) -> (args: Vec<
    String,
>)
    ensures
        args.deep_view() == wallet_command_args_spec(chain, password@, command@),
{
    let mut args: Vec<String> = Vec::new();
    push_arg(&mut args, "-p");
    push_arg(&mut args, password);
    push_network_args(&mut args, chain);
    push_arg(&mut args, command);
    assert(args.deep_view() =~= wallet_command_args_spec(chain, password@, command@));
    args
}

/// The arguments that start the wallet listening for payments.
pub fn spawn_wallet_listen_args(chain: ChainType, password: &str) -> (args: Vec<String>)
    requires
        is_network_spec(chain),
    ensures
        args.deep_view() == wallet_command_args_spec(chain, password@, "listen"@),
{
    wallet_command_args(chain, password, "listen")
}

/// The arguments of the wallet's `outputs` command, with the full history where
/// asked for.
pub fn outputs_wallet_args(chain: ChainType, password: &str, show_full_history: bool) -> (args:
    Vec<String>)
    ensures
        args.deep_view() == outputs_wallet_args_spec(chain, password@, show_full_history),
{
    let mut args = wallet_command_args(chain, password, "outputs");
    if show_full_history {
        push_arg(&mut args, "--show_full_history");
    }
    args
}

/// The arguments that send `amount` with `method`, to `destination` where it is
/// not empty.
pub fn send_coins_smallest_args(
    chain: ChainType,
    method: &str,
    password: &str,
    amount: &str,
    destination: &str,
) -> (args: Vec<String>)
    requires
        is_network_spec(chain),
    ensures
        args.deep_view() == send_coins_smallest_args_spec(
            chain,
            method@,
            password@,
            amount@,
            destination@,
        ),
{
    let mut args: Vec<String> = Vec::new();
    push_arg(&mut args, "-p");
    push_arg(&mut args, password);
    if !destination.is_empty() {
        if matches!(chain, ChainType::Mainnet) {
            push_arg(&mut args, "send");
            push_arg(&mut args, "-d");
            push_arg(&mut args, destination);
            push_arg(&mut args, "-m");
            push_arg(&mut args, method);
        } else {
            push_network_args(&mut args, chain);
            push_arg(&mut args, "send");
            push_arg(&mut args, "-m");
            push_arg(&mut args, method);
            push_arg(&mut args, "-d");
            push_arg(&mut args, destination);
        }
    } else {
        push_network_args(&mut args, chain);
        push_arg(&mut args, "send");
        push_arg(&mut args, "-m");
        push_arg(&mut args, method);
    }
    push_arg(&mut args, "-s");
    push_arg(&mut args, "smallest");
    push_arg(&mut args, amount);
    assert(args.deep_view() =~= send_coins_smallest_args_spec(
        chain,
        method@,
        password@,
        amount@,
        destination@,
    ));
    args
}

/// The arguments of the wallet's `receive` or `finalize` command, which reads
/// the slate from `destination`.
pub fn receive_finalize_coins_args(
    chain: ChainType,
    method: &str,
    password: &str,
    receive_finalize: &str,
    destination: &str,
) -> (args: Vec<String>)
    requires
        is_network_spec(chain),
    ensures
        args.deep_view() == receive_finalize_coins_args_spec(
            chain,
            method@,
            password@,
            receive_finalize@,
            destination@,
        ),
{
    let mut args: Vec<String> = Vec::new();
    push_arg(&mut args, "-p");
    push_arg(&mut args, password);
    push_network_args(&mut args, chain);
    push_arg(&mut args, receive_finalize);
    push_arg(&mut args, "-m");
    push_arg(&mut args, method);
    push_arg(&mut args, "-i");
    push_arg(&mut args, destination);
    assert(args.deep_view() =~= receive_finalize_coins_args_spec(
        chain,
        method@,
        password@,
        receive_finalize@,
        destination@,
    ));
    args
}

/// The arguments of a `client` command of the node, such as
/// `listconnectedpeers`.
pub fn client_args(chain: ChainType, command: &str) -> (args: Vec<String>)
    ensures
        args.deep_view() == client_args_spec(chain, command@),
{
    let mut args: Vec<String> = Vec::new();
    if matches!(chain, ChainType::Floonet) {
        push_arg(&mut args, "--floonet");
    }
    push_arg(&mut args, "client");
    push_arg(&mut args, command);
    assert(args.deep_view() =~= client_args_spec(chain, command@));
    args
}

/// The arguments that list the peers the node is connected to.
pub fn list_peers_args(chain: ChainType) -> (args: Vec<String>)
    ensures
        args.deep_view() == client_args_spec(chain, "listconnectedpeers"@),
{
    client_args(chain, "listconnectedpeers")
}

/// The arguments that ask the node for its status: `[network] client status`,
/// with the network's flag as for the wallet.
pub fn status_args(chain: ChainType) -> (args: Vec<String>)
    ensures
        args.deep_view() == status_args_spec(chain),
{
    let mut args: Vec<String> = Vec::new();
    push_network_args(&mut args, chain);
    push_arg(&mut args, "client");
    push_arg(&mut args, "status");
    assert(args.deep_view() =~= status_args_spec(chain));
    args
}

/// The shell line that recovers a wallet from its recovery phrase.
pub fn recover_command(chain: ChainType, wallet_binary_path: &str, password: &str) -> (line:
    String)
    requires
        is_network_spec(chain),
    ensures
        line@ == recover_command_spec(chain, wallet_binary_path@, password@),
{
    let mut line = String::from_str(wallet_binary_path);
    line.append(" ");
    match chain {
        ChainType::UserTesting => line.append("--usernet"),
        ChainType::Floonet => line.append("--floonet"),
        _ => line.append(""),
    }
    line.append(" -p ");
    line.append(password);
    line.append(" init -r");
    line
}

/// Counts the sent, received and confirmed transactions in the listing that the
/// wallet's `txs` command prints; `None` where it holds no "Confirmed".
pub fn count_transactions_txs(txs_str: &str) -> (counts: Option<Vec<u32>>)
    ensures
        counts matches Some(c) ==> transaction_counts_spec(txs_str@) == Some(c@),
        counts is None ==> transaction_counts_spec(txs_str@) is None,
{
    proof {
        reveal_strlit("Sent Tx");
        reveal_strlit("Received Tx");
        reveal_strlit("Confirmed");
    }
    let confirmed = count_matches(txs_str, "Confirmed") as u32;
    if confirmed == 0 {
        return None;
    }
    let sent = count_matches(txs_str, "Sent Tx") as u32;
    let received = count_matches(txs_str, "Received Tx") as u32;
    let counts = vec![sent, received, confirmed - 1];
    assert(counts@ =~= transaction_counts_spec(txs_str@).unwrap());
    Some(counts)
}

/// Counts the outputs by state in the listing that the wallet's `outputs`
/// command prints.
pub fn count_outputs(outputs_str: &str) -> (counts: Vec<u32>)
    ensures
        counts@ == output_counts_spec(outputs_str@),
{
    proof {
        reveal_strlit("Unconfirmed");
        reveal_strlit("Unspent");
        reveal_strlit("Locked");
        reveal_strlit("Spent");
        reveal_strlit("Deleted");
        reveal_strlit("Mining");
        reveal_strlit("true");
    }
    let counts = vec![
        count_matches(outputs_str, "Unconfirmed") as u32,
        count_matches(outputs_str, "Unspent") as u32,
        count_matches(outputs_str, "Locked") as u32,
        count_matches(outputs_str, "Spent") as u32,
        count_matches(outputs_str, "Deleted") as u32,
        count_matches(outputs_str, "Mining") as u32,
        count_matches(outputs_str, "true") as u32,
    ];
    assert(counts@ =~= output_counts_spec(outputs_str@));
    counts
}

/// Whether the wallet's `scan` command reported success.
pub fn scan_succeeded(scan_str: &str) -> (success: bool)
    ensures
        success == contains_spec(scan_str@, "successfully"@),
{
    proof {
        reveal_strlit("successfully");
    }
    contains_text(scan_str, "successfully")
}

/// A `send` command line starts with the password, then the network's flag
/// (`--usernet` on the user's network, `--floonet` on the test network, none on
/// the main network), then `send`; it ends with `-s smallest <amount>`; it
/// holds `-m <method>`, and `-d <destination>` exactly where a destination is
/// given.
pub proof fn law_send_command_line(
    chain: ChainType,
    method: Seq<char>,
    password: Seq<char>,
    amount: Seq<char>,
    destination: Seq<char>,
)
    requires
        is_network_spec(chain),
    ensures
        ({
            let args = send_coins_smallest_args_spec(chain, method, password, amount, destination);
            let flag: int = if chain == ChainType::Mainnet {
                0
            } else {
                1
            };
            let dest: int = if destination.len() > 0 {
                2
            } else {
                0
            };
            &&& args.len() == 8 + flag + dest
            &&& args[0] == "-p"@ && args[1] == password
            &&& chain == ChainType::UserTesting ==> args[2] == "--usernet"@
            &&& chain == ChainType::Floonet ==> args[2] == "--floonet"@
            &&& args[2 + flag] == "send"@
            &&& args[args.len() - 3] == "-s"@ && args[args.len() - 2] == "smallest"@
            &&& args[args.len() - 1] == amount
            &&& exists|i: int|
                #![trigger args[i]]
                0 <= i < args.len() - 1 && args[i] == "-m"@ && args[i + 1] == method
            &&& destination.len() > 0 ==> exists|i: int|
                #![trigger args[i]]
                0 <= i < args.len() - 1 && args[i] == "-d"@ && args[i + 1] == destination
        }),
{
    let args = send_coins_smallest_args_spec(chain, method, password, amount, destination);
    if destination.len() > 0 {
        if chain == ChainType::Mainnet {
            assert(args[5] == "-m"@ && args[6] == method);
            assert(args[3] == "-d"@ && args[4] == destination);
        } else {
            assert(args[4] == "-m"@ && args[5] == method);
            assert(args[6] == "-d"@ && args[7] == destination);
        }
    } else {
        if chain == ChainType::Mainnet {
            assert(args[3] == "-m"@ && args[4] == method);
        } else {
            assert(args[4] == "-m"@ && args[5] == method);
        }
    }
}

/// A wallet command line is the password, then the network's flag
/// (`--usernet` on the user's network, `--floonet` on the test network, none
/// otherwise), then the command.
pub proof fn law_wallet_command_line(chain: ChainType, password: Seq<char>, command: Seq<char>)
    ensures
        ({
            let args = wallet_command_args_spec(chain, password, command);
            let flagged = chain == ChainType::UserTesting || chain == ChainType::Floonet;
            &&& args.len() == if flagged {
                4int
            } else {
                3int
            }
            &&& args[0] == "-p"@ && args[1] == password
            &&& chain == ChainType::UserTesting ==> args[2] == "--usernet"@
            &&& chain == ChainType::Floonet ==> args[2] == "--floonet"@
            &&& args[args.len() - 1] == command
        }),
{
}

/// A `receive` or `finalize` command line is the password, then the network's
/// flag (`--usernet`, `--floonet`, none on the main network), then the command,
/// `-m <method>` and `-i <file>`.
pub proof fn law_receive_finalize_command_line(
    chain: ChainType,
    method: Seq<char>,
    password: Seq<char>,
    receive_finalize: Seq<char>,
    destination: Seq<char>,
)
    requires
        is_network_spec(chain),
    ensures
        ({
            let args = receive_finalize_coins_args_spec(
                chain,
                method,
                password,
                receive_finalize,
                destination,
            );
            let flag: int = if chain == ChainType::Mainnet {
                0
            } else {
                1
            };
            &&& args.len() == 7 + flag
            &&& args[0] == "-p"@ && args[1] == password
            &&& chain == ChainType::UserTesting ==> args[2] == "--usernet"@
            &&& chain == ChainType::Floonet ==> args[2] == "--floonet"@
            &&& args[2 + flag] == receive_finalize
            &&& args[3 + flag] == "-m"@ && args[4 + flag] == method
            &&& args[5 + flag] == "-i"@ && args[6 + flag] == destination
        }),
{
}

/// The node starts with the network's flag (`--usernet` or `--floonet`)
/// followed by the policy where one is given; on the main network with no
/// arguments at all.
pub proof fn law_node_command_line(chain: ChainType, policy: Option<Seq<char>>)
    requires
        is_network_spec(chain),
    ensures
        ({
            let args = spawn_network_args_spec(chain, policy);
            &&& chain == ChainType::Mainnet ==> args.len() == 0
            &&& chain == ChainType::UserTesting ==> args[0] == "--usernet"@
            &&& chain == ChainType::Floonet ==> args[0] == "--floonet"@
            &&& chain != ChainType::Mainnet ==> args.len() == 1 + if policy is Some {
                1int
            } else {
                0int
            }
            &&& chain != ChainType::Mainnet ==> (policy matches Some(p) ==> args[1] == p)
        }),
{
}

/// The node's `client` commands: `status` carries the network's flag like the
/// wallet's commands (`--usernet`, `--floonet`, none on the main network);
/// `listconnectedpeers` carries `--floonet` on the test network and no flag
/// otherwise.
pub proof fn law_node_client_command_lines(chain: ChainType)
    ensures
        ({
            let status = status_args_spec(chain);
            let peers = client_args_spec(chain, "listconnectedpeers"@);
            &&& chain == ChainType::UserTesting ==> status == seq![
                "--usernet"@,
                "client"@,
                "status"@,
            ]
            &&& chain == ChainType::Floonet ==> status == seq!["--floonet"@, "client"@, "status"@]
            &&& chain == ChainType::Mainnet ==> status == seq!["client"@, "status"@]
            &&& chain == ChainType::Floonet ==> peers == seq![
                "--floonet"@,
                "client"@,
                "listconnectedpeers"@,
            ]
            &&& chain != ChainType::Floonet ==> peers == seq!["client"@, "listconnectedpeers"@]
        }),
{
    assert(status_args_spec(chain) =~= network_args(chain) + seq!["client"@, "status"@]);
    if chain == ChainType::UserTesting {
        assert(status_args_spec(chain) =~= seq!["--usernet"@, "client"@, "status"@]);
    } else if chain == ChainType::Floonet {
        assert(status_args_spec(chain) =~= seq!["--floonet"@, "client"@, "status"@]);
        assert(client_args_spec(chain, "listconnectedpeers"@) =~= seq![
            "--floonet"@,
            "client"@,
            "listconnectedpeers"@,
        ]);
    } else {
        assert(status_args_spec(chain) =~= seq!["client"@, "status"@]);
    }
    if chain != ChainType::Floonet {
        assert(client_args_spec(chain, "listconnectedpeers"@) =~= seq![
            "client"@,
            "listconnectedpeers"@,
        ]);
    }
}

/// The recovery shell line is the wallet's binary, the network's flag
/// (`--usernet`, `--floonet`, nothing on the main network, where two spaces
/// remain), `-p <password>` and `init -r`.
pub proof fn law_recover_command_line(
    chain: ChainType,
    wallet_binary_path: Seq<char>,
    password: Seq<char>,
)
    requires
        is_network_spec(chain),
    ensures
        chain == ChainType::UserTesting ==> recover_command_spec(chain, wallet_binary_path, password)
            == wallet_binary_path + " --usernet -p "@ + password + " init -r"@,
        chain == ChainType::Floonet ==> recover_command_spec(chain, wallet_binary_path, password)
            == wallet_binary_path + " --floonet -p "@ + password + " init -r"@,
        chain == ChainType::Mainnet ==> recover_command_spec(chain, wallet_binary_path, password)
            == wallet_binary_path + "  -p "@ + password + " init -r"@,
{
    reveal_strlit(" ");
    reveal_strlit("");
    reveal_strlit("--usernet");
    reveal_strlit("--floonet");
    reveal_strlit(" -p ");
    reveal_strlit(" --usernet -p ");
    reveal_strlit(" --floonet -p ");
    reveal_strlit("  -p ");
    let line = recover_command_spec(chain, wallet_binary_path, password);
    if chain == ChainType::UserTesting {
        assert(" "@ + "--usernet"@ + " -p "@ =~= " --usernet -p "@);
        assert(line =~= wallet_binary_path + " --usernet -p "@ + password + " init -r"@);
    } else if chain == ChainType::Floonet {
        assert(" "@ + "--floonet"@ + " -p "@ =~= " --floonet -p "@);
        assert(line =~= wallet_binary_path + " --floonet -p "@ + password + " init -r"@);
    } else if chain == ChainType::Mainnet {
        assert(" "@ + ""@ + " -p "@ =~= "  -p "@);
        assert(line =~= wallet_binary_path + "  -p "@ + password + " init -r"@);
    }
}

/// The counts read from a `txs` listing: there are counts exactly where the
/// listing holds "Confirmed"; the first two are how many times "Sent Tx" and
/// "Received Tx" occur, one less than the pieces that the listing splits into
/// at them, and the third is the occurrences of "Confirmed" less the header's,
/// two less than the pieces at "Confirmed".
pub proof fn law_transaction_counts(txs: Seq<char>)
    requires
        txs.len() <= u32::MAX,
    ensures
        transaction_counts_spec(txs) is None <==> !contains_spec(txs, "Confirmed"@),
        transaction_counts_spec(txs) matches Some(c) ==> {
            &&& c.len() == 3
            &&& c[0] + 1 == split_spec(txs, "Sent Tx"@).len()
            &&& c[1] + 1 == split_spec(txs, "Received Tx"@).len()
            &&& c[2] + 2 == split_spec(txs, "Confirmed"@).len()
        },
{
    reveal_strlit("Sent Tx");
    reveal_strlit("Received Tx");
    reveal_strlit("Confirmed");
    lemma_count_from_bounded(txs, "Sent Tx"@, 0);
    lemma_count_from_bounded(txs, "Received Tx"@, 0);
    lemma_count_from_bounded(txs, "Confirmed"@, 0);
    law_split_counts_separators(txs, "Sent Tx"@);
    law_split_counts_separators(txs, "Received Tx"@);
    law_split_counts_separators(txs, "Confirmed"@);
    law_contains_iff_counted(txs, "Confirmed"@);
}

/// The counts read from an `outputs` listing are, in order, how many times
/// "Unconfirmed", "Unspent", "Locked", "Spent", "Deleted", "Mining" and "true"
/// occur: each one less than the pieces that the listing splits into at it.
pub proof fn law_output_counts(outputs: Seq<char>)
    requires
        outputs.len() <= u32::MAX,
    ensures
        ({
            let c = output_counts_spec(outputs);
            &&& c.len() == 7
            &&& c[0] + 1 == split_spec(outputs, "Unconfirmed"@).len()
            &&& c[1] + 1 == split_spec(outputs, "Unspent"@).len()
            &&& c[2] + 1 == split_spec(outputs, "Locked"@).len()
            &&& c[3] + 1 == split_spec(outputs, "Spent"@).len()
            &&& c[4] + 1 == split_spec(outputs, "Deleted"@).len()
            &&& c[5] + 1 == split_spec(outputs, "Mining"@).len()
            &&& c[6] + 1 == split_spec(outputs, "true"@).len()
        }),
{
    reveal_strlit("Unconfirmed");
    reveal_strlit("Unspent");
    reveal_strlit("Locked");
    reveal_strlit("Spent");
    reveal_strlit("Deleted");
    reveal_strlit("Mining");
    reveal_strlit("true");
    lemma_count_from_bounded(outputs, "Unconfirmed"@, 0);
    lemma_count_from_bounded(outputs, "Unspent"@, 0);
    lemma_count_from_bounded(outputs, "Locked"@, 0);
    lemma_count_from_bounded(outputs, "Spent"@, 0);
    lemma_count_from_bounded(outputs, "Deleted"@, 0);
    lemma_count_from_bounded(outputs, "Mining"@, 0);
    lemma_count_from_bounded(outputs, "true"@, 0);
    law_split_counts_separators(outputs, "Unconfirmed"@);
    law_split_counts_separators(outputs, "Unspent"@);
    law_split_counts_separators(outputs, "Locked"@);
    law_split_counts_separators(outputs, "Spent"@);
    law_split_counts_separators(outputs, "Deleted"@);
    law_split_counts_separators(outputs, "Mining"@);
    law_split_counts_separators(outputs, "true"@);
}

} // verus!
