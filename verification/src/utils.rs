//! What the tests read from the node and wallet output, the names of the files
//! and directories they use, and the amounts they send.

pub use crate::chain::{chain_type_to_str, str_to_chain_type};
use crate::chain::{is_network_spec, shortname_spec, ChainType};
use crate::number::{i32_to_string, int_to_decimal, parse_i32, parse_i32_spec};
use crate::text::{
    contains_spec, contains_text, first_line, first_line_of, law_contains_iff_counted,
    law_split_counts_separators, same_text, split_spec, split_text,
};
use rand::Rng;
use vstd::prelude::*;
use vstd::utf8::{decode_utf8, encode_utf8, valid_utf8};

verus! {

/// The name of the node's configuration file.
pub const TEST_SERVER_CONFIG_FILE_NAME: &'static str = "epic-server.toml";

/// The name of the node's log file.
pub const TEST_SERVER_LOG_FILE_NAME: &'static str = "epic-server.log";

/// The directory, under the home directory, that holds everything of Epic Cash.
pub const TEST_EPIC_HOME: &'static str = ".epic";

/// The directory of the node's chain data.
pub const TEST_EPIC_CHAIN_DIR: &'static str = "chain_data";

/// The file that holds the node's API secret.
pub const TEST_API_SECRET_FILE_NAME: &'static str = ".api_secret";

/// The text that `String::from_utf8_lossy` makes of `bytes`.
pub uninterp spec fn lossy_utf8(bytes: Seq<u8>) -> Seq<char>;

/// Calls `String::from_utf8_lossy`, which turns bytes into text, putting
/// U+FFFD in place of each invalid sequence. Claimed: the result is
/// `lossy_utf8` of the bytes, and valid UTF-8 is decoded as it is.
#[verifier::external_body]
pub(crate) fn text_of_output(bytes: &[u8]) -> (text: String)
    ensures
        text@ == lossy_utf8(bytes@),
        valid_utf8(bytes@) ==> text@ == decode_utf8(bytes@),
{
    String::from_utf8_lossy(bytes).into_owned()
}

/// The text that a command printed, from the bytes of its standard output,
/// with U+FFFD in place of each invalid sequence.
pub fn output_text(stdout: &[u8]) -> (text: String)
    ensures
        text@ == lossy_utf8(stdout@),
        valid_utf8(stdout@) ==> text@ == decode_utf8(stdout@),
{
    text_of_output(stdout)
}

/// A line is taken for the recovery phrase when it is longer than this many
/// bytes; "Please back-up these words in a non-digital format." has 51.
pub const PASSPHRASE_MIN_BYTES: usize = 55;

/// The last of `lines` that is longer than `PASSPHRASE_MIN_BYTES` bytes.
pub open spec fn last_long_line(lines: Seq<Seq<char>>) -> Option<Seq<char>>
    decreases lines.len(),
{
    if lines.len() == 0 {
        None
    } else if (encode_utf8(lines.last()).len() as usize) > PASSPHRASE_MIN_BYTES {
        Some(lines.last())
    } else {
        last_long_line(lines.drop_last())
    }
}

/// The recovery phrase in what `init` printed: its last line longer than
/// `PASSPHRASE_MIN_BYTES` bytes.
pub open spec fn passphrase_spec(text: Seq<char>) -> Option<Seq<char>> {
    last_long_line(split_spec(text, seq!['\n']))
}

/// Looks for the recovery phrase in the text that the wallet's `init`
/// printed; `None` where no line is long enough.
fn search_passphrase(text: &str) -> (passphrase: Option<String>)
    ensures
        passphrase matches Some(p) ==> passphrase_spec(text@) == Some(p@),
        passphrase is None ==> passphrase_spec(text@) is None,
{
    proof {
        reveal_strlit("\n");
        assert("\n"@ =~= seq!['\n']);
    }
    let lines = split_text(text, "\n");
    let ghost all = lines.deep_view();
    let mut found: Option<usize> = None;
    let mut i: usize = 0;
    while i < lines.len()
        invariant
            all == lines.deep_view(),
            all == split_spec(text@, seq!['\n']),
            i <= lines@.len(),
            found matches Some(k) ==> k < i && last_long_line(all.take(i as int)) == Some(all[k as int]),
            found is None ==> last_long_line(all.take(i as int)) is None,
        decreases lines@.len() - i,
    {
        proof {
            assert(all.take(i + 1).drop_last() =~= all.take(i as int));
            assert(all.take(i + 1).last() == all[i as int]);
        }
        if lines[i].as_str().len() > PASSPHRASE_MIN_BYTES {
            found = Some(i);
        }
        i += 1;
    }
    proof {
        assert(all.take(lines@.len() as int) =~= all);
    }
    match found {
        Some(k) => Some(lines[k].clone()),
        None => None,
    }
}

/// A line is long when it has more than 55 bytes.
pub open spec fn long_line(line: Seq<char>) -> bool {
    (encode_utf8(line).len() as usize) > 55
}

proof fn lemma_last_long_line(lines: Seq<Seq<char>>)
    ensures
        (forall|k: int| 0 <= k < lines.len() ==> !long_line(#[trigger] lines[k]))
            ==> last_long_line(lines) is None,
        forall|k: int|
            0 <= k < lines.len() && long_line(#[trigger] lines[k]) && (forall|j: int|
                k < j < lines.len() ==> !long_line(#[trigger] lines[j])) ==> last_long_line(lines)
                == Some(lines[k]),
    decreases lines.len(),
{
    if lines.len() > 0 {
        let rest = lines.drop_last();
        lemma_last_long_line(rest);
        assert forall|k: int|
            0 <= k < lines.len() && long_line(#[trigger] lines[k]) && (forall|j: int|
                k < j < lines.len() ==> !long_line(#[trigger] lines[j])) implies last_long_line(
            lines,
        ) == Some(lines[k]) by {
            if k < lines.len() - 1 {
                assert(!long_line(lines[lines.len() - 1]));
                assert(rest[k] == lines[k]);
                assert forall|j: int| k < j < rest.len() implies !long_line(#[trigger] rest[j]) by {
                    assert(rest[j] == lines[j]);
                }
            }
        }
        if forall|k: int| 0 <= k < lines.len() ==> !long_line(#[trigger] lines[k]) {
            assert(!long_line(lines[lines.len() - 1]));
            assert forall|k: int| 0 <= k < rest.len() implies !long_line(#[trigger] rest[k]) by {
                assert(rest[k] == lines[k]);
            }
        }
    }
}

/// The recovery phrase is the last line of the output that has more than 55
/// bytes, however long it is; where no line has more, there is none.
pub proof fn law_passphrase_is_last_long_line(text: Seq<char>)
    ensures
        ({
            let lines = split_spec(text, seq!['\n']);
            &&& (forall|k: int| 0 <= k < lines.len() ==> !long_line(#[trigger] lines[k]))
                ==> passphrase_spec(text) is None
            &&& forall|k: int|
                0 <= k < lines.len() && long_line(#[trigger] lines[k]) && (forall|j: int|
                    k < j < lines.len() ==> !long_line(#[trigger] lines[j]))
                    ==> passphrase_spec(text) == Some(lines[k])
        }),
{
    lemma_last_long_line(split_spec(text, seq!['\n']));
}

/// Whether the text that the wallet's `init` printed holds a recovery phrase:
/// a line longer than `PASSPHRASE_MIN_BYTES` bytes.
pub fn has_passphrase(text: &str) -> (found: bool)
    ensures
        found == passphrase_spec(text@) is Some,
{
    search_passphrase(text).is_some()
}

/// The recovery phrase in the text that the wallet's `init` printed; text
/// with no line long enough is ruled out.
pub fn passphrase_from_text(text: &str) -> (passphrase: String)
    requires
        passphrase_spec(text@) is Some,
    ensures
        passphrase_spec(text@) == Some(passphrase@),
{
    match search_passphrase(text) {
        Some(p) => p,
        None => String::new(),
    }
}

/// The recovery phrase in the bytes that the wallet's `init` printed; output
/// with no line long enough is ruled out.
pub fn get_passphrase(stdout: &[u8]) -> (passphrase: String)
    requires
        passphrase_spec(lossy_utf8(stdout@)) is Some,
    ensures
        passphrase_spec(lossy_utf8(stdout@)) == Some(passphrase@),
{
    let text = text_of_output(stdout);
    passphrase_from_text(text.as_str())
}

/// The recovery phrase in the bytes that the wallet's `init` printed, where
/// there is one; `None` where no line is long enough.
pub fn find_passphrase(stdout: &[u8]) -> (passphrase: Option<String>)
    ensures
        passphrase matches Some(p) ==> passphrase_spec(lossy_utf8(stdout@)) == Some(p@),
        passphrase is None ==> passphrase_spec(lossy_utf8(stdout@)) is None,
{
    let text = text_of_output(stdout);
    if has_passphrase(text.as_str()) {
        Some(get_passphrase(stdout))
    } else {
        None
    }
}

/// The heights read from the pieces of a peer listing, in order: one from each
/// piece that mentions "Total", read from its first line; `None` where such a
/// line is not an `i32`.
pub open spec fn heights_from_pieces(pieces: Seq<Seq<char>>) -> Option<Seq<i32>>
    decreases pieces.len(),
{
    if pieces.len() == 0 {
        Some(seq![])
    } else {
        match heights_from_pieces(pieces.drop_last()) {
            None => None,
            Some(heights) => if contains_spec(pieces.last(), "Total"@) {
                match parse_i32_spec(first_line(pieces.last())) {
                    Some(h) => Some(heights.push(h)),
                    None => None,
                }
            } else {
                Some(heights)
            },
        }
    }
}

/// The chain heights of the connected peers in what `listconnectedpeers`
/// printed: the text is cut at each "\nHeight: ".
pub open spec fn list_peers_heights_spec(text: Seq<char>) -> Option<Seq<i32>> {
    heights_from_pieces(split_spec(text, "\nHeight: "@))
}

/// A piece of a peer listing that mentions "Total" belongs to a peer.
pub open spec fn names_peer() -> spec_fn(Seq<char>) -> bool {
    |piece: Seq<char>| contains_spec(piece, "Total"@)
}

proof fn lemma_heights_of_peers(pieces: Seq<Seq<char>>)
    ensures
        ({
            let peers = pieces.filter(names_peer());
            &&& heights_from_pieces(pieces) is Some <==> forall|k: int|
                0 <= k < peers.len() ==> parse_i32_spec(first_line(#[trigger] peers[k])) is Some
            &&& heights_from_pieces(pieces) matches Some(hs) ==> {
                &&& hs.len() == peers.len()
                &&& forall|k: int|
                    0 <= k < hs.len() ==> Some(#[trigger] hs[k]) == parse_i32_spec(
                        first_line(peers[k]),
                    )
            }
        }),
    decreases pieces.len(),
{
    reveal(Seq::filter);
    if pieces.len() > 0 {
        let rest = pieces.drop_last();
        lemma_heights_of_peers(rest);
        let peers = pieces.filter(names_peer());
        let before = rest.filter(names_peer());
        let last = pieces.last();
        if names_peer()(last) {
            assert(peers == before.push(last));
            assert(forall|k: int| 0 <= k < before.len() ==> #[trigger] peers[k] == before[k]);
            if heights_from_pieces(pieces) is Some {
                assert forall|k: int| 0 <= k < peers.len() implies parse_i32_spec(
                    first_line(#[trigger] peers[k]),
                ) is Some by {
                    if k < before.len() {
                        assert(peers[k] == before[k]);
                    }
                }
            } else {
                if heights_from_pieces(rest) is None {
                    let k = choose|k: int|
                        0 <= k < before.len() && !(parse_i32_spec(
                            first_line(#[trigger] before[k]),
                        ) is Some);
                    assert(peers[k] == before[k]);
                } else {
                    assert(peers[before.len() as int] == last);
                }
            }
        } else {
            assert(peers == before);
        }
    }
}

/// A peer listing gives one height per peer, in order: one for each piece of
/// the text cut at "\nHeight: " that mentions "Total", read from its first
/// line, equal heights included; it gives heights exactly when every such line
/// is an `i32`.
pub proof fn law_one_height_per_peer(text: Seq<char>)
    ensures
        ({
            let peers = split_spec(text, "\nHeight: "@).filter(names_peer());
            &&& list_peers_heights_spec(text) is Some <==> forall|k: int|
                0 <= k < peers.len() ==> parse_i32_spec(first_line(#[trigger] peers[k])) is Some
            &&& list_peers_heights_spec(text) matches Some(hs) ==> {
                &&& hs.len() == peers.len()
                &&& forall|k: int|
                    0 <= k < hs.len() ==> Some(#[trigger] hs[k]) == parse_i32_spec(
                        first_line(peers[k]),
                    )
            }
        }),
{
    lemma_heights_of_peers(split_spec(text, "\nHeight: "@));
}

proof fn lemma_heights_stay_none(pieces: Seq<Seq<char>>, i: int, j: int)
    requires
        0 <= i <= j <= pieces.len(),
        heights_from_pieces(pieces.take(i)) is None,
    ensures
        heights_from_pieces(pieces.take(j)) is None,
    decreases j - i,
{
    if i < j {
        lemma_heights_stay_none(pieces, i, j - 1);
        assert(pieces.take(j).drop_last() =~= pieces.take(j - 1));
    }
}

/// Reads the chain heights of the connected peers from the text that the
/// node's `listconnectedpeers` printed; `None` where a height is not an `i32`.
pub fn heights_from_list_peers(text: &str) -> (heights: Option<Vec<i32>>)
    ensures
        heights matches Some(h) ==> list_peers_heights_spec(text@) == Some(h@),
        heights is None ==> list_peers_heights_spec(text@) is None,
{
    proof {
        reveal_strlit("\nHeight: ");
        reveal_strlit("Total");
    }
    let pieces = split_text(text, "\nHeight: ");
    let ghost all = pieces.deep_view();
    let mut heights: Vec<i32> = Vec::new();
    let mut i: usize = 0;
    assert(all.take(0) =~= Seq::<Seq<char>>::empty());
    while i < pieces.len()
        invariant
            all == pieces.deep_view(),
            all == split_spec(text@, "\nHeight: "@),
            i <= pieces@.len(),
            heights_from_pieces(all.take(i as int)) == Some(heights@),
            "Total"@.len() > 0,
        decreases pieces@.len() - i,
    {
        proof {
            assert(all.take(i + 1).drop_last() =~= all.take(i as int));
            assert(all.take(i + 1).last() == all[i as int]);
        }
        if contains_text(pieces[i].as_str(), "Total") {
            let line = first_line_of(pieces[i].as_str());
            match parse_i32(line.as_str()) {
                Some(h) => {
                    heights.push(h);
                },
                None => {
                    proof {
                        lemma_heights_stay_none(all, i + 1, all.len() as int);
                        assert(all.take(all.len() as int) =~= all);
                    }
                    return None;
                },
            }
        }
        i += 1;
    }
    proof {
        assert(all.take(pieces@.len() as int) =~= all);
    }
    Some(heights)
}

/// Reads the chain heights of the connected peers from the bytes that the
/// node's `listconnectedpeers` printed.
pub fn get_height_from_list_peers(stdout: &[u8]) -> (heights: Option<Vec<i32>>)
    ensures
        heights matches Some(h) ==> list_peers_heights_spec(lossy_utf8(stdout@)) == Some(h@),
        heights is None ==> list_peers_heights_spec(lossy_utf8(stdout@)) is None,
{
    let text = text_of_output(stdout);
    heights_from_list_peers(text.as_str())
}

/// The chain height in what the node's `status` printed: the first line after
/// the first "\nChain height: "; `None` where there is none or it is not an
/// `i32`.
pub open spec fn status_height_spec(text: Seq<char>) -> Option<i32> {
    let parts = split_spec(text, "\nChain height: "@);
    if parts.len() < 2 {
        None
    } else {
        parse_i32_spec(first_line(parts[1]))
    }
}

/// The node's status gives a height only where it holds "\nChain height: ".
pub proof fn law_status_height_needs_label(text: Seq<char>)
    ensures
        status_height_spec(text) is Some ==> contains_spec(text, "\nChain height: "@),
{
    reveal_strlit("\nChain height: ");
    law_split_counts_separators(text, "\nChain height: "@);
    law_contains_iff_counted(text, "\nChain height: "@);
}

/// Reads the chain height from the text that the node's `status` printed.
pub fn height_from_status(text: &str) -> (height: Option<i32>)
    ensures
        height == status_height_spec(text@),
{
    proof {
        reveal_strlit("\nChain height: ");
    }
    let parts = split_text(text, "\nChain height: ");
    if parts.len() < 2 {
        return None;
    }
    let line = first_line_of(parts[1].as_str());
    parse_i32(line.as_str())
}

/// Reads the chain height from the bytes that the node's `status` printed.
pub fn get_height_from_status(stdout: &[u8]) -> (height: Option<i32>)
    ensures
        height == status_height_spec(lossy_utf8(stdout@)),
{
    let text = text_of_output(stdout);
    height_from_status(text.as_str())
}

/// The highest of the peers' chain heights, or 0 when there is no peer.
pub fn get_chain_height_peers(vec_height: Vec<i32>) -> (height: i32)
    ensures
        vec_height@.len() == 0 ==> height == 0,
        vec_height@.len() > 0 ==> vec_height@.contains(height),
        forall|i: int| 0 <= i < vec_height@.len() ==> vec_height@[i] <= height,
{
    if vec_height.len() == 0 {
        return 0;
    }
    let mut best = vec_height[0];
    let mut i: usize = 1;
    assert(vec_height@.subrange(0, 1)[0] == best);
    while i < vec_height.len()
        invariant
            1 <= i <= vec_height@.len(),
            vec_height@.subrange(0, i as int).contains(best),
            forall|j: int| 0 <= j < i ==> vec_height@[j] <= best,
        decreases vec_height@.len() - i,
    {
        if vec_height[i] > best {
            best = vec_height[i];
            assert(vec_height@.subrange(0, i + 1)[i as int] == best);
        } else {
            let ghost k = choose|k: int|
                0 <= k < i && vec_height@.subrange(0, i as int)[k] == best;
            assert(vec_height@.subrange(0, i + 1)[k] == best);
        }
        i += 1;
    }
    assert(vec_height@.subrange(0, vec_height@.len() as int) =~= vec_height@);
    best
}

/// Holds when the node hears from at least one peer; calling it with no peer
/// is ruled out.
pub fn check_peers(vec_height: Vec<i32>)
    requires
        vec_height@.len() > 0,
{
}

/// Where the wallet listens for payments over HTTP on `chain`.
pub open spec fn http_wallet_spec(chain: ChainType) -> Seq<char> {
    "http://"@ + "127.0.0.1"@ + ":"@ + if chain == ChainType::Floonet {
        "13415"@
    } else {
        "23415"@
    }
}

/// The HTTP address that coins are sent to: the wallet's listener on `chain`.
pub fn get_http_wallet(chain_type: ChainType) -> (address: String)
    ensures
        address@ == http_wallet_spec(chain_type),
{
    let mut address = String::from_str("http://");
    address.append("127.0.0.1");
    address.append(":");
    if matches!(chain_type, ChainType::Floonet) {
        address.append("13415");
    } else {
        address.append("23415");
    }
    address
}

/// The shape of a local time written with `%Y-%m-%d_%H-%M-%S`: a year of at
/// least four digits (with a sign outside 0 to 9999), then two-digit month,
/// day, hour, minute and second.
pub open spec fn timestamp_shape(s: Seq<char>) -> bool {
    let n = s.len() as int;
    let year = s.take(n - 15);
    let is_d = |i: int| '0' <= s[i] && s[i] <= '9';
    &&& n >= 19
    &&& s[n - 15] == '-' && is_d(n - 14) && is_d(n - 13)
    &&& s[n - 12] == '-' && is_d(n - 11) && is_d(n - 10)
    &&& s[n - 9] == '_' && is_d(n - 8) && is_d(n - 7)
    &&& s[n - 6] == '-' && is_d(n - 5) && is_d(n - 4)
    &&& s[n - 3] == '-' && is_d(n - 2) && is_d(n - 1)
    &&& year.len() >= 4
    &&& (forall|i: int| 0 <= i < year.len() ==> '0' <= #[trigger] year[i] <= '9') || ((year[0]
        == '+' || year[0] == '-') && year.len() >= 5 && forall|i: int|
        1 <= i < year.len() ==> '0' <= #[trigger] year[i] <= '9')
}

/// Calls `chrono::Local::now` and formats the time it gives with
/// `DateTime::format("%Y-%m-%d_%H-%M-%S")`: the local time, to name the files
/// that slates are sent through. Claimed, from chrono's documentation of these
/// specifiers: the text has `timestamp_shape`. Which time it is, is not said.
#[verifier::external_body]
pub fn local_now_str() -> (now: String)
    ensures
        timestamp_shape(now@),
{
    format!("{}", chrono::Local::now().format("%Y-%m-%d_%H-%M-%S"))
}

/// The name of the file that a slate is sent to, for a time stamp.
pub fn sent_file_name(timestamp: &str) -> (name: String)
    ensures
        name@ == timestamp@ + ".txt"@,
{
    let mut name = String::from_str(timestamp);
    name.append(".txt");
    name
}

/// The name of a new file to send a slate to: the local time, then `.txt`.
pub fn generate_file_name() -> (name: String)
    ensures
        exists|stamp: Seq<char>| timestamp_shape(stamp) && name@ == stamp + ".txt"@,
{
    let stamp = local_now_str();
    sent_file_name(stamp.as_str())
}

/// The name of the file that holds the answer to a sent slate.
pub fn generate_response_file_name(sent_file_name: &String) -> (name: String)
    ensures
        name@ == sent_file_name@ + ".response"@,
{
    let mut name = sent_file_name.clone();
    name.append(".response");
    name
}

/// The amount `0.<v>` written as the wallet reads it.
pub open spec fn amount_spec(v: int) -> Seq<char> {
    "0."@ + int_to_decimal(v)
}

/// `amount` is `0.<v>` for some `v` in `[min_include, max_exclude)`.
pub open spec fn is_amount_in(amount: Seq<char>, min_include: int, max_exclude: int) -> bool {
    exists|v: int| min_include <= v < max_exclude && amount == amount_spec(v)
}

/// Writes the amount `0.<v>`.
pub fn amount_string(v: i32) -> (amount: String)
    ensures
        amount@ == amount_spec(v as int),
{
    let mut amount = String::from_str("0.");
    let digits = i32_to_string(v);
    amount.append(digits.as_str());
    amount
}

/// The random number generator of the current thread, from rand.
#[verifier::external_type_specification]
#[verifier::external_body]
pub struct ExThreadRng(rand::rngs::ThreadRng);

/// Calls `rand::thread_rng`, the generator of the current thread, seeded by
/// the system.
#[verifier::external_body]
fn thread_rng() -> rand::rngs::ThreadRng {
    rand::thread_rng()
}

/// Calls `Rng::sample` with `rand::distributions::Uniform::new(min_include,
/// max_exclude)`, a uniform draw from `[min_include, max_exclude)`.
/// `Uniform::new` panics when the range is empty, which `requires` rules out.
/// Claimed: the value lies in the range; which value it is, is left open.
#[verifier::external_body]
fn sample_uniform(rng: &mut rand::rngs::ThreadRng, min_include: i32, max_exclude: i32) -> (value:
    i32)
    requires
        min_include < max_exclude,
    ensures
        min_include <= value < max_exclude,
{
    rng.sample(rand::distributions::Uniform::new(min_include, max_exclude))
}

/// `number_elements` random amounts `0.<v>`, each with `v` drawn from
/// `[min_include, max_exclude)`; none when `number_elements` is not positive.
pub fn generate_vec_to_sent(min_include: i32, max_exclude: i32, number_elements: i32) -> (vals:
    Vec<String>)
    requires
        min_include < max_exclude,
    ensures
        vals@.len() == if number_elements > 0 {
            number_elements as int
        } else {
            0
        },
        forall|i: int|
            0 <= i < vals@.len() ==> is_amount_in(
                #[trigger] vals@[i]@,
                min_include as int,
                max_exclude as int,
            ),
{
    let mut rng = thread_rng();
    let mut vals: Vec<String> = Vec::new();
    let mut k: i32 = 0;
    while k < number_elements
        invariant
            0 <= k,
            number_elements > 0 ==> k <= number_elements,
            number_elements <= 0 ==> k == 0,
            vals@.len() == k,
            min_include < max_exclude,
            forall|i: int|
                0 <= i < vals@.len() ==> is_amount_in(
                    #[trigger] vals@[i]@,
                    min_include as int,
                    max_exclude as int,
                ),
        decreases number_elements - k,
    {
        let v = sample_uniform(&mut rng, min_include, max_exclude);
        let amount = amount_string(v);
        vals.push(amount);
        proof {
            assert(vals@[k as int]@ == amount_spec(v as int));
            assert(is_amount_in(vals@[k as int]@, min_include as int, max_exclude as int));
        }
        k += 1;
    }
    vals
}

/// How much a log shows, from the most severe messages only to everything.
#[derive(Clone, Copy, Debug, PartialEq, Eq, Structural)]
pub enum LogLevel {
    /// Errors only.
    Error,
    /// Warnings and worse.
    Warn,
    /// Information and worse.
    Info,
    /// Debugging messages and worse.
    Debug,
    /// Everything.
    Trace,
}

/// What the node's configuration gets for a test run on a network.
pub struct ServerTomlChanges {
    /// Whether the node shows its terminal interface.
    pub run_tui: bool,
    /// What the node logs on the console.
    pub stdout_log_level: LogLevel,
    /// What the node logs in its log file.
    pub file_log_level: LogLevel,
    /// The address of the stratum server that the miner connects to, where it
    /// is set.
    pub stratum_server_addr: Option<String>,
    /// The peers to seed from, where seeding goes by a fixed list.
    pub seeds: Option<Vec<String>>,
}

/// The stratum server address set on the user's network.
pub open spec fn user_stratum_addr() -> Seq<char> {
    "127.0.0.1:13416"@
}

/// The peer that the test network seeds from.
pub open spec fn floonet_seed() -> Seq<char> {
    "15.229.31.27:23414"@
}

/// Which changes `change_server_toml_by_chain` makes for `chain`: on every
/// network no terminal interface, errors on the console and debug messages in
/// the log file; besides, the stratum address on the user's network, a list of
/// one seed on the test network, and nothing more on the main network.
pub fn server_toml_changes(chain: ChainType) -> (changes: ServerTomlChanges)
    requires
        is_network_spec(chain),
    ensures
        !changes.run_tui,
        changes.stdout_log_level == LogLevel::Error,
        changes.file_log_level == LogLevel::Debug,
        chain == ChainType::UserTesting ==> (changes.stratum_server_addr matches Some(a) && a@
            == user_stratum_addr()),
        chain != ChainType::UserTesting ==> changes.stratum_server_addr is None,
        chain == ChainType::Floonet ==> (changes.seeds matches Some(s) && s.deep_view() == seq![
            floonet_seed(),
        ]),
        chain != ChainType::Floonet ==> changes.seeds is None,
{
    match chain {
        ChainType::UserTesting => ServerTomlChanges {
            run_tui: false,
            stdout_log_level: LogLevel::Error,
            file_log_level: LogLevel::Debug,
            stratum_server_addr: Some(String::from_str("127.0.0.1:13416")),
            seeds: None,
        },
        ChainType::Floonet => {
            let mut seeds: Vec<String> = Vec::new();
            seeds.push(String::from_str("15.229.31.27:23414"));
            assert(seeds.deep_view() =~= seq![floonet_seed()]);
            ServerTomlChanges {
                run_tui: false,
                stdout_log_level: LogLevel::Error,
                file_log_level: LogLevel::Debug,
                stratum_server_addr: None,
                seeds: Some(seeds),
            }
        },
        _ => ServerTomlChanges {
            run_tui: false,
            stdout_log_level: LogLevel::Error,
            file_log_level: LogLevel::Debug,
            stratum_server_addr: None,
            seeds: None,
        },
    }
}

/// The directories, under the home directory, of everything of `chain`:
/// `.epic/<shortname>`.
pub open spec fn home_chain_parts_spec(chain: ChainType) -> Seq<Seq<char>> {
    seq![".epic"@, shortname_spec(chain)]
}

/// The directories under the home directory that `get_home_chain` goes down.
pub fn home_chain_parts(chain_type: ChainType) -> (parts: Vec<String>)
    ensures
        parts.deep_view() == home_chain_parts_spec(chain_type),
{
    let mut parts: Vec<String> = Vec::new();
    parts.push(String::from_str(TEST_EPIC_HOME));
    parts.push(chain_type.shortname());
    assert(parts.deep_view() =~= home_chain_parts_spec(chain_type));
    parts
}

/// The path, under the home directory, of the node's configuration file.
pub fn toml_path_parts(chain_type: ChainType) -> (parts: Vec<String>)
    ensures
        parts.deep_view() == home_chain_parts_spec(chain_type).push("epic-server.toml"@),
{
    let mut parts = home_chain_parts(chain_type);
    let ghost before = parts.deep_view();
    parts.push(String::from_str(TEST_SERVER_CONFIG_FILE_NAME));
    assert(parts.deep_view() =~= before.push("epic-server.toml"@));
    parts
}

/// The directory that `get_wallet_chain_data` names: the wallet's data for
/// `"wallet"`, the chain's data for anything else.
pub open spec fn data_dir_name(wallet_chain: Seq<char>) -> Seq<char> {
    if wallet_chain == "wallet"@ {
        "wallet_data"@
    } else {
        "chain_data"@
    }
}

/// The path, under the home directory, of the wallet's or the chain's data.
pub fn wallet_chain_data_parts(chain_type: ChainType, wallet_chain: &str) -> (parts: Vec<String>)
    ensures
        parts.deep_view() == home_chain_parts_spec(chain_type).push(data_dir_name(wallet_chain@)),
{
    let mut parts = home_chain_parts(chain_type);
    let ghost before = parts.deep_view();
    if same_text(wallet_chain, "wallet") {
        parts.push(String::from_str("wallet_data"));
    } else {
        parts.push(String::from_str(TEST_EPIC_CHAIN_DIR));
    }
    assert(parts.deep_view() =~= before.push(data_dir_name(wallet_chain@)));
    parts
}

} // verus!
