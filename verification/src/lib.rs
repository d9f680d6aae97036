//! Helpers for driving an Epic Cash node, wallet and miner from integration
//! tests: the command lines that start them, what the tests read from the text
//! they print, and the records that the tests keep and compare.
//!
//! Running the tools, reading and writing files and waiting belong to the
//! caller; this crate computes the arguments to run them with and interprets
//! what they print.

pub mod chain;
pub mod commands;
pub mod number;
pub mod text;
pub mod types;
pub mod utils;

pub use chain::{chain_type_to_str, str_to_chain_type, ChainType};
pub use utils::{
    check_peers, generate_file_name, generate_response_file_name, generate_vec_to_sent,
    get_chain_height_peers, get_height_from_list_peers, get_height_from_status, get_http_wallet,
    local_now_str, TEST_API_SECRET_FILE_NAME, TEST_EPIC_CHAIN_DIR, TEST_EPIC_HOME,
    TEST_SERVER_CONFIG_FILE_NAME, TEST_SERVER_LOG_FILE_NAME,
};

use crate::text::{
    contains_spec, count_spec, law_split_counts_separators, law_split_pieces_lack_separator,
    split_spec, split_text,
};
use crate::utils::text_of_output;
use vstd::prelude::*;

verus! {

/// The recovery phrase in what `init` printed, taken by its place: the fourth
/// line, where the wallet printed more than five lines (after an error it
/// prints fewer).
pub open spec fn fourth_line_passphrase_spec(text: Seq<char>) -> Option<Seq<char>> {
    let lines = split_spec(text, seq!['\n']);
    if lines.len() > 5 {
        Some(lines[3])
    } else {
        None
    }
}

/// The recovery phrase by place exists exactly when the output has at least
/// five newlines, and then it is the text between the third and the fourth
/// newline, with no newline in it.
pub proof fn law_passphrase_by_place(text: Seq<char>)
    ensures
        fourth_line_passphrase_spec(text) is Some <==> count_spec(text, seq!['\n']) >= 5,
        fourth_line_passphrase_spec(text) matches Some(p) ==> p == split_spec(text, seq!['\n'])[3]
            && !contains_spec(p, seq!['\n']),
{
    law_split_counts_separators(text, seq!['\n']);
    law_split_pieces_lack_separator(text, seq!['\n']);
}

/// Whether the text that the wallet's `init` printed has more than five
/// lines, so that its fourth line is taken for the recovery phrase.
pub fn has_passphrase_line(text: &str) -> (found: bool)
    ensures
        found == fourth_line_passphrase_spec(text@) is Some,
{
    proof {
        reveal_strlit("\n");
        assert("\n"@ =~= seq!['\n']);
    }
    split_text(text, "\n").len() > 5
}

/// The recovery phrase in the bytes that the wallet's `init` printed, taken by
/// its place; output of five lines or fewer is ruled out.
pub fn get_passphrase(stdout: &[u8]) -> (passphrase: String)
    requires
        fourth_line_passphrase_spec(utils::lossy_utf8(stdout@)) is Some,
    ensures
        fourth_line_passphrase_spec(utils::lossy_utf8(stdout@)) == Some(passphrase@),
{
    proof {
        reveal_strlit("\n");
        assert("\n"@ =~= seq!['\n']);
    }
    let text = text_of_output(stdout);
    let mut lines = split_text(text.as_str(), "\n");
    lines.swap_remove(3)
}

/// The recovery phrase in the bytes that the wallet's `init` printed, taken by
/// its place, where there is one; `None` for five lines or fewer.
pub fn find_passphrase_line(stdout: &[u8]) -> (passphrase: Option<String>)
    ensures
        passphrase matches Some(p) ==> fourth_line_passphrase_spec(
            utils::lossy_utf8(stdout@),
        ) == Some(p@),
        passphrase is None ==> fourth_line_passphrase_spec(utils::lossy_utf8(stdout@)) is None,
{
    let text = text_of_output(stdout);
    if has_passphrase_line(text.as_str()) {
        Some(get_passphrase(stdout))
    } else {
        None
    }
}

} // verus!
