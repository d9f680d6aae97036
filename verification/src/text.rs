//! Reading text that the node and wallet print: searching, splitting on a
//! separator, counting occurrences, and reading and writing decimal integers.
//!
//! Text is modelled as its sequence of characters (`Seq<char>`). Searching is
//! from left to right, and after a match it resumes behind it, so matches never
//! overlap: this is how `str::split`, `str::matches` and `str::contains` behave.

use vstd::prelude::*;

verus! {

/// `pat` occurs in `text` starting at position `i`.
pub open spec fn matches_at(text: Seq<char>, pat: Seq<char>, i: int) -> bool {
    &&& 0 <= i
    &&& i + pat.len() <= text.len()
    &&& text.subrange(i, i + pat.len()) == pat
}

/// The first position at or after `from` where `pat` occurs in `text`.
pub open spec fn find_from(text: Seq<char>, pat: Seq<char>, from: int) -> Option<int>
    decreases text.len() + 1 - from,
{
    if from < 0 || from + pat.len() > text.len() {
        None
    } else if matches_at(text, pat, from) {
        Some(from)
    } else {
        find_from(text, pat, from + 1)
    }
}

/// The pieces of `text[start..]` between the occurrences of `pat`.
pub open spec fn split_from(text: Seq<char>, pat: Seq<char>, start: int) -> Seq<Seq<char>>
    decreases text.len() - start,
{
    if pat.len() == 0 || start < 0 || start > text.len() {
        seq![]
    } else {
        match find_from(text, pat, start) {
            // `find_from` only finds positions that pass this test (see
            // `lemma_find_from`); the test shows that the recursion ends.
            Some(i) => if start <= i && i + pat.len() <= text.len() {
                seq![text.subrange(start, i)] + split_from(text, pat, i + pat.len())
            } else {
                seq![]
            },
            None => seq![text.subrange(start, text.len() as int)],
        }
    }
}

/// The number of occurrences of `pat` in `text[start..]`.
pub open spec fn count_from(text: Seq<char>, pat: Seq<char>, start: int) -> nat
    decreases text.len() - start,
{
    if pat.len() == 0 || start < 0 || start > text.len() {
        0
    } else {
        match find_from(text, pat, start) {
            // as in `split_from`, the test holds of every found position
            Some(i) => if start <= i && i + pat.len() <= text.len() {
                1 + count_from(text, pat, i + pat.len())
            } else {
                0
            },
            None => 0,
        }
    }
}

/// The pieces of `text` between the occurrences of `sep` (what `str::split` yields).
pub open spec fn split_spec(text: Seq<char>, sep: Seq<char>) -> Seq<Seq<char>> {
    split_from(text, sep, 0)
}

/// The number of occurrences of `pat` in `text` (what `str::matches(..).count()` gives).
pub open spec fn count_spec(text: Seq<char>, pat: Seq<char>) -> nat {
    count_from(text, pat, 0)
}

/// `pat` occurs in `text`.
pub open spec fn contains_spec(text: Seq<char>, pat: Seq<char>) -> bool {
    exists|i: int| matches_at(text, pat, i)
}

/// The pieces joined back together, with `sep` between each two of them.
pub open spec fn join_spec(pieces: Seq<Seq<char>>, sep: Seq<char>) -> Seq<char>
    decreases pieces.len(),
{
    if pieces.len() == 0 {
        seq![]
    } else if pieces.len() == 1 {
        pieces[0]
    } else {
        pieces[0] + sep + join_spec(pieces.drop_first(), sep)
    }
}

/// The first line of `text`: everything before its first newline.
pub open spec fn first_line(text: Seq<char>) -> Seq<char> {
    split_spec(text, seq!['\n'])[0]
}

/// A found position lies in range, `pat` is there, and it does not occur earlier.
pub proof fn lemma_find_from(text: Seq<char>, pat: Seq<char>, from: int)
    requires
        0 <= from,
    ensures
        find_from(text, pat, from) matches Some(i) ==> {
            &&& from <= i
            &&& i + pat.len() <= text.len()
            &&& matches_at(text, pat, i)
            &&& forall|j: int| from <= j < i ==> !#[trigger] matches_at(text, pat, j)
        },
        find_from(text, pat, from) is None ==> forall|j: int|
            from <= j ==> !#[trigger] matches_at(text, pat, j),
    decreases text.len() + 1 - from,
{
    if from + pat.len() > text.len() {
    } else if matches_at(text, pat, from) {
    } else {
        lemma_find_from(text, pat, from + 1);
    }
}

/// `split_from` never yields an empty list when it starts inside the text.
pub proof fn lemma_split_from_nonempty(text: Seq<char>, pat: Seq<char>, start: int)
    requires
        pat.len() > 0,
        0 <= start <= text.len(),
    ensures
        split_from(text, pat, start).len() >= 1,
        split_from(text, pat, start).len() == count_from(text, pat, start) + 1,
    decreases text.len() - start,
{
    lemma_find_from(text, pat, start);
    match find_from(text, pat, start) {
        Some(i) => {
            lemma_split_from_nonempty(text, pat, i + pat.len());
        },
        None => {},
    }
}


/// The characters of `s`, in order.
pub fn chars_of(s: &str) -> (chars: Vec<char>)
    ensures
        chars@ == s@,
{
    broadcast use vstd::string::group_string_axioms;

    let n = s.unicode_len();
    let mut chars: Vec<char> = Vec::new();
    let mut it = s.chars();
    let mut i: usize = 0;
    while i < n
        invariant
            chars@ + vstd::std_specs::iter::IteratorSpec::remaining(&it) == s@,
            chars@.len() == i,
            n == s@.len(),
            i <= n,
        decreases n - i,
    {
        if let Some(c) = it.next() {
            chars.push(c);
        }
        i += 1;
    }
    assert(chars@ =~= s@);
    chars
}

/// Whether two texts are the same, as `==` on `str` tells it.
pub fn same_text(a: &str, b: &str) -> (same: bool)
    ensures
        same == (a@ == b@),
{
    let x = chars_of(a);
    let y = chars_of(b);
    if x.len() != y.len() {
        return false;
    }
    let mut k: usize = 0;
    while k < x.len()
        invariant
            x@ == a@,
            y@ == b@,
            x@.len() == y@.len(),
            k <= x@.len(),
            forall|j: int| 0 <= j < k ==> x@[j] == y@[j],
        decreases x@.len() - k,
    {
        if x[k] != y[k] {
            return false;
        }
        k += 1;
    }
    assert(x@ =~= y@);
    true
}

/// Whether `pat` occurs in `text` at position `i`.
fn matches_at_exec(text: &Vec<char>, pat: &Vec<char>, i: usize) -> (found: bool)
    ensures
        found == matches_at(text@, pat@, i as int),
{
    if i > text.len() || pat.len() > text.len() - i {
        return false;
    }
    let text_len = text.len();
    let mut k: usize = 0;
    while k < pat.len()
        invariant
            text_len == text@.len(),
            i + pat@.len() <= text@.len(),
            k <= pat@.len(),
            forall|j: int| 0 <= j < k ==> text@[i + j] == pat@[j],
        decreases pat@.len() - k,
    {
        if text[i + k] != pat[k] {
            assert(text@.subrange(i as int, i + pat@.len())[k as int] != pat@[k as int]);
            return false;
        }
        k += 1;
    }
    assert(text@.subrange(i as int, i + pat@.len()) =~= pat@);
    true
}

/// The first position at or after `from` where `pat` occurs in `text`.
fn find_from_exec(text: &Vec<char>, pat: &Vec<char>, from: usize) -> (found: Option<usize>)
    requires
        pat@.len() > 0,
    ensures
        found matches Some(i) ==> find_from(text@, pat@, from as int) == Some(i as int),
        found is None ==> find_from(text@, pat@, from as int) is None,
{
    let mut i = from;
    while i <= text.len() && pat.len() <= text.len() - i
        invariant
            from <= i,
            pat@.len() > 0,
            find_from(text@, pat@, from as int) == find_from(text@, pat@, i as int),
        decreases text@.len() + 1 - i,
    {
        if matches_at_exec(text, pat, i) {
            return Some(i);
        }
        i += 1;
    }
    None
}


/// The pieces of `text` between the occurrences of `sep`, as `str::split` yields them.
pub fn split_text(text: &str, sep: &str) -> (pieces: Vec<String>)
    requires
        sep@.len() > 0,
    ensures
        pieces.deep_view() == split_spec(text@, sep@),
{
    let t = chars_of(text);
    let p = chars_of(sep);
    let text_len = t.len();
    let mut pieces: Vec<String> = Vec::new();
    let mut start: usize = 0;
    assert(pieces.deep_view() + split_from(t@, p@, 0) =~= split_from(t@, p@, 0));
    loop
        invariant_except_break
            t@ == text@,
            p@ == sep@,
            p@.len() > 0,
            text_len == t@.len(),
            start <= t@.len(),
            pieces.deep_view() + split_from(t@, p@, start as int) == split_from(t@, p@, 0),
        ensures
            pieces.deep_view() == split_from(t@, p@, 0),
        decreases t@.len() - start,
    {
        let ghost before = pieces.deep_view();
        match find_from_exec(&t, &p, start) {
            Some(i) => {
                proof {
                    lemma_find_from(t@, p@, start as int);
                }
                let piece = text.substring_char(start, i).to_owned();
                pieces.push(piece);
                assert(pieces.deep_view() =~= before.push(t@.subrange(start as int, i as int)));
                assert(before + split_from(t@, p@, start as int) =~= pieces.deep_view()
                    + split_from(t@, p@, i + p@.len()));
                start = i + p.len();
            },
            None => {
                let piece = text.substring_char(start, text_len).to_owned();
                pieces.push(piece);
                assert(pieces.deep_view() =~= before.push(t@.subrange(start as int, text_len as int)));
                assert(before + split_from(t@, p@, start as int) =~= pieces.deep_view());
                break;
            },
        }
    }
    pieces
}

/// The first line of `text`: everything before its first newline.
pub fn first_line_of(text: &str) -> (line: String)
    ensures
        line@ == first_line(text@),
{
    proof {
        reveal_strlit("\n");
        assert("\n"@ =~= seq!['\n']);
        lemma_split_from_nonempty(text@, seq!['\n'], 0);
    }
    let mut lines = split_text(text, "\n");
    proof {
        assert(lines.deep_view().len() >= 1);
    }
    lines.swap_remove(0)
}

/// How many times `pat` occurs in `text`, as `str::matches(..).count()` gives it.
pub fn count_matches(text: &str, pat: &str) -> (count: usize)
    requires
        pat@.len() > 0,
    ensures
        count == count_spec(text@, pat@),
{
    let t = chars_of(text);
    let p = chars_of(pat);
    let text_len = t.len();
    let mut count: usize = 0;
    let mut start: usize = 0;
    loop
        invariant_except_break
            text_len == t@.len(),
            p@.len() > 0,
            start <= t@.len(),
            count <= start,
            count + count_from(t@, p@, start as int) == count_from(t@, p@, 0),
        ensures
            count == count_from(t@, p@, 0),
        decreases t@.len() - start,
    {
        match find_from_exec(&t, &p, start) {
            Some(i) => {
                proof {
                    lemma_find_from(t@, p@, start as int);
                }
                count += 1;
                start = i + p.len();
            },
            None => {
                break;
            },
        }
    }
    count
}

/// Whether `pat` occurs in `text`, as `str::contains` tells it.
pub fn contains_text(text: &str, pat: &str) -> (found: bool)
    requires
        pat@.len() > 0,
    ensures
        found == contains_spec(text@, pat@),
{
    let t = chars_of(text);
    let p = chars_of(pat);
    proof {
        lemma_find_from(t@, p@, 0);
    }
    match find_from_exec(&t, &p, 0) {
        Some(i) => {
            assert(matches_at(t@, p@, i as int));
            true
        },
        None => false,
    }
}


/// There are no more matches than characters after `start`.
pub proof fn lemma_count_from_bounded(text: Seq<char>, pat: Seq<char>, start: int)
    requires
        pat.len() > 0,
        0 <= start <= text.len(),
    ensures
        count_from(text, pat, start) <= text.len() - start,
    decreases text.len() - start,
{
    lemma_find_from(text, pat, start);
    if let Some(i) = find_from(text, pat, start) {
        lemma_count_from_bounded(text, pat, i + pat.len());
    }
}

/// Joining what `split_from` yields, with the separator between the pieces,
/// gives back the text from `start` on.
proof fn lemma_join_split_from(text: Seq<char>, sep: Seq<char>, start: int)
    requires
        sep.len() > 0,
        0 <= start <= text.len(),
    ensures
        join_spec(split_from(text, sep, start), sep) == text.subrange(start, text.len() as int),
    decreases text.len() - start,
{
    lemma_find_from(text, sep, start);
    match find_from(text, sep, start) {
        Some(i) => {
            let rest = split_from(text, sep, i + sep.len());
            lemma_join_split_from(text, sep, i + sep.len());
            lemma_split_from_nonempty(text, sep, i + sep.len());
            let all = split_from(text, sep, start);
            assert(all == seq![text.subrange(start, i)] + rest);
            assert(all.drop_first() =~= rest);
            assert(all[0] == text.subrange(start, i));
            assert(join_spec(all, sep) == text.subrange(start, i) + sep + join_spec(rest, sep));
            assert(text.subrange(i, i + sep.len()) == sep);
            assert(text.subrange(start, i) + sep + text.subrange(i + sep.len(), text.len() as int)
                =~= text.subrange(start, text.len() as int));
        },
        None => {},
    }
}

/// No piece that `split_from` yields holds the separator.
proof fn lemma_split_from_pieces(text: Seq<char>, sep: Seq<char>, start: int)
    requires
        sep.len() > 0,
        0 <= start <= text.len(),
    ensures
        forall|k: int|
            0 <= k < split_from(text, sep, start).len() ==> !contains_spec(
                #[trigger] split_from(text, sep, start)[k],
                sep,
            ),
    decreases text.len() - start,
{
    lemma_find_from(text, sep, start);
    let all = split_from(text, sep, start);
    match find_from(text, sep, start) {
        Some(i) => {
            lemma_split_from_pieces(text, sep, i + sep.len());
            let piece = text.subrange(start, i);
            assert forall|j: int| !matches_at(piece, sep, j) by {
                if matches_at(piece, sep, j) {
                    assert(text.subrange(start + j, start + j + sep.len()) =~= piece.subrange(
                        j,
                        j + sep.len(),
                    ));
                    assert(matches_at(text, sep, start + j));
                }
            }
            assert forall|k: int| 0 <= k < all.len() implies !contains_spec(
                #[trigger] all[k],
                sep,
            ) by {
                if k == 0 {
                    assert(all[0] == piece);
                } else {
                    assert(all[k] == split_from(text, sep, i + sep.len())[k - 1]);
                }
            }
        },
        None => {
            let piece = text.subrange(start, text.len() as int);
            assert forall|j: int| !matches_at(piece, sep, j) by {
                if matches_at(piece, sep, j) {
                    assert(text.subrange(start + j, start + j + sep.len()) =~= piece.subrange(
                        j,
                        j + sep.len(),
                    ));
                    assert(matches_at(text, sep, start + j));
                }
            }
            assert(all[0] == piece);
        },
    }
}

/// Joining the pieces of a split with the separator gives back the text.
pub proof fn law_split_then_join(text: Seq<char>, sep: Seq<char>)
    requires
        sep.len() > 0,
    ensures
        join_spec(split_spec(text, sep), sep) == text,
{
    lemma_join_split_from(text, sep, 0);
    assert(text.subrange(0, text.len() as int) =~= text);
}

/// A split yields one piece more than the separator occurs in the text.
pub proof fn law_split_counts_separators(text: Seq<char>, sep: Seq<char>)
    requires
        sep.len() > 0,
    ensures
        split_spec(text, sep).len() == count_spec(text, sep) + 1,
{
    lemma_split_from_nonempty(text, sep, 0);
}

/// No piece of a split holds the separator.
pub proof fn law_split_pieces_lack_separator(text: Seq<char>, sep: Seq<char>)
    requires
        sep.len() > 0,
    ensures
        forall|k: int|
            0 <= k < split_spec(text, sep).len() ==> !contains_spec(
                #[trigger] split_spec(text, sep)[k],
                sep,
            ),
{
    lemma_split_from_pieces(text, sep, 0);
}

/// A text contains a pattern exactly when the pattern occurs at least once.
pub proof fn law_contains_iff_counted(text: Seq<char>, pat: Seq<char>)
    requires
        pat.len() > 0,
    ensures
        contains_spec(text, pat) <==> count_spec(text, pat) > 0,
{
    lemma_find_from(text, pat, 0);
    if let Some(i) = find_from(text, pat, 0) {
        assert(matches_at(text, pat, i));
    }
}

} // verus!
