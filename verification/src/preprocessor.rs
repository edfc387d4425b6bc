//! Cleaning of raw transcripts: pathological repetition is collapsed, filler
//! words are stripped, words said twice in a row are said once, and white
//! space is normalised.

use vstd::prelude::*;
use vstd::string::*;
use crate::text::{
    chars_of, extend, join, joined, replace_char, rows_of, slice_of, split_whitespace, string_of,
    trim, trimmed, views_of, with_char_replaced, words_of,
};

verus! {

/// What `regex::Regex::replace_all` makes of `haystack` with the regular
/// expression `pattern` and the replacement `replacement`, or `None` where
/// `regex::Regex::new` rejects the pattern.
pub uninterp spec fn regex_replace_all(
    pattern: Seq<char>,
    haystack: Seq<char>,
    replacement: Seq<char>,
) -> Option<Seq<char>>;

/// Compiles `pattern` with `regex::Regex::new` and, where that succeeds,
/// replaces every non-overlapping match in `haystack` with
/// `regex::Regex::replace_all`; in `replacement`, `${n}` stands for the text
/// of group `n`. The contract gives the result its name and claims no more:
/// the same three texts always give the same result.
#[verifier::external_body]
fn replace_all(pattern: &str, haystack: &str, replacement: &str) -> (out: Option<String>)
    ensures
        regex_replace_all(pattern@, haystack@, replacement@) == match out {
            Some(text) => Some(text@),
            None => None,
        },
{
    match regex::Regex::new(pattern) {
        Ok(re) => Some(re.replace_all(haystack, replacement).into_owned()),
        Err(_) => None,
    }
}

/// `haystack` after the replacement, and `haystack` itself where the pattern
/// is rejected.
pub open spec fn substituted(
    pattern: Seq<char>,
    haystack: Seq<char>,
    replacement: Seq<char>,
) -> Seq<char> {
    match regex_replace_all(pattern, haystack, replacement) {
        Some(text) => text,
        None => haystack,
    }
}

/// Replaces every match of `pattern` in `haystack` by `replacement`. A
/// pattern that does not compile leaves the text as it is.
pub fn substitute(pattern: &str, haystack: &str, replacement: &str) -> (out: String)
    ensures
        out@ == substituted(pattern@, haystack@, replacement@),
{
    match replace_all(pattern, haystack, replacement) {
        Some(text) => text,
        None => String::from_str(haystack),
    }
}

/// Two or more dots in a row.
pub const DOTS_PATTERN: &'static str = r"\.{2,}";

/// One or more characters of white space.
pub const SPACES_PATTERN: &'static str = r"\s+";

/// Commas and full stops at the very beginning.
pub const LEADING_PUNCTUATION_PATTERN: &'static str = "^[、。]+";

/// White space followed by commas and full stops.
pub const SPACED_PUNCTUATION_PATTERN: &'static str = r"\s+[、。]+";

/// What stands before the filler words in the filler pattern: the beginning
/// of the text or a delimiter, as group 1, and the opening of group 2.
pub const FILLER_PATTERN_HEAD: &'static str = r"(^|[\s、。?!])(";

/// What stands behind the filler words in the filler pattern: the closing of
/// group 2, and a delimiter or the end of the text, as group 3.
pub const FILLER_PATTERN_TAIL: &'static str = r")([\s、。?!]|$)";

/// What a filler word and its two delimiters are replaced by: the delimiters,
/// with a space between them.
pub const FILLER_REPLACEMENT: &'static str = "${1} ${3}";

/// How often the filler pattern is applied at most.
pub const FILLER_ROUNDS: usize = 20;

/// How many copies of a chunk in a row count as pathological.
pub const REPETITION_THRESHOLD: usize = 5;

/// The longest chunk whose repetition is collapsed.
pub const REPETITION_MAX_CHUNK: usize = 4;

/// The end of the run of copies of the chunk `s[i..i + len]` that starts at
/// `i` and is known to reach `end`.
pub open spec fn run_end(s: Seq<char>, i: int, len: int, end: int) -> int
    decreases s.len() - end,
{
    if len > 0 && 0 <= i && i + len <= end && end + len <= s.len() && s.subrange(end, end + len)
        == s.subrange(i, i + len) {
        run_end(s, i, len, end + len)
    } else {
        end
    }
}

/// At `i` the chunk of length `len` stands at least five times in a row.
pub open spec fn repeats_at(s: Seq<char>, i: int, len: int) -> bool {
    0 <= i && len > 0 && i + len <= s.len() && run_end(s, i, len, i + len) >= i
        + REPETITION_THRESHOLD * len
}

/// The length of the shortest chunk, of one to four characters, that stands
/// at least five times in a row at `i`, or zero if there is none.
pub open spec fn repeated_chunk(s: Seq<char>, i: int) -> int {
    if repeats_at(s, i, 1) {
        1
    } else if repeats_at(s, i, 2) {
        2
    } else if repeats_at(s, i, 3) {
        3
    } else if repeats_at(s, i, 4) {
        4
    } else {
        0
    }
}

/// `s` from `i` on, with each pathological repetition replaced by one copy
/// of its chunk: reading from left to right, a chunk that stands five times
/// or more in a row is kept once and all its copies are passed over.
pub open spec fn collapsed_from(s: Seq<char>, i: int) -> Seq<char>
    decreases s.len() - i,
{
    if i < 0 || i >= s.len() {
        Seq::empty()
    } else {
        let len = repeated_chunk(s, i);
        if len > 0 {
            let next = run_end(s, i, len, i + len);
            if i < next <= s.len() {
                s.subrange(i, i + len) + collapsed_from(s, next)
            } else {
                Seq::empty()
            }
        } else {
            seq![s[i]] + collapsed_from(s, i + 1)
        }
    }
}

/// `s` with each pathological repetition replaced by one copy of its chunk.
pub open spec fn without_repetition(s: Seq<char>) -> Seq<char> {
    collapsed_from(s, 0)
}

/// Whether the `len` characters at `at` are the `len` characters at `i`.
fn same_chunk(chars: &Vec<char>, i: usize, at: usize, len: usize) -> (b: bool)
    requires
        i + len <= at,
        at + len <= chars.len(),
    ensures
        b == (chars@.subrange(at as int, at + len) == chars@.subrange(i as int, i + len)),
{
    let mut k: usize = 0;
    while k < len
        invariant
            k <= len,
            i + len <= at,
            at + len <= chars.len(),
            forall|m: int|
                0 <= m < k ==> chars@.subrange(at as int, at + len)[m] == #[trigger] chars@.subrange(
                    i as int,
                    i + len,
                )[m],
        decreases len - k,
    {
        if chars[at + k] != chars[i + k] {
            assert(chars@.subrange(at as int, at + len)[k as int] != chars@.subrange(
                i as int,
                i + len,
            )[k as int]);
            return false;
        }
        k += 1;
    }
    assert(chars@.subrange(at as int, at + len) =~= chars@.subrange(i as int, i + len));
    true
}

/// The end of the run of copies of the chunk of length `len` at `i`.
fn find_run_end(chars: &Vec<char>, i: usize, len: usize) -> (end: usize)
    requires
        len > 0,
        i + len <= chars.len(),
    ensures
        end == run_end(chars@, i as int, len as int, i + len),
        i + len <= end <= chars.len(),
{
    let mut end: usize = i + len;
    loop
        invariant
            len > 0,
            i + len <= end <= chars.len(),
            run_end(chars@, i as int, len as int, i + len) == run_end(
                chars@,
                i as int,
                len as int,
                end as int,
            ),
        decreases chars.len() - end,
    {
        if chars.len() - end < len {
            return end;
        }
        if !same_chunk(chars, i, end, len) {
            return end;
        }
        end += len;
    }
}

/// Whether the chunk of length `len` stands at least five times in a row at
/// `i`; with it, the end of its run.
fn check_repeats(chars: &Vec<char>, i: usize, len: usize) -> (out: (bool, usize))
    requires
        i < chars.len(),
        1 <= len <= REPETITION_MAX_CHUNK,
    ensures
        out.0 == repeats_at(chars@, i as int, len as int),
        out.0 ==> out.1 == run_end(chars@, i as int, len as int, i + len) && i < out.1
            <= chars.len(),
{
    if chars.len() - i < len {
        return (false, 0);
    }
    let end = find_run_end(chars, i, len);
    (end - i >= REPETITION_THRESHOLD * len, end)
}

/// `len` is the length that `repeated_chunk` gives at `i`, and `end` the end
/// of the run where it is not zero.
pub open spec fn chunk_found(s: Seq<char>, i: int, len: int, end: int) -> bool {
    len == repeated_chunk(s, i) && (len > 0 ==> end == run_end(s, i, len, i + len))
}

/// Collapses pathological repetition: a chunk of one to four characters that
/// stands five times or more in a row is kept once.
pub fn remove_repetition_chars(chars: &Vec<char>) -> (out: Vec<char>)
    ensures
        out@ == without_repetition(chars@),
{
    let mut out: Vec<char> = Vec::new();
    let mut i: usize = 0;
    while i < chars.len()
        invariant
            i <= chars.len(),
            out@ + collapsed_from(chars@, i as int) == collapsed_from(chars@, 0),
        decreases chars.len() - i,
    {
        let mut found: usize = 0;
        let mut end: usize = 0;
        let mut len: usize = 1;
        while len <= REPETITION_MAX_CHUNK && found == 0
            invariant
                i < chars.len(),
                1 <= len <= REPETITION_MAX_CHUNK + 1,
                found <= REPETITION_MAX_CHUNK,
                found == 0 ==> forall|l: int| 1 <= l < len ==> !repeats_at(chars@, i as int, l),
                found > 0 ==> chunk_found(chars@, i as int, found as int, end as int) && i < end
                    <= chars.len() && i + found <= chars.len(),
            decreases REPETITION_MAX_CHUNK + 1 - len + (if found == 0 {
                1nat
            } else {
                0nat
            }),
        {
            let (hit, run) = check_repeats(chars, i, len);
            if hit {
                found = len;
                end = run;
            } else {
                len += 1;
            }
        }
        let ghost rest = collapsed_from(chars@, i as int);
        let ghost before = out@;
        if found > 0 {
            let chunk = slice_of(chars, i, i + found);
            extend(&mut out, &chunk);
            assert(rest == chars@.subrange(i as int, i + found) + collapsed_from(
                chars@,
                end as int,
            ));
            assert(out@ + collapsed_from(chars@, end as int) =~= before + rest) by {
                assert(forall|a: Seq<char>, b: Seq<char>, c: Seq<char>|
                    (a + b) + c =~= a + (b + c));
            }
            i = end;
        } else {
            assert(repeated_chunk(chars@, i as int) == 0);
            out.push(chars[i]);
            assert(rest == seq![chars@[i as int]] + collapsed_from(chars@, i + 1));
            assert(out@ + collapsed_from(chars@, i + 1) =~= before + rest) by {
                assert(forall|a: Seq<char>, b: Seq<char>, c: Seq<char>|
                    (a + b) + c =~= a + (b + c));
            }
            i += 1;
        }
    }
    assert(collapsed_from(chars@, chars@.len() as int) =~= Seq::<char>::empty());
    assert(out@ + Seq::<char>::empty() =~= out@);
    out
}

/// The index at which a word of `len` characters goes into `sorted`: behind
/// every word at or after `i` that is at least as long.
pub open spec fn slot_for(sorted: Seq<Seq<char>>, len: nat, i: int) -> int
    decreases sorted.len() - i,
{
    if 0 <= i < sorted.len() && sorted[i].len() >= len {
        slot_for(sorted, len, i + 1)
    } else {
        i
    }
}

/// The first `n` words of `words`, longest first; words of one length keep
/// the order they came in.
pub open spec fn longest_first(words: Seq<Seq<char>>, n: nat) -> Seq<Seq<char>>
    decreases n,
{
    if n == 0 {
        Seq::empty()
    } else {
        let before = longest_first(words, (n - 1) as nat);
        let slot = slot_for(before, words[n - 1].len(), 0);
        if 0 <= slot <= before.len() {
            before.insert(slot, words[n - 1])
        } else {
            before
        }
    }
}

/// No word of `words` is longer than a word before it.
pub open spec fn by_falling_length(words: Seq<Seq<char>>) -> bool {
    forall|i: int, j: int| 0 <= i <= j < words.len() ==> words[i].len() >= words[j].len()
}

/// The slot for a word lies between the start index and the end.
pub proof fn lemma_slot_bounds(sorted: Seq<Seq<char>>, len: nat, i: int)
    requires
        0 <= i <= sorted.len(),
    ensures
        i <= slot_for(sorted, len, i) <= sorted.len(),
        forall|k: int| i <= k < slot_for(sorted, len, i) ==> sorted[k].len() >= len,
        slot_for(sorted, len, i) < sorted.len() ==> sorted[slot_for(sorted, len, i)].len() < len,
    decreases sorted.len() - i,
{
    if i < sorted.len() && sorted[i].len() >= len {
        lemma_slot_bounds(sorted, len, i + 1);
    }
}

/// Sorting longest first gives the same words, none longer than one before
/// it.
pub proof fn lemma_longest_first_sorted(words: Seq<Seq<char>>, n: nat)
    requires
        n <= words.len(),
    ensures
        longest_first(words, n).len() == n,
        by_falling_length(longest_first(words, n)),
        longest_first(words, n).to_multiset() == words.take(n as int).to_multiset(),
    decreases n,
{
    broadcast use vstd::seq_lib::group_to_multiset_ensures;

    if n == 0 {
        assert(words.take(0) =~= Seq::<Seq<char>>::empty());
    } else {
        let p = (n - 1) as nat;
        lemma_longest_first_sorted(words, p);
        let before = longest_first(words, p);
        let w = words[p as int];
        let slot = slot_for(before, w.len(), 0);
        lemma_slot_bounds(before, w.len(), 0);
        let after = before.insert(slot, w);
        assert(by_falling_length(after)) by {
            assert forall|i: int, j: int| 0 <= i <= j < after.len() implies after[i].len()
                >= after[j].len() by {
                let a = if i < slot {
                    i
                } else {
                    i - 1
                };
                let b = if j < slot {
                    j
                } else {
                    j - 1
                };
                if i != slot && j != slot {
                    assert(after[i] == before[a] && after[j] == before[b]);
                } else if i == slot && j != slot {
                    assert(after[j] == before[b]);
                    assert(before[slot].len() < w.len());
                    assert(before[slot].len() >= before[b].len());
                } else if i != slot && j == slot {
                    assert(after[i] == before[a]);
                }
            }
        }
        assert(after.remove(slot) =~= before);
        assert(after[slot] == w);
        assert(after.to_multiset() =~= before.to_multiset().insert(w)) by {
            assert(after.contains(w));
            assert(after.remove(slot).to_multiset() == after.to_multiset().remove(w));
        }
        assert(words.take(n as int) =~= words.take(p as int).push(w));
    }
}

/// The filler words that are stripped unless others are configured.
pub open spec fn default_fillers() -> Seq<Seq<char>> {
    seq![
        "えー"@,
        "あのー"@,
        "うーん"@,
        "えっと"@,
        "なんて"@,
        "まあ"@,
        "そうですね"@,
        "あー"@,
        "んー"@,
        "うん"@,
        "ふん"@,
        "あ"@,
        "はは"@,
        "ははは"@,
        "なんか"@,
        "え"@,
        "お"@,
        "ふんふん"@,
        "ふんふんふん"@,
        "うんうん"@,
        "うんうんうん"@,
        "はいはい"@,
        "はいはいはい"@,
        "はいはいはいはい"@,
        "おー"@,
        "ああ"@,
        "んふん"@,
        "そっか"@,
        "そっかぁ"@,
        "そうか"@,
        "そうなんだ"@,
        "えへへ"@,
        "あの"@,
        "あのね"@,
        "あのさ"@,
        "ん"@,
        "えっと"@,
    ]
}

/// The filler words that are stripped unless others are configured.
pub fn transcript_fillers() -> (fillers: Vec<String>)
    ensures
        views_of(fillers@) == default_fillers(),
{
    let mut fillers: Vec<String> = Vec::new();
    fillers.push(String::from_str("えー"));
    fillers.push(String::from_str("あのー"));
    fillers.push(String::from_str("うーん"));
    fillers.push(String::from_str("えっと"));
    fillers.push(String::from_str("なんて"));
    fillers.push(String::from_str("まあ"));
    fillers.push(String::from_str("そうですね"));
    fillers.push(String::from_str("あー"));
    fillers.push(String::from_str("んー"));
    fillers.push(String::from_str("うん"));
    fillers.push(String::from_str("ふん"));
    fillers.push(String::from_str("あ"));
    fillers.push(String::from_str("はは"));
    fillers.push(String::from_str("ははは"));
    fillers.push(String::from_str("なんか"));
    fillers.push(String::from_str("え"));
    fillers.push(String::from_str("お"));
    fillers.push(String::from_str("ふんふん"));
    fillers.push(String::from_str("ふんふんふん"));
    fillers.push(String::from_str("うんうん"));
    fillers.push(String::from_str("うんうんうん"));
    fillers.push(String::from_str("はいはい"));
    fillers.push(String::from_str("はいはいはい"));
    fillers.push(String::from_str("はいはいはいはい"));
    fillers.push(String::from_str("おー"));
    fillers.push(String::from_str("ああ"));
    fillers.push(String::from_str("んふん"));
    fillers.push(String::from_str("そっか"));
    fillers.push(String::from_str("そっかぁ"));
    fillers.push(String::from_str("そうか"));
    fillers.push(String::from_str("そうなんだ"));
    fillers.push(String::from_str("えへへ"));
    fillers.push(String::from_str("あの"));
    fillers.push(String::from_str("あのね"));
    fillers.push(String::from_str("あのさ"));
    fillers.push(String::from_str("ん"));
    fillers.push(String::from_str("えっと"));
    assert(views_of(fillers@) =~= default_fillers());
    fillers
}

/// The words of `words`, longest first; words of one length keep the order
/// they came in.
pub fn sort_longest_first(words: &Vec<String>) -> (sorted: Vec<Vec<char>>)
    ensures
        rows_of(sorted@) == longest_first(views_of(words@), words@.len()),
{
    let mut sorted: Vec<Vec<char>> = Vec::new();
    let mut n: usize = 0;
    while n < words.len()
        invariant
            n <= words.len(),
            rows_of(sorted@) == longest_first(views_of(words@), n as nat),
        decreases words.len() - n,
    {
        let word = chars_of(words[n].as_str());
        assert(views_of(words@)[n as int] == word@);
        let mut slot: usize = 0;
        while slot < sorted.len() && sorted[slot].len() >= word.len()
            invariant
                slot <= sorted.len(),
                slot_for(rows_of(sorted@), word@.len(), 0) == slot_for(
                    rows_of(sorted@),
                    word@.len(),
                    slot as int,
                ),
            decreases sorted.len() - slot,
        {
            assert(rows_of(sorted@)[slot as int] == sorted@[slot as int]@);
            slot += 1;
        }
        proof {
            if slot < sorted.len() {
                assert(rows_of(sorted@)[slot as int] == sorted@[slot as int]@);
            }
        }
        let ghost before = sorted@;
        let ghost w = word@;
        sorted.insert(slot, word);
        assert(rows_of(sorted@) =~= rows_of(before).insert(slot as int, w));
        n += 1;
    }
    sorted
}

/// The characters that mean something in a regular expression.
pub open spec fn is_meta(c: char) -> bool {
    c == '\\' || c == '.' || c == '+' || c == '*' || c == '?' || c == '(' || c == ')' || c == '|'
        || c == '[' || c == ']' || c == '{' || c == '}' || c == '^' || c == '$' || c == '#' || c
        == '&' || c == '-' || c == '~'
}

/// The first `n` characters of `s` as a regular expression that matches
/// them literally: each character that means something in a regular
/// expression has a backslash before it.
pub open spec fn escaped_upto(s: Seq<char>, n: nat) -> Seq<char>
    decreases n,
{
    if n == 0 {
        Seq::empty()
    } else if is_meta(s[n - 1]) {
        escaped_upto(s, (n - 1) as nat).push('\\').push(s[n - 1])
    } else {
        escaped_upto(s, (n - 1) as nat).push(s[n - 1])
    }
}

/// `s` as a regular expression that matches `s` literally.
pub open spec fn escaped(s: Seq<char>) -> Seq<char> {
    escaped_upto(s, s.len())
}

/// Escapes `word` with `regex::escape`: the characters of `word` in order,
/// each of the eighteen that mean something in a regular expression with a
/// backslash before it, and nothing else added or left out.
#[verifier::external_body]
fn escape(word: &str) -> (out: String)
    ensures
        out@ == escaped(word@),
{
    regex::escape(word)
}

/// The words of `words` as regular expressions that match them literally.
pub open spec fn all_escaped(words: Seq<Seq<char>>) -> Seq<Seq<char>> {
    words.map_values(|w: Seq<char>| escaped(w))
}

/// The regular expression that finds a filler word between two delimiters:
/// group 1 is the beginning of the text or a delimiter, group 2 one of the
/// words, longest first and each taken literally, and group 3 a delimiter or
/// the end of the text.
pub open spec fn filler_pattern_of(fillers: Seq<Seq<char>>) -> Seq<char> {
    FILLER_PATTERN_HEAD@ + joined(all_escaped(longest_first(fillers, fillers.len())), seq!['|'])
        + FILLER_PATTERN_TAIL@
}

/// The regular expression that finds one of `fillers` between two
/// delimiters. The words are taken literally, whatever characters they
/// hold.
pub fn filler_pattern(fillers: &Vec<String>) -> (pattern: String)
    ensures
        pattern@ == filler_pattern_of(views_of(fillers@)),
{
    let sorted = sort_longest_first(fillers);
    let mut literal: Vec<Vec<char>> = Vec::new();
    let mut i: usize = 0;
    while i < sorted.len()
        invariant
            i <= sorted.len(),
            rows_of(literal@) == all_escaped(rows_of(sorted@)).take(i as int),
        decreases sorted.len() - i,
    {
        let ghost before = literal@;
        assert(rows_of(sorted@)[i as int] == sorted@[i as int]@);
        let word = chars_of(escape(string_of(&sorted[i]).as_str()).as_str());
        literal.push(word);
        assert(rows_of(literal@) =~= rows_of(before).push(escaped(sorted@[i as int]@)));
        assert(rows_of(literal@) =~= all_escaped(rows_of(sorted@)).take(i + 1));
        i += 1;
    }
    assert(all_escaped(rows_of(sorted@)).take(sorted@.len() as int) =~= all_escaped(
        rows_of(sorted@),
    ));
    let mut bar: Vec<char> = Vec::new();
    bar.push('|');
    assert(bar@ =~= seq!['|']);
    let words = join(&literal, &bar);
    let mut pattern = chars_of(FILLER_PATTERN_HEAD);
    extend(&mut pattern, &words);
    let tail = chars_of(FILLER_PATTERN_TAIL);
    extend(&mut pattern, &tail);
    string_of(&pattern)
}

/// `s` after the filler pattern was applied until nothing changed, and at
/// most `rounds` times.
pub open spec fn fillers_stripped(pattern: Seq<char>, s: Seq<char>, rounds: nat) -> Seq<char>
    decreases rounds,
{
    if rounds == 0 {
        s
    } else {
        let next = substituted(pattern, s, FILLER_REPLACEMENT@);
        if next == s {
            s
        } else {
            fillers_stripped(pattern, next, (rounds - 1) as nat)
        }
    }
}

/// The first `n` characters of `s` without the commas and full stops that
/// repeat the character before them.
pub open spec fn squeezed_upto(s: Seq<char>, n: nat) -> Seq<char>
    decreases n,
{
    if n == 0 {
        Seq::empty()
    } else {
        let c = s[n - 1];
        if (c == '、' || c == '。') && n >= 2 && s[n - 2] == c {
            squeezed_upto(s, (n - 1) as nat)
        } else {
            squeezed_upto(s, (n - 1) as nat).push(c)
        }
    }
}

/// `s` with each run of one comma, or of one full stop, cut down to one.
pub open spec fn squeezed(s: Seq<char>) -> Seq<char> {
    squeezed_upto(s, s.len())
}

/// Cuts each run of one comma, or of one full stop, down to one.
pub fn squeeze_punctuation(chars: &Vec<char>) -> (out: Vec<char>)
    ensures
        out@ == squeezed(chars@),
{
    let mut out: Vec<char> = Vec::new();
    let mut i: usize = 0;
    while i < chars.len()
        invariant
            i <= chars.len(),
            out@ == squeezed_upto(chars@, i as nat),
        decreases chars.len() - i,
    {
        let c = chars[i];
        if (c == '、' || c == '。') && i >= 1 && chars[i - 1] == c {
        } else {
            out.push(c);
        }
        i += 1;
    }
    out
}

/// What is left of `s` once the filler pattern `pattern` has done its work:
/// the fillers are stripped, white space is collapsed and trimmed, repeated
/// punctuation is squeezed, punctuation at the beginning and punctuation
/// behind white space are dropped, and white space is collapsed and trimmed
/// once more.
pub open spec fn without_fillers(pattern: Seq<char>, s: Seq<char>) -> Seq<char> {
    let stripped = fillers_stripped(pattern, s, FILLER_ROUNDS as nat);
    let spaced = trimmed(substituted(SPACES_PATTERN@, stripped, " "@));
    let squeezed = squeezed(spaced);
    let headed = trimmed(substituted(LEADING_PUNCTUATION_PATTERN@, squeezed, ""@));
    let joined = substituted(SPACED_PUNCTUATION_PATTERN@, headed, ""@);
    trimmed(substituted(SPACES_PATTERN@, joined, " "@))
}

/// The first `n` words of `words` without adjacent repeats: a word is kept
/// only where it differs from the word before it, so that a run of one word
/// said over and over leaves that word once.
pub open spec fn deduped_upto(words: Seq<Seq<char>>, n: nat) -> Seq<Seq<char>>
    decreases n,
{
    if n == 0 {
        Seq::empty()
    } else if n >= 2 && words[n - 1] == words[n - 2] {
        deduped_upto(words, (n - 1) as nat)
    } else {
        deduped_upto(words, (n - 1) as nat).push(words[n - 1])
    }
}

/// The words of `words` without adjacent repeats.
pub open spec fn deduped(words: Seq<Seq<char>>) -> Seq<Seq<char>> {
    deduped_upto(words, words.len())
}

/// The words of `s` without adjacent repeats, a space between each two.
pub open spec fn words_deduped(s: Seq<char>) -> Seq<char> {
    joined(deduped(words_of(s)), seq![' '])
}

/// No two adjacent words of the result are equal, the result begins with
/// the first word and ends with the last, and it holds no more words than
/// there were.
pub proof fn lemma_deduped_has_no_adjacent_repeats(words: Seq<Seq<char>>, n: nat)
    requires
        n <= words.len(),
    ensures
        forall|k: int|
            0 < k < deduped_upto(words, n).len() ==> #[trigger] deduped_upto(words, n)[k]
                != deduped_upto(words, n)[k - 1],
        deduped_upto(words, n).len() <= n,
        n > 0 ==> deduped_upto(words, n).len() > 0 && deduped_upto(words, n).last() == words[n
            - 1] && deduped_upto(words, n).first() == words[0],
    decreases n,
{
    if n > 0 {
        lemma_deduped_has_no_adjacent_repeats(words, (n - 1) as nat);
    }
}

/// Words that hold no adjacent repeats stay as they are.
pub proof fn lemma_deduped_keeps_distinct_neighbours(words: Seq<Seq<char>>, n: nat)
    requires
        n <= words.len(),
        forall|k: int| 0 < k < words.len() ==> #[trigger] words[k] != words[k - 1],
    ensures
        deduped_upto(words, n) == words.take(n as int),
    decreases n,
{
    if n > 0 {
        lemma_deduped_keeps_distinct_neighbours(words, (n - 1) as nat);
        assert(words.take(n as int) =~= words.take(n - 1).push(words[n - 1]));
    } else {
        assert(words.take(0) =~= Seq::<Seq<char>>::empty());
    }
}

/// `s` on one line: line feeds become spaces, white space is collapsed and
/// trimmed.
pub open spec fn lines_merged(s: Seq<char>) -> Seq<char> {
    trimmed(substituted(SPACES_PATTERN@, with_char_replaced(s, '\n', ' '), " "@))
}

/// `s` with each ellipsis, and each run of two or more dots, replaced by a
/// space.
pub open spec fn normalized(s: Seq<char>) -> Seq<char> {
    substituted(DOTS_PATTERN@, with_char_replaced(s, '…', ' '), " "@)
}

/// The clean form of the transcript `s`, for the filler pattern `pattern`.
pub open spec fn cleaned(pattern: Seq<char>, s: Seq<char>) -> Seq<char> {
    lines_merged(words_deduped(without_fillers(pattern, without_repetition(normalized(s)))))
}

/// Cleans raw transcripts.
#[derive(Debug)]
pub struct TranscriptPreprocessor {
    fillers: Vec<String>,
}

impl TranscriptPreprocessor {
    /// The filler words that this preprocessor strips.
    pub closed spec fn fillers(&self) -> Seq<Seq<char>> {
        views_of(self.fillers@)
    }

    /// A preprocessor that strips the default filler words.
    pub fn new() -> (p: TranscriptPreprocessor)
        ensures
            p.fillers() == default_fillers(),
    {
        TranscriptPreprocessor { fillers: transcript_fillers() }
    }

    /// A preprocessor that strips the words of `fillers`.
    pub fn with_fillers(fillers: Vec<String>) -> (p: TranscriptPreprocessor)
        ensures
            p.fillers() == views_of(fillers@),
    {
        TranscriptPreprocessor { fillers }
    }

    /// Cleans one transcript: dots and ellipses become spaces, pathological
    /// repetition is collapsed, filler words are stripped, adjacent repeated
    /// words are taken once, and the text is put on one line.
    pub fn process(&self, txt: &str) -> (out: String)
        ensures
            out@ == cleaned(filler_pattern_of(self.fillers()), txt@),
    {
        let a = self.normalize_text(txt);
        let b = self.remove_repetition(a.as_str());
        let c = self.remove_fillers(b.as_str());
        let d = self.dedupe_words(c.as_str());
        self.merge_lines(d.as_str())
    }

    /// Replaces each ellipsis, and each run of two or more dots, by a space.
    pub fn normalize_text(&self, txt: &str) -> (out: String)
        ensures
            out@ == normalized(txt@),
    {
        let chars = chars_of(txt);
        let spaced = string_of(&replace_char(&chars, '…', ' '));
        substitute(DOTS_PATTERN, spaced.as_str(), " ")
    }

    /// Collapses pathological repetition: a chunk of one to four characters
    /// that stands five times or more in a row is kept once.
    pub fn remove_repetition(&self, txt: &str) -> (out: String)
        ensures
            out@ == without_repetition(txt@),
    {
        let chars = chars_of(txt);
        string_of(&remove_repetition_chars(&chars))
    }

    /// Strips the filler words that stand between delimiters, then tidies
    /// the white space and the punctuation that they leave behind.
    pub fn remove_fillers(&self, txt: &str) -> (out: String)
        ensures
            out@ == without_fillers(filler_pattern_of(self.fillers()), txt@),
    {
        let pattern = filler_pattern(&self.fillers);
        let mut current = String::from_str(txt);
        let mut round: usize = 0;
        while round < FILLER_ROUNDS
            invariant
                round <= FILLER_ROUNDS,
                pattern@ == filler_pattern_of(self.fillers()),
                fillers_stripped(pattern@, txt@, FILLER_ROUNDS as nat) == fillers_stripped(
                    pattern@,
                    current@,
                    (FILLER_ROUNDS - round) as nat,
                ),
            decreases FILLER_ROUNDS - round,
        {
            let next = substitute(pattern.as_str(), current.as_str(), FILLER_REPLACEMENT);
            if next == current {
                assert(next@ == current@);
                round = FILLER_ROUNDS;
                assert(fillers_stripped(pattern@, current@, 0) == current@);
            } else {
                assert(next@ != current@);
                current = next;
                round += 1;
            }
        }
        let spaced = substitute(SPACES_PATTERN, current.as_str(), " ");
        let spaced = trim(&chars_of(spaced.as_str()));
        let squeezed = string_of(&squeeze_punctuation(&spaced));
        let headed = substitute(LEADING_PUNCTUATION_PATTERN, squeezed.as_str(), "");
        let headed = string_of(&trim(&chars_of(headed.as_str())));
        let joined = substitute(SPACED_PUNCTUATION_PATTERN, headed.as_str(), "");
        let last = substitute(SPACES_PATTERN, joined.as_str(), " ");
        string_of(&trim(&chars_of(last.as_str())))
    }

    /// Takes adjacent repeats of a word once, however long the run, and
    /// puts one space between each two words.
    pub fn dedupe_words(&self, txt: &str) -> (out: String)
        ensures
            out@ == words_deduped(txt@),
            forall|k: int|
                0 < k < deduped(words_of(txt@)).len() ==> #[trigger] deduped(words_of(txt@))[k]
                    != deduped(words_of(txt@))[k - 1],
    {
        proof {
            lemma_deduped_has_no_adjacent_repeats(words_of(txt@), words_of(txt@).len());
        }
        let words = split_whitespace(&chars_of(txt));
        let mut kept: Vec<Vec<char>> = Vec::new();
        let mut i: usize = 0;
        while i < words.len()
            invariant
                i <= words.len(),
                rows_of(kept@) == deduped_upto(rows_of(words@), i as nat),
            decreases words.len() - i,
        {
            assert(rows_of(words@)[i as int] == words@[i as int]@);
            let repeats = if i > 0 {
                assert(rows_of(words@)[i - 1] == words@[i - 1]@);
                crate::text::same_chars(&words[i], &words[i - 1])
            } else {
                false
            };
            if !repeats {
                let ghost before = kept@;
                let word = slice_of(&words[i], 0, words[i].len());
                assert(word@ =~= words@[i as int]@);
                kept.push(word);
                assert(rows_of(kept@) =~= rows_of(before).push(words@[i as int]@));
            }
            i += 1;
        }
        assert(rows_of(words@).len() == words@.len());
        let mut space: Vec<char> = Vec::new();
        space.push(' ');
        assert(space@ =~= seq![' ']);
        string_of(&join(&kept, &space))
    }

    /// Puts the text on one line: line feeds become spaces, white space is
    /// collapsed and trimmed.
    pub fn merge_lines(&self, txt: &str) -> (out: String)
        ensures
            out@ == lines_merged(txt@),
    {
        let flat = string_of(&replace_char(&chars_of(txt), '\n', ' '));
        let spaced = substitute(SPACES_PATTERN, flat.as_str(), " ");
        string_of(&trim(&chars_of(spaced.as_str())))
    }
}

} // verus!
