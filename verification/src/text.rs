//! Text helpers shared by the other modules: conversions between strings and
//! character vectors, and small searches on character sequences.

use vstd::prelude::*;

verus! {

/// Appending one character to a `String` appends it to the string's view.
pub assume_specification[ String::push ](s: &mut String, c: char)
    ensures
        final(s)@ == old(s)@.push(c),
;

/// The characters of `s`, in order.
pub fn chars_of(s: &str) -> (out: Vec<char>)
    ensures
        out@ == s@,
{
    let mut out: Vec<char> = Vec::new();
    for c in it: s.chars()
        invariant
            it.seq() == s@,
            out@ == s@.take(it.index() as int),
    {
        out.push(c);
        assert(s@.take(it.index() + 1) =~= s@.take(it.index() as int).push(c));
    }
    assert(s@.take(s@.len() as int) =~= s@);
    out
}

/// The string made of the characters of `v`, in order.
pub fn string_of(v: &Vec<char>) -> (out: String)
    ensures
        out@ == v@,
{
    let mut out = String::new();
    let mut i: usize = 0;
    while i < v.len()
        invariant
            i <= v.len(),
            out@ == v@.take(i as int),
        decreases v.len() - i,
    {
        out.push(v[i]);
        assert(v@.take(i + 1) =~= v@.take(i as int).push(v@[i as int]));
        i += 1;
    }
    assert(v@.take(v@.len() as int) =~= v@);
    out
}

/// The strings of `items` as character sequences.
pub open spec fn views_of(items: Seq<String>) -> Seq<Seq<char>> {
    items.map_values(|s: String| s@)
}

/// Whether the two strings hold the same characters.
pub fn str_eq(a: &str, b: &str) -> (eq: bool)
    ensures
        eq == (a@ == b@),
{
    let x = chars_of(a);
    let y = chars_of(b);
    same_chars(&x, &y)
}

/// A copy of `items`, string by string.
pub fn clone_strings(items: &Vec<String>) -> (out: Vec<String>)
    ensures
        out@ == items@,
{
    let mut out: Vec<String> = Vec::new();
    let mut i: usize = 0;
    while i < items.len()
        invariant
            i <= items.len(),
            out@ == items@.take(i as int),
        decreases items.len() - i,
    {
        out.push(items[i].clone());
        assert(items@.take(i + 1) =~= items@.take(i as int).push(items@[i as int]));
        i += 1;
    }
    assert(items@.take(items@.len() as int) =~= items@);
    out
}

/// `needle` stands in `hay` at index `i`.
pub open spec fn occurs_at(hay: Seq<char>, needle: Seq<char>, i: int) -> bool {
    0 <= i && i + needle.len() <= hay.len() && hay.subrange(i, i + needle.len()) == needle
}

/// `needle` stands somewhere in `hay`.
pub open spec fn contains(hay: Seq<char>, needle: Seq<char>) -> bool {
    exists|i: int| occurs_at(hay, needle, i)
}

/// `hay` ends with `suffix`.
pub open spec fn ends_with(hay: Seq<char>, suffix: Seq<char>) -> bool {
    suffix.len() <= hay.len() && hay.subrange(hay.len() - suffix.len(), hay.len() as int) == suffix
}

/// `hay` begins with `prefix`.
pub open spec fn starts_with(hay: Seq<char>, prefix: Seq<char>) -> bool {
    prefix.len() <= hay.len() && hay.subrange(0, prefix.len() as int) == prefix
}

/// Whether `needle` stands in `hay` at index `i`.
pub fn occurs_here(hay: &Vec<char>, needle: &Vec<char>, i: usize) -> (b: bool)
    ensures
        b == occurs_at(hay@, needle@, i as int),
{
    if needle.len() > hay.len() || i > hay.len() - needle.len() {
        return false;
    }
    let mut k: usize = 0;
    while k < needle.len()
        invariant
            k <= needle.len(),
            i + needle.len() <= hay.len(),
            forall|m: int| 0 <= m < k ==> hay@[i + m] == needle@[m],
        decreases needle.len() - k,
    {
        if hay[i + k] != needle[k] {
            assert(hay@.subrange(i as int, i + needle.len())[k as int] != needle@[k as int]);
            return false;
        }
        k += 1;
    }
    assert(hay@.subrange(i as int, i + needle.len()) =~= needle@);
    true
}

/// Whether `needle` stands somewhere in `hay`.
pub fn has_substring(hay: &Vec<char>, needle: &Vec<char>) -> (b: bool)
    ensures
        b == contains(hay@, needle@),
{
    if needle.len() > hay.len() {
        assert(forall|i: int| !occurs_at(hay@, needle@, i));
        return false;
    }
    let last: usize = hay.len() - needle.len();
    let mut i: usize = 0;
    while i < last
        invariant
            last == hay.len() - needle.len(),
            i <= last,
            forall|j: int| 0 <= j < i ==> !occurs_at(hay@, needle@, j),
        decreases last - i,
    {
        if occurs_here(hay, needle, i) {
            return true;
        }
        i += 1;
    }
    let found = occurs_here(hay, needle, last);
    assert(!found ==> forall|j: int| !occurs_at(hay@, needle@, j));
    found
}

/// Whether `hay` ends with `suffix`.
pub fn has_suffix(hay: &Vec<char>, suffix: &Vec<char>) -> (b: bool)
    ensures
        b == ends_with(hay@, suffix@),
{
    if suffix.len() > hay.len() {
        return false;
    }
    occurs_here(hay, suffix, hay.len() - suffix.len())
}

/// Whether `hay` begins with `prefix`.
pub fn has_prefix(hay: &Vec<char>, prefix: &Vec<char>) -> (b: bool)
    ensures
        b == starts_with(hay@, prefix@),
{
    if prefix.len() > hay.len() {
        return false;
    }
    occurs_here(hay, prefix, 0)
}

/// Whether the two vectors hold the same characters.
pub fn same_chars(a: &Vec<char>, b: &Vec<char>) -> (eq: bool)
    ensures
        eq == (a@ == b@),
{
    if a.len() != b.len() {
        return false;
    }
    let r = occurs_here(a, b, 0);
    proof {
        assert(a@.subrange(0, a@.len() as int) =~= a@);
    }
    r
}

/// The characters that count as white space: those with the Unicode property
/// `White_Space`.
pub open spec fn is_space(c: char) -> bool {
    let n = c as u32;
    (0x09 <= n <= 0x0D) || n == 0x20 || n == 0x85 || n == 0xA0 || n == 0x1680 || (0x2000 <= n
        <= 0x200A) || n == 0x2028 || n == 0x2029 || n == 0x202F || n == 0x205F || n == 0x3000
}

/// Whether `c` counts as white space.
pub fn is_whitespace(c: char) -> (b: bool)
    ensures
        b == is_space(c),
{
    let n: u32 = c as u32;
    (0x09 <= n && n <= 0x0D) || n == 0x20 || n == 0x85 || n == 0xA0 || n == 0x1680 || (0x2000 <= n
        && n <= 0x200A) || n == 0x2028 || n == 0x2029 || n == 0x202F || n == 0x205F || n == 0x3000
}

/// The index of the first character of `s` at or after `i` that is no white
/// space, or the length of `s` if there is none.
pub open spec fn skip_spaces(s: Seq<char>, i: int) -> int
    decreases s.len() - i,
{
    if 0 <= i < s.len() && is_space(s[i]) {
        skip_spaces(s, i + 1)
    } else {
        i
    }
}

/// The index behind the last character of `s` before `j` that is no white
/// space, or zero if there is none.
pub open spec fn skip_spaces_back(s: Seq<char>, j: int) -> int
    decreases j,
{
    if 0 < j <= s.len() && is_space(s[j - 1]) {
        skip_spaces_back(s, j - 1)
    } else {
        j
    }
}

/// `s` without the white space at its two ends.
pub open spec fn trimmed(s: Seq<char>) -> Seq<char> {
    let a = skip_spaces(s, 0);
    let b = skip_spaces_back(s, s.len() as int);
    if a >= b {
        Seq::empty()
    } else {
        s.subrange(a, b)
    }
}

/// The characters of `s` from index `a` up to, not including, index `b`.
pub fn slice_of(s: &Vec<char>, a: usize, b: usize) -> (out: Vec<char>)
    requires
        a <= b <= s.len(),
    ensures
        out@ == s@.subrange(a as int, b as int),
{
    let mut out: Vec<char> = Vec::new();
    let mut i: usize = a;
    while i < b
        invariant
            a <= i <= b,
            b <= s.len(),
            out@ == s@.subrange(a as int, i as int),
        decreases b - i,
    {
        out.push(s[i]);
        assert(s@.subrange(a as int, i + 1) =~= s@.subrange(a as int, i as int).push(s@[i as int]));
        i += 1;
    }
    out
}

/// `s` without the white space at its two ends.
pub fn trim(s: &Vec<char>) -> (out: Vec<char>)
    ensures
        out@ == trimmed(s@),
{
    let mut a: usize = 0;
    while a < s.len() && is_whitespace(s[a])
        invariant
            a <= s.len(),
            skip_spaces(s@, 0) == skip_spaces(s@, a as int),
        decreases s.len() - a,
    {
        a += 1;
    }
    let mut b: usize = s.len();
    while b > 0 && is_whitespace(s[b - 1])
        invariant
            b <= s.len(),
            skip_spaces_back(s@, s@.len() as int) == skip_spaces_back(s@, b as int),
        decreases b,
    {
        b -= 1;
    }
    if a >= b {
        Vec::new()
    } else {
        slice_of(s, a, b)
    }
}

/// Where a left-to-right split at white space stands after some characters:
/// the words that are complete and the word that is being read.
pub struct Splitting {
    pub done: Seq<Seq<char>>,
    pub word: Seq<char>,
}

/// The split of the first `n` characters of `s` at white space.
pub open spec fn split_upto(s: Seq<char>, n: nat) -> Splitting
    decreases n,
{
    if n == 0 {
        Splitting { done: Seq::empty(), word: Seq::empty() }
    } else {
        let before = split_upto(s, (n - 1) as nat);
        if !is_space(s[n - 1]) {
            Splitting { done: before.done, word: before.word.push(s[n - 1]) }
        } else if before.word.len() > 0 {
            Splitting { done: before.done.push(before.word), word: Seq::empty() }
        } else {
            before
        }
    }
}

/// The words of `s`: its maximal runs of characters that are no white space,
/// in order.
pub open spec fn words_of(s: Seq<char>) -> Seq<Seq<char>> {
    let state = split_upto(s, s.len());
    if state.word.len() > 0 {
        state.done.push(state.word)
    } else {
        state.done
    }
}

/// The sequences of `items`.
pub open spec fn rows_of(items: Seq<Vec<char>>) -> Seq<Seq<char>> {
    items.map_values(|v: Vec<char>| v@)
}

/// The words of `s`: its maximal runs of characters that are no white space,
/// in order.
pub fn split_whitespace(s: &Vec<char>) -> (out: Vec<Vec<char>>)
    ensures
        rows_of(out@) == words_of(s@),
{
    let mut out: Vec<Vec<char>> = Vec::new();
    let mut word: Vec<char> = Vec::new();
    let mut i: usize = 0;
    while i < s.len()
        invariant
            i <= s.len(),
            rows_of(out@) == split_upto(s@, i as nat).done,
            word@ == split_upto(s@, i as nat).word,
        decreases s.len() - i,
    {
        let c = s[i];
        if !is_whitespace(c) {
            word.push(c);
        } else if word.len() > 0 {
            let ghost before = out@;
            let ghost w = word@;
            out.push(word);
            word = Vec::new();
            assert(rows_of(out@) =~= rows_of(before).push(w));
        }
        i += 1;
    }
    if word.len() > 0 {
        let ghost before = out@;
        let ghost w = word@;
        out.push(word);
        assert(rows_of(out@) =~= rows_of(before).push(w));
    }
    out
}

/// The first `n` sequences of `parts` in a row, with `sep` between each two.
pub open spec fn joined_upto(parts: Seq<Seq<char>>, sep: Seq<char>, n: nat) -> Seq<char>
    decreases n,
{
    if n == 0 {
        Seq::empty()
    } else if n == 1 {
        parts[0]
    } else {
        joined_upto(parts, sep, (n - 1) as nat) + sep + parts[n - 1]
    }
}

/// The sequences of `parts` in a row, with `sep` between each two.
pub open spec fn joined(parts: Seq<Seq<char>>, sep: Seq<char>) -> Seq<char> {
    joined_upto(parts, sep, parts.len())
}

/// Appends the characters of `tail` to `out`.
pub fn extend(out: &mut Vec<char>, tail: &Vec<char>)
    ensures
        final(out)@ == old(out)@ + tail@,
{
    let mut i: usize = 0;
    while i < tail.len()
        invariant
            i <= tail.len(),
            out@ == old(out)@ + tail@.take(i as int),
        decreases tail.len() - i,
    {
        out.push(tail[i]);
        assert(old(out)@ + tail@.take(i + 1) =~= (old(out)@ + tail@.take(i as int)).push(
            tail@[i as int],
        ));
        i += 1;
    }
    assert(tail@.take(tail@.len() as int) =~= tail@);
}

/// The sequences of `parts` in a row, with `sep` between each two.
pub fn join(parts: &Vec<Vec<char>>, sep: &Vec<char>) -> (out: Vec<char>)
    ensures
        out@ == joined(rows_of(parts@), sep@),
{
    let mut out: Vec<char> = Vec::new();
    let mut i: usize = 0;
    while i < parts.len()
        invariant
            i <= parts.len(),
            out@ == joined_upto(rows_of(parts@), sep@, i as nat),
        decreases parts.len() - i,
    {
        assert(rows_of(parts@)[i as int] == parts@[i as int]@);
        if i > 0 {
            extend(&mut out, sep);
        }
        extend(&mut out, &parts[i]);
        proof {
            if i == 0 {
                assert(out@ =~= parts@[0]@);
            }
        }
        i += 1;
    }
    out
}

/// `s` with every `from` replaced by `to`.
pub open spec fn with_char_replaced(s: Seq<char>, from: char, to: char) -> Seq<char> {
    s.map_values(
        |c: char|
            if c == from {
                to
            } else {
                c
            },
    )
}

/// `s` with every `from` replaced by `to`.
pub fn replace_char(s: &Vec<char>, from: char, to: char) -> (out: Vec<char>)
    ensures
        out@ == with_char_replaced(s@, from, to),
{
    let mut out: Vec<char> = Vec::new();
    let mut i: usize = 0;
    while i < s.len()
        invariant
            i <= s.len(),
            out@ == with_char_replaced(s@, from, to).take(i as int),
        decreases s.len() - i,
    {
        let c = s[i];
        out.push(
            if c == from {
                to
            } else {
                c
            },
        );
        assert(out@ =~= with_char_replaced(s@, from, to).take(i + 1));
        i += 1;
    }
    assert(with_char_replaced(s@, from, to).take(s@.len() as int) =~= with_char_replaced(
        s@,
        from,
        to,
    ));
    out
}

/// The lowercase form that `str::to_lowercase` gives `s`.
pub uninterp spec fn lowercase_of(s: Seq<char>) -> Seq<char>;

/// The lowercase equivalent of `s`, from `str::to_lowercase`. The mapping
/// follows the Unicode tables of the standard library and is not written out
/// here: the contract gives the result its name.
#[verifier::external_body]
pub(crate) fn lowercase(s: &str) -> (out: String)
    ensures
        out@ == lowercase_of(s@),
{
    s.to_lowercase()
}

/// The uppercase form that `str::to_uppercase` gives `s`.
pub uninterp spec fn uppercase_of(s: Seq<char>) -> Seq<char>;

/// The uppercase equivalent of `s`, from `str::to_uppercase`. The mapping
/// follows the Unicode tables of the standard library and is not written out
/// here: the contract gives the result its name.
#[verifier::external_body]
pub(crate) fn uppercase(s: &str) -> (out: String)
    ensures
        out@ == uppercase_of(s@),
{
    s.to_uppercase()
}

/// The decimal digit for `d`.
pub open spec fn digit_of(d: int) -> char {
    if d == 0 {
        '0'
    } else if d == 1 {
        '1'
    } else if d == 2 {
        '2'
    } else if d == 3 {
        '3'
    } else if d == 4 {
        '4'
    } else if d == 5 {
        '5'
    } else if d == 6 {
        '6'
    } else if d == 7 {
        '7'
    } else if d == 8 {
        '8'
    } else {
        '9'
    }
}

/// `n` written in decimal digits, without leading zeros.
pub open spec fn decimal_of(n: nat) -> Seq<char>
    decreases n,
{
    if n < 10 {
        seq![digit_of(n as int)]
    } else {
        decimal_of(n / 10).push(digit_of((n % 10) as int))
    }
}

/// The decimal digit for `d`.
pub fn digit(d: u64) -> (c: char)
    requires
        d < 10,
    ensures
        c == digit_of(d as int),
{
    if d == 0 {
        '0'
    } else if d == 1 {
        '1'
    } else if d == 2 {
        '2'
    } else if d == 3 {
        '3'
    } else if d == 4 {
        '4'
    } else if d == 5 {
        '5'
    } else if d == 6 {
        '6'
    } else if d == 7 {
        '7'
    } else if d == 8 {
        '8'
    } else {
        '9'
    }
}

/// `n` written in decimal digits, without leading zeros.
pub fn decimal(n: u64) -> (out: Vec<char>)
    ensures
        out@ == decimal_of(n as nat),
    decreases n,
{
    if n < 10 {
        let mut out: Vec<char> = Vec::new();
        out.push(digit(n));
        assert(out@ =~= seq![digit_of(n as int)]);
        out
    } else {
        let mut out = decimal(n / 10);
        out.push(digit(n % 10));
        out
    }
}

/// The characters that part the components of a path.
pub open spec fn is_separator(c: char) -> bool {
    c == '/' || c == '\\'
}

/// The index behind the last separator of `s` before `j`, or zero if there
/// is none.
pub open spec fn name_start(s: Seq<char>, j: int) -> int
    decreases j,
{
    if j <= 0 || j > s.len() {
        0
    } else if is_separator(s[j - 1]) {
        j
    } else {
        name_start(s, j - 1)
    }
}

/// The last component of `path`: what follows its last separator.
pub open spec fn file_name_of(path: Seq<char>) -> Seq<char> {
    path.subrange(name_start(path, path.len() as int), path.len() as int)
}

/// The index behind the last dot of `s` before `j`, or zero if there is
/// none.
pub open spec fn after_last_dot(s: Seq<char>, j: int) -> int
    decreases j,
{
    if j <= 0 || j > s.len() {
        0
    } else if s[j - 1] == '.' {
        j
    } else {
        after_last_dot(s, j - 1)
    }
}

/// The extension of the file name `name`: what follows its last dot, unless
/// the name has no dot or only begins with one.
pub open spec fn extension_in(name: Seq<char>) -> Option<Seq<char>> {
    let d = after_last_dot(name, name.len() as int);
    if d <= 1 {
        None
    } else {
        Some(name.subrange(d, name.len() as int))
    }
}

/// The file name `name` without its extension and the dot before it.
pub open spec fn stem_in(name: Seq<char>) -> Seq<char> {
    let d = after_last_dot(name, name.len() as int);
    if d <= 1 {
        name
    } else {
        name.subrange(0, d - 1)
    }
}

/// The extension of the last component of `path`.
pub open spec fn extension_of(path: Seq<char>) -> Option<Seq<char>> {
    extension_in(file_name_of(path))
}

/// The last component of `path` without its extension.
pub open spec fn stem_of(path: Seq<char>) -> Seq<char> {
    stem_in(file_name_of(path))
}

/// The last component of `path`: what follows its last separator.
pub fn file_name(path: &Vec<char>) -> (out: Vec<char>)
    ensures
        out@ == file_name_of(path@),
{
    let mut j: usize = path.len();
    while j > 0 && !(path[j - 1] == '/' || path[j - 1] == '\\')
        invariant
            j <= path.len(),
            name_start(path@, path@.len() as int) == name_start(path@, j as int),
        decreases j,
    {
        j -= 1;
    }
    slice_of(path, j, path.len())
}

/// The index behind the last dot of `name`, or zero if there is none.
pub fn find_last_dot(name: &Vec<char>) -> (d: usize)
    ensures
        d == after_last_dot(name@, name@.len() as int),
        d <= name.len(),
{
    let mut j: usize = name.len();
    while j > 0 && name[j - 1] != '.'
        invariant
            j <= name.len(),
            after_last_dot(name@, name@.len() as int) == after_last_dot(name@, j as int),
        decreases j,
    {
        j -= 1;
    }
    j
}

/// The extension of the last component of `path`.
pub fn extension(path: &Vec<char>) -> (out: Option<Vec<char>>)
    ensures
        match out {
            Some(e) => extension_of(path@) == Some(e@),
            None => extension_of(path@) is None,
        },
{
    let name = file_name(path);
    let d = find_last_dot(&name);
    if d <= 1 {
        None
    } else {
        Some(slice_of(&name, d, name.len()))
    }
}

/// The last component of `path` without its extension.
pub fn file_stem(path: &Vec<char>) -> (out: Vec<char>)
    ensures
        out@ == stem_of(path@),
{
    let name = file_name(path);
    let d = find_last_dot(&name);
    if d <= 1 {
        name
    } else {
        slice_of(&name, 0, d - 1)
    }
}

/// The index of the first `c` in `s` at or after `i`, or the length of `s`
/// if there is none.
pub open spec fn index_of_char(s: Seq<char>, c: char, i: int) -> int
    decreases s.len() - i,
{
    if i < 0 || i >= s.len() {
        s.len() as int
    } else if s[i] == c {
        i
    } else {
        index_of_char(s, c, i + 1)
    }
}

/// What stands in `s` before its first `c`; all of `s` if it holds no `c`.
pub open spec fn before_char(s: Seq<char>, c: char) -> Seq<char> {
    s.subrange(0, index_of_char(s, c, 0))
}

/// What stands in `s` before its first `c`; all of `s` if it holds no `c`.
pub fn take_before(s: &Vec<char>, c: char) -> (out: Vec<char>)
    ensures
        out@ == before_char(s@, c),
{
    let mut i: usize = 0;
    while i < s.len() && s[i] != c
        invariant
            i <= s.len(),
            index_of_char(s@, c, 0) == index_of_char(s@, c, i as int),
        decreases s.len() - i,
    {
        i += 1;
    }
    slice_of(s, 0, i)
}

/// `s` from `i` on, with each copy of `from` replaced by `to`: reading from
/// the left, a copy is replaced and the reading goes on behind it. An empty
/// `from` replaces nothing.
pub open spec fn replaced_from(s: Seq<char>, from: Seq<char>, to: Seq<char>, i: int) -> Seq<char>
    decreases s.len() - i,
{
    if i < 0 || i >= s.len() {
        Seq::empty()
    } else if from.len() > 0 && occurs_at(s, from, i) {
        to + replaced_from(s, from, to, i + from.len())
    } else {
        seq![s[i]] + replaced_from(s, from, to, i + 1)
    }
}

/// `s` with each copy of `from` replaced by `to`.
pub open spec fn replaced(s: Seq<char>, from: Seq<char>, to: Seq<char>) -> Seq<char> {
    replaced_from(s, from, to, 0)
}

/// `s` with each copy of `from` replaced by `to`. An empty `from` replaces
/// nothing.
pub fn replace(s: &Vec<char>, from: &Vec<char>, to: &Vec<char>) -> (out: Vec<char>)
    ensures
        out@ == replaced(s@, from@, to@),
{
    let mut out: Vec<char> = Vec::new();
    let mut i: usize = 0;
    while i < s.len()
        invariant
            i <= s.len(),
            out@ + replaced_from(s@, from@, to@, i as int) == replaced_from(s@, from@, to@, 0),
        decreases s.len() - i,
    {
        let ghost before = out@;
        let ghost rest = replaced_from(s@, from@, to@, i as int);
        if from.len() > 0 && occurs_here(s, from, i) {
            extend(&mut out, to);
            assert(rest == to@ + replaced_from(s@, from@, to@, i + from@.len()));
            assert(out@ + replaced_from(s@, from@, to@, i + from@.len()) =~= before + rest);
            i += from.len();
        } else {
            out.push(s[i]);
            assert(rest == seq![s@[i as int]] + replaced_from(s@, from@, to@, i + 1));
            assert(out@ + replaced_from(s@, from@, to@, i + 1) =~= before + rest);
            i += 1;
        }
    }
    assert(replaced_from(s@, from@, to@, s@.len() as int) =~= Seq::<char>::empty());
    assert(out@ + Seq::<char>::empty() =~= out@);
    out
}

/// `s` with each copy of `from` replaced by `to`.
pub fn replace_str(s: &str, from: &str, to: &str) -> (out: String)
    ensures
        out@ == replaced(s@, from@, to@),
{
    string_of(&replace(&chars_of(s), &chars_of(from), &chars_of(to)))
}

/// `s` without the copies of `prefix` at its beginning.
pub open spec fn without_leading(s: Seq<char>, prefix: Seq<char>) -> Seq<char>
    decreases s.len(),
{
    if prefix.len() > 0 && starts_with(s, prefix) {
        without_leading(s.subrange(prefix.len() as int, s.len() as int), prefix)
    } else {
        s
    }
}

/// `s` without the copies of `suffix` at its end.
pub open spec fn without_trailing(s: Seq<char>, suffix: Seq<char>) -> Seq<char>
    decreases s.len(),
{
    if suffix.len() > 0 && ends_with(s, suffix) {
        without_trailing(s.subrange(0, s.len() - suffix.len()), suffix)
    } else {
        s
    }
}

/// `s` without the copies of `prefix` at its beginning.
pub fn strip_leading(s: &Vec<char>, prefix: &Vec<char>) -> (out: Vec<char>)
    ensures
        out@ == without_leading(s@, prefix@),
{
    let mut cur = slice_of(s, 0, s.len());
    assert(cur@ =~= s@);
    if prefix.len() == 0 {
        return cur;
    }
    while has_prefix(&cur, prefix)
        invariant
            prefix.len() > 0,
            without_leading(s@, prefix@) == without_leading(cur@, prefix@),
        decreases cur.len(),
    {
        cur = slice_of(&cur, prefix.len(), cur.len());
    }
    cur
}

/// `s` without the copies of `suffix` at its end.
pub fn strip_trailing(s: &Vec<char>, suffix: &Vec<char>) -> (out: Vec<char>)
    ensures
        out@ == without_trailing(s@, suffix@),
{
    let mut cur = slice_of(s, 0, s.len());
    assert(cur@ =~= s@);
    if suffix.len() == 0 {
        return cur;
    }
    while has_suffix(&cur, suffix)
        invariant
            suffix.len() > 0,
            without_trailing(s@, suffix@) == without_trailing(cur@, suffix@),
        decreases cur.len(),
    {
        let keep: usize = cur.len() - suffix.len();
        cur = slice_of(&cur, 0, keep);
    }
    cur
}

/// `c` in lower case if it is an ASCII capital, else `c` itself.
pub open spec fn ascii_lower_of(c: char) -> char {
    if 'A' <= c <= 'Z' {
        ((c as u8) + 32) as char
    } else {
        c
    }
}

/// `s` with its ASCII capitals in lower case.
pub open spec fn ascii_lowercase_of(s: Seq<char>) -> Seq<char> {
    s.map_values(|c: char| ascii_lower_of(c))
}

/// `s` with its ASCII capitals in lower case.
pub fn ascii_lowercase(s: &Vec<char>) -> (out: Vec<char>)
    ensures
        out@ == ascii_lowercase_of(s@),
{
    let mut out: Vec<char> = Vec::new();
    let mut i: usize = 0;
    while i < s.len()
        invariant
            i <= s.len(),
            out@ == ascii_lowercase_of(s@).take(i as int),
        decreases s.len() - i,
    {
        let c = s[i];
        let low = if 'A' <= c && c <= 'Z' {
            ((c as u8) + 32) as char
        } else {
            c
        };
        out.push(low);
        assert(out@ =~= ascii_lowercase_of(s@).take(i + 1));
        i += 1;
    }
    assert(ascii_lowercase_of(s@).take(s@.len() as int) =~= ascii_lowercase_of(s@));
    out
}

/// `name` inside the directory `dir`: the two joined by a slash, unless
/// `dir` is empty or ends with a separator already.
pub open spec fn path_in(dir: Seq<char>, name: Seq<char>) -> Seq<char> {
    if dir.len() == 0 || is_separator(dir.last()) {
        dir + name
    } else {
        dir + seq!['/'] + name
    }
}

/// `name` inside the directory `dir`.
pub fn join_path(dir: &str, name: &str) -> (out: String)
    ensures
        out@ == path_in(dir@, name@),
{
    let mut out = chars_of(dir);
    if out.len() > 0 && !(out[out.len() - 1] == '/' || out[out.len() - 1] == '\\') {
        out.push('/');
    }
    extend(&mut out, &chars_of(name));
    string_of(&out)
}

/// The pieces of the first `n` characters of `s` between the separators
/// `sep`: the pieces that are complete, in `done`, and the piece that is
/// being read, in `word`.
pub open spec fn pieces_upto(s: Seq<char>, sep: char, n: nat) -> Splitting
    decreases n,
{
    if n == 0 {
        Splitting { done: Seq::empty(), word: Seq::empty() }
    } else {
        let before = pieces_upto(s, sep, (n - 1) as nat);
        if s[n - 1] == sep {
            Splitting { done: before.done.push(before.word), word: Seq::empty() }
        } else {
            Splitting { done: before.done, word: before.word.push(s[n - 1]) }
        }
    }
}

/// The pieces of `s` between the separators `sep`, empty ones included. A
/// text without separator is one piece.
pub open spec fn pieces_of(s: Seq<char>, sep: char) -> Seq<Seq<char>> {
    let state = pieces_upto(s, sep, s.len());
    state.done.push(state.word)
}

/// The pieces of `s` between the separators `sep`, empty ones included.
pub fn split_at_char(s: &Vec<char>, sep: char) -> (out: Vec<Vec<char>>)
    ensures
        rows_of(out@) == pieces_of(s@, sep),
{
    let mut out: Vec<Vec<char>> = Vec::new();
    let mut word: Vec<char> = Vec::new();
    let mut i: usize = 0;
    while i < s.len()
        invariant
            i <= s.len(),
            rows_of(out@) == pieces_upto(s@, sep, i as nat).done,
            word@ == pieces_upto(s@, sep, i as nat).word,
        decreases s.len() - i,
    {
        let c = s[i];
        if c == sep {
            let ghost before = out@;
            let ghost w = word@;
            out.push(word);
            word = Vec::new();
            assert(rows_of(out@) =~= rows_of(before).push(w));
        } else {
            word.push(c);
        }
        i += 1;
    }
    let ghost before = out@;
    let ghost w = word@;
    out.push(word);
    assert(rows_of(out@) =~= rows_of(before).push(w));
    out
}

} // verus!
