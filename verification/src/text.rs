//! Text helpers: splitting, trimming, and decimal numbers.
//!
//! Texts are modelled by their character sequences, so a contract speaks of
//! `text@` and never of byte offsets.

use vstd::prelude::*;

verus! {

/// An optional text as a sequence of characters.
pub open spec fn opt_text(text: Option<String>) -> Option<Seq<char>> {
    match text {
        Some(text) => Some(text@),
        None => None,
    }
}

/// An optional borrowed text as a sequence of characters.
pub open spec fn opt_str(text: Option<&str>) -> Option<Seq<char>> {
    match text {
        Some(text) => Some(text@),
        None => None,
    }
}

/// A result by the view of its value, or the text of its error.
pub open spec fn outcome<T: View>(res: Result<T, String>) -> Result<T::V, Seq<char>> {
    match res {
        Ok(value) => Ok(value@),
        Err(text) => Err(text@),
    }
}

/// Copies an optional borrowed text.
pub fn to_opt_string(text: Option<&str>) -> (res: Option<String>)
    ensures
        opt_text(res) == opt_str(text),
{
    match text {
        Some(text) => Some(text.to_owned()),
        None => None,
    }
}

/// Copies an optional text.
pub fn clone_opt(text: &Option<String>) -> (res: Option<String>)
    ensures
        opt_text(res) == opt_text(*text),
{
    match text {
        Some(text) => Some(text.clone()),
        None => None,
    }
}

/// Returns whether two texts hold the same characters.
pub fn same(a: &str, b: &str) -> (res: bool)
    ensures
        res == (a@ == b@),
{
    a.to_owned() == b.to_owned()
}

/// Returns whether `list` holds `c`.
pub fn holds(list: &[char], c: char) -> (res: bool)
    ensures
        res == list@.contains(c),
{
    let mut i: usize = 0;
    while i < list.len()
        invariant
            i <= list.len(),
            forall|j: int| 0 <= j < i ==> list@[j] != c,
        decreases list.len() - i,
    {
        if list[i] == c {
            return true;
        }
        i += 1;
    }
    false
}

/// The position of the first character of `text` that is in `set`, or the
/// length of `text` when there is none.
pub open spec fn first_at(text: Seq<char>, set: Seq<char>) -> nat
    decreases text.len(),
{
    if text.len() == 0 || set.contains(text[0]) {
        0
    } else {
        1 + first_at(text.skip(1), set)
    }
}

/// The two sides of the first separator in `text`, without the separator.
pub open spec fn split(text: Seq<char>, set: Seq<char>) -> Option<(Seq<char>, Seq<char>)> {
    let at = first_at(text, set) as int;
    if at == text.len() {
        None
    } else {
        Some((text.take(at), text.skip(at + 1)))
    }
}

/// `first_at` is the only position with no separator before it and one at it.
pub proof fn lemma_first_at(text: Seq<char>, set: Seq<char>, at: nat)
    requires
        at <= text.len(),
        forall|j: int| 0 <= j < at ==> !set.contains(#[trigger] text[j]),
        at < text.len() ==> set.contains(text[at as int]),
    ensures
        first_at(text, set) == at,
    decreases text.len(),
{
    if at > 0 {
        assert(!set.contains(text[0]));
        let rest = text.skip(1);
        assert forall|j: int| 0 <= j < at - 1 implies !set.contains(#[trigger] rest[j]) by {
            assert(rest[j] == text[j + 1]);
        }
        if at < text.len() {
            assert(rest[at - 1] == text[at as int]);
        }
        lemma_first_at(rest, set, (at - 1) as nat);
    }
}

/// `first_at` never exceeds the length.
pub proof fn lemma_first_at_bound(text: Seq<char>, set: Seq<char>)
    ensures
        first_at(text, set) <= text.len(),
    decreases text.len(),
{
    if text.len() > 0 && !set.contains(text[0]) {
        lemma_first_at_bound(text.skip(1), set);
    }
}

/// Splits `text` at the first character that is in `set`.
pub fn split_first<'a>(text: &'a str, set: &[char]) -> (res: Option<(&'a str, &'a str)>)
    ensures
        match res {
            Some((left, right)) => split(text@, set@) == Some((left@, right@)),
            None => split(text@, set@) is None,
        },
{
    let len: usize = text.unicode_len();
    let mut i: usize = 0;
    while i < len
        invariant
            i <= len,
            len == text@.len(),
            forall|j: int| 0 <= j < i ==> !set@.contains(#[trigger] text@[j]),
        decreases len - i,
    {
        if holds(set, text.get_char(i)) {
            proof {
                lemma_first_at(text@, set@, i as nat);
            }
            let left = text.substring_char(0, i);
            let right = text.substring_char(i + 1, len);
            assert(left@ =~= text@.take(i as int));
            assert(right@ =~= text@.skip(i + 1));
            return Some((left, right));
        }
        i += 1;
    }
    proof {
        lemma_first_at(text@, set@, len as nat);
    }
    None
}

/// Whether `text` ends with `suffix`.
pub open spec fn ends(text: Seq<char>, suffix: Seq<char>) -> bool {
    text.len() >= suffix.len() && text.skip(text.len() - suffix.len()) == suffix
}

/// Whether `c` is an ASCII decimal digit.
pub open spec fn is_digit(c: char) -> bool {
    '0' <= c <= '9'
}

/// The number a text of decimal digits stands for.
pub open spec fn digits_value(text: Seq<char>) -> nat
    decreases text.len(),
{
    if text.len() == 0 {
        0
    } else {
        digits_value(text.drop_last()) * 10 + (text.last() as nat - '0' as nat) as nat
    }
}

/// `text` without one leading `+`.
pub open spec fn unsigned_part(text: Seq<char>) -> Seq<char> {
    if text.len() > 0 && text[0] == '+' {
        text.skip(1)
    } else {
        text
    }
}

/// The `u32` that `text` spells in decimal: at least one digit, nothing but
/// digits behind an optional `+`, and no more than `u32::MAX`.
pub open spec fn u32_of(text: Seq<char>) -> Option<u32> {
    let digits = unsigned_part(text);
    if digits.len() > 0 && (forall|i: int| 0 <= i < digits.len() ==> is_digit(#[trigger] digits[i]))
        && digits_value(digits) <= u32::MAX {
        Some(digits_value(digits) as u32)
    } else {
        None
    }
}

/// A prefix of digits stands for no more than the whole.
proof fn lemma_prefix_value(text: Seq<char>, at: int)
    requires
        0 <= at <= text.len(),
        forall|i: int| 0 <= i < text.len() ==> is_digit(#[trigger] text[i]),
    ensures
        digits_value(text.take(at)) <= digits_value(text),
    decreases text.len(),
{
    if at < text.len() {
        let shorter = text.drop_last();
        assert(shorter.take(at) =~= text.take(at));
        assert forall|i: int| 0 <= i < shorter.len() implies is_digit(#[trigger] shorter[i]) by {
            assert(shorter[i] == text[i]);
        }
        lemma_prefix_value(shorter, at);
        assert(is_digit(text[text.len() - 1]));
    } else {
        assert(text.take(at) =~= text);
    }
}

/// Parses a decimal `u32`.
pub fn parse_u32(text: &str) -> (res: Option<u32>)
    ensures
        res == u32_of(text@),
{
    let len: usize = text.unicode_len();
    let start: usize = if len > 0 && text.get_char(0) == '+' { 1 } else { 0 };
    let ghost digits = unsigned_part(text@);
    assert(digits =~= text@.skip(start as int));
    if start == len {
        return None;
    }
    let mut value: u64 = 0;
    let mut i: usize = start;
    while i < len
        invariant
            start <= i <= len,
            len == text@.len(),
            digits == text@.skip(start as int),
            digits == unsigned_part(text@),
            digits.len() == len - start,
            forall|j: int| 0 <= j < i - start ==> is_digit(#[trigger] digits[j]),
            value == digits_value(digits.take(i - start)),
            value <= u32::MAX,
        decreases len - i,
    {
        let c: char = text.get_char(i);
        assert(c == digits[i - start]);
        if c < '0' || c > '9' {
            return None;
        }
        let ghost longer = digits.take(i - start + 1);
        assert(longer.drop_last() =~= digits.take(i - start));
        assert(longer.last() == c);
        value = value * 10 + (c as u64 - '0' as u64);
        if value > 0xffff_ffff {
            proof {
                if forall|j: int| 0 <= j < digits.len() ==> is_digit(#[trigger] digits[j]) {
                    lemma_prefix_value(digits, i - start + 1);
                }
            }
            return None;
        }
        i += 1;
    }
    assert(digits.take(len - start) =~= digits);
    Some(value as u32)
}

/// The decimal digit `d` as a text of one character.
pub open spec fn digit_text(d: nat) -> Seq<char> {
    if d == 0 {
        seq!['0']
    } else if d == 1 {
        seq!['1']
    } else if d == 2 {
        seq!['2']
    } else if d == 3 {
        seq!['3']
    } else if d == 4 {
        seq!['4']
    } else if d == 5 {
        seq!['5']
    } else if d == 6 {
        seq!['6']
    } else if d == 7 {
        seq!['7']
    } else if d == 8 {
        seq!['8']
    } else {
        seq!['9']
    }
}

/// `n` in decimal, without leading zeros.
pub open spec fn decimal(n: nat) -> Seq<char>
    decreases n,
{
    if n < 10 {
        digit_text(n)
    } else {
        decimal(n / 10) + digit_text(n % 10)
    }
}

/// Returns the decimal digit `d` as a text.
pub fn digit_str(d: u64) -> (res: &'static str)
    requires
        d < 10,
    ensures
        res@ == digit_text(d as nat),
{
    proof {
        reveal_strlit("0");
        reveal_strlit("1");
        reveal_strlit("2");
        reveal_strlit("3");
        reveal_strlit("4");
        reveal_strlit("5");
        reveal_strlit("6");
        reveal_strlit("7");
        reveal_strlit("8");
        reveal_strlit("9");
    }
    let res: &'static str = match d {
        0 => "0",
        1 => "1",
        2 => "2",
        3 => "3",
        4 => "4",
        5 => "5",
        6 => "6",
        7 => "7",
        8 => "8",
        _ => "9",
    };
    assert(res@ =~= digit_text(d as nat));
    res
}

/// Writes `n` in decimal.
pub fn decimal_text(n: u64) -> (res: String)
    ensures
        res@ == decimal(n as nat),
    decreases n,
{
    if n < 10 {
        digit_str(n).to_owned()
    } else {
        decimal_text(n / 10).concat(digit_str(n % 10))
    }
}

/// Whether `c` is white space in the Unicode sense, as `str::trim` strips it.
pub open spec fn is_space(c: char) -> bool {
    ||| '\u{9}' <= c <= '\u{d}'
    ||| c == ' '
    ||| c == '\u{85}'
    ||| c == '\u{a0}'
    ||| c == '\u{1680}'
    ||| '\u{2000}' <= c <= '\u{200a}'
    ||| c == '\u{2028}'
    ||| c == '\u{2029}'
    ||| c == '\u{202f}'
    ||| c == '\u{205f}'
    ||| c == '\u{3000}'
}

fn is_white_space(c: char) -> (res: bool)
    ensures
        res == is_space(c),
{
    ('\u{9}' <= c && c <= '\u{d}') || c == ' ' || c == '\u{85}' || c == '\u{a0}' || c == '\u{1680}'
        || ('\u{2000}' <= c && c <= '\u{200a}') || c == '\u{2028}' || c == '\u{2029}' || c
        == '\u{202f}' || c == '\u{205f}' || c == '\u{3000}'
}

/// `text` without the white space in front.
pub open spec fn trim_front(text: Seq<char>) -> Seq<char>
    decreases text.len(),
{
    if text.len() > 0 && is_space(text[0]) {
        trim_front(text.skip(1))
    } else {
        text
    }
}

/// `text` without the white space at its end.
pub open spec fn trim_back(text: Seq<char>) -> Seq<char>
    decreases text.len(),
{
    if text.len() > 0 && is_space(text.last()) {
        trim_back(text.drop_last())
    } else {
        text
    }
}

/// `text` without the white space at either end.
pub open spec fn trimmed(text: Seq<char>) -> Seq<char> {
    trim_back(trim_front(text))
}

/// Strips white space from both ends.
pub fn trim(text: &str) -> (res: &str)
    ensures
        res@ == trimmed(text@),
{
    let len: usize = text.unicode_len();
    let mut start: usize = 0;
    assert(text@.skip(0) =~= text@);
    while start < len && is_white_space(text.get_char(start))
        invariant
            start <= len,
            len == text@.len(),
            trim_front(text@) == trim_front(text@.skip(start as int)),
        decreases len - start,
    {
        let ghost rest = text@.skip(start as int);
        assert(rest.skip(1) =~= text@.skip(start + 1));
        start += 1;
    }
    let ghost front = text@.skip(start as int);
    assert(trim_front(text@) == front);
    let mut end: usize = len;
    assert(text@.subrange(start as int, len as int) =~= front);
    while start < end && is_white_space(text.get_char(end - 1))
        invariant
            start <= end <= len,
            len == text@.len(),
            trim_back(front) == trim_back(text@.subrange(start as int, end as int)),
        decreases end,
    {
        let ghost rest = text@.subrange(start as int, end as int);
        assert(rest.drop_last() =~= text@.subrange(start as int, end - 1));
        end -= 1;
    }
    text.substring_char(start, end)
}

/// `c` with an ASCII capital replaced by its small letter.
pub open spec fn ascii_lower(c: char) -> char {
    if 'A' <= c <= 'Z' {
        ((c as u32) + 32) as char
    } else {
        c
    }
}

/// `text` with each ASCII capital replaced by its small letter.
pub open spec fn ascii_lowercase(text: Seq<char>) -> Seq<char> {
    Seq::new(text.len(), |i: int| ascii_lower(text[i]))
}

/// Whether `text` is ASCII throughout.
pub open spec fn is_ascii(text: Seq<char>) -> bool {
    forall|i: int| 0 <= i < text.len() ==> #[trigger] text[i] <= '\u{7f}'
}

/// The result of `str::to_lowercase` on `text`.
pub uninterp spec fn lowercase(text: Seq<char>) -> Seq<char>;

/// `text` in lower case. The letters of a text that is ASCII throughout are
/// known.
pub open spec fn lower(text: Seq<char>) -> Seq<char> {
    if is_ascii(text) {
        ascii_lowercase(text)
    } else {
        lowercase(text)
    }
}

/// Calls `str::to_lowercase`, which maps a text by the Unicode lower case
/// tables.
///
/// What the tables hold is not stated, with one exception: a text of ASCII
/// characters alone has its capitals replaced by their small letters, and
/// nothing else changes.
#[verifier::external_body]
pub(crate) fn to_lowercase(text: &str) -> (res: String)
    ensures
        res@ == lowercase(text@),
        is_ascii(text@) ==> res@ == ascii_lowercase(text@),
{
    text.to_lowercase()
}

/// The position of the first occurrence of `pattern` in `text`.
pub open spec fn match_at(text: Seq<char>, pattern: Seq<char>) -> Option<nat>
    decreases text.len(),
{
    if text.len() < pattern.len() {
        None
    } else if text.take(pattern.len() as int) == pattern {
        Some(0)
    } else if text.len() == 0 {
        None
    } else {
        match match_at(text.skip(1), pattern) {
            Some(at) => Some(at + 1),
            None => None,
        }
    }
}

/// The two sides of the first occurrence of `pattern` in `text`.
pub open spec fn split_on(text: Seq<char>, pattern: Seq<char>) -> Option<(Seq<char>, Seq<char>)> {
    match match_at(text, pattern) {
        Some(at) => Some((text.take(at as int), text.skip(at as int + pattern.len() as int))),
        None => None,
    }
}

/// Moves the first `n` places, which hold no match, out of the way.
proof fn lemma_match_skips(text: Seq<char>, pattern: Seq<char>, n: nat)
    requires
        n <= text.len(),
        pattern.len() > 0,
        forall|j: int|
            0 <= j < n && j + pattern.len() <= text.len() ==> #[trigger] text.subrange(
                j,
                j + pattern.len(),
            ) != pattern,
    ensures
        match_at(text, pattern) == match match_at(text.skip(n as int), pattern) {
            Some(at) => Some(at + n),
            None => None,
        },
    decreases n,
{
    if n == 0 {
        assert(text.skip(0) =~= text);
    } else if text.len() < pattern.len() {
        assert(text.skip(n as int).len() < pattern.len());
    } else {
        assert(text.take(pattern.len() as int) =~= text.subrange(0, 0 + pattern.len() as int));
        let rest = text.skip(1);
        assert forall|j: int|
            0 <= j < n - 1 && j + pattern.len() <= rest.len() implies #[trigger] rest.subrange(
            j,
            j + pattern.len(),
        ) != pattern by {
            assert(rest.subrange(j, j + pattern.len()) =~= text.subrange(
                j + 1,
                j + 1 + pattern.len(),
            ));
        }
        lemma_match_skips(rest, pattern, (n - 1) as nat);
        assert(rest.skip(n - 1) =~= text.skip(n as int));
    }
}

/// Splits `text` at the first occurrence of `pattern`.
pub fn split_pattern<'a>(text: &'a str, pattern: &str) -> (res: Option<(&'a str, &'a str)>)
    requires
        pattern@.len() > 0,
    ensures
        match res {
            Some((left, right)) => split_on(text@, pattern@) == Some((left@, right@)),
            None => split_on(text@, pattern@) is None,
        },
{
    let len: usize = text.unicode_len();
    let width: usize = pattern.unicode_len();
    let mut i: usize = 0;
    while i < len && width <= len - i
        invariant
            i <= len,
            len == text@.len(),
            width == pattern@.len(),
            width > 0,
            forall|j: int|
                0 <= j < i && j + pattern@.len() <= text@.len() ==> #[trigger] text@.subrange(
                    j,
                    j + pattern@.len(),
                ) != pattern@,
        decreases len - i,
    {
        let here = text.substring_char(i, i + width);
        if same(here, pattern) {
            proof {
                lemma_match_skips(text@, pattern@, i as nat);
                let rest = text@.skip(i as int);
                assert(rest.take(width as int) =~= here@);
            }
            let left = text.substring_char(0, i);
            let right = text.substring_char(i + width, len);
            assert(left@ =~= text@.take(i as int));
            assert(right@ =~= text@.skip(i + width));
            return Some((left, right));
        }
        i += 1;
    }
    proof {
        lemma_match_skips(text@, pattern@, i as nat);
    }
    None
}

/// `line` without one carriage return at its end.
pub open spec fn without_return(line: Seq<char>) -> Seq<char> {
    if line.len() > 0 && line.last() == '\r' {
        line.drop_last()
    } else {
        line
    }
}

/// The lines of `text`, without their line feeds, as `str::lines` gives them.
pub open spec fn lines_of(text: Seq<char>) -> Seq<Seq<char>>
    decreases text.len(),
    via lines_shrink
{
    if text.len() == 0 {
        seq![]
    } else {
        match split(text, seq!['\n']) {
            None => seq![text],
            Some((line, rest)) => seq![without_return(line)] + lines_of(rest),
        }
    }
}

#[via_fn]
proof fn lines_shrink(text: Seq<char>) {
    lemma_first_at_bound(text, seq!['\n']);
}

/// A list of borrowed texts as character sequences.
pub open spec fn str_list(list: Seq<&str>) -> Seq<Seq<char>> {
    Seq::new(list.len(), |i: int| list[i]@)
}

/// A list of texts as character sequences.
pub open spec fn string_list(list: Seq<String>) -> Seq<Seq<char>> {
    Seq::new(list.len(), |i: int| list[i]@)
}

/// Splits `text` into its lines.
pub fn lines<'a>(text: &'a str) -> (res: Vec<&'a str>)
    ensures
        str_list(res@) == lines_of(text@),
{
    let feed: [char; 1] = ['\n'];
    assert(feed@ =~= seq!['\n']);
    let mut list: Vec<&'a str> = Vec::new();
    let mut rest: &'a str = text;
    assert(str_list(list@) + lines_of(rest@) =~= lines_of(text@));
    while !rest.is_empty()
        invariant
            feed@ == seq!['\n'],
            str_list(list@) + lines_of(rest@) == lines_of(text@),
        decreases rest@.len(),
    {
        let ghost before = str_list(list@);
        match split_first(rest, &feed) {
            None => {
                list.push(rest);
                assert(str_list(list@) =~= before + seq![rest@]);
                return list;
            },
            Some((line, more)) => {
                proof {
                    lemma_first_at_bound(rest@, seq!['\n']);
                }
                let len: usize = line.unicode_len();
                let line: &'a str = if len > 0 && line.get_char(len - 1) == '\r' {
                    let short = line.substring_char(0, len - 1);
                    assert(short@ =~= line@.drop_last());
                    short
                } else {
                    line
                };
                list.push(line);
                assert(str_list(list@) =~= before + seq![line@]);
                assert(before + (seq![line@] + lines_of(more@)) =~= (before + seq![line@])
                    + lines_of(more@));
                rest = more;
            },
        }
    }
    assert(str_list(list@) + lines_of(rest@) =~= str_list(list@));
    list
}

/// The texts one after another, with `between` between each two.
pub open spec fn joined(list: Seq<Seq<char>>, between: Seq<char>) -> Seq<char>
    decreases list.len(),
{
    if list.len() == 0 {
        seq![]
    } else if list.len() == 1 {
        list[0]
    } else {
        joined(list.drop_last(), between) + between + list.last()
    }
}

/// Joins the texts with `between` between each two.
pub fn join(list: &[String], between: &str) -> (res: String)
    ensures
        res@ == joined(string_list(list@), between@),
{
    let ghost all = string_list(list@);
    if list.len() == 0 {
        return String::new();
    }
    let mut out: String = list[0].clone();
    let mut i: usize = 1;
    assert(all.take(1).len() == 1 && all.take(1)[0] == list@[0]@);
    while i < list.len()
        invariant
            1 <= i <= list.len(),
            all == string_list(list@),
            out@ == joined(all.take(i as int), between@),
        decreases list.len() - i,
    {
        let ghost longer = all.take(i + 1);
        assert(longer.drop_last() =~= all.take(i as int));
        assert(longer.last() == list@[i as int]@);
        out = out.concat(between).concat(list[i].as_str());
        i += 1;
    }
    assert(all.take(all.len() as int) =~= all);
    out
}

/// The result of formatting `text` with `{:?}`.
pub uninterp spec fn debug_quoted(text: Seq<char>) -> Seq<char>;

/// Whether `c` is a printable ASCII character that needs no escape between
/// double quotes.
pub open spec fn is_plain(c: char) -> bool {
    ' ' <= c <= '~' && c != '"' && c != '\\'
}

/// Formats `text` with `{:?}`, as `<str as std::fmt::Debug>::fmt` does: between
/// double quotes, with some characters escaped.
///
/// Which characters are escaped, and how, is not stated, with one exception: a
/// text of plain ASCII characters stands between the quotes as it is.
#[verifier::external_body]
pub(crate) fn debug_text(text: &str) -> (res: String)
    ensures
        res@ == debug_quoted(text@),
        (forall|i: int| 0 <= i < text@.len() ==> is_plain(#[trigger] text@[i])) ==> res@
            == seq!['"'] + text@ + seq!['"'],
{
    format!("{:?}", text)
}

/// Whether `a` comes before `b`: by the first character in which they differ,
/// a text before its extensions.
pub open spec fn precedes(a: Seq<char>, b: Seq<char>) -> bool
    decreases b.len(),
{
    if b.len() == 0 {
        false
    } else if a.len() == 0 {
        true
    } else {
        a[0] < b[0] || (a[0] == b[0] && precedes(a.skip(1), b.skip(1)))
    }
}

/// Returns whether `a` comes before `b`.
pub fn is_before(a: &str, b: &str) -> (res: bool)
    ensures
        res == precedes(a@, b@),
{
    let left: usize = a.unicode_len();
    let right: usize = b.unicode_len();
    let mut i: usize = 0;
    assert(a@.skip(0) =~= a@ && b@.skip(0) =~= b@);
    while i < left && i < right
        invariant
            left == a@.len(),
            right == b@.len(),
            i <= left,
            i <= right,
            precedes(a@, b@) == precedes(a@.skip(i as int), b@.skip(i as int)),
        decreases left - i,
    {
        let x = a.get_char(i);
        let y = b.get_char(i);
        assert(a@.skip(i as int)[0] == x && b@.skip(i as int)[0] == y);
        if x < y {
            return true;
        }
        if x != y {
            return false;
        }
        assert(a@.skip(i as int).skip(1) =~= a@.skip(i + 1));
        assert(b@.skip(i as int).skip(1) =~= b@.skip(i + 1));
        i += 1;
    }
    i < right
}

/// A number is written with digits alone, without a leading zero, and reads back
/// as itself.
pub proof fn law_a_decimal_reads_back(n: nat)
    ensures
        decimal(n).len() > 0,
        forall|i: int| 0 <= i < decimal(n).len() ==> '0' <= #[trigger] decimal(n)[i] <= '9',
        decimal(n).len() > 1 ==> decimal(n)[0] != '0',
        n > 0 ==> decimal(n)[0] != '0',
        digits_value(decimal(n)) == n,
        n <= u32::MAX ==> u32_of(decimal(n)) == Some(n as u32),
    decreases n,
{
    let all = decimal(n);
    reveal_with_fuel(digits_value, 2);
    if n < 10 {
        assert(all.drop_last() =~= seq![]);
    } else {
        law_a_decimal_reads_back(n / 10);
        let front = decimal(n / 10);
        let last = digit_text(n % 10);
        assert(all.drop_last() =~= front);
        assert(all.last() == last[0]);
        assert forall|i: int| 0 <= i < all.len() implies '0' <= #[trigger] all[i] <= '9' by {
            if i < front.len() {
                assert(all[i] == front[i]);
            } else {
                assert(all[i] == last[0]);
            }
        }
        assert(all[0] == front[0]);
    }
}

/// A text that parses as a number is digits, with a plus sign in front or
/// without, and whatever is put before the last digit counts ten times.
pub proof fn law_digits_count_by_their_place(digits: Seq<char>, last: char)
    requires
        digits.len() > 0,
        forall|i: int| 0 <= i < digits.len() ==> '0' <= #[trigger] digits[i] <= '9',
        '0' <= last <= '9',
    ensures
        u32_of(digits.push(last)) matches Some(whole) ==> {
            &&& u32_of(digits) matches Some(front)
            &&& whole == 10 * front + (last as u32 - '0' as u32)
        },
        u32_of(seq!['+'] + digits) == u32_of(digits),
{
    let whole = digits.push(last);
    assert(whole.drop_last() =~= digits);
    assert(whole[0] == digits[0]);
    assert(unsigned_part(whole) == whole && unsigned_part(digits) == digits);
    assert((seq!['+'] + digits).skip(1) =~= digits);
}

/// A text with anything but digits in it, behind a plus sign or not, is no
/// number.
pub proof fn law_only_digits_parse(text: Seq<char>, at: int)
    requires
        0 <= at < text.len(),
        !('0' <= text[at] <= '9'),
        at > 0 || text[at] != '+',
    ensures
        u32_of(text) is None,
        u32_of(Seq::<char>::empty()) is None,
        u32_of(seq!['+']) is None,
{
    let digits = unsigned_part(text);
    if text[0] == '+' {
        assert(digits[at - 1] == text[at]);
        assert(!is_digit(digits[at - 1]));
    } else {
        assert(!is_digit(digits[at]));
    }
    assert(seq!['+'].skip(1) =~= seq![]);
}

/// A split gives the text back around its separator, which is the first: nothing
/// of the left part separates. A text that does not split has no separator.
pub proof fn law_a_split_is_at_the_first_separator(text: Seq<char>, set: Seq<char>)
    ensures
        match split(text, set) {
            Some((left, right)) => {
                &&& left.len() + 1 + right.len() == text.len()
                &&& set.contains(text[left.len() as int])
                &&& text == left.push(text[left.len() as int]) + right
                &&& forall|i: int| 0 <= i < left.len() ==> !set.contains(#[trigger] left[i])
            },
            None => forall|i: int| 0 <= i < text.len() ==> !set.contains(#[trigger] text[i]),
        },
    decreases text.len(),
{
    lemma_first_at_bound(text, set);
    if text.len() > 0 && !set.contains(text[0]) {
        let rest = text.skip(1);
        law_a_split_is_at_the_first_separator(rest, set);
        lemma_first_at_bound(rest, set);
        match split(rest, set) {
            Some((left, right)) => {
                let (whole, tail) = split(text, set)->0;
                let at = first_at(rest, set);
                assert(whole =~= seq![text[0]] + left);
                assert(tail =~= right);
                assert(text[at as int + 1] == rest[at as int]);
                assert forall|i: int| 0 <= i < whole.len() implies !set.contains(
                    #[trigger] whole[i],
                ) by {
                    if i > 0 {
                        assert(whole[i] == left[i - 1]);
                    }
                }
                assert(text =~= whole.push(text[whole.len() as int]) + tail);
            },
            None => {
                assert forall|i: int| 0 <= i < text.len() implies !set.contains(
                    #[trigger] text[i],
                ) by {
                    if i > 0 {
                        assert(text[i] == rest[i - 1]);
                    }
                }
            },
        }
    } else if text.len() > 0 {
        let (left, right) = split(text, set)->0;
        assert(text =~= left.push(text[0]) + right);
    }
}

proof fn lemma_match_bound(text: Seq<char>, pattern: Seq<char>)
    ensures
        match_at(text, pattern) matches Some(at) ==> at + pattern.len() <= text.len(),
    decreases text.len(),
{
    if text.len() >= pattern.len() && text.take(pattern.len() as int) != pattern && text.len() > 0 {
        lemma_match_bound(text.skip(1), pattern);
    }
}

/// A split on a pattern gives the text back around it, and no earlier place
/// holds the pattern. A text that does not split does not hold it.
pub proof fn law_a_split_is_at_the_first_pattern(text: Seq<char>, pattern: Seq<char>)
    requires
        pattern.len() > 0,
    ensures
        match split_on(text, pattern) {
            Some((left, right)) => {
                &&& text == left + pattern + right
                &&& forall|i: int|
                    0 <= i < left.len() ==> #[trigger] text.subrange(i, i + pattern.len())
                        != pattern
            },
            None => forall|i: int|
                0 <= i <= text.len() - pattern.len() ==> #[trigger] text.subrange(
                    i,
                    i + pattern.len(),
                ) != pattern,
        },
    decreases text.len(),
{
    let width = pattern.len() as int;
    if text.len() >= width {
        assert(text.subrange(0, width) =~= text.take(width));
        if text.take(width) == pattern {
            let (left, right) = split_on(text, pattern)->0;
            assert(text =~= left + pattern + right);
        } else {
            let rest = text.skip(1);
            law_a_split_is_at_the_first_pattern(rest, pattern);
            assert forall|i: int| 1 <= i <= text.len() - width implies #[trigger] text.subrange(
                i,
                i + width,
            ) == rest.subrange(i - 1, i - 1 + width) by {
                assert(text.subrange(i, i + width) =~= rest.subrange(i - 1, i - 1 + width));
            }
            if let Some((left, right)) = split_on(rest, pattern) {
                let (whole, tail) = split_on(text, pattern)->0;
                lemma_match_bound(rest, pattern);
                assert(whole =~= seq![text[0]] + left);
                assert(tail =~= right);
                assert(text =~= seq![text[0]] + rest);
                assert(text =~= whole + pattern + tail);
                assert forall|i: int| 0 <= i < whole.len() implies #[trigger] text.subrange(
                    i,
                    i + width,
                ) != pattern by {
                    if i > 0 {
                        assert(rest.subrange(i - 1, i - 1 + width) != pattern);
                    }
                }
            }
        }
    }
}

proof fn lemma_trim_front(text: Seq<char>) -> (cut: int)
    ensures
        0 <= cut <= text.len(),
        trim_front(text) == text.skip(cut),
        forall|i: int| 0 <= i < cut ==> is_space(#[trigger] text[i]),
        cut < text.len() ==> !is_space(text[cut]),
    decreases text.len(),
{
    if text.len() > 0 && is_space(text[0]) {
        let rest = text.skip(1);
        let cut = lemma_trim_front(rest);
        assert(text.skip(cut + 1) =~= rest.skip(cut));
        assert forall|i: int| 0 <= i < cut + 1 implies is_space(#[trigger] text[i]) by {
            if i > 0 {
                assert(text[i] == rest[i - 1]);
            }
        }
        cut + 1
    } else {
        assert(text.skip(0) =~= text);
        0
    }
}

proof fn lemma_trim_back(text: Seq<char>) -> (kept: int)
    ensures
        0 <= kept <= text.len(),
        trim_back(text) == text.take(kept),
        forall|i: int| kept <= i < text.len() ==> is_space(#[trigger] text[i]),
        kept > 0 ==> !is_space(text[kept - 1]),
    decreases text.len(),
{
    if text.len() > 0 && is_space(text.last()) {
        let rest = text.drop_last();
        let kept = lemma_trim_back(rest);
        assert(text.take(kept) =~= rest.take(kept));
        assert forall|i: int| kept <= i < text.len() implies is_space(#[trigger] text[i]) by {
            if i < rest.len() {
                assert(text[i] == rest[i]);
            }
        }
        kept
    } else {
        assert(text.take(text.len() as int) =~= text);
        text.len() as int
    }
}

/// Trimming takes white space off both ends and nothing else: what is left is a
/// stretch of the text that neither starts nor ends with white space, and all
/// around it is white space.
pub proof fn law_trimming_takes_white_space_off_the_ends(text: Seq<char>) -> (bounds: (int, int))
    ensures
        ({
            let (from, to) = bounds;
            let kept = trimmed(text);
            &&& 0 <= from <= to <= text.len()
            &&& kept == text.subrange(from, to)
            &&& forall|i: int| 0 <= i < from || to <= i < text.len() ==> is_space(#[trigger] text[i])
            &&& from < to ==> !is_space(text[from]) && !is_space(text[to - 1])
        }),
{
    let cut = lemma_trim_front(text);
    let front = text.skip(cut);
    let kept = lemma_trim_back(front);
    assert(front.take(kept) =~= text.subrange(cut, cut + kept));
    assert forall|i: int| 0 <= i < cut || cut + kept <= i < text.len() implies is_space(
        #[trigger] text[i],
    ) by {
        if i >= cut + kept {
            assert(text[i] == front[i - cut]);
        }
    }
    if kept > 0 {
        assert(front[0] == text[cut]);
        assert(front[kept - 1] == text[cut + kept - 1]);
    }
    (cut, cut + kept)
}

/// Blanks, tabs and line ends are white space; letters, digits and signs are
/// not.
pub proof fn law_what_is_seen_is_no_white_space(c: char)
    ensures
        '!' <= c <= '~' ==> !is_space(c),
        c == ' ' || c == '\t' || c == '\n' || c == '\r' ==> is_space(c),
{
}

/// A line that is ended by a line feed is the first line of the text, without
/// its carriage return, and the rest of the text gives the others.
pub proof fn law_lines_end_at_their_line_feed(line: Seq<char>, rest: Seq<char>)
    requires
        !line.contains('\n'),
    ensures
        lines_of(line.push('\n') + rest) == seq![
            if line.len() > 0 && line.last() == '\r' {
                line.drop_last()
            } else {
                line
            },
        ] + lines_of(rest),
        line.len() > 0 ==> lines_of(line) == seq![line],
        lines_of(Seq::<char>::empty()) == Seq::<Seq<char>>::empty(),
{
    let text = line.push('\n') + rest;
    let at = line.len();
    assert(seq!['\n'][0] == '\n');
    assert(text[at as int] == '\n');
    assert forall|j: int| 0 <= j < at implies !seq!['\n'].contains(#[trigger] text[j]) by {
        assert(text[j] == line[j]);
        assert(line.contains(line[j]));
    }
    lemma_first_at(text, seq!['\n'], at);
    assert(text.take(at as int) =~= line);
    assert(text.skip(at as int + 1) =~= rest);
    assert forall|j: int| 0 <= j < at implies !seq!['\n'].contains(#[trigger] line[j]) by {
        assert(line.contains(line[j]));
    }
    lemma_first_at(line, seq!['\n'], at);
}

/// Joining two lists is joining each, with what stands between in the middle.
pub proof fn law_joining_is_piecewise(
    left: Seq<Seq<char>>,
    right: Seq<Seq<char>>,
    between: Seq<char>,
)
    requires
        left.len() > 0,
        right.len() > 0,
    ensures
        joined(left + right, between) == joined(left, between) + between + joined(right, between),
        left.len() == 1 ==> joined(left, between) == left[0],
        joined(Seq::<Seq<char>>::empty(), between) == Seq::<char>::empty(),
    decreases right.len(),
{
    let all = left + right;
    let rest = right.drop_last();
    assert(all.drop_last() =~= left + rest);
    assert(all.last() == right.last());
    if right.len() == 1 {
        assert(left + rest =~= left);
    } else {
        law_joining_is_piecewise(left, rest, between);
        assert(joined(all, between) =~= joined(left, between) + between + joined(
            right,
            between,
        ));
    }
}

/// Lower case takes each capital to its small letter and leaves the rest alone.
pub proof fn law_capitals_become_small(text: Seq<char>, i: int)
    requires
        is_ascii(text),
        0 <= i < text.len(),
    ensures
        lower(text).len() == text.len(),
        'A' <= text[i] <= 'Z' ==> 'a' <= lower(text)[i] <= 'z' && lower(text)[i] as u32
            - 'a' as u32 == text[i] as u32 - 'A' as u32,
        !('A' <= text[i] <= 'Z') ==> lower(text)[i] == text[i],
        lower(lower(text)) == lower(text),
{
    let once = lower(text);
    assert forall|j: int| 0 <= j < once.len() implies #[trigger] once[j] <= '\u{7f}' && !('A'
        <= once[j] <= 'Z') by {
        assert(text[j] <= '\u{7f}');
    }
    assert(lower(once) =~= once);
}

/// Texts are ordered by the first character in which they differ, and a text
/// precedes what it starts.
pub proof fn law_texts_are_ordered_by_their_first_difference(
    common: Seq<char>,
    less: char,
    more: char,
    left: Seq<char>,
    right: Seq<char>,
)
    requires
        less < more,
    ensures
        precedes(common + seq![less] + left, common + seq![more] + right),
        !precedes(common + seq![more] + right, common + seq![less] + left),
        precedes(common, common + seq![less] + left),
        !precedes(common + seq![less] + left, common),
        !precedes(common, common),
    decreases common.len(),
{
    let low = common + seq![less] + left;
    let high = common + seq![more] + right;
    if common.len() > 0 {
        let rest = common.skip(1);
        law_texts_are_ordered_by_their_first_difference(rest, less, more, left, right);
        assert(low.skip(1) =~= rest + seq![less] + left);
        assert(high.skip(1) =~= rest + seq![more] + right);
    } else {
        assert(low[0] == less && high[0] == more);
    }
}

/// No text comes before itself.
proof fn lemma_not_before_itself(a: Seq<char>)
    ensures
        !precedes(a, a),
    decreases a.len(),
{
    if a.len() > 0 {
        lemma_not_before_itself(a.skip(1));
    }
}

/// Of two texts that differ one comes before the other, and not the other way
/// round.
pub proof fn law_two_texts_are_in_one_order(a: Seq<char>, b: Seq<char>)
    ensures
        precedes(a, b) <==> a != b && !precedes(b, a),
        !precedes(a, a),
    decreases b.len(),
{
    lemma_not_before_itself(a);
    if a.len() > 0 && b.len() > 0 {
        law_two_texts_are_in_one_order(a.skip(1), b.skip(1));
        assert(a =~= seq![a[0]] + a.skip(1));
        assert(b =~= seq![b[0]] + b.skip(1));
    } else if a.len() == 0 && b.len() == 0 {
        assert(a =~= b);
    }
}

/// What comes before a text comes before all that comes after it.
pub proof fn law_the_order_of_texts_carries_on(a: Seq<char>, b: Seq<char>, c: Seq<char>)
    requires
        precedes(a, b),
        precedes(b, c),
    ensures
        precedes(a, c),
    decreases c.len(),
{
    if a.len() > 0 && a[0] == b[0] && b[0] == c[0] {
        law_the_order_of_texts_carries_on(a.skip(1), b.skip(1), c.skip(1));
    }
}

/// A list of texts is seen text by text.
pub proof fn law_a_list_is_seen_text_by_text(list: Seq<String>, parts: Seq<&str>, i: int)
    ensures
        string_list(list).len() == list.len(),
        str_list(parts).len() == parts.len(),
        0 <= i < list.len() ==> string_list(list)[i] == list[i]@,
        0 <= i < parts.len() ==> str_list(parts)[i] == parts[i]@,
{
}

} // verus!
