//! Text helpers: decimal rendering, the formatted forms of matches, and the
//! standard string operations that the detectors use.
use vstd::prelude::*;

verus! {

/// The character of a decimal digit.
pub open spec fn digit_char(d: nat) -> char
    recommends
        d < 10,
{
    (48 + d) as char
}

/// The decimal rendering of a natural number, without sign or leading zeros.
pub open spec fn decimal(n: nat) -> Seq<char>
    decreases n,
{
    if n < 10 {
        seq![digit_char(n)]
    } else {
        decimal(n / 10).push(digit_char(n % 10))
    }
}

/// `origin:lineno: line`, the displayed form of a match.
pub open spec fn display_match(origin: Seq<char>, lineno: nat, line: Seq<char>) -> Seq<char> {
    origin + seq![':'] + decimal(lineno) + seq![':', ' '] + line
}

/// `n: line` followed by a newline, one numbered line of a prompt.
pub open spec fn numbered_line(n: nat, line: Seq<char>) -> Seq<char> {
    decimal(n) + seq![':', ' '] + line + seq!['\n']
}

/// The decimal text of `n` (`ToString::to_string` on `usize`, which writes it through
/// its `Display`): its digits, without sign or leading zeros.
#[verifier::external_body]
pub(crate) fn usize_text(n: usize) -> (r: String)
    ensures
        r@ == decimal(n as nat),
{
    n.to_string()
}

/// Renders a match as `origin:lineno: line`.
pub(crate) fn format_match(origin: &str, lineno: usize, line: &str) -> (r: String)
    ensures
        r@ == display_match(origin@, lineno as nat, line@),
{
    let mut r = concat(origin, ":");
    let digits = usize_text(lineno);
    r.append(digits.as_str());
    r.append(": ");
    r.append(line);
    proof {
        reveal_strlit(":");
        reveal_strlit(": ");
    }
    assert(r@ =~= display_match(origin@, lineno as nat, line@));
    r
}

/// Renders `n: line` followed by a newline.
pub(crate) fn format_numbered_line(n: usize, line: &str) -> (r: String)
    ensures
        r@ == numbered_line(n as nat, line@),
{
    let mut r = usize_text(n);
    r.append(": ");
    r.append(line);
    r.append("\n");
    proof {
        reveal_strlit(": ");
        reveal_strlit("\n");
    }
    assert(r@ =~= numbered_line(n as nat, line@));
    r
}

/// Whether `c` has the Unicode White_Space property, as `char::is_whitespace` decides.
pub open spec fn is_ws(c: char) -> bool {
    let u = c as u32;
    ||| 0x09 <= u <= 0x0d
    ||| u == 0x20
    ||| u == 0x85
    ||| u == 0xa0
    ||| u == 0x1680
    ||| 0x2000 <= u <= 0x200a
    ||| u == 0x2028
    ||| u == 0x2029
    ||| u == 0x202f
    ||| u == 0x205f
    ||| u == 0x3000
}

/// `s` without its leading whitespace.
pub open spec fn trim_start_spec(s: Seq<char>) -> Seq<char>
    decreases s.len(),
{
    if s.len() > 0 && is_ws(s[0]) {
        trim_start_spec(s.drop_first())
    } else {
        s
    }
}

/// `s` without its trailing whitespace.
pub open spec fn trim_end_spec(s: Seq<char>) -> Seq<char>
    decreases s.len(),
{
    if s.len() > 0 && is_ws(s.last()) {
        trim_end_spec(s.drop_last())
    } else {
        s
    }
}

/// `s` without leading and trailing whitespace.
pub open spec fn trim_spec(s: Seq<char>) -> Seq<char> {
    trim_end_spec(trim_start_spec(s))
}

/// `s` without any trailing occurrences of `c`.
pub open spec fn trim_end_char_spec(s: Seq<char>, c: char) -> Seq<char>
    decreases s.len(),
{
    if s.len() > 0 && s.last() == c {
        trim_end_char_spec(s.drop_last(), c)
    } else {
        s
    }
}

/// `s` without any trailing carriage returns or newlines.
pub open spec fn trim_end_eol_spec(s: Seq<char>) -> Seq<char>
    decreases s.len(),
{
    if s.len() > 0 && (s.last() == '\r' || s.last() == '\n') {
        trim_end_eol_spec(s.drop_last())
    } else {
        s
    }
}

/// `s` without any leading occurrences of `c`.
pub open spec fn trim_start_char_spec(s: Seq<char>, c: char) -> Seq<char>
    decreases s.len(),
{
    if s.len() > 0 && s[0] == c {
        trim_start_char_spec(s.drop_first(), c)
    } else {
        s
    }
}

/// `s` without leading or trailing occurrences of `c`.
pub open spec fn trim_char_spec(s: Seq<char>, c: char) -> Seq<char> {
    trim_end_char_spec(trim_start_char_spec(s, c), c)
}

/// Whether `p` occurs in `s` starting at index `i`.
pub open spec fn occurs_at(s: Seq<char>, p: Seq<char>, i: int) -> bool {
    0 <= i && i + p.len() <= s.len() && s.subrange(i, i + p.len()) == p
}

/// Whether `p` occurs anywhere in `s`.
pub open spec fn contains_spec(s: Seq<char>, p: Seq<char>) -> bool {
    exists|i: int| occurs_at(s, p, i)
}

/// Whether `i` is the first index at which `p` occurs in `s`.
pub open spec fn first_occurrence(s: Seq<char>, p: Seq<char>, i: int) -> bool {
    occurs_at(s, p, i) && forall|j: int| 0 <= j < i ==> !occurs_at(s, p, j)
}

/// The number of times `c` occurs in `s`.
pub open spec fn count_char_spec(s: Seq<char>, c: char) -> nat
    decreases s.len(),
{
    if s.len() == 0 {
        0
    } else {
        count_char_spec(s.drop_last(), c) + if s.last() == c { 1nat } else { 0nat }
    }
}

/// Whether two strings hold the same text (`==` on `str`).
#[verifier::external_body]
pub(crate) fn str_eq(a: &str, b: &str) -> (r: bool)
    ensures
        r == (a@ == b@),
{
    a == b
}

/// Whether `s` starts with `p` (`str::starts_with`).
#[verifier::external_body]
pub(crate) fn starts_with(s: &str, p: &str) -> (r: bool)
    ensures
        r == p@.is_prefix_of(s@),
{
    s.starts_with(p)
}

/// Whether `s` ends with `p` (`str::ends_with`).
#[verifier::external_body]
pub(crate) fn ends_with(s: &str, p: &str) -> (r: bool)
    ensures
        r == p@.is_suffix_of(s@),
{
    s.ends_with(p)
}

/// `s` without the prefix `p`, if it has it (`str::strip_prefix`).
#[verifier::external_body]
pub(crate) fn strip_prefix<'a>(s: &'a str, p: &str) -> (r: Option<&'a str>)
    ensures
        r is Some <==> p@.is_prefix_of(s@),
        r matches Some(rest) ==> rest@ == s@.skip(p@.len() as int),
{
    s.strip_prefix(p)
}

/// `s` without the suffix `p`, if it has it (`str::strip_suffix`).
#[verifier::external_body]
pub(crate) fn strip_suffix<'a>(s: &'a str, p: &str) -> (r: Option<&'a str>)
    ensures
        r is Some <==> p@.is_suffix_of(s@),
        r matches Some(rest) ==> rest@ == s@.take(s@.len() - p@.len()),
{
    s.strip_suffix(p)
}

/// Whether `p` occurs in `s` (`str::contains`).
#[verifier::external_body]
pub(crate) fn contains(s: &str, p: &str) -> (r: bool)
    ensures
        r == contains_spec(s@, p@),
{
    s.contains(p)
}

/// Whether the character `c` occurs in `s` (`str::contains` with a `char`).
#[verifier::external_body]
pub(crate) fn contains_char(s: &str, c: char) -> (r: bool)
    ensures
        r == s@.contains(c),
{
    s.contains(c)
}

/// `s` without leading and trailing whitespace (`str::trim`).
#[verifier::external_body]
pub(crate) fn trim(s: &str) -> (r: &str)
    ensures
        r@ == trim_spec(s@),
{
    s.trim()
}

/// `s` without trailing whitespace (`str::trim_end`).
#[verifier::external_body]
pub(crate) fn trim_end(s: &str) -> (r: &str)
    ensures
        r@ == trim_end_spec(s@),
{
    s.trim_end()
}

/// `s` without leading whitespace (`str::trim_start`).
#[verifier::external_body]
pub(crate) fn trim_start(s: &str) -> (r: &str)
    ensures
        r@ == trim_start_spec(s@),
{
    s.trim_start()
}

/// `s` without trailing occurrences of `c` (`str::trim_end_matches` with a `char`).
#[verifier::external_body]
pub(crate) fn trim_end_matches(s: &str, c: char) -> (r: &str)
    ensures
        r@ == trim_end_char_spec(s@, c),
{
    s.trim_end_matches(c)
}

/// `s` without leading occurrences of `c` (`str::trim_start_matches` with a `char`).
#[verifier::external_body]
pub(crate) fn trim_start_matches(s: &str, c: char) -> (r: &str)
    ensures
        r@ == trim_start_char_spec(s@, c),
{
    s.trim_start_matches(c)
}

/// `s` without leading or trailing occurrences of `c` (`str::trim_matches` with a `char`).
#[verifier::external_body]
pub(crate) fn trim_matches(s: &str, c: char) -> (r: &str)
    ensures
        r@ == trim_char_spec(s@, c),
{
    s.trim_matches(c)
}

/// `s` without trailing carriage returns and newlines.
pub(crate) fn trim_end_eol(s: &str) -> (r: &str)
    ensures
        r@ == trim_end_eol_spec(s@),
{
    let mut n: usize = s.unicode_len();
    assert(s@.take(n as int) =~= s@);
    loop
        invariant
            n <= s@.len(),
            trim_end_eol_spec(s@.take(n as int)) == trim_end_eol_spec(s@),
        ensures
            n == 0 || (s@[n - 1] != '\r' && s@[n - 1] != '\n'),
        decreases n,
    {
        if n == 0 {
            break;
        }
        let c = s.get_char(n - 1);
        if c != '\r' && c != '\n' {
            break;
        }
        assert(s@.take(n - 1) =~= s@.take(n as int).drop_last());
        n = n - 1;
    }
    let r = s.substring_char(0, n);
    assert(r@ =~= s@.take(n as int));
    if n > 0 {
        assert(s@.take(n as int).last() == s@[n - 1]);
    }
    r
}

/// Splits `s` around the first occurrence of `p` (`str::split_once`).
#[verifier::external_body]
pub(crate) fn split_once<'a>(s: &'a str, p: &str) -> (r: Option<(&'a str, &'a str)>)
    ensures
        r is Some <==> contains_spec(s@, p@),
        r matches Some((a, b)) ==> first_occurrence(s@, p@, a@.len() as int) && a@ == s@.take(
            a@.len() as int,
        ) && b@ == s@.skip((a@.len() + p@.len()) as int),
{
    s.split_once(p)
}

/// Counts the occurrences of `c` in `s`.
pub fn count_char(s: &str, c: char) -> (r: usize)
    ensures
        r == count_char_spec(s@, c),
{
    let n = s.unicode_len();
    let mut i: usize = 0;
    let mut count: usize = 0;
    while i < n
        invariant
            n == s@.len(),
            i <= n,
            count == count_char_spec(s@.take(i as int), c),
            count <= i,
        decreases n - i,
    {
        let ch = s.get_char(i);
        assert(s@.take(i + 1).drop_last() =~= s@.take(i as int));
        if ch == c {
            count = count + 1;
        }
        i = i + 1;
    }
    assert(s@.take(n as int) =~= s@);
    count
}

/// Joins the texts with `sep` between each two (`[String]::join`).
#[verifier::external_body]
pub(crate) fn join(parts: &Vec<String>, sep: &str) -> (r: String)
    ensures
        r@ == join_spec(parts@.map_values(|s: String| s@), sep@),
{
    parts.join(sep)
}

/// The texts joined with `sep` between each two.
pub open spec fn join_spec(parts: Seq<Seq<char>>, sep: Seq<char>) -> Seq<char>
    decreases parts.len(),
{
    if parts.len() == 0 {
        Seq::empty()
    } else if parts.len() == 1 {
        parts[0]
    } else {
        join_spec(parts.drop_last(), sep) + sep + parts.last()
    }
}

/// The concatenation of two texts.
pub fn concat(a: &str, b: &str) -> (r: String)
    ensures
        r@ == a@ + b@,
{
    let mut r = a.to_string();
    r.append(b);
    r
}

/// Whether `c` is an ASCII decimal digit.
pub open spec fn is_digit(c: char) -> bool {
    '0' <= c <= '9'
}

/// Whether `s` is a non-empty run of ASCII decimal digits.
pub open spec fn all_digits(s: Seq<char>) -> bool {
    s.len() > 0 && forall|i: int| 0 <= i < s.len() ==> #[trigger] is_digit(s[i])
}

/// The value of a run of decimal digits.
pub open spec fn digits_value(s: Seq<char>) -> int
    decreases s.len(),
{
    if s.len() == 0 {
        0
    } else {
        digits_value(s.drop_last()) * 10 + (s.last() as int - 48)
    }
}

/// The integer that `s` denotes: optional `+` or `-`, then decimal digits.
pub open spec fn signed_value(s: Seq<char>) -> Option<int> {
    if s.len() > 0 && s[0] == '+' && all_digits(s.drop_first()) {
        Some(digits_value(s.drop_first()))
    } else if s.len() > 0 && s[0] == '-' && all_digits(s.drop_first()) {
        Some(-digits_value(s.drop_first()))
    } else if all_digits(s) {
        Some(digits_value(s))
    } else {
        None
    }
}

/// The natural number that `s` denotes: optional `+`, then decimal digits.
pub open spec fn unsigned_value(s: Seq<char>) -> Option<int> {
    if s.len() > 0 && s[0] == '+' && all_digits(s.drop_first()) {
        Some(digits_value(s.drop_first()))
    } else if all_digits(s) {
        Some(digits_value(s))
    } else {
        None
    }
}

/// Parses a decimal `i32` (`str::parse::<i32>`).
#[verifier::external_body]
pub(crate) fn parse_i32(s: &str) -> (r: Option<i32>)
    ensures
        r == (match signed_value(s@) {
            Some(v) => if i32::MIN <= v <= i32::MAX {
                Some(v as i32)
            } else {
                None
            },
            None => None,
        }),
{
    s.parse::<i32>().ok()
}

/// Parses a decimal `u8` (`str::parse::<u8>`).
#[verifier::external_body]
pub(crate) fn parse_u8(s: &str) -> (r: Option<u8>)
    ensures
        r == (match unsigned_value(s@) {
            Some(v) => if v <= u8::MAX {
                Some(v as u8)
            } else {
                None
            },
            None => None,
        }),
{
    s.parse::<u8>().ok()
}

/// The index of the first occurrence of `c` in `s` (meaningful when `s` contains `c`).
pub open spec fn first_char_index(s: Seq<char>, c: char) -> int {
    choose|i: int| 0 <= i < s.len() && s[i] == c && forall|j: int| 0 <= j < i ==> s[j] != c
}

/// A text that contains `c` has a first occurrence of it.
pub proof fn lemma_first_char_index(s: Seq<char>, c: char)
    requires
        s.contains(c),
    ensures
        0 <= first_char_index(s, c) < s.len(),
        s[first_char_index(s, c)] == c,
        forall|j: int| 0 <= j < first_char_index(s, c) ==> s[j] != c,
    decreases s.len(),
{
    if s[0] == c {
        assert(0 <= 0 < s.len() && s[0] == c && forall|j: int| 0 <= j < 0 ==> s[j] != c);
    } else {
        let t = s.drop_first();
        let k = choose|k: int| 0 <= k < s.len() && s[k] == c;
        assert(t[k - 1] == c);
        lemma_first_char_index(t, c);
        let i = first_char_index(t, c);
        assert(0 <= i + 1 < s.len() && s[i + 1] == c && forall|j: int| 0 <= j < i + 1 ==> s[j]
            != c) by {
            assert forall|j: int| 0 <= j < i + 1 implies s[j] != c by {
                if j > 0 {
                    assert(s[j] == t[j - 1]);
                }
            }
        }
    }
}

/// Splits `s` around the first occurrence of the character `c` (`str::split_once`
/// with a `char`).
#[verifier::external_body]
pub(crate) fn split_char_once<'a>(s: &'a str, c: char) -> (r: Option<(&'a str, &'a str)>)
    ensures
        r is Some <==> s@.contains(c),
        r matches Some((a, b)) ==> a@ == s@.take(first_char_index(s@, c)) && b@ == s@.skip(
            first_char_index(s@, c) + 1,
        ),
{
    s.split_once(c)
}

/// The pieces of `s` between occurrences of `c`.
pub open spec fn split_spec(s: Seq<char>, c: char) -> Seq<Seq<char>>
    decreases s.len(),
{
    if s.contains(c) {
        proof {
            lemma_first_char_index(s, c);
        }
        let i = first_char_index(s, c);
        seq![s.take(i)] + split_spec(s.skip(i + 1), c)
    } else {
        seq![s]
    }
}

/// Splits `s` at every occurrence of `c` (`str::split` with a `char`).
#[verifier::external_body]
pub(crate) fn split_char(s: &str, c: char) -> (r: Vec<String>)
    ensures
        r@.map_values(|t: String| t@) == split_spec(s@, c),
{
    s.split(c).map(|t| t.to_string()).collect()
}

/// The text in lower case, as `str::to_lowercase` computes it (by the Unicode
/// lowercase mapping of each character).
pub uninterp spec fn lowercase_spec(s: Seq<char>) -> Seq<char>;

/// The text in lower case (`str::to_lowercase`).
#[verifier::external_body]
pub(crate) fn to_lowercase(s: &str) -> (r: String)
    ensures
        r@ == lowercase_spec(s@),
{
    s.to_lowercase()
}

/// The length of the run of non-whitespace characters that `s` starts with.
pub open spec fn word_len(s: Seq<char>) -> nat
    decreases s.len(),
{
    if s.len() == 0 || is_ws(s[0]) {
        0
    } else {
        1 + word_len(s.drop_first())
    }
}

/// A run of non-whitespace characters is no longer than the text it starts.
pub proof fn lemma_word_len(s: Seq<char>)
    ensures
        word_len(s) <= s.len(),
    decreases s.len(),
{
    if s.len() > 0 && !is_ws(s[0]) {
        lemma_word_len(s.drop_first());
    }
}

/// The words of `s`: its maximal runs of non-whitespace characters, in order.
pub open spec fn words_spec(s: Seq<char>) -> Seq<Seq<char>>
    decreases s.len(),
{
    if s.len() == 0 {
        Seq::empty()
    } else if is_ws(s[0]) {
        words_spec(s.drop_first())
    } else {
        proof {
            lemma_word_len(s);
        }
        let n = word_len(s);
        seq![s.take(n as int)] + words_spec(s.skip(n as int))
    }
}

/// The words of `s`, split at whitespace (`str::split_whitespace`).
#[verifier::external_body]
pub(crate) fn split_whitespace(s: &str) -> (r: Vec<String>)
    ensures
        r@.map_values(|t: String| t@) == words_spec(s@),
{
    s.split_whitespace().map(|t| t.to_string()).collect()
}

/// The lines of `s`, each with the `\n` that ends it (the last may have none), as
/// `str::split_inclusive('\n')` yields them.
pub open spec fn inclusive_lines(s: Seq<char>) -> Seq<Seq<char>>
    decreases s.len(),
{
    if s.len() == 0 {
        Seq::empty()
    } else if s.contains('\n') {
        proof {
            lemma_first_char_index(s, '\n');
        }
        let i = first_char_index(s, '\n');
        seq![s.take(i + 1)] + inclusive_lines(s.skip(i + 1))
    } else {
        seq![s]
    }
}

/// The lines of `s`, each with the `\n` that ends it (`str::split_inclusive`).
#[verifier::external_body]
pub(crate) fn split_inclusive_lines(s: &str) -> (r: Vec<String>)
    ensures
        r@.map_values(|t: String| t@) == inclusive_lines(s@),
{
    s.split_inclusive('\n').map(|t| t.to_string()).collect()
}

} // verus!
