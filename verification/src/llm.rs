//! The parts of a log analysis by a language model that need no model: the numbered
//! excerpt of the log that the prompt holds, and the reading of the model's answer.
use vstd::prelude::*;
use vstd::utf8::encode_utf8;
use crate::logmatch::{lines_view, origin_text, SingleLineMatch};
use crate::text::{
    concat, all_digits, digits_value, format_numbered_line, is_digit, numbered_line, str_eq, strip_prefix,
    strip_suffix, trim, trim_spec, unsigned_value,
};

verus! {

/// The largest number of bytes that the excerpt of a log in a prompt may take.
pub const MAX_PROMPT_CHARS: usize = 4096;

/// The instructions to the model that come before the list of known problem kinds.
pub const SYSTEM_PROMPT_PREFIX: &'static str = "\
You are a build log analyst. You will be given a numbered excerpt from a build log. \
Identify the single line that is the root cause or clearest explanation of the build failure.

Respond with a JSON object (and nothing else) with the following fields:
- \"line\": the line number (integer)
- \"kind\": the problem kind (string), one of the known kinds listed below, or a new descriptive kebab-case kind if none fit
- \"details\": an object with the detail fields for that kind

Known problem kinds:\n";

/// A JSON value (`serde_json::Value`), carried through without being looked into.
#[verifier::external_type_specification]
#[verifier::external_body]
pub struct ExJsonValue(::serde_json::Value);

/// The numbered lines of a prompt: line `i` of `ls` is numbered `offset + i + 1`.
pub open spec fn prompt_spec(ls: Seq<Seq<char>>, offset: int) -> Seq<char>
    decreases ls.len(),
{
    if ls.len() == 0 {
        Seq::empty()
    } else {
        numbered_line((offset + 1) as nat, ls[0]) + prompt_spec(ls.drop_first(), offset + 1)
    }
}

/// Adding a line at the end of an excerpt adds its numbered line at the end of the
/// prompt.
pub proof fn lemma_prompt_push(ls: Seq<Seq<char>>, offset: int, line: Seq<char>)
    ensures
        prompt_spec(ls.push(line), offset) == prompt_spec(ls, offset) + numbered_line(
            (offset + ls.len() + 1) as nat,
            line,
        ),
    decreases ls.len(),
{
    if ls.len() == 0 {
        assert(ls.push(line).drop_first() =~= Seq::<Seq<char>>::empty());
        assert(ls.push(line)[0] == line);
        assert(prompt_spec(ls.push(line).drop_first(), offset + 1) =~= Seq::<char>::empty());
        assert(prompt_spec(ls, offset) =~= Seq::<char>::empty());
        assert(prompt_spec(ls.push(line), offset) =~= numbered_line((offset + 1) as nat, line));
    } else {
        lemma_prompt_push(ls.drop_first(), offset + 1, line);
        assert(ls.push(line).drop_first() =~= ls.drop_first().push(line));
        assert(prompt_spec(ls.push(line), offset) =~= prompt_spec(ls, offset) + numbered_line(
            (offset + ls.len() + 1) as nat,
            line,
        ));
    }
}

/// Formats log lines into a numbered prompt; the lines are numbered from their
/// position in the whole log, which starts `offset` lines before them.
pub fn format_prompt(lines: &[&str], offset: usize) -> (r: String)
    requires
        offset + lines@.len() <= usize::MAX,
    ensures
        r@ == prompt_spec(lines_view(lines@), offset as int),
{
    let ghost ls = lines_view(lines@);
    let mut prompt = String::new();
    let mut i: usize = 0;
    assert(ls.take(0) =~= Seq::<Seq<char>>::empty());
    while i < lines.len()
        invariant
            ls == lines_view(lines@),
            offset + lines@.len() <= usize::MAX,
            i <= lines@.len(),
            prompt@ == prompt_spec(ls.take(i as int), offset as int),
        decreases lines.len() - i,
    {
        let numbered = format_numbered_line(offset + i + 1, lines[i]);
        proof {
            lemma_prompt_push(ls.take(i as int), offset as int, ls[i as int]);
            assert(ls.take(i + 1) =~= ls.take(i as int).push(ls[i as int]));
        }
        prompt.append(numbered.as_str());
        i = i + 1;
    }
    assert(ls.take(i as int) =~= ls);
    prompt
}

/// The number of bytes that line `j` takes once numbered, as `str::len` gives it.
pub open spec fn line_cost(ls: Seq<Seq<char>>, j: int) -> int {
    (encode_utf8(numbered_line((j + 1) as nat, ls[j])).len() as usize) as int
}

/// The bytes that the last `c` lines take once numbered.
pub open spec fn tail_cost(ls: Seq<Seq<char>>, c: int) -> int
    decreases c,
{
    if c <= 0 || c > ls.len() {
        0
    } else {
        tail_cost(ls, c - 1) + line_cost(ls, ls.len() - c)
    }
}

/// How many of the last lines are kept, counting on from `c`: lines are added from the
/// end for as long as they fit in [`MAX_PROMPT_CHARS`] bytes.
pub open spec fn kept_count(ls: Seq<Seq<char>>, c: int) -> int
    decreases ls.len() - c,
{
    if c < 0 || c >= ls.len() || tail_cost(ls, c + 1) > MAX_PROMPT_CHARS {
        c
    } else {
        kept_count(ls, c + 1)
    }
}

/// The index of the first line that [`truncate_lines`] keeps.
pub open spec fn truncation_offset(ls: Seq<Seq<char>>) -> int {
    ls.len() - kept_count(ls, 0)
}

/// The counting from `c` on keeps at least `c` lines and at most all, and what it keeps
/// fits.
pub proof fn lemma_kept_count(ls: Seq<Seq<char>>, c: int)
    requires
        0 <= c <= ls.len(),
        tail_cost(ls, c) <= MAX_PROMPT_CHARS,
    ensures
        c <= kept_count(ls, c) <= ls.len(),
        tail_cost(ls, kept_count(ls, c)) <= MAX_PROMPT_CHARS,
        kept_count(ls, c) == ls.len() || tail_cost(ls, kept_count(ls, c) + 1) > MAX_PROMPT_CHARS,
    decreases ls.len() - c,
{
    if c < ls.len() && tail_cost(ls, c + 1) <= MAX_PROMPT_CHARS {
        lemma_kept_count(ls, c + 1);
    }
}

/// Selects the tail of the lines that fits in [`MAX_PROMPT_CHARS`] bytes once numbered:
/// returns the index of its first line and the lines.
pub fn truncate_lines<'a>(lines: &[&'a str]) -> (r: (usize, Vec<&'a str>))
    ensures
        r.0 == truncation_offset(lines_view(lines@)),
        r.0 <= lines@.len(),
        r.1@ == lines@.skip(r.0 as int),
{
    let ghost ls = lines_view(lines@);
    let n = lines.len();
    let mut total: usize = 0;
    let mut count: usize = 0;
    while count < n
        invariant
            ls == lines_view(lines@),
            n == lines@.len(),
            count <= n,
            total == tail_cost(ls, count as int),
            total <= MAX_PROMPT_CHARS,
            kept_count(ls, 0) == kept_count(ls, count as int),
        ensures
            count == kept_count(ls, 0),
            count <= n,
        decreases n - count,
    {
        let line = lines[n - 1 - count];
        assert(ls[n - 1 - count] == line@);
        let numbered = format_numbered_line(n - count, line);
        let numbered_len = numbered.as_str().len();
        assert(numbered_len == line_cost(ls, n - 1 - count));
        if numbered_len > MAX_PROMPT_CHARS - total {
            assert(tail_cost(ls, count + 1) > MAX_PROMPT_CHARS);
            break;
        }
        total = total + numbered_len;
        count = count + 1;
    }
    let offset = n - count;
    let mut selected: Vec<&'a str> = Vec::new();
    let mut j: usize = offset;
    while j < n
        invariant
            n == lines@.len(),
            offset <= j <= n,
            selected@ == lines@.subrange(offset as int, j as int),
        decreases n - j,
    {
        selected.push(lines[j]);
        assert(selected@ =~= lines@.subrange(offset as int, j + 1));
        j = j + 1;
    }
    assert(selected@ =~= lines@.skip(offset as int));
    (offset, selected)
}

/// The encoding of two texts one after the other is the encoding of the first, then
/// that of the second.
pub proof fn lemma_encode_concat(a: Seq<char>, b: Seq<char>)
    ensures
        encode_utf8(a + b) == encode_utf8(a) + encode_utf8(b),
    decreases a.len(),
{
    if a.len() == 0 {
        assert(a + b =~= b);
        assert(encode_utf8(a) =~= Seq::<u8>::empty());
        assert(encode_utf8(a) + encode_utf8(b) =~= encode_utf8(b));
    } else {
        lemma_encode_concat(a.drop_first(), b);
        assert((a + b).drop_first() =~= a.drop_first() + b);
        assert((a + b)[0] == a[0]);
        assert(encode_utf8(a + b) =~= encode_utf8(a) + encode_utf8(b));
    }
}

/// The prompt of the last `c` lines takes as many bytes as [`tail_cost`] counts.
proof fn lemma_prompt_cost(ls: Seq<Seq<char>>, c: int)
    requires
        0 <= c <= ls.len(),
        forall|j: int|
            0 <= j < ls.len() ==> #[trigger] encode_utf8(numbered_line((j + 1) as nat, ls[j])).len()
                <= usize::MAX,
    ensures
        encode_utf8(prompt_spec(ls.skip(ls.len() - c), ls.len() - c)).len() == tail_cost(ls, c),
    decreases c,
{
    let s = ls.skip(ls.len() - c);
    if c == 0 {
        assert(s =~= Seq::<Seq<char>>::empty());
    } else {
        let j = ls.len() - c;
        lemma_prompt_cost(ls, c - 1);
        assert(s.drop_first() =~= ls.skip(ls.len() - (c - 1)));
        assert(s[0] == ls[j]);
        lemma_encode_concat(numbered_line((j + 1) as nat, ls[j]), prompt_spec(s.drop_first(), j + 1));
        assert(encode_utf8(numbered_line((j + 1) as nat, ls[j])).len() <= usize::MAX);
    }
}

/// Law: the prompt made of the lines that [`truncate_lines`] keeps, numbered from
/// their position in the log, takes at most [`MAX_PROMPT_CHARS`] bytes; and unless all
/// lines are kept, keeping one more would exceed that.
pub proof fn lemma_truncated_prompt_fits(ls: Seq<Seq<char>>)
    requires
        forall|j: int|
            0 <= j < ls.len() ==> #[trigger] encode_utf8(numbered_line((j + 1) as nat, ls[j])).len()
                <= usize::MAX,
    ensures
        0 <= truncation_offset(ls) <= ls.len(),
        encode_utf8(prompt_spec(ls.skip(truncation_offset(ls)), truncation_offset(ls))).len()
            <= MAX_PROMPT_CHARS,
        truncation_offset(ls) == 0 || encode_utf8(
            prompt_spec(ls.skip(truncation_offset(ls) - 1), truncation_offset(ls) - 1),
        ).len() > MAX_PROMPT_CHARS,
{
    lemma_kept_count(ls, 0);
    let c = kept_count(ls, 0);
    lemma_prompt_cost(ls, c);
    if c < ls.len() {
        lemma_prompt_cost(ls, c + 1);
    }
}

/// A problem as a language model names it: its kind, and the details it gives.
#[derive(Debug)]
pub struct LlmProblem {
    /// The problem kind identifier (e.g. "missing-file", "command-missing").
    pub kind: String,
    /// Structured details about the problem.
    pub details: ::serde_json::Value,
}

impl LlmProblem {
    /// The kind of the problem.
    pub fn kind(&self) -> (r: &str)
        ensures
            r@ == self.kind@,
    {
        self.kind.as_str()
    }

    /// The details of the problem.
    pub fn json(&self) -> (r: ::serde_json::Value)
        ensures
            r == self.details,
    {
        clone_value(&self.details)
    }

    /// The text the problem is displayed as: its kind, `: `, and then the compact JSON
    /// text of its details.
    pub fn to_string(&self) -> (r: String)
        ensures
            r@ == self.kind@ + ": "@ + json_display_spec(self.details),
    {
        let head = concat(self.kind.as_str(), ": ");
        let text = json_text(&self.details);
        let r = concat(head.as_str(), text.as_str());
        assert(r@ == self.kind@ + ": "@ + text@);
        r
    }
}

/// The compact JSON text of a value, as the `Display` of `serde_json::Value` writes it.
pub uninterp spec fn json_display_spec(v: ::serde_json::Value) -> Seq<char>;

/// The compact JSON text of a value (the `Display` of `serde_json::Value`). The
/// contract claims no more than that the text is the named one.
#[verifier::external_body]
fn json_text(v: &::serde_json::Value) -> (r: String)
    ensures
        r@ == json_display_spec(*v),
{
    v.to_string()
}

/// A copy of a JSON value (`serde_json::Value::clone`), equal to it.
#[verifier::external_body]
fn clone_value(v: &::serde_json::Value) -> (r: ::serde_json::Value)
    ensures
        r == *v,
{
    v.clone()
}

/// The empty JSON object (`serde_json::Value::Object` of an empty
/// `serde_json::Map`); its compact text, as `Display` writes it, is `{}`.
#[verifier::external_body]
fn empty_object() -> (r: ::serde_json::Value)
    ensures
        json_display_spec(r) == "{}"@,
{
    ::serde_json::Value::Object(::serde_json::Map::new())
}

/// What the log analysis by a language model found: the line, and the problem when the
/// model named one.
#[derive(Debug)]
pub struct AnalysisResult {
    /// The matched line in the log.
    pub matched: SingleLineMatch,
    /// The identified problem, if any.
    pub problem: Option<LlmProblem>,
}

/// What `serde_json` reads from `text`: `None` when it is no JSON; else the `line`
/// member when it is an unsigned integer, and the `kind` member when it is a string.
pub uninterp spec fn json_reply_spec(text: Seq<char>) -> Option<(Option<u64>, Option<Seq<char>>)>;

/// The `details` member of the JSON value that `serde_json` reads from `text`: `None`
/// when `text` is no JSON or the value has no such member.
pub uninterp spec fn json_details_spec(text: Seq<char>) -> Option<::serde_json::Value>;

/// Reads a model's reply as JSON (`serde_json::from_str::<serde_json::Value>`) and
/// picks the `line` (`Value::get` and `Value::as_u64`), `kind` (`Value::as_str`) and
/// `details` members out of it.
#[verifier::external_body]
fn read_json_reply(text: &str) -> (r: Option<(Option<u64>, Option<String>, Option<::serde_json::Value>)>)
    ensures
        match r {
            Some((line, kind, d)) => json_reply_spec(text@) == Some((line, crate::problem::opt_view(kind)))
                && d == json_details_spec(text@),
            None => json_reply_spec(text@) is None && json_details_spec(text@) is None,
        },
{
    let json: ::serde_json::Value = ::serde_json::from_str(text).ok()?;
    let line = json.get("line").and_then(|v| v.as_u64());
    let kind = json.get("kind").and_then(|v| v.as_str()).map(|k| k.to_string());
    let details = json.get("details").cloned();
    Some((line, kind, details))
}

/// Parses a decimal `usize` (`str::parse::<usize>`).
#[verifier::external_body]
fn parse_usize(s: &str) -> (r: Option<usize>)
    ensures
        r == (match unsigned_value(s@) {
            Some(v) => if v <= usize::MAX {
                Some(v as usize)
            } else {
                None
            },
            None => None,
        }),
{
    s.parse::<usize>().ok()
}

/// The text inside a code fence (opened by three backquotes, with or without `json`,
/// and closed by three backquotes), trimmed.
pub open spec fn fence_body(t: Seq<char>) -> Option<Seq<char>> {
    let inner = if "```json"@.is_prefix_of(t) {
        Some(t.skip(7))
    } else if "```"@.is_prefix_of(t) {
        Some(t.skip(3))
    } else {
        None
    };
    match inner {
        Some(s) => if "```"@.is_suffix_of(s) {
            Some(trim_spec(s.take(s.len() - 3)))
        } else {
            None
        },
        None => None,
    }
}

/// The reply without surrounding whitespace and without a code fence around it.
pub open spec fn reply_text(response: Seq<char>) -> Seq<char> {
    let t = trim_spec(response);
    match fence_body(t) {
        Some(b) => b,
        None => t,
    }
}

/// The index at which the first run of ASCII digits from index `i` on starts.
pub open spec fn digit_run_start(s: Seq<char>, i: int) -> int
    decreases s.len() - i,
{
    if i < 0 || i >= s.len() || is_digit(s[i]) {
        i
    } else {
        digit_run_start(s, i + 1)
    }
}

/// The index at which the run of ASCII digits that goes on at index `i` ends.
pub open spec fn digit_run_end(s: Seq<char>, i: int) -> int
    decreases s.len() - i,
{
    if i < 0 || i >= s.len() || !is_digit(s[i]) {
        i
    } else {
        digit_run_end(s, i + 1)
    }
}

/// The first run of ASCII digits in `s`, if there is one.
pub open spec fn first_digit_run(s: Seq<char>) -> Option<Seq<char>> {
    let a = digit_run_start(s, 0);
    if a >= s.len() {
        None
    } else {
        Some(s.subrange(a, digit_run_end(s, a)))
    }
}

/// The 1-based line number that the reply gives, if it gives one: the `line` member of
/// a JSON reply, else the first run of digits in it (when it fits in a `usize`); with
/// the kind that a JSON reply names.
pub open spec fn reply_line(response: Seq<char>) -> Option<(int, Option<Seq<char>>)> {
    let t = reply_text(response);
    match json_reply_spec(t) {
        Some((Some(n), kind)) => Some((n as int, kind)),
        _ => match first_digit_run(t) {
            Some(run) => if digits_value(run) <= usize::MAX {
                Some((digits_value(run), None))
            } else {
                None
            },
            None => None,
        },
    }
}

/// The line that a reply points at among `len` lines: its 0-based index, and the kind
/// it names; `None` when it names no line in range.
pub open spec fn response_spec(response: Seq<char>, len: int) -> Option<(int, Option<Seq<char>>)> {
    match reply_line(response) {
        Some((n, kind)) => if n == 0 || n > len {
            None
        } else {
            Some((n - 1, kind))
        },
        None => None,
    }
}

/// The text inside a code fence, if the text is fenced.
fn strip_fence(t: &str) -> (r: Option<&str>)
    ensures
        match r {
            Some(b) => fence_body(t@) == Some(b@),
            None => fence_body(t@) is None,
        },
{
    proof {
        reveal_strlit("```json");
        reveal_strlit("```");
    }
    let inner = match strip_prefix(t, "```json") {
        Some(s) => Some(s),
        None => strip_prefix(t, "```"),
    };
    match inner {
        Some(s) => match strip_suffix(s, "```") {
            Some(body) => Some(trim(body)),
            None => None,
        },
        None => None,
    }
}

/// The first run of ASCII digits in `s`.
fn find_digit_run(s: &str) -> (r: Option<&str>)
    ensures
        match r {
            Some(run) => first_digit_run(s@) == Some(run@) && all_digits(run@),
            None => first_digit_run(s@) is None,
        },
{
    let n = s.unicode_len();
    let mut a: usize = 0;
    while a < n && !is_ascii_digit(s.get_char(a))
        invariant
            n == s@.len(),
            a <= n,
            digit_run_start(s@, 0) == digit_run_start(s@, a as int),
        decreases n - a,
    {
        a = a + 1;
    }
    if a >= n {
        return None;
    }
    let mut b: usize = a;
    while b < n && is_ascii_digit(s.get_char(b))
        invariant
            n == s@.len(),
            a <= b <= n,
            digit_run_end(s@, a as int) == digit_run_end(s@, b as int),
            forall|k: int| a <= k < b ==> is_digit(#[trigger] s@[k]),
        decreases n - b,
    {
        b = b + 1;
    }
    let run = s.substring_char(a, b);
    assert(is_digit(s@[a as int]));
    assert(run@.len() > 0);
    assert forall|k: int| 0 <= k < run@.len() implies #[trigger] is_digit(run@[k]) by {
        assert(run@[k] == s@[a + k]);
    }
    Some(run)
}

/// The value of a run of digits is not negative.
proof fn lemma_digits_nonneg(s: Seq<char>)
    requires
        forall|i: int| 0 <= i < s.len() ==> #[trigger] is_digit(s[i]),
    ensures
        digits_value(s) >= 0,
    decreases s.len(),
{
    if s.len() > 0 {
        assert(is_digit(s[s.len() - 1]));
        assert forall|i: int| 0 <= i < s.drop_last().len() implies #[trigger] is_digit(s.drop_last()[i]) by {
            assert(s.drop_last()[i] == s[i]);
        }
        lemma_digits_nonneg(s.drop_last());
    }
}

/// Whether `c` is an ASCII decimal digit.
fn is_ascii_digit(c: char) -> (r: bool)
    ensures
        r == is_digit(c),
{
    '0' <= c && c <= '9'
}

/// Reads a model's reply about `lines`: the line it points at, labelled `origin`, and
/// the problem when it names a kind. A JSON reply (possibly in a code fence) gives the
/// line in its `line` member and the kind in its `kind` member; any other reply gives
/// the first number in it. `None` when no line in range is named.
pub fn parse_response(response: &str, lines: &Vec<&str>, origin: &str) -> (r: Option<AnalysisResult>)
    ensures
        match response_spec(response@, lines@.len() as int) {
            Some((off, kind)) => r matches Some(a) && a.matched.offset == off && a.matched.line@
                == lines@[off]@ && a.matched.origin.0@ == origin@ && match (a.problem, kind) {
                (Some(p), Some(k)) => p.kind@ == k && match json_details_spec(reply_text(response@)) {
                    Some(d) => p.details == d,
                    None => json_display_spec(p.details) == "{}"@,
                },
                (None, None) => true,
                _ => false,
            },
            None => r is None,
        },
{
    let trimmed = trim(response);
    let text = match strip_fence(trimmed) {
        Some(b) => b,
        None => trimmed,
    };
    assert(text@ == reply_text(response@));
    let n = lines.len();
    let reply = read_json_reply(text);
    match reply {
        Some((Some(lineno), kind, details)) => {
            if lineno == 0 || lineno > n as u64 {
                return None;
            }
            let offset = (lineno - 1) as usize;
            let m = SingleLineMatch::from_lines(lines.as_slice(), offset, Some(origin));
            let problem = match kind {
                Some(k) => {
                    let details = match details {
                        Some(d) => d,
                        None => empty_object(),
                    };
                    Some(LlmProblem { kind: k, details })
                },
                None => None,
            };
            return Some(AnalysisResult { matched: m, problem });
        },
        _ => {},
    }
    assert(!(json_reply_spec(text@) matches Some((Some(_), _))));
    let run = match find_digit_run(text) {
        Some(run) => run,
        None => {
            return None;
        },
    };
    assert(is_digit(run@[0]));
    assert(unsigned_value(run@) == Some(digits_value(run@)));
    proof {
        lemma_digits_nonneg(run@);
    }
    let lineno = match parse_usize(run) {
        Some(v) => v,
        None => {
            return None;
        },
    };
    if lineno == 0 || lineno > n {
        return None;
    }
    let offset = lineno - 1;
    Some(
        AnalysisResult {
            matched: SingleLineMatch::from_lines(lines.as_slice(), offset, Some(origin)),
            problem: None,
        },
    )
}

/// Which model of the given ones to use: the first whose name holds `haiku`, else
/// `sonnet`, else `opus`, the cheapest first; else the first model.
pub open spec fn model_choice(models: Seq<Seq<char>>) -> Option<Seq<char>> {
    if exists|i: int| 0 <= i < models.len() && crate::text::contains_spec(models[i], "haiku"@) {
        Some(models[first_with(models, "haiku"@, 0)])
    } else if exists|i: int| 0 <= i < models.len() && crate::text::contains_spec(models[i], "sonnet"@) {
        Some(models[first_with(models, "sonnet"@, 0)])
    } else if exists|i: int| 0 <= i < models.len() && crate::text::contains_spec(models[i], "opus"@) {
        Some(models[first_with(models, "opus"@, 0)])
    } else if models.len() > 0 {
        Some(models[0])
    } else {
        None
    }
}

/// The index of the first model from `k` on whose name holds `tier`.
pub open spec fn first_with(models: Seq<Seq<char>>, tier: Seq<char>, k: int) -> int
    decreases models.len() - k,
{
    if k < 0 || k >= models.len() || crate::text::contains_spec(models[k], tier) {
        k
    } else {
        first_with(models, tier, k + 1)
    }
}

/// The first model whose name holds `tier`.
fn find_tier(models: &Vec<String>, tier: &str) -> (r: Option<usize>)
    ensures
        match r {
            Some(k) => k < models@.len() && k == first_with(models@.map_values(|m: String| m@), tier@, 0)
                && crate::text::contains_spec(models@[k as int]@, tier@),
            None => !exists|i: int|
                0 <= i < models@.len() && crate::text::contains_spec(models@[i]@, tier@),
        },
{
    let ghost mv = models@.map_values(|m: String| m@);
    let mut k: usize = 0;
    while k < models.len()
        invariant
            mv == models@.map_values(|m: String| m@),
            k <= models@.len(),
            first_with(mv, tier@, 0) == first_with(mv, tier@, k as int),
            forall|i: int| 0 <= i < k ==> !crate::text::contains_spec(#[trigger] models@[i]@, tier@),
        decreases models.len() - k,
    {
        assert(mv[k as int] == models@[k as int]@);
        if crate::text::contains(models[k].as_str(), tier) {
            return Some(k);
        }
        k = k + 1;
    }
    None
}

/// Picks the model to use among the available ones: the cheapest of haiku, sonnet and
/// opus, else the first; `None` when there is none.
pub fn pick_model(models: &Vec<String>) -> (r: Option<String>)
    ensures
        crate::problem::opt_view(r) == model_choice(models@.map_values(|m: String| m@)),
{
    let ghost mv = models@.map_values(|m: String| m@);
    proof {
        reveal_strlit("haiku");
        reveal_strlit("sonnet");
        reveal_strlit("opus");
    }
    if let Some(k) = find_tier(models, "haiku") {
        assert(mv[k as int] == models@[k as int]@);
        let r = models[k].clone();
        assert(r@ == models@[k as int]@);
        return Some(r);
    }
    assert(!exists|i: int| 0 <= i < mv.len() && crate::text::contains_spec(mv[i], "haiku"@)) by {
        assert forall|i: int| 0 <= i < mv.len() implies !crate::text::contains_spec(mv[i], "haiku"@) by {
            assert(mv[i] == models@[i]@);
        }
    }
    if let Some(k) = find_tier(models, "sonnet") {
        assert(mv[k as int] == models@[k as int]@);
        let r = models[k].clone();
        assert(r@ == models@[k as int]@);
        return Some(r);
    }
    assert(!exists|i: int| 0 <= i < mv.len() && crate::text::contains_spec(mv[i], "sonnet"@)) by {
        assert forall|i: int| 0 <= i < mv.len() implies !crate::text::contains_spec(mv[i], "sonnet"@) by {
            assert(mv[i] == models@[i]@);
        }
    }
    if let Some(k) = find_tier(models, "opus") {
        assert(mv[k as int] == models@[k as int]@);
        let r = models[k].clone();
        assert(r@ == models@[k as int]@);
        return Some(r);
    }
    assert(!exists|i: int| 0 <= i < mv.len() && crate::text::contains_spec(mv[i], "opus"@)) by {
        assert forall|i: int| 0 <= i < mv.len() implies !crate::text::contains_spec(mv[i], "opus"@) by {
            assert(mv[i] == models@[i]@);
        }
    }
    if models.len() > 0 {
        let r = models[0].clone();
        assert(r@ == mv[0]);
        return Some(r);
    }
    None
}


/// The detail fields of a kind, as the prompt lists them: `"field": ...`.
pub open spec fn quoted_fields(fs: Seq<&'static str>) -> Seq<Seq<char>> {
    fs.map_values(|f: &'static str| "\""@ + f@ + "\": ..."@)
}

/// The line of the prompt for one kind of problem and its detail fields.
pub open spec fn kind_line(kind: Seq<char>, fs: Seq<&'static str>) -> Seq<char> {
    if fs.len() == 0 {
        "- "@ + kind + ": {}\n"@
    } else {
        "- "@ + kind + ": {"@ + crate::text::join_spec(quoted_fields(fs), ", "@) + "}\n"@
    }
}

/// The lines of the prompt for the first `n` kinds.
pub open spec fn kinds_text(ks: Seq<(&'static str, Seq<&'static str>)>, n: int) -> Seq<char>
    decreases n,
{
    if n <= 0 || n > ks.len() {
        Seq::empty()
    } else {
        kinds_text(ks, n - 1) + kind_line(ks[n - 1].0@, ks[n - 1].1)
    }
}

/// The line of the prompt for one kind of problem.
fn format_kind_line(kind: &str, fields: &Vec<&'static str>) -> (r: String)
    ensures
        r@ == kind_line(kind@, fields@),
{
    let head = concat("- ", kind);
    if fields.len() == 0 {
        return concat(head.as_str(), ": {}\n");
    }
    let mut quoted: Vec<String> = Vec::new();
    let mut i: usize = 0;
    while i < fields.len()
        invariant
            i <= fields@.len(),
            quoted@.map_values(|s: String| s@) == quoted_fields(fields@).take(i as int),
        decreases fields.len() - i,
    {
        let a = concat("\"", fields[i]);
        let q = concat(a.as_str(), "\": ...");
        let ghost before = quoted@.map_values(|s: String| s@);
        quoted.push(q);
        assert(quoted@.map_values(|s: String| s@) =~= before.push(q@));
        assert(quoted_fields(fields@)[i as int] == q@);
        assert(quoted_fields(fields@).take(i + 1) =~= quoted_fields(fields@).take(i as int).push(q@));
        assert(quoted@.map_values(|s: String| s@) =~= quoted_fields(fields@).take(i + 1));
        i = i + 1;
    }
    assert(quoted_fields(fields@).take(i as int) =~= quoted_fields(fields@));
    let joined = crate::text::join(&quoted, ", ");
    let a = concat(head.as_str(), ": {");
    let b = concat(a.as_str(), joined.as_str());
    concat(b.as_str(), "}\n")
}

/// The instructions to the model: what to answer, and the kinds of problem this
/// library knows, sorted, with their detail fields.
pub fn system_prompt() -> (r: String)
    ensures
        r@ == SYSTEM_PROMPT_PREFIX@ + kinds_text(crate::kinds::known_kinds(), crate::kinds::known_kinds().len() as int),
{
    let kinds = crate::kinds::known_kinds_table();
    let ghost ks = crate::kinds::known_kinds();
    let mut prompt = SYSTEM_PROMPT_PREFIX.to_string();
    let mut i: usize = 0;
    while i < kinds.len()
        invariant
            kinds@.len() == ks.len(),
            forall|j: int| 0 <= j < kinds@.len() ==> (#[trigger] kinds@[j]).0 == ks[j].0 && kinds@[j].1@ == ks[j].1,
            i <= kinds@.len(),
            prompt@ == SYSTEM_PROMPT_PREFIX@ + kinds_text(ks, i as int),
        decreases kinds.len() - i,
    {
        let (kind, fields) = &kinds[i];
        assert(kinds@[i as int].0 == ks[i as int].0);
        let line = format_kind_line(kind, fields);
        prompt.append(line.as_str());
        assert(prompt@ =~= SYSTEM_PROMPT_PREFIX@ + kinds_text(ks, i + 1));
        i = i + 1;
    }
    prompt
}

} // verus!
