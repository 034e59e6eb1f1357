//! Regular expression matching, through the `regex` and `fancy-regex` crates.
use vstd::prelude::*;

verus! {

/// The capture groups of the leftmost-first match of the regular expression `pattern`
/// in `text`, as the `regex` crate computes them: entry 0 is the whole match, entry `i`
/// the text of group `i` when it took part in the match. `None` when there is no match
/// (or `pattern` is not a valid expression).
pub uninterp spec fn regex_captures_spec(pattern: Seq<char>, text: Seq<char>) -> Option<
    Seq<Option<Seq<char>>>,
>;

/// Whether the `fancy-regex` expression `pattern` matches somewhere in `text`;
/// `None` when the engine reports an error (an invalid expression, or a backtracking
/// limit reached).
pub uninterp spec fn fancy_match_spec(pattern: Seq<char>, text: Seq<char>) -> Option<bool>;

/// The view of a list of optional captured texts.
pub open spec fn captures_view(caps: Seq<Option<String>>) -> Seq<Option<Seq<char>>> {
    caps.map_values(
        |c: Option<String>|
            match c {
                Some(s) => Some(s@),
                None => None,
            },
    )
}

/// The text of group `i` of a successful match, or the empty text when that group did
/// not take part in the match.
pub open spec fn group(caps: Seq<Option<Seq<char>>>, i: int) -> Seq<char> {
    if 0 <= i < caps.len() {
        match caps[i] {
            Some(s) => s,
            None => Seq::empty(),
        }
    } else {
        Seq::empty()
    }
}

/// Whether group `i` took part in a successful match.
pub open spec fn has_group(caps: Seq<Option<Seq<char>>>, i: int) -> bool {
    0 <= i < caps.len() && caps[i] is Some
}

/// Whether `pattern` matches somewhere in `text`.
pub open spec fn regex_matches(pattern: Seq<char>, text: Seq<char>) -> bool {
    regex_captures_spec(pattern, text) is Some
}

/// The captures of `pattern` in `text` (`regex::Regex::new` and `Regex::captures`);
/// each group is copied out as an owned string. The contract claims no more than that
/// the result is the named one.
#[verifier::external_body]
pub(crate) fn regex_captures(pattern: &str, text: &str) -> (r: Option<Vec<Option<String>>>)
    ensures
        r is Some <==> regex_captures_spec(pattern@, text@) is Some,
        r matches Some(caps) ==> regex_captures_spec(pattern@, text@) == Some(
            captures_view(caps@),
        ),
{
    let re = ::regex::Regex::new(pattern).ok()?;
    re.captures(text).map(|c| c.iter().map(|m| m.map(|m| m.as_str().to_string())).collect())
}

/// Whether `pattern` matches somewhere in `text` (`regex::Regex::new` and
/// `Regex::is_match`). The claim is that this is exactly when the captures exist.
#[verifier::external_body]
pub(crate) fn regex_is_match(pattern: &str, text: &str) -> (r: bool)
    ensures
        r == regex_matches(pattern@, text@),
{
    match ::regex::Regex::new(pattern) {
        Ok(re) => re.is_match(text),
        Err(_) => false,
    }
}

/// Whether the `fancy-regex` expression `pattern` matches in `text`
/// (`fancy_regex::Regex::new` and `Regex::is_match`).
#[verifier::external_body]
pub(crate) fn fancy_is_match(pattern: &str, text: &str) -> (r: Option<bool>)
    ensures
        r == fancy_match_spec(pattern@, text@),
{
    match ::fancy_regex::Regex::new(pattern) {
        Ok(re) => re.is_match(text).ok(),
        Err(_) => None,
    }
}

/// The text of group `i` of a successful match, or the empty text when that group did
/// not take part in the match.
pub fn get_group(caps: &Vec<Option<String>>, i: usize) -> (r: String)
    ensures
        r@ == group(captures_view(caps@), i as int),
{
    if i < caps.len() {
        match &caps[i] {
            Some(s) => s.clone(),
            None => String::new(),
        }
    } else {
        String::new()
    }
}

/// Whether group `i` took part in a successful match.
pub fn group_present(caps: &Vec<Option<String>>, i: usize) -> (r: bool)
    ensures
        r == has_group(captures_view(caps@), i as int),
{
    i < caps.len() && caps[i].is_some()
}


/// A compiled expression of the `regex` crate (`regex::Regex`).
#[verifier::external_type_specification]
#[verifier::external_body]
pub struct ExRegex(::regex::Regex);

/// A compiled expression of the `fancy-regex` crate (`fancy_regex::Regex`).
#[verifier::external_type_specification]
#[verifier::external_body]
pub struct ExFancyRegex(::fancy_regex::Regex);

/// An expression of the `regex` crate compiled once, with the text it was compiled
/// from; `None` inside when the text is no valid expression.
#[derive(Debug)]
pub struct CompiledRegex {
    pattern: &'static str,
    re: Option<::regex::Regex>,
}

impl CompiledRegex {
    /// The text that the expression was compiled from.
    pub closed spec fn pattern(&self) -> Seq<char> {
        self.pattern@
    }
}

/// Compiles `pattern` once (`regex::Regex::new`), for [`compiled_captures`].
#[verifier::external_body]
pub(crate) fn compile_regex(pattern: &'static str) -> (r: CompiledRegex)
    ensures
        r.pattern() == pattern@,
{
    CompiledRegex { pattern, re: ::regex::Regex::new(pattern).ok() }
}

/// The captures of a compiled expression in `text` (`Regex::captures`): the same as
/// [`regex_captures`] gives for the text the expression was compiled from.
#[verifier::external_body]
pub(crate) fn compiled_captures(c: &CompiledRegex, text: &str) -> (r: Option<Vec<Option<String>>>)
    ensures
        r is Some <==> regex_captures_spec(c.pattern(), text@) is Some,
        r matches Some(caps) ==> regex_captures_spec(c.pattern(), text@) == Some(
            captures_view(caps@),
        ),
{
    let re = c.re.as_ref()?;
    re.captures(text).map(|c| c.iter().map(|m| m.map(|m| m.as_str().to_string())).collect())
}

/// An expression of the `fancy-regex` crate compiled once, with the text it was
/// compiled from; `None` inside when the text is no valid expression.
#[derive(Debug)]
pub struct CompiledFancy {
    pattern: &'static str,
    re: Option<::fancy_regex::Regex>,
}

impl CompiledFancy {
    /// The text that the expression was compiled from.
    pub closed spec fn pattern(&self) -> Seq<char> {
        self.pattern@
    }
}

/// Compiles `pattern` once (`fancy_regex::Regex::new`), for [`compiled_fancy_match`].
#[verifier::external_body]
pub(crate) fn compile_fancy(pattern: &'static str) -> (r: CompiledFancy)
    ensures
        r.pattern() == pattern@,
{
    CompiledFancy { pattern, re: ::fancy_regex::Regex::new(pattern).ok() }
}

/// Whether a compiled `fancy-regex` expression matches in `text` (`Regex::is_match`):
/// the same as [`fancy_is_match`] gives for the text it was compiled from.
#[verifier::external_body]
pub(crate) fn compiled_fancy_match(c: &CompiledFancy, text: &str) -> (r: Option<bool>)
    ensures
        r == fancy_match_spec(c.pattern(), text@),
{
    let re = c.re.as_ref()?;
    re.is_match(text).ok()
}

} // verus!
