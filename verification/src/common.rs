//! The rules for build logs in general: the matchers that recognise known failures,
//! the hints of failures, and the search for the line that explains a failed build.
use vstd::prelude::*;
use crate::logmatch::{lines_view, match_is, LogMatch, MatchSpec, MultiLineMatch, Origin, SingleLineMatch};
use crate::matcher::{
    apply_callback, callback_spec, first_matching_rule, first_rule,
    configure_line_matchers, configure_line_table, extract_with_regexes, found_is,
    maybe_executable_spec, regex_group_spec, file_not_found_maybe_executable, Callback,
    RegexLineMatcher, Error,
};
use crate::pattern::{
    compile_fancy, compile_regex, compiled_fancy_match, CompiledFancy, CompiledRegex, captures_view, fancy_is_match, fancy_match_spec, get_group, group, regex_captures, regex_captures_spec, regex_is_match,
    regex_matches,
};
use crate::problem::{opt_problem_view, Problem, ProblemView};
use crate::text::{
    concat, contains, contains_spec, split_char_once, first_char_index, starts_with, str_eq, trim,
    trim_end_char_spec, trim_end_eol, trim_end_eol_spec, trim_end_matches, trim_spec,
};

verus! {

/// The text left after removing the common leading whitespace of all its lines, as
/// `textwrap::dedent` computes it.
pub uninterp spec fn dedent_spec(text: Seq<char>) -> Seq<char>;

/// Removes the common leading whitespace of all lines of `text` (`textwrap::dedent`).
#[verifier::external_body]
fn dedent(text: &str) -> (r: String)
    ensures
        r@ == dedent_spec(text@),
{
    ::textwrap::dedent(text)
}

/// A rule that recognises a failure at a line of a log.
#[derive(Debug, Clone)]
pub enum Matcher {
    /// A regular expression applied to the line.
    Regex(RegexLineMatcher),
    /// `configure: error:` followed by the lines that explain it.
    ConfigureError,
    /// Missing Haskell dependencies, listed below the line.
    HaskellMissingDependency,
    /// An unknown setup.py command, with the setup.py usage above it.
    SetupPyCommandMissing,
    /// A Python `FileNotFoundError`.
    PythonFileNotFoundError,
    /// Perl modules that are not available.
    PerlMissingModules,
    /// An R vignette that failed, with the diagnostic on the next line.
    VignetteError,
    /// A configure script that meets a macro autoconf did not expand.
    AutoconfUnexpectedMacro,
    /// A CMake error, with its indented explanation.
    CMakeError,
}

/// The lines that follow `configure: error:` from index `j` on: the first that one of
/// the configure line matchers recognises decides; else all non-blank lines are the
/// match, without a problem.
pub open spec fn configure_scan(ls: Seq<Seq<char>>, j: int, rel: Seq<int>) -> Option<
    (MatchSpec, Option<ProblemView>),
>
    decreases ls.len() - j,
{
    if j < 0 || j >= ls.len() {
        if rel.len() == 0 {
            None
        } else {
            Some((MatchSpec::Multi(rel, "configure"@), None))
        }
    } else if trim_spec(ls[j]).len() == 0 {
        configure_scan(ls, j + 1, rel)
    } else {
        match regex_group_spec(configure_line_matchers(), ls, j, 0) {
            Some(r) => Some(r),
            None => configure_scan(ls, j + 1, rel.push(j)),
        }
    }
}

/// What the `configure: error:` matcher finds at line `o`.
pub open spec fn configure_spec(ls: Seq<Seq<char>>, o: int) -> Option<(MatchSpec, Option<ProblemView>)> {
    if trim_end_eol_spec(ls[o]) != "configure: error:"@ {
        None
    } else {
        configure_scan(ls, o + 1, Seq::empty())
    }
}

/// The offsets and dependency names of the lines below a missing-dependencies line,
/// from index `j` down to the first blank line.
pub open spec fn haskell_scan(ls: Seq<Seq<char>>, j: int) -> (Seq<int>, Seq<Seq<char>>)
    decreases ls.len() - j,
{
    if j < 0 || j >= ls.len() || trim_spec(ls[j]).len() == 0 {
        (Seq::empty(), Seq::empty())
    } else {
        let rest = haskell_scan(ls, j + 1);
        let t = trim_spec(ls[j]);
        (
            seq![j] + rest.0,
            if t.contains(',') {
                seq![t.take(first_char_index(t, ','))] + rest.1
            } else {
                rest.1
            },
        )
    }
}

/// The expression for a missing-dependencies line of a Haskell build.
pub open spec fn haskell_regex() -> Seq<char> {
    "(.*): Encountered missing or private dependencies:"@
}

/// What the missing Haskell dependencies matcher finds at line `o`.
pub open spec fn haskell_spec(ls: Seq<Seq<char>>, o: int) -> Option<(MatchSpec, Option<ProblemView>)> {
    if !regex_matches(haskell_regex(), trim_end_char_spec(ls[o], '\n')) {
        None
    } else {
        let s = haskell_scan(ls, o + 1);
        Some(
            (
                MatchSpec::Multi(seq![o] + s.0, "haskell dependencies"@),
                Some(ProblemView::MissingHaskellDependencies(s.1)),
            ),
        )
    }
}

/// The expression for the usage line of setup.py.
pub open spec fn setup_usage_regex() -> Seq<char> {
    "usage: setup.py \\[global_opts\\] cmd1 \\[cmd1_opts\\] \\[cmd2 \\[cmd2_opts\\] \\.\\.\\.\\]"@
}

/// Whether one of the lines `o - j`, ..., `o - 19` (those that exist) is the setup.py
/// usage line.
pub open spec fn setup_usage_above(ls: Seq<Seq<char>>, o: int, j: int) -> bool
    decreases 20 - j,
{
    if j < 0 || j >= 20 || o - j < 0 || o - j >= ls.len() {
        false
    } else {
        regex_matches(setup_usage_regex(), trim_end_char_spec(ls[o - j], '\n'))
            || setup_usage_above(ls, o, j + 1)
    }
}

/// What the unknown setup.py command matcher finds at line `o`.
pub open spec fn setup_py_spec(ls: Seq<Seq<char>>, o: int) -> Option<(MatchSpec, Option<ProblemView>)> {
    match regex_captures_spec("error: invalid command \\'(.*)\\'"@, trim_spec(ls[o])) {
        Some(c) => if setup_usage_above(ls, o, 0) {
            Some(
                (
                    MatchSpec::Multi(seq![o], "setup.py"@),
                    Some(ProblemView::MissingSetupPyCommand(group(c, 1))),
                ),
            )
        } else {
            None
        },
        None => None,
    }
}

/// The expression for a Python `FileNotFoundError`.
pub open spec fn python_fnf_regex() -> Seq<char> {
    "^(?:E  +)?FileNotFoundError: \\[Errno 2\\] No such file or directory: \\'(.*)\\'"@
}

/// What the Python `FileNotFoundError` matcher finds at line `o`.
pub open spec fn python_fnf_spec(ls: Seq<Seq<char>>, o: int) -> Option<(MatchSpec, Option<ProblemView>)> {
    match regex_captures_spec(python_fnf_regex(), trim_end_char_spec(ls[o], '\n')) {
        Some(c) => {
            let name = group(c, 1);
            if o > 2 && contains_spec(ls[o - 2], "subprocess"@) {
                Some((MatchSpec::Single(o, "python"@), Some(ProblemView::MissingCommand(name))))
            } else {
                Some((MatchSpec::Single(o, "python"@), maybe_executable_spec(name)))
            }
        },
        None => None,
    }
}

/// What the unavailable Perl modules matcher finds at line `o`: the two header lines
/// and the module line below them.
pub open spec fn perl_spec(ls: Seq<Seq<char>>, o: int) -> Option<(MatchSpec, Option<ProblemView>)> {
    if trim_end_eol_spec(ls[o]) == "# The following modules are not available."@ && o + 2 < ls.len()
        && trim_end_eol_spec(ls[o + 1]) == "# `perl Makefile.PL | cpanm` will install them:"@ {
        Some(
            (
                MatchSpec::Multi(seq![o, o + 1, o + 2], "perl line match"@),
                Some(ProblemView::MissingPerlModule { module: trim_spec(ls[o + 2]), filename: None, inc: None, minimum_version: None }),
            ),
        )
    } else {
        None
    }
}

/// The matchers for the diagnostic line of a failed R vignette.
pub open spec fn vignette_line_matchers() -> Seq<RegexLineMatcher> {
    seq![
        RegexLineMatcher { regex: r"^([^ ]+) is not available", callback: Callback::VagueDependency(1) },
        RegexLineMatcher { regex: r"^The package `(.*)` is required\.", callback: Callback::RPackage(1) },
        RegexLineMatcher { regex: r"^Package '(.*)' required.*", callback: Callback::RPackage(1) },
        RegexLineMatcher { regex: r"^The '(.*)' package must be installed.*", callback: Callback::RPackage(1) },
    ]
}

/// The matchers for the diagnostic line of a failed R vignette.
fn vignette_line_table() -> (r: Vec<RegexLineMatcher>)
    ensures
        r@ == vignette_line_matchers(),
{
    let mut v: Vec<RegexLineMatcher> = Vec::new();
    v.push(RegexLineMatcher { regex: r"^([^ ]+) is not available", callback: Callback::VagueDependency(1) });
    v.push(RegexLineMatcher { regex: r"^The package `(.*)` is required\.", callback: Callback::RPackage(1) });
    v.push(RegexLineMatcher { regex: r"^Package '(.*)' required.*", callback: Callback::RPackage(1) });
    v.push(RegexLineMatcher { regex: r"^The '(.*)' package must be installed.*", callback: Callback::RPackage(1) });
    assert(v@ =~= vignette_line_matchers());
    v
}

/// What the failed R vignette matcher finds at line `o`: the diagnostic on the next line.
pub open spec fn vignette_spec(ls: Seq<Seq<char>>, o: int) -> Option<(MatchSpec, Option<ProblemView>)> {
    if regex_matches("^Error: processing vignette '(.*)' failed with diagnostics:"@, ls[o]) && o + 1
        < ls.len() {
        match regex_group_spec(vignette_line_matchers(), ls, o + 1, 0) {
            Some(r) => Some(r),
            None => Some((MatchSpec::Single(o + 1, "vignette line match"@), None)),
        }
    } else {
        None
    }
}

/// What the unexpanded autoconf macro matcher finds at line `o`.
pub open spec fn autoconf_spec(ls: Seq<Seq<char>>, o: int) -> Option<(MatchSpec, Option<ProblemView>)> {
    if regex_matches("\\./configure: line [0-9]+: syntax error near unexpected token `.+'"@, ls[o])
        && o + 1 < ls.len() {
        Some(
            (
                MatchSpec::Multi(seq![o, o + 1], "autoconf unexpected macro"@),
                match regex_captures_spec(
                    "^\\./configure: line [0-9]+: `[\\s\\t]*([A-Z0-9_]+)\\(.*"@,
                    ls[o + 1],
                ) {
                    Some(c) => Some(
                        ProblemView::MissingAutoconfMacro { macro_name: group(c, 1), need_rebuild: true },
                    ),
                    None => None,
                },
            ),
        )
    } else {
        None
    }
}

/// Whether line `j` continues the explanation of a CMake error: it is blank or
/// indented.
pub open spec fn cmake_continues(line: Seq<char>) -> bool {
    trim_end_char_spec(line, '\n').len() == 0 || " "@.is_prefix_of(line)
}

/// The index of the first line from `j` on that does not continue a CMake error.
pub open spec fn cmake_block_end(ls: Seq<Seq<char>>, j: int) -> int
    decreases ls.len() - j,
{
    if j < 0 || j >= ls.len() || !cmake_continues(ls[j]) {
        j
    } else {
        cmake_block_end(ls, j + 1)
    }
}

/// The end of the block `[start, end)` once its trailing blank lines are dropped.
pub open spec fn cmake_trim_end(ls: Seq<Seq<char>>, start: int, end: int) -> int
    decreases end - start,
{
    if end <= start || trim_end_char_spec(ls[end - 1], '\n').len() != 0 {
        end
    } else {
        cmake_trim_end(ls, start, end - 1)
    }
}

/// The expression for the first line of a CMake error or warning.
pub open spec fn cmake_regex() -> Seq<char> {
    "CMake (Error|Warning) at (.+):([0-9]+) \\((.*)\\):"@
}

/// The concatenation of the lines `[start, end)`.
pub open spec fn concat_lines(ls: Seq<Seq<char>>, start: int, end: int) -> Seq<char>
    decreases end - start,
{
    if end <= start {
        Seq::empty()
    } else {
        concat_lines(ls, start, end - 1) + ls[end - 1]
    }
}

/// The number of characters of the lines `ls`.
pub open spec fn total_len(ls: Seq<Seq<char>>) -> nat
    decreases ls.len(),
{
    if ls.len() == 0 {
        0
    } else {
        ls[0].len() + total_len(ls.drop_first())
    }
}

/// Splitting a text into its lines keeps all of its characters.
pub proof fn lemma_inclusive_lines_total(s: Seq<char>)
    ensures
        total_len(crate::text::inclusive_lines(s)) == s.len(),
    decreases s.len(),
{
    if s.len() > 0 && s.contains('\n') {
        crate::text::lemma_first_char_index(s, '\n');
        let i = crate::text::first_char_index(s, '\n');
        let ls = crate::text::inclusive_lines(s);
        assert(ls == seq![s.take(i + 1)] + crate::text::inclusive_lines(s.skip(i + 1)));
        assert(ls[0] == s.take(i + 1));
        assert(ls.drop_first() =~= crate::text::inclusive_lines(s.skip(i + 1)));
        lemma_inclusive_lines_total(s.skip(i + 1));
        assert(total_len(ls) == ls[0].len() + total_len(ls.drop_first()));
    } else if s.len() > 0 {
        let ls = crate::text::inclusive_lines(s);
        assert(ls == seq![s]);
        assert(ls.drop_first() =~= Seq::<Seq<char>>::empty());
        assert(total_len(ls.drop_first()) == 0);
        assert(total_len(ls) == ls[0].len() + total_len(ls.drop_first()));
    } else {
        assert(crate::text::inclusive_lines(s) == Seq::<Seq<char>>::empty());
    }
}

/// The problem that the CMake matchers find in the dedented explanation `text` of a
/// CMake error in a log of `limit` characters; when the first that matches is the one
/// for the output of a compiler that failed, the problem that the search for the line
/// that explains a failed build finds in that output. That output, taken from within
/// the log, is shorter than the log; the search is made only when it is.
pub open spec fn cmake_problem(limit: nat, text: Seq<char>) -> Option<ProblemView>
    decreases limit, 0nat, 0nat,
{
    let tbl = crate::tables::cmake_error_matchers();
    match first_rule(tbl, text, 0) {
        Some(k) => match regex_captures_spec(tbl[k].regex@, text) {
            Some(c) => match tbl[k].callback {
                Callback::CompilerOutput(g) => {
                    let out = dedent_spec(group(c, g as int));
                    if out.len() < limit {
                        proof {
                            lemma_inclusive_lines_total(out);
                        }
                        match build_failure_spec_in(
                            crate::tables::common_matchers(),
                            crate::text::inclusive_lines(out),
                        ) {
                            Some((_, p)) => p,
                            None => None,
                        }
                    } else {
                        None
                    }
                },
                cb => callback_spec(cb, c),
            },
            None => None,
        },
        None => None,
    }
}

/// What the CMake error matcher finds at line `o`: the error line and its explanation,
/// and the problem that the CMake matchers find in the dedented explanation.
pub open spec fn cmake_spec(ls: Seq<Seq<char>>, o: int) -> Option<(MatchSpec, Option<ProblemView>)>
    decreases total_len(ls), 0nat, 1nat,
{
    if regex_captures_spec(cmake_regex(), trim_end_char_spec(ls[o], '\n')) is Some {
        let end = cmake_trim_end(ls, o + 1, cmake_block_end(ls, o + 1));
        let offsets = seq![o] + Seq::new((end - o - 1) as nat, |k: int| o + 1 + k);
        let text = dedent_spec(concat_lines(ls, o + 1, end));
        Some((MatchSpec::Multi(offsets, "CMake"@), cmake_problem(total_len(ls), text)))
    } else {
        None
    }
}

/// What matcher `m` finds at line `o`.
pub open spec fn matcher_spec(m: Matcher, ls: Seq<Seq<char>>, o: int) -> Option<
    (MatchSpec, Option<ProblemView>),
>
    decreases total_len(ls), 1nat, 0nat,
{
    match m {
        Matcher::Regex(r) => crate::matcher::regex_line_spec(r, ls, o),
        Matcher::ConfigureError => configure_spec(ls, o),
        Matcher::HaskellMissingDependency => haskell_spec(ls, o),
        Matcher::SetupPyCommandMissing => setup_py_spec(ls, o),
        Matcher::PythonFileNotFoundError => python_fnf_spec(ls, o),
        Matcher::PerlMissingModules => perl_spec(ls, o),
        Matcher::VignetteError => vignette_spec(ls, o),
        Matcher::AutoconfUnexpectedMacro => autoconf_spec(ls, o),
        Matcher::CMakeError => cmake_spec(ls, o),
    }
}

/// What the first of the matchers from index `k` on that matches line `o` finds.
pub open spec fn group_spec(ms: Seq<Matcher>, ls: Seq<Seq<char>>, o: int, k: int) -> Option<
    (MatchSpec, Option<ProblemView>),
>
    decreases total_len(ls), 2nat, ms.len() - k,
{
    if k < 0 || k >= ms.len() {
        None
    } else {
        match matcher_spec(ms[k], ls, o) {
            Some(r) => Some(r),
            None => group_spec(ms, ls, o, k + 1),
        }
    }
}

/// What the matchers `ms` find on lines `i`, `i - 1`, ..., `stop`: the first finding,
/// walking backwards.
pub open spec fn primary_scan_in(ms: Seq<Matcher>, ls: Seq<Seq<char>>, i: int, stop: int) -> Option<
    (MatchSpec, Option<ProblemView>),
>
    decreases total_len(ls), 3nat, i + 1,
{
    if i < stop || i < 0 {
        None
    } else {
        match group_spec(ms, ls, i, 0) {
            Some(r) => Some(r),
            None => primary_scan_in(ms, ls, i - 1, stop),
        }
    }
}

/// What the search for the line that explains a failed build finds with the matchers
/// `ms`: they walk backwards over the last 250 lines; then, when one of those lines
/// mentions cmake, the older CMake hints look over all lines; then the secondary hints
/// among the last 250 lines.
pub open spec fn build_failure_spec_in(ms: Seq<Matcher>, ls: Seq<Seq<char>>) -> Option<
    (MatchSpec, Option<ProblemView>),
>
    decreases total_len(ls), 4nat, 0nat,
{
    let stop = crate::lines::tail_start(ls.len(), 250) as int;
    match primary_scan_in(ms, ls, ls.len() - 1, stop) {
        Some(r) => Some(r),
        None => match (if mentions_cmake(ls, stop, ls.len() as int) {
            cmake_forward_scan(ls, 0)
        } else {
            None
        }) {
            Some(r) => Some(r),
            None => match secondary_spec(ls, 250) {
                Some((i, k)) => Some((MatchSpec::Single(i, secondary_origin(k)), None)),
                None => None,
            },
        },
    }
}

/// Whether a line holds nothing but whitespace.
pub(crate) fn is_blank(line: &str) -> (r: bool)
    ensures
        r == (trim_spec(line@).len() == 0),
{
    trim(line).is_empty()
}

/// The `configure: error:` matcher.
fn configure_error(lines: &[&str], offset: usize) -> (r: Option<(LogMatch, Option<Problem>)>)
    requires
        offset < lines@.len(),
    ensures
        found_is(r, lines_view(lines@), configure_spec(lines_view(lines@), offset as int)),
{
    let ghost ls = lines_view(lines@);
    assert(ls[offset as int] == lines@[offset as int]@);
    if !str_eq(trim_end_eol(lines[offset]), "configure: error:") {
        return None;
    }
    let table = configure_line_table();
    let mut rel: Vec<usize> = Vec::new();
    let mut j: usize = offset + 1;
    assert(rel@.map_values(|x: usize| x as int) =~= Seq::<int>::empty());
    while j < lines.len()
        invariant
            ls == lines_view(lines@),
            offset < j <= lines@.len(),
            table@ == configure_line_matchers(),
            configure_spec(ls, offset as int) == configure_scan(
                ls,
                j as int,
                rel@.map_values(|x: usize| x as int),
            ),
            forall|k: int| 0 <= k < rel@.len() ==> #[trigger] rel@[k] < lines@.len(),
        decreases lines.len() - j,
    {
        assert(ls[j as int] == lines@[j as int]@);
        if !is_blank(lines[j]) {
            let found = extract_with_regexes(&table, lines, j);
            if found.is_some() {
                return found;
            }
            assert(rel@.push(j).map_values(|x: usize| x as int) =~= rel@.map_values(
                |x: usize| x as int,
            ).push(j as int));
            rel.push(j);
        }
        j = j + 1;
    }
    if rel.len() == 0 {
        return None;
    }
    let ghost offs = rel@;
    let m = MultiLineMatch::from_lines(lines, rel, Some("configure"));
    assert forall|k: int| 0 <= k < offs.len() implies #[trigger] m.lines@[k]@ == ls[offs[k] as int] by {
        assert(m.lines@[k]@ == lines@[offs[k] as int]@);
    }
    Some((LogMatch::Multi(m), None))
}

/// The missing Haskell dependencies matcher.
fn haskell_missing_dependency(lines: &[&str], offset: usize) -> (r: Option<(LogMatch, Option<Problem>)>)
    requires
        offset < lines@.len(),
    ensures
        found_is(r, lines_view(lines@), haskell_spec(lines_view(lines@), offset as int)),
{
    let ghost ls = lines_view(lines@);
    assert(ls[offset as int] == lines@[offset as int]@);
    if !regex_is_match(
        "(.*): Encountered missing or private dependencies:",
        trim_end_matches(lines[offset], '\n'),
    ) {
        return None;
    }
    let mut deps: Vec<String> = Vec::new();
    let mut offsets: Vec<usize> = Vec::new();
    offsets.push(offset);
    let mut j: usize = offset + 1;
    assert(offsets@.map_values(|x: usize| x as int) =~= seq![offset as int]);
    assert(crate::problem::vec_view(deps) =~= Seq::<Seq<char>>::empty());
    while j < lines.len() && !is_blank(lines[j])
        invariant
            ls == lines_view(lines@),
            offset < j <= lines@.len(),
            seq![offset as int] + haskell_scan(ls, offset + 1).0 == offsets@.map_values(
                |x: usize| x as int,
            ) + haskell_scan(ls, j as int).0,
            haskell_scan(ls, offset + 1).1 == crate::problem::vec_view(deps) + haskell_scan(
                ls,
                j as int,
            ).1,
            forall|k: int| 0 <= k < offsets@.len() ==> #[trigger] offsets@[k] < lines@.len(),
        decreases lines.len() - j,
    {
        assert(ls[j as int] == lines@[j as int]@);
        let t = trim(lines[j]);
        let ghost before = crate::problem::vec_view(deps);
        if let Some((dep, _)) = split_char_once(t, ',') {
            deps.push(dep.to_string());
            assert(crate::problem::vec_view(deps) =~= before.push(dep@));
        }
        let ghost oi = offsets@.map_values(|x: usize| x as int);
        offsets.push(j);
        assert(offsets@.map_values(|x: usize| x as int) =~= oi.push(j as int));
        let ghost rest = haskell_scan(ls, j + 1);
        assert(oi + haskell_scan(ls, j as int).0 =~= oi.push(j as int) + rest.0);
        assert(crate::problem::vec_view(deps) + rest.1 =~= before + haskell_scan(ls, j as int).1);
        j = j + 1;
    }
    assert(haskell_scan(ls, j as int).0 =~= Seq::<int>::empty());
    assert(haskell_scan(ls, j as int).1 =~= Seq::<Seq<char>>::empty());
    assert(offsets@.map_values(|x: usize| x as int) + haskell_scan(ls, j as int).0
        =~= offsets@.map_values(|x: usize| x as int));
    assert(crate::problem::vec_view(deps) + haskell_scan(ls, j as int).1 =~= crate::problem::vec_view(deps));
    let ghost offs = offsets@;
    let m = MultiLineMatch::from_lines(lines, offsets, Some("haskell dependencies"));
    assert forall|k: int| 0 <= k < offs.len() implies #[trigger] m.lines@[k]@ == ls[offs[k] as int] by {
        assert(m.lines@[k]@ == lines@[offs[k] as int]@);
    }
    Some((LogMatch::Multi(m), Some(Problem::MissingHaskellDependencies(deps))))
}

/// The unknown setup.py command matcher: the usage line must stand on one of the
/// twenty lines that end at the error line.
fn setup_py_command_missing(lines: &[&str], offset: usize) -> (r: Option<(LogMatch, Option<Problem>)>)
    requires
        offset < lines@.len(),
    ensures
        found_is(r, lines_view(lines@), setup_py_spec(lines_view(lines@), offset as int)),
{
    let ghost ls = lines_view(lines@);
    assert(ls[offset as int] == lines@[offset as int]@);
    let caps = match regex_captures(r"error: invalid command \'(.*)\'", trim(lines[offset])) {
        Some(c) => c,
        None => {
            return None;
        },
    };
    let mut j: usize = 0;
    while j < 20 && j <= offset
        invariant
            ls == lines_view(lines@),
            offset < lines@.len(),
            j <= 20,
            j <= offset + 1,
            setup_usage_above(ls, offset as int, 0) == setup_usage_above(ls, offset as int, j as int),
            regex_captures_spec(r"error: invalid command \'(.*)\'"@, trim_spec(ls[offset as int]))
                == Some(captures_view(caps@)),
        decreases 20 - j,
    {
        assert(ls[offset - j] == lines@[offset - j]@);
        if regex_is_match(
            r"usage: setup.py \[global_opts\] cmd1 \[cmd1_opts\] \[cmd2 \[cmd2_opts\] \.\.\.\]",
            trim_end_matches(lines[offset - j], '\n'),
        ) {
            let mut offs: Vec<usize> = Vec::new();
            offs.push(offset);
            let mut picked: Vec<String> = Vec::new();
            picked.push(lines[offset].to_string());
            let m = MultiLineMatch::new(Origin("setup.py".to_string()), offs, picked);
            return Some(
                (LogMatch::Multi(m), Some(Problem::MissingSetupPyCommand(get_group(&caps, 1)))),
            );
        }
        j = j + 1;
    }
    None
}

/// The Python `FileNotFoundError` matcher: a missing command when the traceback goes
/// through `subprocess`, else a missing file or command.
fn python_file_not_found(lines: &[&str], offset: usize) -> (r: Option<(LogMatch, Option<Problem>)>)
    requires
        offset < lines@.len(),
    ensures
        found_is(r, lines_view(lines@), python_fnf_spec(lines_view(lines@), offset as int)),
{
    let ghost ls = lines_view(lines@);
    assert(ls[offset as int] == lines@[offset as int]@);
    let caps = match regex_captures(
        r"^(?:E  +)?FileNotFoundError: \[Errno 2\] No such file or directory: \'(.*)\'",
        trim_end_matches(lines[offset], '\n'),
    ) {
        Some(c) => c,
        None => {
            return None;
        },
    };
    let name = get_group(&caps, 1);
    let m = SingleLineMatch {
        origin: Origin("python".to_string()),
        offset,
        line: lines[offset].to_string(),
    };
    if offset > 2 && contains(lines[offset - 2], "subprocess") {
        assert(ls[offset - 2] == lines@[offset - 2]@);
        return Some((LogMatch::Single(m), Some(Problem::MissingCommand(name))));
    }
    if offset > 2 {
        assert(ls[offset - 2] == lines@[offset - 2]@);
    }
    Some((LogMatch::Single(m), file_not_found_maybe_executable(name.as_str())))
}

/// The unavailable Perl modules matcher.
fn perl_missing_modules(lines: &[&str], offset: usize) -> (r: Option<(LogMatch, Option<Problem>)>)
    requires
        offset < lines@.len(),
    ensures
        found_is(r, lines_view(lines@), perl_spec(lines_view(lines@), offset as int)),
{
    let ghost ls = lines_view(lines@);
    assert(ls[offset as int] == lines@[offset as int]@);
    if !str_eq(trim_end_eol(lines[offset]), "# The following modules are not available.") {
        return None;
    }
    if lines.len() - offset <= 2 {
        return None;
    }
    assert(ls[offset + 1] == lines@[offset + 1]@);
    assert(ls[offset + 2] == lines@[offset + 2]@);
    if !str_eq(trim_end_eol(lines[offset + 1]), "# `perl Makefile.PL | cpanm` will install them:") {
        return None;
    }
    let mut offsets: Vec<usize> = Vec::new();
    offsets.push(offset);
    offsets.push(offset + 1);
    offsets.push(offset + 2);
    let ghost offs = offsets@;
    let m = MultiLineMatch::from_lines(lines, offsets, Some("perl line match"));
    assert(offs.map_values(|x: usize| x as int) =~= seq![offset as int, offset + 1, offset + 2]);
    assert forall|k: int| 0 <= k < offs.len() implies #[trigger] m.lines@[k]@ == ls[offs[k] as int] by {
        assert(m.lines@[k]@ == lines@[offs[k] as int]@);
    }
    let module = trim(lines[offset + 2]).to_string();
    Some((LogMatch::Multi(m), Some(Problem::MissingPerlModule { module, filename: None, inc: None, minimum_version: None })))
}

/// The failed R vignette matcher.
fn vignette_error(lines: &[&str], offset: usize) -> (r: Option<(LogMatch, Option<Problem>)>)
    requires
        offset < lines@.len(),
    ensures
        found_is(r, lines_view(lines@), vignette_spec(lines_view(lines@), offset as int)),
{
    let ghost ls = lines_view(lines@);
    assert(ls[offset as int] == lines@[offset as int]@);
    if !regex_is_match(r"^Error: processing vignette '(.*)' failed with diagnostics:", lines[offset]) {
        return None;
    }
    if lines.len() - offset < 2 {
        return None;
    }
    assert(ls[offset + 1] == lines@[offset + 1]@);
    let table = vignette_line_table();
    match extract_with_regexes(&table, lines, offset + 1) {
        Some(found) => Some(found),
        None => Some(
            (
                LogMatch::Single(
                    SingleLineMatch {
                        origin: Origin("vignette line match".to_string()),
                        offset: offset + 1,
                        line: lines[offset + 1].to_string(),
                    },
                ),
                None,
            ),
        ),
    }
}

/// The unexpanded autoconf macro matcher.
fn autoconf_unexpected_macro(lines: &[&str], offset: usize) -> (r: Option<(LogMatch, Option<Problem>)>)
    requires
        offset < lines@.len(),
    ensures
        found_is(r, lines_view(lines@), autoconf_spec(lines_view(lines@), offset as int)),
{
    let ghost ls = lines_view(lines@);
    assert(ls[offset as int] == lines@[offset as int]@);
    if !regex_is_match(
        r"\./configure: line [0-9]+: syntax error near unexpected token `.+'",
        lines[offset],
    ) {
        return None;
    }
    if lines.len() - offset < 2 {
        return None;
    }
    assert(ls[offset + 1] == lines@[offset + 1]@);
    let mut offsets: Vec<usize> = Vec::new();
    offsets.push(offset);
    offsets.push(offset + 1);
    let ghost offs = offsets@;
    let m = MultiLineMatch::from_lines(lines, offsets, Some("autoconf unexpected macro"));
    assert(offs.map_values(|x: usize| x as int) =~= seq![offset as int, offset + 1]);
    assert forall|k: int| 0 <= k < offs.len() implies #[trigger] m.lines@[k]@ == ls[offs[k] as int] by {
        assert(m.lines@[k]@ == lines@[offs[k] as int]@);
    }
    let problem = match regex_captures(
        r"^\./configure: line [0-9]+: `[\s\t]*([A-Z0-9_]+)\(.*",
        lines[offset + 1],
    ) {
        Some(c) => Some(Problem::MissingAutoconfMacro { macro_name: get_group(&c, 1), need_rebuild: true }),
        None => None,
    };
    Some((LogMatch::Multi(m), problem))
}

/// Whether a line continues the explanation of a CMake error.
fn cmake_line_continues(line: &str) -> (r: bool)
    ensures
        r == cmake_continues(line@),
{
    trim_end_matches(line, '\n').is_empty() || starts_with(line, " ")
}

/// Whether a text of `n` characters is shorter than the lines `lines` together.
fn shorter_than(n: usize, lines: &[&str]) -> (r: bool)
    ensures
        r == (n < total_len(lines_view(lines@))),
{
    let ghost ls = lines_view(lines@);
    let cap: u128 = n as u128 + 1;
    let mut acc: u128 = 0;
    let mut i: usize = lines.len();
    assert(ls.skip(i as int) =~= Seq::<Seq<char>>::empty());
    while i > 0
        invariant
            ls == lines_view(lines@),
            i <= lines@.len(),
            cap == n + 1,
            acc == if total_len(ls.skip(i as int)) < cap { total_len(ls.skip(i as int)) } else { cap as nat },
        decreases i,
    {
        i = i - 1;
        assert(ls[i as int] == lines@[i as int]@);
        assert(ls.skip(i as int).drop_first() =~= ls.skip(i + 1));
        assert(ls.skip(i as int)[0] == ls[i as int]);
        let len = lines[i].unicode_len() as u128;
        acc = if acc + len < cap { acc + len } else { cap };
    }
    assert(ls.skip(0) =~= ls);
    acc == cap
}

/// The problem that the CMake matchers find in the dedented explanation `text` of a
/// CMake error in `lines`, analysing the output of a compiler that failed.
fn cmake_explanation_problem(lines: &[&str], text: &str) -> (r: Option<Problem>)
    ensures
        opt_problem_view(r) == cmake_problem(total_len(lines_view(lines@)), text@),
    decreases total_len(lines_view(lines@)), 0nat, 0nat,
{
    let table = crate::tables::cmake_error_matchers_table();
    match first_matching_rule(&table, text) {
        Some((k, caps)) => {
            match &table[k].callback {
                Callback::CompilerOutput(g) => {
                    let out = dedent(get_group(&caps, *g).as_str());
                    if shorter_than(out.as_str().unicode_len(), lines) {
                        let parts = crate::text::split_inclusive_lines(out.as_str());
                        let ghost pv = parts@.map_values(|t: String| t@);
                        let mut nested: Vec<&str> = Vec::new();
                        let mut i: usize = 0;
                        while i < parts.len()
                            invariant
                                i <= parts@.len(),
                                pv == parts@.map_values(|t: String| t@),
                                lines_view(nested@) == pv.take(i as int),
                            decreases parts.len() - i,
                        {
                            let ghost before = lines_view(nested@);
                            nested.push(parts[i].as_str());
                            assert(lines_view(nested@) =~= before.push(pv[i as int]));
                            assert(pv.take(i + 1) =~= pv.take(i as int).push(pv[i as int]));
                            i = i + 1;
                        }
                        assert(pv.take(i as int) =~= pv);
                        proof {
                            lemma_inclusive_lines_total(out@);
                        }
                        let group = common_matcher_group();
                        let (_, p) = find_build_failure_description_with(&group, nested);
                        p
                    } else {
                        None
                    }
                },
                cb => apply_callback(cb, &caps),
            }
        },
        None => None,
    }
}

/// The CMake error matcher: the error line, its indented explanation, and the problem
/// that the CMake matchers find in the dedented explanation.
#[verifier::rlimit(50)]
fn cmake_error(lines: &[&str], offset: usize) -> (r: Option<(LogMatch, Option<Problem>)>)
    requires
        offset < lines@.len(),
    ensures
        found_is(r, lines_view(lines@), cmake_spec(lines_view(lines@), offset as int)),
    decreases total_len(lines_view(lines@)), 0nat, 1nat,
{
    let ghost ls = lines_view(lines@);
    assert(ls[offset as int] == lines@[offset as int]@);
    if regex_captures(
        r"CMake (Error|Warning) at (.+):([0-9]+) \((.*)\):",
        trim_end_matches(lines[offset], '\n'),
    ).is_none() {
        return None;
    }
    let mut end: usize = offset + 1;
    while end < lines.len() && cmake_line_continues(lines[end])
        invariant
            ls == lines_view(lines@),
            offset < end <= lines@.len(),
            cmake_block_end(ls, offset + 1) == cmake_block_end(ls, end as int),
        decreases lines.len() - end,
    {
        assert(ls[end as int] == lines@[end as int]@);
        end = end + 1;
    }
    if end < lines.len() {
        assert(ls[end as int] == lines@[end as int]@);
    }
    let ghost block_end = end as int;
    assert(cmake_block_end(ls, end as int) == end);
    while end > offset + 1 && trim_end_matches(lines[end - 1], '\n').is_empty()
        invariant
            ls == lines_view(lines@),
            offset < end <= block_end <= lines@.len(),
            cmake_trim_end(ls, offset + 1, block_end) == cmake_trim_end(ls, offset + 1, end as int),
        decreases end,
    {
        assert(ls[end - 1] == lines@[end - 1]@);
        end = end - 1;
    }
    if end > offset + 1 {
        assert(ls[end - 1] == lines@[end - 1]@);
    }
    assert(cmake_trim_end(ls, offset + 1, end as int) == end);
    let mut offsets: Vec<usize> = Vec::new();
    offsets.push(offset);
    let mut text = String::new();
    let mut j: usize = offset + 1;
    while j < end
        invariant
            ls == lines_view(lines@),
            offset < j <= end <= lines@.len(),
            offsets@.len() == j - offset,
            forall|k: int| 0 <= k < offsets@.len() ==> #[trigger] offsets@[k] == offset + k,
            text@ == concat_lines(ls, offset + 1, j as int),
        decreases end - j,
    {
        assert(ls[j as int] == lines@[j as int]@);
        offsets.push(j);
        text.append(lines[j]);
        j = j + 1;
    }
    let ghost offs = offsets@;
    let m = MultiLineMatch::from_lines(lines, offsets, Some("CMake"));
    assert(offs.map_values(|x: usize| x as int) =~= seq![offset as int] + Seq::new(
        (end - offset - 1) as nat,
        |k: int| offset + 1 + k,
    ));
    assert forall|k: int| 0 <= k < offs.len() implies #[trigger] m.lines@[k]@ == ls[offs[k] as int] by {
        assert(m.lines@[k]@ == lines@[offs[k] as int]@);
    }
    let dedented = dedent(text.as_str());
    let problem = cmake_explanation_problem(lines, dedented.as_str());
    Some((LogMatch::Multi(m), problem))
}

impl Matcher {
    /// Tries the matcher on line `offset` of `lines`.
    fn extract_at(&self, lines: &[&str], offset: usize) -> (r: Option<(LogMatch, Option<Problem>)>)
        requires
            offset < lines@.len(),
        ensures
            found_is(r, lines_view(lines@), matcher_spec(*self, lines_view(lines@), offset as int)),
        decreases total_len(lines_view(lines@)), 1nat, 0nat,
    {
        match self {
            Matcher::Regex(m) => match m.extract_from_lines(lines, offset) {
                Ok(v) => v,
                Err(_) => None,
            },
            Matcher::ConfigureError => configure_error(lines, offset),
            Matcher::HaskellMissingDependency => haskell_missing_dependency(lines, offset),
            Matcher::SetupPyCommandMissing => setup_py_command_missing(lines, offset),
            Matcher::PythonFileNotFoundError => python_file_not_found(lines, offset),
            Matcher::PerlMissingModules => perl_missing_modules(lines, offset),
            Matcher::VignetteError => vignette_error(lines, offset),
            Matcher::AutoconfUnexpectedMacro => autoconf_unexpected_macro(lines, offset),
            Matcher::CMakeError => cmake_error(lines, offset),
        }
    }

    /// Tries the matcher on line `offset` of `lines`: `Ok(None)` when it does not
    /// apply there, else the match and the problem, if any, that it found.
    pub fn extract_from_lines(&self, lines: &[&str], offset: usize) -> (r: Result<
        Option<(LogMatch, Option<Problem>)>,
        Error,
    >)
        requires
            offset < lines@.len(),
        ensures
            r matches Ok(v) && found_is(v, lines_view(lines@), matcher_spec(*self, lines_view(lines@), offset as int)),
    {
        Ok(self.extract_at(lines, offset))
    }
}

/// A list of matchers, tried in order. The expressions of its regular-expression
/// matchers are compiled once, when the group is made.
#[derive(Debug)]
pub struct MatcherGroup {
    matchers: Vec<Matcher>,
    compiled: Vec<Option<CompiledRegex>>,
}

/// Whether `c` holds, for each regular-expression matcher of `ms`, its compiled
/// expression.
pub open spec fn compiled_for(ms: Seq<Matcher>, c: Seq<Option<CompiledRegex>>) -> bool {
    &&& c.len() == ms.len()
    &&& forall|k: int|
        0 <= k < ms.len() ==> match #[trigger] ms[k] {
            Matcher::Regex(m) => c[k] matches Some(x) && x.pattern() == m.regex@,
            _ => true,
        }
}

impl MatcherGroup {
    /// The matchers of the group, in order.
    pub closed spec fn matchers(&self) -> Seq<Matcher> {
        self.matchers@
    }

    /// The compiled expressions belong to the matchers.
    #[verifier::type_invariant]
    spec fn compiled_match(&self) -> bool {
        compiled_for(self.matchers@, self.compiled@)
    }

    /// Creates a group of the given matchers.
    pub fn new(matchers: Vec<Matcher>) -> (r: Self)
        ensures
            r.matchers() == matchers@,
    {
        let mut compiled: Vec<Option<CompiledRegex>> = Vec::new();
        let mut k: usize = 0;
        while k < matchers.len()
            invariant
                k <= matchers@.len(),
                compiled_for(matchers@.take(k as int), compiled@),
            decreases matchers.len() - k,
        {
            let c = match &matchers[k] {
                Matcher::Regex(m) => Some(compile_regex(m.regex)),
                _ => None,
            };
            compiled.push(c);
            assert(matchers@.take(k + 1) =~= matchers@.take(k as int).push(matchers@[k as int]));
            k = k + 1;
        }
        assert(matchers@.take(k as int) =~= matchers@);
        MatcherGroup { matchers, compiled }
    }

    /// Tries each matcher in turn on line `offset`, and returns what the first that
    /// applies finds.
    fn extract_at(&self, lines: &[&str], offset: usize) -> (r: Option<(LogMatch, Option<Problem>)>)
        requires
            offset < lines@.len(),
        ensures
            found_is(r, lines_view(lines@), group_spec(self.matchers(), lines_view(lines@), offset as int, 0)),
        decreases total_len(lines_view(lines@)), 2nat, 0nat,
    {
        proof {
            use_type_invariant(self);
        }
        let mut k: usize = 0;
        while k < self.matchers.len()
            invariant
                offset < lines@.len(),
                k <= self.matchers@.len(),
                compiled_for(self.matchers@, self.compiled@),
                group_spec(self.matchers@, lines_view(lines@), offset as int, 0) == group_spec(
                    self.matchers@,
                    lines_view(lines@),
                    offset as int,
                    k as int,
                ),
            decreases self.matchers.len() - k,
        {
            proof {
                let ghost lv = lines_view(lines@);
                assert(group_spec(self.matchers@, lv, offset as int, k as int) == match matcher_spec(
                    self.matchers@[k as int],
                    lv,
                    offset as int,
                ) {
                    Some(r) => Some(r),
                    None => group_spec(self.matchers@, lv, offset as int, k + 1),
                });
                if let Matcher::Regex(m) = self.matchers@[k as int] {
                    assert(matcher_spec(self.matchers@[k as int], lv, offset as int)
                        == crate::matcher::regex_line_spec(m, lv, offset as int));
                }
            }
            let found = match &self.matchers[k] {
                Matcher::Regex(m) => match &self.compiled[k] {
                    Some(c) => m.extract_with(c, lines, offset),
                    None => None,
                },
                other => other.extract_at(lines, offset),
            };
            if found.is_some() {
                return found;
            }
            k = k + 1;
        }
        None
    }

    /// Tries each matcher in turn on line `offset`, and returns what the first that
    /// applies finds.
    pub fn extract_from_lines(&self, lines: &[&str], offset: usize) -> (r: Result<
        Option<(LogMatch, Option<Problem>)>,
        Error,
    >)
        requires
            offset < lines@.len(),
        ensures
            r matches Ok(v) && found_is(v, lines_view(lines@), group_spec(self.matchers(), lines_view(lines@), offset as int, 0)),
    {
        Ok(self.extract_at(lines, offset))
    }
}

impl Default for MatcherGroup {
    fn default() -> (r: Self)
        ensures
            r.matchers() == Seq::<Matcher>::empty(),
    {
        MatcherGroup::new(Vec::new())
    }
}

/// Tries the matchers for build logs on line `offset` of `lines`.
pub fn match_lines(lines: &[&str], offset: usize) -> (r: Result<Option<(LogMatch, Option<Problem>)>, Error>)
    requires
        offset < lines@.len(),
    ensures
        r matches Ok(v) && found_is(
            v,
            lines_view(lines@),
            group_spec(crate::tables::common_matchers(), lines_view(lines@), offset as int, 0),
        ),
{
    let group = MatcherGroup::new(crate::tables::common_matchers_table());
    group.extract_from_lines(lines, offset)
}


/// The index of the first of the expressions `pats[k..]` that matches `line`.
pub open spec fn secondary_hit(pats: Seq<&'static str>, line: Seq<char>, k: int) -> Option<int>
    decreases pats.len() - k,
{
    if k < 0 || k >= pats.len() {
        None
    } else if fancy_match_spec(pats[k]@, line) == Some(true) {
        Some(k)
    } else {
        secondary_hit(pats, line, k + 1)
    }
}

/// The first line from index `i` on that one of the secondary expressions matches (its
/// trailing newlines dropped), with the index of the first expression that does.
pub open spec fn secondary_scan(ls: Seq<Seq<char>>, i: int) -> Option<(int, int)>
    decreases ls.len() - i,
{
    if i < 0 || i >= ls.len() {
        None
    } else {
        match secondary_hit(crate::tables::secondary_patterns(), trim_end_char_spec(ls[i], '\n'), 0) {
            Some(k) => Some((i, k)),
            None => secondary_scan(ls, i + 1),
        }
    }
}

/// The secondary hint among the last `start_offset` lines: the line and the expression.
pub open spec fn secondary_spec(ls: Seq<Seq<char>>, start_offset: usize) -> Option<(int, int)> {
    secondary_scan(ls, crate::lines::tail_start(ls.len(), start_offset) as int)
}

/// The origin label of a match of the secondary expression `k`.
pub open spec fn secondary_origin(k: int) -> Seq<char> {
    "secondary regex "@ + crate::tables::secondary_patterns()[k]@
}

/// Looks among the last `start_offset` lines for the first one that hints at a failure
/// without explaining it.
pub fn find_secondary_build_failure(lines: &[&str], start_offset: usize) -> (r: Option<SingleLineMatch>)
    ensures
        match secondary_spec(lines_view(lines@), start_offset) {
            Some((i, k)) => r matches Some(m) && 0 <= i < lines@.len() && m.offset == i && m.line@
                == lines_view(lines@)[i] && m.origin.0@ == secondary_origin(k),
            None => r is None,
        },
{
    let ghost ls = lines_view(lines@);
    let pats = crate::tables::secondary_patterns_table();
    let mut compiled: Vec<CompiledFancy> = Vec::new();
    let mut k: usize = 0;
    while k < pats.len()
        invariant
            k <= pats@.len(),
            compiled@.len() == k,
            forall|j: int| 0 <= j < k ==> #[trigger] compiled@[j].pattern() == pats@[j]@,
        decreases pats.len() - k,
    {
        compiled.push(compile_fancy(pats[k]));
        k = k + 1;
    }
    let n = lines.len();
    let mut i: usize = if start_offset < n { n - start_offset } else { 0 };
    while i < n
        invariant
            ls == lines_view(lines@),
            n == lines@.len(),
            i <= n,
            pats@ == crate::tables::secondary_patterns(),
            compiled@.len() == pats@.len(),
            forall|j: int| 0 <= j < pats@.len() ==> #[trigger] compiled@[j].pattern() == pats@[j]@,
            secondary_spec(ls, start_offset) == secondary_scan(ls, i as int),
        decreases n - i,
    {
        assert(ls[i as int] == lines@[i as int]@);
        let line = trim_end_matches(lines[i], '\n');
        let mut k: usize = 0;
        while k < pats.len()
            invariant
                ls == lines_view(lines@),
                n == lines@.len(),
                i < n,
                line@ == trim_end_char_spec(ls[i as int], '\n'),
                secondary_spec(ls, start_offset) == secondary_scan(ls, i as int),
                pats@ == crate::tables::secondary_patterns(),
                compiled@.len() == pats@.len(),
                forall|j: int| 0 <= j < pats@.len() ==> #[trigger] compiled@[j].pattern() == pats@[j]@,
                k <= pats@.len(),
                secondary_hit(pats@, line@, 0) == secondary_hit(pats@, line@, k as int),
            decreases pats.len() - k,
        {
            assert(compiled@[k as int].pattern() == pats@[k as int]@);
            match compiled_fancy_match(&compiled[k], line) {
                Some(true) => {
                    let origin = Origin(concat("secondary regex ", pats[k]));
                    return Some(SingleLineMatch { origin, offset: i, line: lines[i].to_string() });
                },
                _ => {},
            }
            k = k + 1;
        }
        i = i + 1;
    }
    None
}

/// Whether one of the lines `[a, b)` mentions cmake.
pub open spec fn mentions_cmake(ls: Seq<Seq<char>>, a: int, b: int) -> bool {
    exists|i: int| a <= i < b && #[trigger] contains_spec(ls[i], "cmake"@)
}

/// The file names listed from line `i` on, down to the first blank line.
pub open spec fn cmake_filenames_spec(ls: Seq<Seq<char>>, i: int) -> Seq<Seq<char>>
    decreases ls.len() - i,
{
    if i < 0 || i >= ls.len() || trim_spec(ls[i]).len() == 0 {
        Seq::empty()
    } else {
        seq![trim_spec(ls[i])] + cmake_filenames_spec(ls, i + 1)
    }
}

/// The expression for a package that CMake could not find.
pub open spec fn cmake_not_found_regex() -> Seq<char> {
    r"  Could NOT find (.*) \(missing: .*\)"@
}

/// The expression for an imported target that references a missing file.
pub open spec fn cmake_imported_target_regex() -> Seq<char> {
    r#"\s*The imported target "(.*)" references the file"#@
}

/// The expression for a package whose configuration file CMake could not find.
pub open spec fn cmake_package_config_regex() -> Seq<char> {
    r#"^  Could not find a package configuration file provided by "(.*)" with any of the following names:"#@
}

/// What the older CMake hints find from line `j` on: a package that could not be found,
/// or a package whose configuration files are missing, listed after a blank line.
pub open spec fn cmake_forward_scan(ls: Seq<Seq<char>>, j: int) -> Option<
    (MatchSpec, Option<ProblemView>),
>
    decreases ls.len() - j,
{
    if j < 0 || j >= ls.len() {
        None
    } else {
        let line = trim_end_char_spec(ls[j], '\n');
        match regex_captures_spec(cmake_not_found_regex(), line) {
            Some(c) => Some(
                (
                    MatchSpec::Single(j, "direct regex"@),
                    Some(ProblemView::MissingCommand(crate::text::lowercase_spec(group(c, 1)))),
                ),
            ),
            None => if !regex_matches(cmake_imported_target_regex(), line) && j + 2 < ls.len()
                && regex_matches(
                cmake_package_config_regex(),
                line + " "@ + trim_end_char_spec(crate::text::trim_start_char_spec(ls[j + 1], ' '), '\n'),
            ) && ls[j + 2] == "\n"@ {
                Some(
                    (
                        MatchSpec::Single(j, "direct regex (cmake)"@),
                        Some(
                            ProblemView::CMakeFilesMissing {
                                filenames: cmake_filenames_spec(ls, j + 3),
                                version: None,
                            },
                        ),
                    ),
                )
            } else {
                cmake_forward_scan(ls, j + 1)
            },
        }
    }
}

/// What the search for the line that explains a failed build finds: the matchers for
/// build logs, walking backwards over the last 250 lines; then, when one of those lines
/// mentions cmake, the older CMake hints over all lines; then the secondary hints among
/// the last 250 lines.
pub open spec fn build_failure_spec(ls: Seq<Seq<char>>) -> Option<(MatchSpec, Option<ProblemView>)> {
    build_failure_spec_in(crate::tables::common_matchers(), ls)
}

/// Whether the pair `r` of a match and a problem is the finding that `spec` describes
/// over `ls` (both absent when `spec` is `None`).
pub open spec fn outcome_is(
    r: (Option<LogMatch>, Option<Problem>),
    ls: Seq<Seq<char>>,
    spec: Option<(MatchSpec, Option<ProblemView>)>,
) -> bool {
    match spec {
        Some((ms, p)) => match_is(r.0, ls, ms) && opt_problem_view(r.1) == p,
        None => r.0 is None && r.1 is None,
    }
}

/// The file names listed from line `i` on, down to the first blank line.
fn cmake_filenames(lines: &[&str], i: usize) -> (r: Vec<String>)
    ensures
        crate::problem::vec_view(r) == cmake_filenames_spec(lines_view(lines@), i as int),
{
    let ghost ls = lines_view(lines@);
    let mut names: Vec<String> = Vec::new();
    let mut j: usize = i;
    assert(crate::problem::vec_view(names) + cmake_filenames_spec(ls, i as int) =~= cmake_filenames_spec(ls, i as int));
    while j < lines.len() && !is_blank(lines[j])
        invariant
            ls == lines_view(lines@),
            i <= j,
            cmake_filenames_spec(ls, i as int) == crate::problem::vec_view(names)
                + cmake_filenames_spec(ls, j as int),
        decreases lines.len() - j,
    {
        assert(ls[j as int] == lines@[j as int]@);
        let ghost before = crate::problem::vec_view(names);
        names.push(trim(lines[j]).to_string());
        assert(crate::problem::vec_view(names) =~= before.push(trim_spec(ls[j as int])));
        assert(before + cmake_filenames_spec(ls, j as int) =~= crate::problem::vec_view(names)
            + cmake_filenames_spec(ls, j + 1));
        j = j + 1;
    }
    if j < lines.len() {
        assert(ls[j as int] == lines@[j as int]@);
    }
    assert(cmake_filenames_spec(ls, j as int) =~= Seq::<Seq<char>>::empty());
    assert(crate::problem::vec_view(names) + cmake_filenames_spec(ls, j as int) =~= crate::problem::vec_view(names));
    names
}

/// The older CMake hints, tried on each line in turn.
fn cmake_hints(lines: &[&str]) -> (r: Option<(LogMatch, Option<Problem>)>)
    ensures
        found_is(r, lines_view(lines@), cmake_forward_scan(lines_view(lines@), 0)),
{
    let ghost ls = lines_view(lines@);
    let mut j: usize = 0;
    while j < lines.len()
        invariant
            ls == lines_view(lines@),
            j <= lines@.len(),
            cmake_forward_scan(ls, 0) == cmake_forward_scan(ls, j as int),
        decreases lines.len() - j,
    {
        assert(ls[j as int] == lines@[j as int]@);
        let line = trim_end_matches(lines[j], '\n');
        if let Some(c) = regex_captures(r"  Could NOT find (.*) \(missing: .*\)", line) {
            let target = get_group(&c, 1);
            let m = SingleLineMatch::from_lines(lines, j, Some("direct regex"));
            let p = Problem::MissingCommand(crate::text::to_lowercase(target.as_str()));
            return Some((LogMatch::Single(m), Some(p)));
        }
        if !regex_is_match(r#"\s*The imported target "(.*)" references the file"#, line) && lines.len()
            - j > 2 {
            assert(ls[j + 1] == lines@[j + 1]@);
            assert(ls[j + 2] == lines@[j + 2]@);
            let next = trim_end_matches(crate::text::trim_start_matches(lines[j + 1], ' '), '\n');
            let head = concat(line, " ");
            let joined = concat(head.as_str(), next);
            if regex_is_match(
                r#"^  Could not find a package configuration file provided by "(.*)" with any of the following names:"#,
                joined.as_str(),
            ) && str_eq(lines[j + 2], "\n") {
                let filenames = cmake_filenames(lines, j + 3);
                let m = SingleLineMatch::from_lines(lines, j, Some("direct regex (cmake)"));
                return Some(
                    (
                        LogMatch::Single(m),
                        Some(Problem::CMakeFilesMissing { filenames, version: None }),
                    ),
                );
            }
        }
        j = j + 1;
    }
    None
}

/// The matchers for build logs, with their expressions compiled, ready for
/// [`find_build_failure_description_with`] to use on many logs.
pub fn common_matcher_group() -> (r: MatcherGroup)
    ensures
        r.matchers() == crate::tables::common_matchers(),
{
    MatcherGroup::new(crate::tables::common_matchers_table())
}

/// Finds the line that explains a failed build, and the problem it shows, with the
/// matchers of `group`: they walk backwards over the last 250 lines; then, when one of
/// those lines mentions cmake, the older CMake hints look over all lines; then the
/// secondary hints, which give a match but no problem.
pub fn find_build_failure_description_with(group: &MatcherGroup, lines: Vec<&str>) -> (r: (
    Option<LogMatch>,
    Option<Problem>,
))
    ensures
        outcome_is(r, lines_view(lines@), build_failure_spec_in(group.matchers(), lines_view(lines@))),
    decreases total_len(lines_view(lines@)), 4nat, 0nat,
{
    let ghost ls = lines_view(lines@);
    let ghost ms = group.matchers();
    let n = lines.len();
    let stop: usize = if 250 < n { n - 250 } else { 0 };
    let mut cmake = false;
    let mut i: usize = n;
    while i > stop
        invariant
            ls == lines_view(lines@),
            n == lines@.len(),
            stop == crate::lines::tail_start(n as nat, 250),
            stop <= i <= n,
            group.matchers() == ms,
            primary_scan_in(ms, ls, n - 1, stop as int) == primary_scan_in(ms, ls, i - 1, stop as int),
            cmake == mentions_cmake(ls, i as int, n as int),
        decreases i,
    {
        i = i - 1;
        assert(ls[i as int] == lines@[i as int]@);
        if contains(lines[i], "cmake") {
            cmake = true;
        }
        match group.extract_at(lines.as_slice(), i) {
            Some((m, p)) => {
                return (Some(m), p);
            },
            None => {},
        }
    }
    if cmake {
        if let Some((m, p)) = cmake_hints(lines.as_slice()) {
            return (Some(m), p);
        }
    }
    match find_secondary_build_failure(lines.as_slice(), 250) {
        Some(m) => (Some(LogMatch::Single(m)), None),
        None => (None, None),
    }
}

/// Finds the line that explains a failed build, and the problem it shows: the matchers
/// for build logs, walking backwards over the last 250 lines; then, when one of those
/// lines mentions cmake, the older CMake hints; then the secondary hints, which give a
/// match but no problem.
pub fn find_build_failure_description(lines: Vec<&str>) -> (r: (Option<LogMatch>, Option<Problem>))
    ensures
        outcome_is(r, lines_view(lines@), build_failure_spec(lines_view(lines@))),
{
    let group = common_matcher_group();
    find_build_failure_description_with(&group, lines)
}

} // verus!
