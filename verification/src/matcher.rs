//! Matchers: rules that recognise a line of a log and say which problem it shows.
use vstd::prelude::*;
use crate::logmatch::{lines_view, LogMatch, MatchSpec, SingleLineMatch, Origin, match_is};
use crate::pattern::{
    captures_view, compiled_captures, get_group, group, regex_captures, regex_captures_spec,
    regex_is_match, regex_matches, CompiledRegex,
};
use crate::problem::{opt_problem_view, Problem, ProblemView};
use crate::template::{make_problem, template_spec, Template};
use crate::text::{
    join_spec, lowercase_spec, to_lowercase,
    concat, contains, contains_char, contains_spec, first_occurrence, split_char, split_once,
    split_spec, starts_with, str_eq, trim, trim_char_spec, trim_spec,
};

verus! {

/// Error type for matchers: what went wrong while matching or extracting a problem.
#[derive(Debug)]
pub struct Error {
    /// Error message describing what went wrong.
    pub message: String,
}

impl Error {
    /// The text that the error is displayed as: its message.
    pub fn to_string(&self) -> (r: String)
        ensures
            r@ == self.message@,
    {
        self.message.clone()
    }
}

/// How a regular-expression matcher turns the groups of a match into a problem.
#[derive(Debug, Clone)]
pub enum Callback {
    /// The match shows no particular problem.
    Nothing,
    /// The device ran out of space.
    NoSpace,
    /// The named command is missing.
    CommandNamed(&'static str),
    /// The command in the given group is missing.
    CommandGroup(usize),
    /// The file in the given group is missing, judged by where it lives.
    FileNotFound(usize),
    /// The file in the given group, or a command of that name, is missing.
    FileNotFoundMaybeExecutable(usize),
    /// The interpreter in the given group is missing.
    InterpreterMissing(usize),
    /// The pkg-config expression in the given group is missing.
    PkgConfigMissing(usize),
    /// The command in the given group is missing, unless it is part of the build tree.
    CommandMissing(usize),
    /// The node module in the given group is missing, unless it is part of the build tree.
    NodeModuleMissing(usize),
    /// The dependency named in the given group is missing.
    VagueDependency(usize),
    /// The dependency named in the first group is missing; the second gives its URL
    /// (the text after `http`).
    VagueDependencyWithUrl(usize, usize),
    /// The R package in the given group is missing.
    RPackage(usize),
    /// The file at the path in the given group is missing.
    FileGroup(usize),
    /// The Maven artifacts listed, separated by commas, in the given group are missing.
    MavenArtifacts(usize),
    /// The first of the R packages listed, separated by commas and possibly quoted, in
    /// the given group is missing.
    RPackageList(usize),
    /// The Ruby gem in the first group is missing; the second lists its version
    /// requirements.
    RubyGem(usize, usize),
    /// The problem that a recipe makes of the groups of the match.
    Make(Template),
    /// The CMake file named in the given group is missing; `.cmake` is added to the
    /// name when it lacks it.
    CMakeFile(usize),
    /// The file of the first group, resolved against the directory of the second, is
    /// missing, unless it lies outside the file system root or in the build tree.
    WebpackFile(usize, usize),
    /// The Python 2 requirement in the given group is missing: `module >= version`,
    /// or a bare module name.
    PythonRequirement(usize),
    /// The Python module in the second group is missing for the interpreter whose
    /// path is in the first.
    PythonModuleRun(usize, usize),
    /// The Python distribution that the requirement in the first group names is
    /// missing; the second group, when given and not empty, holds the version of the
    /// interpreter.
    PythonDistribution(usize, Option<usize>),
    /// pytest does not know the arguments of the command line in the given group,
    /// read as a shell reads them; no problem when the line cannot be read so.
    PytestArguments(usize),
    /// The debhelper compatibility level in the second group is older than the oldest
    /// supported one, in the first; no problem when either is no `i32`.
    DebhelperCompat(usize, usize),
    /// The problem is the one that the analysis of the compiler output in the given
    /// group finds; only a CMake error carries such output, and its matcher makes that
    /// analysis, so by itself the callback gives no problem.
    CompilerOutput(usize),
    /// A problem known only by its kind.
    Kind(&'static str),
}

/// The words of a shell command line, as `shlex::split` reads them (quotes and escapes
/// resolved); `None` when the line is malformed, as with an unclosed quote.
pub uninterp spec fn shell_words_spec(line: Seq<char>) -> Option<Seq<Seq<char>>>;

/// Splits a command line into words as a POSIX shell does (`shlex::split`). The
/// contract claims no more than that the result is the named one.
#[verifier::external_body]
fn shell_words(line: &str) -> (r: Option<Vec<String>>)
    ensures
        crate::problem::opt_vec_view(r) == shell_words_spec(line@),
{
    ::shlex::split(line)
}

/// The problem that arguments pytest does not know show.
pub open spec fn pytest_arguments_spec(line: Seq<char>) -> Option<ProblemView> {
    match shell_words_spec(line) {
        Some(args) => Some(ProblemView::UnsupportedPytestArguments(args)),
        None => None,
    }
}

/// The problem that arguments pytest does not know show: the words of the command
/// line.
pub fn pytest_arguments(line: &str) -> (r: Option<Problem>)
    ensures
        opt_problem_view(r) == pytest_arguments_spec(line@),
{
    match shell_words(line) {
        Some(args) => Some(Problem::UnsupportedPytestArguments(args)),
        None => None,
    }
}

/// The part of `s` before the first occurrence of `c` (all of `s` when there is none).
pub open spec fn take_until(s: Seq<char>, c: char) -> Seq<char> {
    if s.contains(c) {
        s.take(crate::text::first_char_index(s, c))
    } else {
        s
    }
}

/// The name at the start of a requirement: the text before the first space, version
/// comparison, marker, extras or parenthesis.
pub open spec fn requirement_name_spec(req: Seq<char>) -> Seq<char> {
    take_until(
        take_until(
            take_until(
                take_until(
                    take_until(take_until(take_until(take_until(take_until(req, ' '), '<'), '>'), '='), '!'),
                    '~',
                ),
                ';',
            ),
            '[',
        ),
        '(',
    )
}

/// A distribution name in its normal form: `_` and `.` become `-`, and the letters
/// are lower case.
pub open spec fn normalized_name_spec(name: Seq<char>) -> Seq<char> {
    lowercase_spec(join_spec(split_spec(join_spec(split_spec(name, '_'), "-"@), '.'), "-"@))
}

/// The minimum version that a requirement states: the text after its first `>=`, up
/// to a `,` or `;`, trimmed.
pub open spec fn requirement_minimum_spec(req: Seq<char>) -> Option<Seq<char>> {
    if contains_spec(req, ">="@) {
        let i = choose|i: int| first_occurrence(req, ">="@, i);
        Some(trim_spec(take_until(take_until(req.skip(i + 2), ','), ';')))
    } else {
        None
    }
}

/// The major version that an interpreter version such as `3.9` names; `None` for an
/// empty text, or one whose major part is no integer.
pub open spec fn python_major_spec(v: Seq<char>) -> Option<i32> {
    if v.len() == 0 {
        None
    } else {
        parsed_i32(take_until(v, '.'))
    }
}

/// The problem that a missing Python requirement shows; its environment marker, after
/// a `;`, is left out.
pub open spec fn python_distribution_spec(text: Seq<char>, version: Option<i32>) -> ProblemView {
    let req = take_until(text, ';');
    ProblemView::MissingPythonDistribution {
        distribution: normalized_name_spec(requirement_name_spec(req)),
        python_version: version,
        minimum_version: requirement_minimum_spec(req),
    }
}

/// The path that joining `path` onto the directory `dir` gives (`Path::join`): `path`
/// itself when it is absolute or `dir` is empty, else the two with a `/` between them
/// unless `dir` ends with one.
pub open spec fn join_path_spec(dir: Seq<char>, path: Seq<char>) -> Seq<char> {
    if "/"@.is_prefix_of(path) || dir.len() == 0 {
        path
    } else if "/"@.is_suffix_of(dir) {
        dir + path
    } else {
        dir + "/"@ + path
    }
}

/// Whether `path` lies in the build tree: it is `/<<PKGBUILDDIR>>` or below it.
pub open spec fn in_build_tree(path: Seq<char>) -> bool {
    path == "/<<PKGBUILDDIR>>"@ || "/<<PKGBUILDDIR>>/"@.is_prefix_of(path)
}

/// The problem that a file that webpack could not resolve shows.
pub open spec fn webpack_spec(path: Seq<char>, dir: Seq<char>) -> Option<ProblemView> {
    let p = join_path_spec(dir, path);
    if "/"@.is_prefix_of(p) && !in_build_tree(p) {
        Some(ProblemView::MissingFile { path: p })
    } else {
        None
    }
}

/// The name of a CMake file, with `.cmake` added when it lacks it.
pub open spec fn cmake_file_spec(name: Seq<char>) -> Seq<char> {
    if ".cmake"@.is_suffix_of(name) {
        name
    } else {
        name + ".cmake"@
    }
}

/// The problem that a Python 2 requirement shows: `module >= version`, or a bare
/// module name.
pub open spec fn python_requirement_spec(expr: Seq<char>) -> Option<ProblemView> {
    if contains_spec(expr, ">="@) {
        let i = choose|i: int| first_occurrence(expr, ">="@, i);
        Some(
            ProblemView::MissingPythonModule {
                module: trim_spec(expr.take(i)),
                python_version: Some(2),
                minimum_version: Some(trim_spec(expr.skip(i + 2))),
            },
        )
    } else if !expr.contains(' ') {
        Some(ProblemView::MissingPythonModule { module: trim_spec(expr), python_version: Some(2), minimum_version: None })
    } else {
        None
    }
}

/// The Python major version that an interpreter path names: 3 for one ending in
/// `python3`, 2 for one ending in `python2`.
pub open spec fn python_version_spec(exec: Seq<char>) -> Option<i32> {
    if "python3"@.is_suffix_of(exec) {
        Some(3)
    } else if "python2"@.is_suffix_of(exec) {
        Some(2)
    } else {
        None
    }
}

/// The problem that a pkg-config expression shows: `module >= version`, or a bare
/// module name.
pub open spec fn pkg_config_spec(text: Seq<char>) -> Option<ProblemView> {
    let expr = if text.contains('\t') {
        text.take(crate::text::first_char_index(text, '\t'))
    } else {
        text
    };
    if contains_spec(expr, ">="@) {
        let i = choose|i: int| first_occurrence(expr, ">="@, i);
        Some(
            ProblemView::MissingPkgConfig {
                module: trim_spec(expr.take(i)),
                minimum_version: Some(trim_spec(expr.skip(i + 2))),
            },
        )
    } else if !expr.contains(' ') {
        Some(ProblemView::MissingPkgConfig { module: expr, minimum_version: None })
    } else {
        None
    }
}

/// The problem that a path reported as not found shows.
pub open spec fn file_not_found_spec(path: Seq<char>) -> Option<ProblemView> {
    if "/"@.is_prefix_of(path) && !"/<<PKGBUILDDIR>>"@.is_prefix_of(path) {
        Some(ProblemView::MissingFile { path })
    } else if "/<<PKGBUILDDIR>>/"@.is_prefix_of(path) {
        Some(ProblemView::MissingBuildFile { filename: path.skip("/<<PKGBUILDDIR>>/"@.len() as int) })
    } else if path == ".git/HEAD"@ {
        Some(ProblemView::VcsControlDirectoryNeeded { vcs: seq!["git"@] })
    } else if path == "CVS/Root"@ {
        Some(ProblemView::VcsControlDirectoryNeeded { vcs: seq!["cvs"@] })
    } else if !path.contains('/') {
        Some(ProblemView::MissingBuildFile { filename: path })
    } else {
        None
    }
}

/// The problem that a path that may be a command, reported as not found, shows.
pub open spec fn maybe_executable_spec(p: Seq<char>) -> Option<ProblemView> {
    if "/"@.is_prefix_of(p) && !"/<<PKGBUILDDIR>>"@.is_prefix_of(p) {
        Some(ProblemView::MissingFile { path: p })
    } else if !p.contains('/') {
        Some(ProblemView::MissingCommandOrBuildFile { filename: p })
    } else {
        None
    }
}

/// The problem that a missing interpreter shows.
pub open spec fn interpreter_spec(p: Seq<char>) -> Option<ProblemView> {
    if "/"@.is_prefix_of(p) {
        if contains_spec(p, "PKGBUILDDIR"@) {
            None
        } else {
            Some(ProblemView::MissingFile { path: p })
        }
    } else if p.contains('/') {
        None
    } else {
        Some(ProblemView::MissingCommand(p))
    }
}

/// The problem that a missing command shows.
pub open spec fn command_missing_spec(c: Seq<char>) -> Option<ProblemView> {
    if contains_spec(c, "PKGBUILDDIR"@) {
        None
    } else if c == "./configure"@ {
        Some(ProblemView::MissingConfigure)
    } else if "./"@.is_prefix_of(c) || "../"@.is_prefix_of(c) {
        None
    } else if c == "debian/rules"@ {
        None
    } else {
        Some(ProblemView::MissingCommand(c))
    }
}

/// The problem that a missing node module shows.
pub open spec fn node_module_spec(m: Seq<char>) -> Option<ProblemView> {
    if "/<<PKGBUILDDIR>>/"@.is_prefix_of(m) || "./"@.is_prefix_of(m) {
        None
    } else {
        Some(ProblemView::MissingNodeModule(m))
    }
}

/// A dependency that is missing, named loosely.
pub open spec fn vague(name: Seq<char>) -> ProblemView {
    ProblemView::MissingVagueDependency {
        name,
        url: None,
        minimum_version: None,
        current_version: None,
    }
}

/// The artifacts of a comma-separated list, each trimmed.
pub open spec fn maven_artifacts_spec(text: Seq<char>) -> Seq<Seq<char>> {
    split_spec(text, ',').map_values(|a: Seq<char>| trim_spec(a))
}

/// The first package of a comma-separated list, without the quotes around it.
pub open spec fn r_package_spec(text: Seq<char>) -> Seq<char> {
    let first = if text.contains(',') {
        text.take(crate::text::first_char_index(text, ','))
    } else {
        text
    };
    trim_char_spec(trim_char_spec(trim_char_spec(first, '\u{2018}'), '\u{2019}'), '\'')
}

/// The minimum version that the requirements from index `k` on give: the version of
/// the first `>=` requirement, else that of the last `~>` one (`acc` so far).
pub open spec fn gem_version_spec(reqs: Seq<Seq<char>>, k: int, acc: Option<Seq<char>>) -> Option<Seq<char>>
    decreases reqs.len() - k,
{
    if k < 0 || k >= reqs.len() {
        acc
    } else {
        let t = trim_spec(reqs[k]);
        if t.contains(' ') {
            let i = crate::text::first_char_index(t, ' ');
            if t.take(i) == ">="@ {
                Some(t.skip(i + 1))
            } else if t.take(i) == "~>"@ {
                gem_version_spec(reqs, k + 1, Some(t.skip(i + 1)))
            } else {
                gem_version_spec(reqs, k + 1, acc)
            }
        } else {
            gem_version_spec(reqs, k + 1, acc)
        }
    }
}

/// The artifacts of a comma-separated list, each trimmed.
pub fn maven_artifacts(text: &str) -> (r: Vec<String>)
    ensures
        r@.map_values(|s: String| s@) == maven_artifacts_spec(text@),
{
    let parts = split_char(text, ',');
    let ghost pv = parts@.map_values(|t: String| t@);
    let mut r: Vec<String> = Vec::new();
    let mut i: usize = 0;
    while i < parts.len()
        invariant
            pv == parts@.map_values(|t: String| t@),
            pv == split_spec(text@, ','),
            i <= parts@.len(),
            r@.map_values(|s: String| s@) == maven_artifacts_spec(text@).take(i as int),
        decreases parts.len() - i,
    {
        let ghost before = r@.map_values(|s: String| s@);
        assert(pv[i as int] == parts@[i as int]@);
        r.push(trim(parts[i].as_str()).to_string());
        assert(r@.map_values(|s: String| s@) =~= before.push(trim_spec(pv[i as int])));
        assert(maven_artifacts_spec(text@).take(i + 1) =~= maven_artifacts_spec(text@).take(i as int).push(
            trim_spec(pv[i as int]),
        ));
        i = i + 1;
    }
    assert(maven_artifacts_spec(text@).take(i as int) =~= maven_artifacts_spec(text@));
    r
}

/// The first package of a comma-separated list, without the quotes around it.
pub fn r_package(text: &str) -> (r: String)
    ensures
        r@ == r_package_spec(text@),
{
    let first = match crate::text::split_char_once(text, ',') {
        Some((head, _)) => head,
        None => text,
    };
    let a = crate::text::trim_matches(first, '\u{2018}');
    let b = crate::text::trim_matches(a, '\u{2019}');
    crate::text::trim_matches(b, '\'').to_string()
}

/// The minimum version that a comma-separated list of gem requirements gives: the
/// version of the first `>=` requirement, else that of the last `~>` one.
pub fn gem_version(text: &str) -> (r: Option<String>)
    ensures
        crate::problem::opt_view(r) == gem_version_spec(split_spec(text@, ','), 0, None),
{
    let parts = split_char(text, ',');
    let ghost pv = parts@.map_values(|t: String| t@);
    let mut found: Option<String> = None;
    let mut i: usize = 0;
    proof {
        reveal_strlit(">=");
        reveal_strlit("~>");
    }
    while i < parts.len()
        invariant
            pv == parts@.map_values(|t: String| t@),
            pv == split_spec(text@, ','),
            i <= parts@.len(),
            gem_version_spec(pv, 0, None) == gem_version_spec(pv, i as int, crate::problem::opt_view(found)),
        decreases parts.len() - i,
    {
        assert(pv[i as int] == parts@[i as int]@);
        let t = trim(parts[i].as_str());
        if let Some((cond, val)) = crate::text::split_char_once(t, ' ') {
            if str_eq(cond, ">=") {
                return Some(val.to_string());
            }
            if str_eq(cond, "~>") {
                found = Some(val.to_string());
            }
        }
        i = i + 1;
    }
    found
}

/// The problem that a callback makes of the groups of a match.
pub open spec fn callback_spec(cb: Callback, c: Seq<Option<Seq<char>>>) -> Option<ProblemView> {
    match cb {
        Callback::Nothing => None,
        Callback::NoSpace => Some(ProblemView::NoSpaceOnDevice),
        Callback::CommandNamed(name) => Some(ProblemView::MissingCommand(name@)),
        Callback::CommandGroup(g) => Some(ProblemView::MissingCommand(group(c, g as int))),
        Callback::FileNotFound(g) => file_not_found_spec(group(c, g as int)),
        Callback::FileNotFoundMaybeExecutable(g) => maybe_executable_spec(group(c, g as int)),
        Callback::InterpreterMissing(g) => interpreter_spec(group(c, g as int)),
        Callback::PkgConfigMissing(g) => pkg_config_spec(group(c, g as int)),
        Callback::CommandMissing(g) => command_missing_spec(group(c, g as int)),
        Callback::NodeModuleMissing(g) => node_module_spec(group(c, g as int)),
        Callback::VagueDependency(g) => Some(vague(group(c, g as int))),
        Callback::VagueDependencyWithUrl(g, u) => Some(
            ProblemView::MissingVagueDependency {
                name: group(c, g as int),
                url: Some(group(c, u as int)),
                minimum_version: None,
                current_version: None,
            },
        ),
        Callback::RPackage(g) => Some(
            ProblemView::MissingRPackage { package: group(c, g as int), minimum_version: None },
        ),
        Callback::FileGroup(g) => Some(ProblemView::MissingFile { path: group(c, g as int) }),
        Callback::MavenArtifacts(g) => Some(ProblemView::MissingMavenArtifacts(maven_artifacts_spec(group(c, g as int)))),
        Callback::RPackageList(g) => Some(
            ProblemView::MissingRPackage { package: r_package_spec(group(c, g as int)), minimum_version: None },
        ),
        Callback::RubyGem(g, v) => Some(
            ProblemView::MissingRubyGem {
                gem: group(c, g as int),
                version: gem_version_spec(split_spec(group(c, v as int), ','), 0, None),
            },
        ),
        Callback::Make(t) => Some(template_spec(t, c)),
        Callback::CMakeFile(g) => Some(
            ProblemView::CMakeFilesMissing { filenames: seq![cmake_file_spec(group(c, g as int))], version: None },
        ),
        Callback::WebpackFile(p, d) => webpack_spec(group(c, p as int), group(c, d as int)),
        Callback::PythonRequirement(g) => python_requirement_spec(group(c, g as int)),
        Callback::PythonModuleRun(e, g) => Some(
            ProblemView::MissingPythonModule {
                module: trim_spec(group(c, g as int)),
                python_version: python_version_spec(group(c, e as int)),
                minimum_version: None,
            },
        ),
        Callback::PythonDistribution(g, v) => Some(
            python_distribution_spec(
                group(c, g as int),
                match v {
                    Some(x) => python_major_spec(group(c, x as int)),
                    None => None,
                },
            ),
        ),
        Callback::PytestArguments(g) => pytest_arguments_spec(group(c, g as int)),
        Callback::DebhelperCompat(a, b) => match (parsed_i32(group(c, a as int)), parsed_i32(group(c, b as int))) {
            (Some(oldest_supported), Some(requested)) => Some(
                ProblemView::UnsupportedDebhelperCompatLevel { oldest_supported, requested },
            ),
            _ => None,
        },
        Callback::CompilerOutput(_) => None,
        Callback::Kind(k) => Some(ProblemView::Other { kind: k@ }),
    }
}

/// The `i32` that a text denotes, as `str::parse` reads it.
pub open spec fn parsed_i32(s: Seq<char>) -> Option<i32> {
    match crate::text::signed_value(s) {
        Some(v) => if i32::MIN <= v <= i32::MAX {
            Some(v as i32)
        } else {
            None
        },
        None => None,
    }
}

/// The part of `s` before the first occurrence of `c`.
pub fn before_char(s: &str, c: char) -> (r: &str)
    ensures
        r@ == take_until(s@, c),
{
    match crate::text::split_char_once(s, c) {
        Some((head, _)) => head,
        None => s,
    }
}

/// The name at the start of a requirement.
pub fn requirement_name(req: &str) -> (r: &str)
    ensures
        r@ == requirement_name_spec(req@),
{
    let a = before_char(req, ' ');
    let b = before_char(a, '<');
    let c = before_char(b, '>');
    let d = before_char(c, '=');
    let e = before_char(d, '!');
    let f = before_char(e, '~');
    let g = before_char(f, ';');
    let h = before_char(g, '[');
    before_char(h, '(')
}

/// A distribution name in its normal form.
pub fn normalized_name(name: &str) -> (r: String)
    ensures
        r@ == normalized_name_spec(name@),
{
    let a = crate::text::join(&split_char(name, '_'), "-");
    let b = crate::text::join(&split_char(a.as_str(), '.'), "-");
    to_lowercase(b.as_str())
}

/// The minimum version that a requirement states.
pub fn requirement_minimum(req: &str) -> (r: Option<String>)
    ensures
        crate::problem::opt_view(r) == requirement_minimum_spec(req@),
{
    match split_once(req, ">=") {
        Some((head, rest)) => {
            proof {
                let i = choose|i: int| first_occurrence(req@, ">="@, i);
                crate::autopkgtest::lemma_first_occurrence_unique(req@, ">="@, i, head@.len() as int);
                reveal_strlit(">=");
            }
            Some(trim(before_char(before_char(rest, ','), ';')).to_string())
        },
        None => None,
    }
}

/// The major version that an interpreter version names.
pub fn python_major(v: &str) -> (r: Option<i32>)
    ensures
        r == python_major_spec(v@),
{
    proof {
        reveal_strlit("");
    }
    if str_eq(v, "") {
        None
    } else {
        crate::text::parse_i32(before_char(v, '.'))
    }
}

/// The path that joining `path` onto the directory `dir` gives.
pub fn join_path(dir: &str, path: &str) -> (r: String)
    ensures
        r@ == join_path_spec(dir@, path@),
{
    if starts_with(path, "/") || dir.is_empty() {
        path.to_string()
    } else if crate::text::ends_with(dir, "/") {
        concat(dir, path)
    } else {
        let head = concat(dir, "/");
        concat(head.as_str(), path)
    }
}

/// The problem that a file that webpack could not resolve shows.
pub fn webpack_file_missing(path: &str, dir: &str) -> (r: Option<Problem>)
    ensures
        opt_problem_view(r) == webpack_spec(path@, dir@),
{
    let p = join_path(dir, path);
    if starts_with(p.as_str(), "/") && !(str_eq(p.as_str(), "/<<PKGBUILDDIR>>") || starts_with(
        p.as_str(),
        "/<<PKGBUILDDIR>>/",
    )) {
        Some(Problem::MissingFile { path: p })
    } else {
        None
    }
}

/// The name of a CMake file, with `.cmake` added when it lacks it.
pub fn cmake_file(name: &str) -> (r: String)
    ensures
        r@ == cmake_file_spec(name@),
{
    if crate::text::ends_with(name, ".cmake") {
        name.to_string()
    } else {
        concat(name, ".cmake")
    }
}

/// The problem that a Python 2 requirement shows.
pub fn python_requirement(expr: &str) -> (r: Option<Problem>)
    ensures
        opt_problem_view(r) == python_requirement_spec(expr@),
{
    if let Some((pkg, minimum)) = split_once(expr, ">=") {
        proof {
            let i = choose|i: int| first_occurrence(expr@, ">="@, i);
            crate::autopkgtest::lemma_first_occurrence_unique(expr@, ">="@, i, pkg@.len() as int);
            reveal_strlit(">=");
        }
        return Some(
            Problem::MissingPythonModule {
                module: trim(pkg).to_string(),
                python_version: Some(2),
                minimum_version: Some(trim(minimum).to_string()),
            },
        );
    }
    if !contains_char(expr, ' ') {
        return Some(Problem::MissingPythonModule { module: trim(expr).to_string(), python_version: Some(2), minimum_version: None });
    }
    None
}

/// The Python major version that an interpreter path names.
pub fn python_version(exec: &str) -> (r: Option<i32>)
    ensures
        r == python_version_spec(exec@),
{
    if crate::text::ends_with(exec, "python3") {
        Some(3)
    } else if crate::text::ends_with(exec, "python2") {
        Some(2)
    } else {
        None
    }
}

/// The problem that a path reported as not found shows.
pub fn file_not_found(path: &str) -> (r: Option<Problem>)
    ensures
        opt_problem_view(r) == file_not_found_spec(path@),
{
    if starts_with(path, "/") && !starts_with(path, "/<<PKGBUILDDIR>>") {
        return Some(Problem::MissingFile { path: path.to_string() });
    }
    if let Some(filename) = crate::text::strip_prefix(path, "/<<PKGBUILDDIR>>/") {
        return Some(Problem::MissingBuildFile { filename: filename.to_string() });
    }
    if str_eq(path, ".git/HEAD") {
        let mut vcs: Vec<String> = Vec::new();
        vcs.push("git".to_string());
        assert(crate::problem::vec_view(vcs) =~= seq!["git"@]);
        return Some(Problem::VcsControlDirectoryNeeded { vcs });
    }
    if str_eq(path, "CVS/Root") {
        let mut vcs: Vec<String> = Vec::new();
        vcs.push("cvs".to_string());
        assert(crate::problem::vec_view(vcs) =~= seq!["cvs"@]);
        return Some(Problem::VcsControlDirectoryNeeded { vcs });
    }
    if !contains_char(path, '/') {
        return Some(Problem::MissingBuildFile { filename: path.to_string() });
    }
    None
}

/// The problem that a path that may be a command, reported as not found, shows.
pub fn file_not_found_maybe_executable(p: &str) -> (r: Option<Problem>)
    ensures
        opt_problem_view(r) == maybe_executable_spec(p@),
{
    if starts_with(p, "/") && !starts_with(p, "/<<PKGBUILDDIR>>") {
        return Some(Problem::MissingFile { path: p.to_string() });
    }
    if !contains_char(p, '/') {
        return Some(Problem::MissingCommandOrBuildFile { filename: p.to_string() });
    }
    None
}

/// The problem that a missing interpreter shows.
pub fn interpreter_missing(p: &str) -> (r: Option<Problem>)
    ensures
        opt_problem_view(r) == interpreter_spec(p@),
{
    if starts_with(p, "/") {
        if contains(p, "PKGBUILDDIR") {
            return None;
        }
        return Some(Problem::MissingFile { path: p.to_string() });
    }
    if contains_char(p, '/') {
        return None;
    }
    Some(Problem::MissingCommand(p.to_string()))
}

/// The problem that a pkg-config expression shows.
pub fn pkg_config_missing(text: &str) -> (r: Option<Problem>)
    ensures
        opt_problem_view(r) == pkg_config_spec(text@),
{
    let expr = match crate::text::split_char_once(text, '\t') {
        Some((head, _)) => head,
        None => text,
    };
    assert(expr@ == (if text@.contains('\t') {
        text@.take(crate::text::first_char_index(text@, '\t'))
    } else {
        text@
    }));
    if let Some((pkg, minimum)) = split_once(expr, ">=") {
        proof {
            let i = choose|i: int| first_occurrence(expr@, ">="@, i);
            crate::autopkgtest::lemma_first_occurrence_unique(expr@, ">="@, i, pkg@.len() as int);
            reveal_strlit(">=");
        }
        return Some(
            Problem::MissingPkgConfig {
                module: trim(pkg).to_string(),
                minimum_version: Some(trim(minimum).to_string()),
            },
        );
    }
    if !contains_char(expr, ' ') {
        return Some(Problem::MissingPkgConfig { module: expr.to_string(), minimum_version: None });
    }
    None
}

/// The problem that a missing command shows.
pub fn command_missing(c: &str) -> (r: Option<Problem>)
    ensures
        opt_problem_view(r) == command_missing_spec(c@),
{
    if contains(c, "PKGBUILDDIR") {
        return None;
    }
    if str_eq(c, "./configure") {
        return Some(Problem::MissingConfigure);
    }
    if starts_with(c, "./") || starts_with(c, "../") {
        return None;
    }
    if str_eq(c, "debian/rules") {
        return None;
    }
    Some(Problem::MissingCommand(c.to_string()))
}

/// The problem that a missing node module shows.
pub fn node_module_missing(m: &str) -> (r: Option<Problem>)
    ensures
        opt_problem_view(r) == node_module_spec(m@),
{
    if starts_with(m, "/<<PKGBUILDDIR>>/") {
        return None;
    }
    if starts_with(m, "./") {
        return None;
    }
    Some(Problem::MissingNodeModule(m.to_string()))
}

/// A vaguely named missing dependency.
pub fn vague_dependency(name: String) -> (r: Problem)
    ensures
        r@ == vague(name@),
{
    Problem::MissingVagueDependency {
        name,
        url: None,
        minimum_version: None,
        current_version: None,
    }
}

/// Applies a callback to the groups of a match.
pub fn apply_callback(cb: &Callback, caps: &Vec<Option<String>>) -> (r: Option<Problem>)
    ensures
        opt_problem_view(r) == callback_spec(*cb, captures_view(caps@)),
{
    match cb {
        Callback::Nothing => None,
        Callback::NoSpace => Some(Problem::NoSpaceOnDevice),
        Callback::CommandNamed(name) => Some(Problem::MissingCommand((*name).to_string())),
        Callback::CommandGroup(g) => Some(Problem::MissingCommand(get_group(caps, *g))),
        Callback::FileNotFound(g) => file_not_found(get_group(caps, *g).as_str()),
        Callback::FileNotFoundMaybeExecutable(g) => file_not_found_maybe_executable(
            get_group(caps, *g).as_str(),
        ),
        Callback::InterpreterMissing(g) => interpreter_missing(get_group(caps, *g).as_str()),
        Callback::PkgConfigMissing(g) => pkg_config_missing(get_group(caps, *g).as_str()),
        Callback::CommandMissing(g) => command_missing(get_group(caps, *g).as_str()),
        Callback::NodeModuleMissing(g) => node_module_missing(get_group(caps, *g).as_str()),
        Callback::VagueDependency(g) => Some(vague_dependency(get_group(caps, *g))),
        Callback::VagueDependencyWithUrl(g, u) => Some(
            Problem::MissingVagueDependency {
                name: get_group(caps, *g),
                url: Some(get_group(caps, *u)),
                minimum_version: None,
                current_version: None,
            },
        ),
        Callback::RPackage(g) => Some(
            Problem::MissingRPackage { package: get_group(caps, *g), minimum_version: None },
        ),
        Callback::FileGroup(g) => Some(Problem::MissingFile { path: get_group(caps, *g) }),
        Callback::MavenArtifacts(g) => Some(Problem::MissingMavenArtifacts(maven_artifacts(get_group(caps, *g).as_str()))),
        Callback::RPackageList(g) => Some(
            Problem::MissingRPackage { package: r_package(get_group(caps, *g).as_str()), minimum_version: None },
        ),
        Callback::RubyGem(g, v) => Some(
            Problem::MissingRubyGem {
                gem: get_group(caps, *g),
                version: gem_version(get_group(caps, *v).as_str()),
            },
        ),
        Callback::Make(t) => Some(make_problem(t, caps)),
        Callback::CMakeFile(g) => {
            let mut filenames: Vec<String> = Vec::new();
            filenames.push(cmake_file(get_group(caps, *g).as_str()));
            assert(crate::problem::vec_view(filenames) =~= seq![cmake_file_spec(group(captures_view(caps@), *g as int))]);
            Some(Problem::CMakeFilesMissing { filenames, version: None })
        },
        Callback::WebpackFile(p, d) => webpack_file_missing(get_group(caps, *p).as_str(), get_group(caps, *d).as_str()),
        Callback::PythonRequirement(g) => python_requirement(get_group(caps, *g).as_str()),
        Callback::PythonModuleRun(e, g) => Some(
            Problem::MissingPythonModule {
                module: trim(get_group(caps, *g).as_str()).to_string(),
                python_version: python_version(get_group(caps, *e).as_str()),
                minimum_version: None,
            },
        ),
        Callback::PythonDistribution(g, v) => {
            let text = get_group(caps, *g);
            let req = before_char(text.as_str(), ';');
            let version = match v {
                Some(x) => python_major(get_group(caps, *x).as_str()),
                None => None,
            };
            let name = requirement_name(req);
            Some(
                Problem::MissingPythonDistribution {
                    distribution: normalized_name(name),
                    python_version: version,
                    minimum_version: requirement_minimum(req),
                },
            )
        },
        Callback::PytestArguments(g) => pytest_arguments(get_group(caps, *g).as_str()),
        Callback::DebhelperCompat(a, b) => {
            let x = get_group(caps, *a);
            let y = get_group(caps, *b);
            match (crate::text::parse_i32(x.as_str()), crate::text::parse_i32(y.as_str())) {
                (Some(oldest_supported), Some(requested)) => Some(
                    Problem::UnsupportedDebhelperCompatLevel { oldest_supported, requested },
                ),
                _ => None,
            }
        },
        Callback::CompilerOutput(_) => None,
        Callback::Kind(k) => Some(Problem::Other { kind: (*k).to_string() }),
    }
}

/// A matcher that applies a regular expression to single lines, and makes a problem of
/// the groups of a match through its callback.
#[derive(Debug, Clone)]
pub struct RegexLineMatcher {
    /// The regular expression to match against each line.
    pub regex: &'static str,
    /// How the groups of a match become a problem.
    pub callback: Callback,
}

/// The origin label of matches found by a regular-expression matcher.
pub open spec fn regex_origin(pattern: Seq<char>) -> Seq<char> {
    "direct regex ("@ + pattern + ")"@
}

/// What a regular-expression matcher finds on a line: `None` when the line does not
/// match, else the problem (if any) that the callback makes.
pub open spec fn line_problem_spec(m: RegexLineMatcher, line: Seq<char>) -> Option<Option<ProblemView>> {
    match regex_captures_spec(m.regex@, line) {
        Some(c) => Some(callback_spec(m.callback, c)),
        None => None,
    }
}

impl RegexLineMatcher {
    /// Creates a matcher from a regular expression and a callback.
    pub fn new(regex: &'static str, callback: Callback) -> (r: Self)
        ensures
            r.regex == regex,
            r.callback == callback,
    {
        RegexLineMatcher { regex, callback }
    }

    /// Whether a line matches the expression.
    pub fn matches_line(&self, line: &str) -> (r: bool)
        ensures
            r == regex_matches(self.regex@, line@),
    {
        regex_is_match(self.regex, line)
    }

    /// Tries the expression on a line: `Ok(None)` when it does not match, else the
    /// problem, if any, that the callback makes of the match.
    pub fn extract_from_line(&self, line: &str) -> (r: Result<Option<Option<Problem>>, Error>)
        ensures
            r matches Ok(v) && match v {
                Some(p) => line_problem_spec(*self, line@) == Some(opt_problem_view(p)),
                None => line_problem_spec(*self, line@) is None,
            },
    {
        match regex_captures(self.regex, line) {
            Some(c) => Ok(Some(apply_callback(&self.callback, &c))),
            None => Ok(None),
        }
    }

    /// The origin label of matches found by this matcher.
    fn origin(&self) -> (r: Origin)
        ensures
            r.0@ == regex_origin(self.regex@),
    {
        let a = concat("direct regex (", self.regex);
        Origin(concat(a.as_str(), ")"))
    }
}

/// Whether `r` is the finding that `spec` describes over `ls`.
pub open spec fn found_is(
    r: Option<(LogMatch, Option<Problem>)>,
    ls: Seq<Seq<char>>,
    spec: Option<(MatchSpec, Option<ProblemView>)>,
) -> bool {
    match (r, spec) {
        (Some((m, p)), Some((ms, ps))) => match_is(Some(m), ls, ms) && opt_problem_view(p) == ps,
        (None, None) => true,
        _ => false,
    }
}

/// What a regular-expression matcher finds at line `o`.
pub open spec fn regex_line_spec(m: RegexLineMatcher, ls: Seq<Seq<char>>, o: int) -> Option<
    (MatchSpec, Option<ProblemView>),
> {
    match line_problem_spec(m, ls[o]) {
        Some(p) => Some((MatchSpec::Single(o, regex_origin(m.regex@)), p)),
        None => None,
    }
}

/// What the first of the matchers from index `k` on that matches line `o` finds.
pub open spec fn regex_group_spec(ms: Seq<RegexLineMatcher>, ls: Seq<Seq<char>>, o: int, k: int) -> Option<
    (MatchSpec, Option<ProblemView>),
>
    decreases ms.len() - k,
{
    if k < 0 || k >= ms.len() {
        None
    } else {
        match regex_line_spec(ms[k], ls, o) {
            Some(r) => Some(r),
            None => regex_group_spec(ms, ls, o, k + 1),
        }
    }
}

/// The index of the first of the matchers `ms[k..]` whose expression matches `text`.
pub open spec fn first_rule(ms: Seq<RegexLineMatcher>, text: Seq<char>, k: int) -> Option<int>
    decreases ms.len() - k,
{
    if k < 0 || k >= ms.len() {
        None
    } else if regex_captures_spec(ms[k].regex@, text) is Some {
        Some(k)
    } else {
        first_rule(ms, text, k + 1)
    }
}

/// The first of the matchers `ms` whose expression matches `text`, with the groups of
/// the match.
pub fn first_matching_rule(ms: &Vec<RegexLineMatcher>, text: &str) -> (r: Option<(usize, Vec<Option<String>>)>)
    ensures
        match first_rule(ms@, text@, 0) {
            Some(k) => r matches Some((i, caps)) && i == k && regex_captures_spec(ms@[k].regex@, text@)
                == Some(captures_view(caps@)),
            None => r is None,
        },
        r matches Some((i, _)) ==> i < ms@.len(),
{
    let mut k: usize = 0;
    while k < ms.len()
        invariant
            k <= ms@.len(),
            first_rule(ms@, text@, 0) == first_rule(ms@, text@, k as int),
        decreases ms.len() - k,
    {
        match regex_captures(ms[k].regex, text) {
            Some(caps) => {
                return Some((k, caps));
            },
            None => {},
        }
        k = k + 1;
    }
    None
}

impl RegexLineMatcher {
    /// Tries the matcher on line `offset` of `lines`.
    pub fn extract_from_lines(&self, lines: &[&str], offset: usize) -> (r: Result<
        Option<(LogMatch, Option<Problem>)>,
        Error,
    >)
        requires
            offset < lines@.len(),
        ensures
            r matches Ok(v) && found_is(v, lines_view(lines@), regex_line_spec(*self, lines_view(lines@), offset as int)),
    {
        let line = lines[offset];
        assert(lines_view(lines@)[offset as int] == line@);
        match regex_captures(self.regex, line) {
            Some(c) => {
                let p = apply_callback(&self.callback, &c);
                let m = SingleLineMatch { origin: self.origin(), offset, line: line.to_string() };
                Ok(Some((LogMatch::Single(m), p)))
            },
            None => Ok(None),
        }
    }

    /// Tries the matcher on line `offset` of `lines` with its expression compiled
    /// beforehand: the same finding as [`RegexLineMatcher::extract_from_lines`].
    pub fn extract_with(&self, compiled: &CompiledRegex, lines: &[&str], offset: usize) -> (r: Option<
        (LogMatch, Option<Problem>),
    >)
        requires
            offset < lines@.len(),
            compiled.pattern() == self.regex@,
        ensures
            found_is(r, lines_view(lines@), regex_line_spec(*self, lines_view(lines@), offset as int)),
    {
        let line = lines[offset];
        assert(lines_view(lines@)[offset as int] == line@);
        match compiled_captures(compiled, line) {
            Some(c) => {
                let p = apply_callback(&self.callback, &c);
                let m = SingleLineMatch { origin: self.origin(), offset, line: line.to_string() };
                Some((LogMatch::Single(m), p))
            },
            None => None,
        }
    }
}

/// Tries each of `ms` in turn on line `offset`, and returns what the first that
/// matches finds.
pub fn extract_with_regexes(ms: &Vec<RegexLineMatcher>, lines: &[&str], offset: usize) -> (r: Option<
    (LogMatch, Option<Problem>),
>)
    requires
        offset < lines@.len(),
    ensures
        found_is(r, lines_view(lines@), regex_group_spec(ms@, lines_view(lines@), offset as int, 0)),
{
    let mut k: usize = 0;
    while k < ms.len()
        invariant
            offset < lines@.len(),
            k <= ms@.len(),
            regex_group_spec(ms@, lines_view(lines@), offset as int, 0) == regex_group_spec(
                ms@,
                lines_view(lines@),
                offset as int,
                k as int,
            ),
        decreases ms.len() - k,
    {
        match ms[k].extract_from_lines(lines, offset) {
            Ok(Some(found)) => {
                return Some(found);
            },
            _ => {},
        }
        k = k + 1;
    }
    None
}

/// The matchers for the lines that follow `configure: error:`.
pub open spec fn configure_line_matchers() -> Seq<RegexLineMatcher> {
    seq![
        RegexLineMatcher {
            regex: r"^\s*Unable to find (.*) \(http(.*)\)",
            callback: Callback::VagueDependencyWithUrl(1, 2),
        },
        RegexLineMatcher { regex: r"^\s*Unable to find (.*)\.", callback: Callback::VagueDependency(1) },
    ]
}

/// The matchers for the lines that follow `configure: error:`.
pub fn configure_line_table() -> (r: Vec<RegexLineMatcher>)
    ensures
        r@ == configure_line_matchers(),
{
    let mut v: Vec<RegexLineMatcher> = Vec::new();
    v.push(
        RegexLineMatcher {
            regex: r"^\s*Unable to find (.*) \(http(.*)\)",
            callback: Callback::VagueDependencyWithUrl(1, 2),
        },
    );
    v.push(RegexLineMatcher { regex: r"^\s*Unable to find (.*)\.", callback: Callback::VagueDependency(1) });
    assert(v@ =~= configure_line_matchers());
    v
}

} // verus!
