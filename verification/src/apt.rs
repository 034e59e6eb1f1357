//! Detection of apt and dpkg failures in build logs.
use vstd::prelude::*;
use crate::common::outcome_is;
use crate::logmatch::{
    lines_view, LogMatch, MatchSpec, MultiLineMatch, SingleLineMatch, match_is,
};
use crate::pattern::{
    captures_view, get_group, group, regex_captures, regex_captures_spec, regex_is_match,
    regex_matches,
};
use crate::cudf::{Reason, Report};
use crate::problem::{opt_problem_view, opt_view, vec_view, Problem, ProblemView};
use crate::text::{
    concat, contains, contains_spec, ends_with, starts_with, str_eq, trim, trim_end_char_spec,
    trim_end_matches, trim_spec,
};

verus! {

/// The origin label of matches found by an expression.
pub open spec fn direct_regex() -> Seq<char> {
    "direct regex"@
}

/// The origin label of matches found by comparing a whole line.
pub open spec fn direct_match() -> Seq<char> {
    "direct match"@
}

/// What one line of apt output decides while the log is searched backwards.
pub enum AptStep {
    /// The search ends with this match and problem.
    Done(MatchSpec, Option<ProblemView>),
    /// The search goes on; the flag tells whether the line is an `E: ` line.
    Next(bool),
}

/// The packages that the dependency lines above a held-broken-packages line name,
/// read upwards from index `j`, each with its index.
pub open spec fn broken_scan(ls: Seq<Seq<char>>, j: int) -> Seq<(int, Seq<char>)>
    decreases j + 1,
{
    if j < 0 || j >= ls.len() {
        Seq::empty()
    } else if regex_captures_spec(
        r"\s*Depends: (.*) but it is not (going to be installed|installable)"@,
        ls[j],
    ) is Some {
        let c = regex_captures_spec(
            r"\s*Depends: (.*) but it is not (going to be installed|installable)"@,
            ls[j],
        ).unwrap();
        seq![(j, group(c, 1))] + broken_scan(ls, j - 1)
    } else if regex_captures_spec(
        r"\s*(.*) : Depends: (.*) but it is not (going to be installed|installable)"@,
        ls[j],
    ) is Some {
        let c = regex_captures_spec(
            r"\s*(.*) : Depends: (.*) but it is not (going to be installed|installable)"@,
            ls[j],
        ).unwrap();
        seq![(j, group(c, 2))] + broken_scan(ls, j - 1)
    } else {
        Seq::empty()
    }
}

/// What line `i` decides, by the rules that follow the `E: ` fallback.
pub open spec fn apt_late_step(ls: Seq<Seq<char>>, i: int, line: Seq<char>) -> AptStep {
    let fallback = "E: "@.is_prefix_of(line);
    if regex_captures_spec(r"E: Unable to locate package (.*)"@, line) is Some {
        let c = regex_captures_spec(r"E: Unable to locate package (.*)"@, line).unwrap();
        AptStep::Done(
            MatchSpec::Single(i, direct_regex()),
            Some(ProblemView::AptPackageUnknown(group(c, 1))),
        )
    } else if line == "E: Write error - write (28: No space left on device)"@ {
        AptStep::Done(MatchSpec::Single(i, direct_regex()), Some(ProblemView::NoSpaceOnDevice))
    } else if regex_captures_spec(r"dpkg: error: (.*)"@, line) is Some {
        let msg = group(regex_captures_spec(r"dpkg: error: (.*)"@, line).unwrap(), 1);
        if ": No space left on device"@.is_suffix_of(msg) {
            AptStep::Done(
                MatchSpec::Single(i, direct_regex()),
                Some(ProblemView::NoSpaceOnDevice),
            )
        } else {
            AptStep::Done(MatchSpec::Single(i, direct_regex()), Some(ProblemView::DpkgError(msg)))
        }
    } else if regex_captures_spec(r"dpkg: error processing package (.*) \((.*)\):"@, line) is Some
        && i + 1 < ls.len() {
        let c = regex_captures_spec(r"dpkg: error processing package (.*) \((.*)\):"@, line).unwrap();
        AptStep::Done(
            MatchSpec::Single(i + 1, direct_regex()),
            Some(
                ProblemView::DpkgError(
                    "processing package "@ + group(c, 1) + " ("@ + group(c, 2) + ")"@,
                ),
            ),
        )
    } else {
        AptStep::Next(fallback)
    }
}

/// What line `i` of the log decides while it is searched backwards.
pub open spec fn apt_step(ls: Seq<Seq<char>>, i: int) -> AptStep {
    let line = trim_end_char_spec(ls[i], '\n');
    if "E: Failed to fetch "@.is_prefix_of(line) {
        match regex_captures_spec("^E: Failed to fetch ([^ ]+)  (.*)"@, line) {
            Some(c) => AptStep::Done(
                MatchSpec::Single(i, direct_regex()),
                Some(
                    if contains_spec(group(c, 2), "No space left on device"@) {
                        ProblemView::NoSpaceOnDevice
                    } else {
                        ProblemView::AptFetchFailure {
                            url: Some(group(c, 1)),
                            error: group(c, 2),
                        }
                    },
                ),
            ),
            None => AptStep::Done(MatchSpec::Single(i, direct_regex()), None),
        }
    } else if line == "E: Broken packages"@ && i >= 1 {
        AptStep::Done(
            MatchSpec::Single(i - 1, direct_match()),
            Some(
                ProblemView::AptBrokenPackages { description: trim_spec(ls[i - 1]), broken: None },
            ),
        )
    } else if line == "E: Unable to correct problems, you have held broken packages."@ && i
        >= 1 {
        let b = broken_scan(ls, i - 2);
        AptStep::Done(
            MatchSpec::Multi(b.map_values(|e: (int, Seq<char>)| e.0).push(i), direct_match()),
            Some(
                ProblemView::AptBrokenPackages {
                    description: trim_spec(ls[i]),
                    broken: Some(b.map_values(|e: (int, Seq<char>)| e.1)),
                },
            ),
        )
    } else if regex_captures_spec(
        "E: The repository '([^']+)' does not have a Release file."@,
        line,
    ) is Some {
        let c = regex_captures_spec(
            "E: The repository '([^']+)' does not have a Release file."@,
            line,
        ).unwrap();
        AptStep::Done(
            MatchSpec::Single(i, direct_regex()),
            Some(ProblemView::AptMissingReleaseFile(group(c, 1))),
        )
    } else if regex_matches(
        "dpkg-deb: error: unable to write file '(.*)': No space left on device"@,
        line,
    ) || regex_matches(r"E: You don't have enough free space in (.*)\."@, line) {
        AptStep::Done(MatchSpec::Single(i, direct_regex()), Some(ProblemView::NoSpaceOnDevice))
    } else {
        apt_late_step(ls, i, line)
    }
}

/// The first line from index `i` on that shows the device running out of space.
pub open spec fn apt_forward(ls: Seq<Seq<char>>, i: int) -> Option<int>
    decreases ls.len() - i,
{
    if i < 0 || i >= ls.len() {
        None
    } else if regex_matches(
        r" cannot copy extracted data for '(.*)' to '(.*)': failed to write \(No space left on device\)"@,
        ls[i],
    ) || regex_matches(r" .*: No space left on device"@, ls[i]) {
        Some(i)
    } else {
        apt_forward(ls, i + 1)
    }
}

/// The outcome once the backward search found nothing: a line showing the device out
/// of space, else the first `E: ` line met, else nothing.
pub open spec fn apt_after_back(ls: Seq<Seq<char>>, fallback: Option<int>) -> Option<
    (MatchSpec, Option<ProblemView>),
> {
    match apt_forward(ls, 0) {
        Some(k) => Some((MatchSpec::Single(k, direct_regex()), Some(ProblemView::NoSpaceOnDevice))),
        None => match fallback {
            Some(k) => Some((MatchSpec::Single(k, direct_regex()), None)),
            None => None,
        },
    }
}

/// The outcome of searching backwards from index `i` down to index `stop`, with the
/// first `E: ` line met so far.
pub open spec fn apt_back(ls: Seq<Seq<char>>, i: int, stop: int, fallback: Option<int>) -> Option<
    (MatchSpec, Option<ProblemView>),
>
    decreases i - stop + 1,
{
    if i < stop || i < 0 {
        apt_after_back(ls, fallback)
    } else {
        match apt_step(ls, i) {
            AptStep::Done(m, p) => Some((m, p)),
            AptStep::Next(fb) => apt_back(
                ls,
                i - 1,
                stop,
                if fb && fallback is None {
                    Some(i)
                } else {
                    fallback
                },
            ),
        }
    }
}

/// Whether `pkg` is the dependency that a dependency line of apt names after `Depends:`:
/// the first group of `\s*Depends: (.*) but it is not (going to be installed|installable)`
/// on the line, or, where that does not match, the second group of
/// `\s*(.*) : Depends: (.*) but it is not (going to be installed|installable)` (the first
/// group there being the package that depends on it).
pub open spec fn names_dependency(line: Seq<char>, pkg: Seq<char>) -> bool {
    match regex_captures_spec(
        r"\s*Depends: (.*) but it is not (going to be installed|installable)"@,
        line,
    ) {
        Some(c) => pkg == group(c, 1),
        None => match regex_captures_spec(
            r"\s*(.*) : Depends: (.*) but it is not (going to be installed|installable)"@,
            line,
        ) {
            Some(c) => pkg == group(c, 2),
            None => false,
        },
    }
}

/// The upward read of dependency lines from `j` takes consecutive lines, each with the
/// dependency it names.
proof fn lemma_broken_scan_names(ls: Seq<Seq<char>>, j: int)
    ensures
        forall|k: int|
            #![trigger broken_scan(ls, j)[k]]
            0 <= k < broken_scan(ls, j).len() ==> broken_scan(ls, j)[k].0 == j - k && 0 <= j - k
                < ls.len() && names_dependency(ls[j - k], broken_scan(ls, j)[k].1),
        j < ls.len() ==> (j - broken_scan(ls, j).len() < 0 || !is_dependency_line(
            ls[j - broken_scan(ls, j).len()],
        )),
    decreases j + 1,
{
    if j >= 0 && j < ls.len() {
        lemma_broken_scan_names(ls, j - 1);
        let b = broken_scan(ls, j);
        let rest = broken_scan(ls, j - 1);
        assert forall|k: int| #![trigger b[k]] 0 <= k < b.len() implies b[k].0 == j - k && 0 <= j - k
            < ls.len() && names_dependency(ls[j - k], b[k].1) by {
            if k > 0 {
                assert(b[k] == rest[k - 1]);
            }
        }
    }
}

/// What the backward search finds about held broken packages reads the dependency lines.
proof fn lemma_apt_back_broken(ls: Seq<Seq<char>>, i: int, stop: int, fallback: Option<int>)
    requires
        i < ls.len(),
    ensures
        match apt_back(ls, i, stop, fallback) {
            Some(
                (
                    MatchSpec::Multi(offs, _),
                    Some(ProblemView::AptBrokenPackages { description: d, broken: Some(b) }),
                ),
            ) => held_broken_reads_dependencies(ls, offs, d, b),
            _ => true,
        },
    decreases i - stop + 1,
{
    if i < stop || i < 0 {
    } else {
        match apt_step(ls, i) {
            AptStep::Done(m, p) => {
                let line = trim_end_char_spec(ls[i], '\n');
                if line == "E: Unable to correct problems, you have held broken packages."@ && i >= 1
                    && !("E: Failed to fetch "@.is_prefix_of(line)) && !(line == "E: Broken packages"@) {
                    let bs = broken_scan(ls, i - 2);
                    lemma_broken_scan_names(ls, i - 2);
                    let offs = bs.map_values(|e: (int, Seq<char>)| e.0).push(i);
                    let b = bs.map_values(|e: (int, Seq<char>)| e.1);
                    assert forall|k: int| 0 <= k < b.len() implies offs[k] == i - 2 - k && 0 <= offs[k]
                        < ls.len() && names_dependency(ls[offs[k]], #[trigger] b[k]) by {
                        assert(bs[k].0 == i - 2 - k);
                    }
                    assert(offs.last() == i);
                    assert(b.len() == bs.len());
                }
            },
            AptStep::Next(fb) => {
                lemma_apt_back_broken(
                    ls,
                    i - 1,
                    stop,
                    if fb && fallback is None {
                        Some(i)
                    } else {
                        fallback
                    },
                );
            },
        }
    }
}

/// Whether a line names a dependency after `Depends:` in either form.
pub open spec fn is_dependency_line(line: Seq<char>) -> bool {
    ||| regex_captures_spec(
        r"\s*Depends: (.*) but it is not (going to be installed|installable)"@,
        line,
    ) is Some
    ||| regex_captures_spec(
        r"\s*(.*) : Depends: (.*) but it is not (going to be installed|installable)"@,
        line,
    ) is Some
}

/// Whether the match lines `offs`, the description `d` and the packages `b` of a
/// held-broken-packages failure read the log: the last match line is the failure's own
/// line and `d` is that line trimmed; before it comes one match line per package, the
/// package lines being consecutive lines going upwards from two lines above the failure,
/// each package being the dependency its line names after `Depends:`; and the line above
/// the last of them names no dependency (or there is none).
pub open spec fn held_broken_reads_dependencies(
    ls: Seq<Seq<char>>,
    offs: Seq<int>,
    d: Seq<char>,
    b: Seq<Seq<char>>,
) -> bool {
    let i = offs.last();
    &&& offs.len() == b.len() + 1
    &&& 1 <= i < ls.len()
    &&& trim_end_char_spec(ls[i], '\n') == "E: Unable to correct problems, you have held broken packages."@
    &&& d == trim_spec(ls[i])
    &&& forall|k: int|
        0 <= k < b.len() ==> offs[k] == i - 2 - k && 0 <= offs[k] < ls.len() && names_dependency(
            ls[offs[k]],
            #[trigger] b[k],
        )
    &&& (i - 2 - b.len() < 0 || !is_dependency_line(ls[i - 2 - b.len()]))
}

/// When apt gives up because of held broken packages, the description is the failure
/// line, and every package reported is the dependency named after `Depends:` on a
/// dependency line above the failure (not the words that say why it cannot be
/// installed), one package per matched line, in the order the lines are read upwards,
/// the reading stopping at the first line that names no dependency.
pub proof fn law_held_broken_packages_are_dependencies(ls: Seq<Seq<char>>)
    ensures
        match apt_failure_spec(ls) {
            Some(
                (
                    MatchSpec::Multi(offs, _),
                    Some(ProblemView::AptBrokenPackages { description: d, broken: Some(b) }),
                ),
            ) => held_broken_reads_dependencies(ls, offs, d, b),
            _ => true,
        },
{
    lemma_apt_back_broken(ls, ls.len() - 1, apt_stop(ls.len() as int), None);
}

/// Whether the apt failure `p` found at line `j` reads that line: a fetch failure names
/// the URL and the error that follow `E: Failed to fetch `, a repository without a
/// Release file is the one quoted on the line, and an unknown package is the one apt
/// could not locate.
pub open spec fn apt_problem_reads_line(ls: Seq<Seq<char>>, j: int, p: ProblemView) -> bool {
    let line = trim_end_char_spec(ls[j], '\n');
    match p {
        ProblemView::AptFetchFailure { url, error } => {
            &&& 0 <= j < ls.len()
            &&& regex_captures_spec("^E: Failed to fetch ([^ ]+)  (.*)"@, line) matches Some(c)
            &&& url == Some(group(c, 1))
            &&& error == group(c, 2)
        },
        ProblemView::AptMissingReleaseFile(repo) => {
            &&& 0 <= j < ls.len()
            &&& regex_captures_spec(
                "E: The repository '([^']+)' does not have a Release file."@,
                line,
            ) matches Some(c)
            &&& repo == group(c, 1)
        },
        ProblemView::AptPackageUnknown(pkg) => {
            &&& 0 <= j < ls.len()
            &&& regex_captures_spec(r"E: Unable to locate package (.*)"@, line) matches Some(c)
            &&& pkg == group(c, 1)
        },
        _ => true,
    }
}

/// What the backward search finds at a single line reads that line.
proof fn lemma_apt_back_reads_line(ls: Seq<Seq<char>>, i: int, stop: int, fallback: Option<int>)
    requires
        i < ls.len(),
    ensures
        match apt_back(ls, i, stop, fallback) {
            Some((MatchSpec::Single(j, _), Some(p))) => apt_problem_reads_line(ls, j, p),
            _ => true,
        },
    decreases i - stop + 1,
{
    if i < stop || i < 0 {
    } else {
        match apt_step(ls, i) {
            AptStep::Done(m, p) => {},
            AptStep::Next(fb) => {
                lemma_apt_back_reads_line(
                    ls,
                    i - 1,
                    stop,
                    if fb && fallback is None {
                        Some(i)
                    } else {
                        fallback
                    },
                );
            },
        }
    }
}

/// When apt fails to fetch a file, the URL and the error are the two parts of the line
/// after `E: Failed to fetch ` (the URL first); when a repository has no Release file, it
/// is the repository quoted on the line; when a package cannot be located, it is the
/// package named on the line.
pub proof fn law_apt_failure_reads_its_line(ls: Seq<Seq<char>>)
    ensures
        match apt_failure_spec(ls) {
            Some((MatchSpec::Single(j, _), Some(p))) => apt_problem_reads_line(ls, j, p),
            _ => true,
        },
{
    lemma_apt_back_reads_line(ls, ls.len() - 1, apt_stop(ls.len() as int), None);
}

/// The index that the backward search of the last 50 lines stops at.
pub open spec fn apt_stop(len: int) -> int {
    if len < 50 {
        0
    } else {
        len - 50
    }
}

/// The outcome of analysing apt output: the match and the problem, if any.
pub open spec fn apt_failure_spec(ls: Seq<Seq<char>>) -> Option<(MatchSpec, Option<ProblemView>)> {
    apt_back(ls, ls.len() - 1, apt_stop(ls.len() as int), None)
}

/// The exec form of a step.
enum AptStepResult {
    Done(LogMatch, Option<Problem>),
    Next(bool),
}

/// Whether an exec step is the step that the spec describes.
spec fn step_is(r: AptStepResult, ls: Seq<Seq<char>>, s: AptStep) -> bool {
    match (r, s) {
        (AptStepResult::Done(m, p), AptStep::Done(ms, ps)) => match_is(Some(m), ls, ms)
            && opt_problem_view(p) == ps,
        (AptStepResult::Next(a), AptStep::Next(b)) => a == b,
        _ => false,
    }
}

/// Reads the dependency lines above a held-broken-packages line, upwards from `j`.
fn collect_broken(lines: &Vec<&str>, j0: usize, count: usize) -> (r: (Vec<usize>, Vec<String>))
    requires
        count <= j0 + 1,
        j0 < lines@.len() || count == 0,
    ensures
        ({
            let b = broken_scan(lines_view(lines@), count as int - 1);
            &&& r.0@.len() == b.len()
            &&& r.1@.len() == b.len()
            &&& forall|k: int|
                #![trigger r.0@[k]]
                0 <= k < b.len() ==> r.0@[k] == b[k].0 && r.1@[k]@ == b[k].1
        }),
{
    let ghost ls = lines_view(lines@);
    let mut offsets: Vec<usize> = Vec::new();
    let mut broken: Vec<String> = Vec::new();
    let mut j = count;
    while j > 0
        invariant
            ls == lines_view(lines@),
            j <= count,
            count <= lines@.len(),
            ({
                let whole = broken_scan(ls, count as int - 1);
                let rest = broken_scan(ls, j as int - 1);
                &&& offsets@.len() == broken@.len()
                &&& offsets@.len() + rest.len() == whole.len()
                &&& forall|k: int|
                    #![trigger offsets@[k]]
                    0 <= k < offsets@.len() ==> offsets@[k] == whole[k].0 && broken@[k]@
                        == whole[k].1
                &&& forall|k: int|
                    #![trigger rest[k]]
                    0 <= k < rest.len() ==> rest[k] == whole[k + offsets@.len()]
            }),
        decreases j,
    {
        let i = j - 1;
        assert(ls[i as int] == lines@[i as int]@);
        let ghost whole = broken_scan(ls, count as int - 1);
        let ghost rest = broken_scan(ls, j as int - 1);
        let ghost n = offsets@.len();
        if let Some(c) = regex_captures(
            r"\s*Depends: (.*) but it is not (going to be installed|installable)",
            lines[i],
        ) {
            offsets.push(i);
            broken.push(get_group(&c, 1));
            proof {
                assert(rest == seq![(i as int, group(captures_view(c@), 1))] + broken_scan(
                    ls,
                    i - 1,
                ));
                assert(rest[0] == whole[0 + n as int]);
                assert forall|k: int|
                    #![trigger broken_scan(ls, i - 1)[k]]
                    0 <= k < broken_scan(ls, i - 1).len() implies broken_scan(ls, i - 1)[k]
                    == whole[k + offsets@.len()] by {
                    assert(broken_scan(ls, i - 1)[k] == rest[k + 1]);
                }
            }
            j = i;
            continue;
        }
        if let Some(c) = regex_captures(
            r"\s*(.*) : Depends: (.*) but it is not (going to be installed|installable)",
            lines[i],
        ) {
            offsets.push(i);
            broken.push(get_group(&c, 2));
            proof {
                assert(rest == seq![(i as int, group(captures_view(c@), 2))] + broken_scan(
                    ls,
                    i - 1,
                ));
                assert(rest[0] == whole[0 + n as int]);
                assert forall|k: int|
                    #![trigger broken_scan(ls, i - 1)[k]]
                    0 <= k < broken_scan(ls, i - 1).len() implies broken_scan(ls, i - 1)[k]
                    == whole[k + offsets@.len()] by {
                    assert(broken_scan(ls, i - 1)[k] == rest[k + 1]);
                }
            }
            j = i;
            continue;
        }
        assert(rest.len() == 0);
        j = 0;
    }
    assert(broken_scan(ls, -1).len() == 0);
    proof {
        lemma_broken_scan_range(ls, count as int - 1);
    }
    (offsets, broken)
}

/// The indices that the upward read of dependency lines yields lie between 0 and `j`.
proof fn lemma_broken_scan_range(ls: Seq<Seq<char>>, j: int)
    ensures
        forall|k: int|
            #![trigger broken_scan(ls, j)[k]]
            0 <= k < broken_scan(ls, j).len() ==> 0 <= broken_scan(ls, j)[k].0 <= j,
    decreases j + 1,
{
    if j >= 0 && j < ls.len() {
        lemma_broken_scan_range(ls, j - 1);
        let b = broken_scan(ls, j);
        let rest = broken_scan(ls, j - 1);
        assert forall|k: int| #![trigger b[k]] 0 <= k < b.len() implies 0 <= b[k].0 <= j by {
            if k > 0 && b.len() > 0 {
                assert(b[k] == rest[k - 1]);
            }
        }
    }
}

/// What line `i` decides, by the rules that follow the `E: ` fallback.
fn apt_late(lines: &Vec<&str>, i: usize, line: &str) -> (r: AptStepResult)
    requires
        i < lines@.len(),
    ensures
        step_is(r, lines_view(lines@), apt_late_step(lines_view(lines@), i as int, line@)),
{
    let fallback = starts_with(line, "E: ");
    if let Some(c) = regex_captures(r"E: Unable to locate package (.*)", line) {
        let m = SingleLineMatch::from_lines(lines.as_slice(), i, Some("direct regex"));
        return AptStepResult::Done(
            LogMatch::Single(m),
            Some(Problem::AptPackageUnknown(get_group(&c, 1))),
        );
    }
    if str_eq(line, "E: Write error - write (28: No space left on device)") {
        let m = SingleLineMatch::from_lines(lines.as_slice(), i, Some("direct regex"));
        return AptStepResult::Done(LogMatch::Single(m), Some(Problem::NoSpaceOnDevice));
    }
    if let Some(c) = regex_captures(r"dpkg: error: (.*)", line) {
        let msg = get_group(&c, 1);
        let m = SingleLineMatch::from_lines(lines.as_slice(), i, Some("direct regex"));
        if ends_with(msg.as_str(), ": No space left on device") {
            return AptStepResult::Done(LogMatch::Single(m), Some(Problem::NoSpaceOnDevice));
        }
        return AptStepResult::Done(LogMatch::Single(m), Some(Problem::DpkgError(msg)));
    }
    if i < lines.len() - 1 {
        if let Some(c) = regex_captures(r"dpkg: error processing package (.*) \((.*)\):", line) {
            let pkg = get_group(&c, 1);
            let msg = get_group(&c, 2);
            let a = concat("processing package ", pkg.as_str());
            let b = concat(a.as_str(), " (");
            let d = concat(b.as_str(), msg.as_str());
            let e = concat(d.as_str(), ")");
            let m = SingleLineMatch::from_lines(lines.as_slice(), i + 1, Some("direct regex"));
            return AptStepResult::Done(LogMatch::Single(m), Some(Problem::DpkgError(e)));
        }
    }
    AptStepResult::Next(fallback)
}

/// What line `i` of the log decides while it is searched backwards.
fn apt_line(lines: &Vec<&str>, i: usize) -> (r: AptStepResult)
    requires
        i < lines@.len(),
    ensures
        step_is(r, lines_view(lines@), apt_step(lines_view(lines@), i as int)),
{
    let ghost ls = lines_view(lines@);
    assert(ls[i as int] == lines@[i as int]@);
    let line = trim_end_matches(lines[i], '\n');
    if starts_with(line, "E: Failed to fetch ") {
        let m = SingleLineMatch::from_lines(lines.as_slice(), i, Some("direct regex"));
        if let Some(c) = regex_captures("^E: Failed to fetch ([^ ]+)  (.*)", line) {
            let pkg = get_group(&c, 1);
            let msg = get_group(&c, 2);
            let problem = if contains(msg.as_str(), "No space left on device") {
                Problem::NoSpaceOnDevice
            } else {
                Problem::AptFetchFailure { url: Some(pkg), error: msg }
            };
            return AptStepResult::Done(LogMatch::Single(m), Some(problem));
        }
        return AptStepResult::Done(LogMatch::Single(m), None);
    }
    if i >= 1 && str_eq(line, "E: Broken packages") {
        assert(ls[i - 1] == lines@[i - 1]@);
        let description = trim(lines[i - 1]).to_string();
        let m = SingleLineMatch::from_lines(lines.as_slice(), i - 1, Some("direct match"));
        return AptStepResult::Done(
            LogMatch::Single(m),
            Some(Problem::AptBrokenPackages { description, broken: None }),
        );
    }
    if i >= 1 && str_eq(line, "E: Unable to correct problems, you have held broken packages.") {
        let (mut offsets, broken) = collect_broken(lines, i - 1, i - 1);
        let ghost b = broken_scan(ls, i - 2);
        let ghost before = offsets@;
        let description = trim(lines[i]).to_string();
        offsets.push(i);
        assert forall|k: int| 0 <= k < offsets@.len() implies #[trigger] offsets@[k] < lines@.len() by {
            if k < before.len() {
                lemma_broken_scan_range(ls, i - 2);
                assert(before[k] == b[k].0);
                assert(b[k].0 <= i - 2);
            }
        }
        let mm = MultiLineMatch::from_lines(lines.as_slice(), offsets, Some("direct match"));
        let p = Problem::AptBrokenPackages { description, broken: Some(broken) };
        proof {
            assert(before.push(i) =~= mm.offsets@);
            assert(b.map_values(|e: (int, Seq<char>)| e.0).push(i as int).len() == mm.offsets@.len());
            assert forall|k: int|
                #![trigger mm.offsets@[k]]
                0 <= k < mm.offsets@.len() implies mm.offsets@[k] == b.map_values(
                    |e: (int, Seq<char>)| e.0,
                ).push(i as int)[k] by {
                if k < before.len() {
                    assert(before[k] == b[k].0);
                }
                assert(ls[mm.offsets@[k] as int] == lines@[mm.offsets@[k] as int]@);
            }
            assert forall|k: int| 0 <= k < broken@.len() implies #[trigger] broken@[k]@ == b[k].1 by {
                assert(before[k] == b[k].0);
            }
            assert(crate::problem::vec_view(broken) =~= b.map_values(|e: (int, Seq<char>)| e.1));
        }
        return AptStepResult::Done(LogMatch::Multi(mm), Some(p));
    }
    if let Some(c) = regex_captures("E: The repository '([^']+)' does not have a Release file.", line) {
        let m = SingleLineMatch::from_lines(lines.as_slice(), i, Some("direct regex"));
        return AptStepResult::Done(
            LogMatch::Single(m),
            Some(Problem::AptMissingReleaseFile(get_group(&c, 1))),
        );
    }
    if regex_is_match("dpkg-deb: error: unable to write file '(.*)': No space left on device", line)
        || regex_is_match(r"E: You don't have enough free space in (.*)\.", line) {
        let m = SingleLineMatch::from_lines(lines.as_slice(), i, Some("direct regex"));
        return AptStepResult::Done(LogMatch::Single(m), Some(Problem::NoSpaceOnDevice));
    }
    apt_late(lines, i, line)
}

/// Analyses apt output for the line that shows why it failed, and the problem.
///
/// The last 50 lines are searched backwards for a known failure; then all lines are
/// searched forwards for the device running out of space; failing that, the last
/// `E: ` line among the searched ones is the match, without a problem.
pub fn find_apt_get_failure(lines: Vec<&str>) -> (r: (Option<LogMatch>, Option<Problem>))
    ensures
        outcome_is(r, lines_view(lines@), apt_failure_spec(lines_view(lines@))),
{
    let ghost ls = lines_view(lines@);
    let len = lines.len();
    let stop: usize = if len < 50 { 0 } else { len - 50 };
    let mut fallback: Option<usize> = None;
    let mut n = len;
    while n > stop
        invariant
            ls == lines_view(lines@),
            len == lines@.len(),
            stop as int == apt_stop(len as int),
            stop <= n <= len,
            apt_back(ls, n - 1, stop as int, match fallback {
                Some(k) => Some(k as int),
                None => None,
            }) == apt_failure_spec(ls),
            fallback matches Some(k) ==> k < len,
        decreases n,
    {
        let i = n - 1;
        match apt_line(&lines, i) {
            AptStepResult::Done(m, p) => {
                return (Some(m), p);
            },
            AptStepResult::Next(fb) => {
                if fb && fallback.is_none() {
                    fallback = Some(i);
                }
            },
        }
        n = i;
    }
    let ghost fbv = match fallback {
        Some(f) => Some(f as int),
        None => None,
    };
    assert(apt_failure_spec(ls) == apt_after_back(ls, fbv));
    let mut k: usize = 0;
    while k < len
        invariant
            ls == lines_view(lines@),
            len == lines@.len(),
            k <= len,
            apt_forward(ls, 0) == apt_forward(ls, k as int),
            apt_failure_spec(ls) == apt_after_back(ls, fbv),
            fbv == match fallback {
                Some(f) => Some(f as int),
                None => None,
            },
            fallback matches Some(f) ==> f < len,
        decreases len - k,
    {
        assert(ls[k as int] == lines@[k as int]@);
        if regex_is_match(
            r" cannot copy extracted data for '(.*)' to '(.*)': failed to write \(No space left on device\)",
            lines[k],
        ) || regex_is_match(r" .*: No space left on device", lines[k]) {
            assert(apt_forward(ls, k as int) == Some(k as int));
            let m = SingleLineMatch::from_lines(lines.as_slice(), k, Some("direct regex"));
            return (Some(LogMatch::Single(m)), Some(Problem::NoSpaceOnDevice));
        }
        k = k + 1;
    }
    match fallback {
        Some(f) => {
            let m = SingleLineMatch::from_lines(lines.as_slice(), f, Some("direct regex"));
            (Some(LogMatch::Single(m)), None)
        },
        None => (None, None),
    }
}


/// The index of the first line from `i` on that starts the CUDF output of dose3.
pub open spec fn cudf_start(ls: Seq<Seq<char>>, i: int) -> Option<int>
    decreases ls.len() - i,
{
    if i < 0 || i >= ls.len() {
        None
    } else if "output-version:"@.is_prefix_of(ls[i]) {
        Some(i)
    } else {
        cudf_start(ls, i + 1)
    }
}

/// The index of the first blank line from `j` on (the end of the log if there is none).
pub open spec fn block_end(ls: Seq<Seq<char>>, j: int) -> int
    decreases ls.len() - j,
{
    if j < 0 || j >= ls.len() || trim_spec(ls[j]).len() == 0 {
        j
    } else {
        block_end(ls, j + 1)
    }
}

/// The lines `[start, end)` that hold the CUDF output of dose3: from the first
/// `output-version:` line down to the next blank line.
pub open spec fn cudf_output_spec(ls: Seq<Seq<char>>) -> Option<(int, int)> {
    match cudf_start(ls, 0) {
        Some(i) => Some((i, block_end(ls, i))),
        None => None,
    }
}

/// Finds the CUDF output of dose3 in a log: the offsets of its lines, and its text
/// (the lines joined by newlines), ready to be read as YAML.
pub fn find_cudf_output(lines: Vec<&str>) -> (r: Option<(Vec<usize>, String)>)
    ensures
        match cudf_output_spec(lines_view(lines@)) {
            Some((a, b)) => r matches Some((offsets, text)) && a <= b <= lines@.len() && offsets@.len()
                == b - a && (forall|k: int| 0 <= k < offsets@.len() ==> #[trigger] offsets@[k] == a + k)
                && text@ == crate::text::join_spec(lines_view(lines@).subrange(a, b), "\n"@),
            None => r is None,
        },
{
    let ghost ls = lines_view(lines@);
    let n = lines.len();
    let mut i: usize = 0;
    while i < n && !starts_with(lines[i], "output-version:")
        invariant
            ls == lines_view(lines@),
            n == lines@.len(),
            i <= n,
            cudf_start(ls, 0) == cudf_start(ls, i as int),
        decreases n - i,
    {
        assert(ls[i as int] == lines@[i as int]@);
        i = i + 1;
    }
    if i >= n {
        return None;
    }
    assert(ls[i as int] == lines@[i as int]@);
    let start = i;
    let mut offsets: Vec<usize> = Vec::new();
    let mut output: Vec<String> = Vec::new();
    while i < n && !crate::common::is_blank(lines[i])
        invariant
            ls == lines_view(lines@),
            n == lines@.len(),
            start <= i <= n,
            block_end(ls, start as int) == block_end(ls, i as int),
            offsets@.len() == i - start,
            forall|k: int| 0 <= k < offsets@.len() ==> #[trigger] offsets@[k] == start + k,
            output@.map_values(|s: String| s@) == ls.subrange(start as int, i as int),
        decreases n - i,
    {
        assert(ls[i as int] == lines@[i as int]@);
        offsets.push(i);
        let ghost before = output@.map_values(|s: String| s@);
        output.push(lines[i].to_string());
        assert(output@.map_values(|s: String| s@) =~= before.push(ls[i as int]));
        assert(ls.subrange(start as int, i + 1) =~= ls.subrange(start as int, i as int).push(ls[i as int]));
        i = i + 1;
    }
    if i < n {
        assert(ls[i as int] == lines@[i as int]@);
    }
    let text = crate::text::join(&output, "\n");
    Some((offsets, text))
}

/// The name of the section of an sbuild log in which the chroot is updated.
pub open spec fn update_section() -> Seq<char> {
    "update chroot"@
}

/// Looks for the failure of apt while the chroot was updated, given the lines of the
/// "update chroot" section of an sbuild log: the name of that section, and what
/// [`find_apt_get_failure`] finds in its lines.
pub fn find_apt_get_update_failure(section_lines: Vec<&str>) -> (r: (Option<String>, Option<LogMatch>, Option<Problem>))
    ensures
        r.0 matches Some(name) && name@ == update_section(),
        outcome_is((r.1, r.2), lines_view(section_lines@), apt_failure_spec(lines_view(section_lines@))),
{
    let (m, p) = find_apt_get_failure(section_lines);
    (Some("update chroot".to_string()), m, p)
}

/// The relation entry that `s` holds, written back as text, as the lossless parser of
/// `debian-control` reads it: `None` unless `s` holds exactly one entry.
pub uninterp spec fn entry_text_spec(s: Seq<char>) -> Option<Seq<char>>;

/// The entries of the relations field `s`, each written back as text, as the lossless
/// parser of `debian-control` reads them: `None` when `s` does not parse.
pub uninterp spec fn relation_entries_spec(s: Seq<char>) -> Option<Seq<Seq<char>>>;

/// Parses `s` as one relation entry (`debian_control::lossless::relations::Entry`
/// through `str::parse`) and writes it back (`ToString`).
#[verifier::external_body]
fn entry_text(s: &str) -> (r: Option<String>)
    ensures
        opt_view(r) == entry_text_spec(s@),
{
    s.parse::<::debian_control::lossless::relations::Entry>().ok().map(|e| e.to_string())
}

/// Parses `s` as a relations field (`debian_control::lossless::relations::Relations`
/// through `str::parse`) and writes each of its entries back (`Relations::entries`,
/// `ToString`).
#[verifier::external_body]
fn relation_entries(s: &str) -> (r: Option<Vec<String>>)
    ensures
        match r {
            Some(v) => relation_entries_spec(s@) == Some(vec_view(v)),
            None => relation_entries_spec(s@) is None,
        },
{
    let relations: ::debian_control::lossless::relations::Relations = s.parse().ok()?;
    Some(relations.entries().map(|e| e.to_string()).collect())
}

/// The dependency that a reason says is missing, as text.
pub open spec fn missing_text(r: Reason) -> Option<Seq<char>> {
    match r.missing {
        Some(m) => match m.pkg.unsat_dependency {
            Some(d) => entry_text_spec(d@),
            None => None,
        },
        None => None,
    }
}

/// The entries of the conflict that a reason names, as text.
pub open spec fn conflict_texts(r: Reason) -> Option<Seq<Seq<char>>> {
    match r.conflict {
        Some(c) => match c.pkg1.unsat_conflict {
            Some(d) => relation_entries_spec(d@),
            None => None,
        },
        None => None,
    }
}

/// Whether a reason can be read: its missing dependency parses as one entry, and its
/// conflict as a relations field.
pub open spec fn reason_readable(r: Reason) -> bool {
    &&& (r.missing is Some ==> missing_text(r) is Some)
    &&& (r.conflict is Some ==> conflict_texts(r) is Some)
}

/// The missing dependencies of the reasons, in order.
pub open spec fn all_missing(reasons: Seq<Reason>) -> Seq<Seq<char>>
    decreases reasons.len(),
{
    if reasons.len() == 0 {
        Seq::empty()
    } else {
        let rest = all_missing(reasons.drop_last());
        if reasons.last().missing is Some {
            rest.push(missing_text(reasons.last()).unwrap())
        } else {
            rest
        }
    }
}

/// The entries of the conflicts of the reasons, in order.
pub open spec fn all_conflicts(reasons: Seq<Reason>) -> Seq<Seq<char>>
    decreases reasons.len(),
{
    if reasons.len() == 0 {
        Seq::empty()
    } else {
        let rest = all_conflicts(reasons.drop_last());
        if reasons.last().conflict is Some {
            rest + conflict_texts(reasons.last()).unwrap()
        } else {
            rest
        }
    }
}

/// The name of the dummy package through which sbuild installs build dependencies.
pub open spec fn dummy_package() -> Seq<char> {
    "sbuild-build-depends-main-dummy"@
}

/// Whether dose3 reports can be read: a report on the dummy package alone, whose
/// reasons can all be read.
pub open spec fn dose3_readable(reports: Seq<Report>) -> bool {
    &&& reports.len() == 1
    &&& reports[0].package@ == dummy_package()
    &&& forall|k: int| 0 <= k < reports[0].reasons@.len() ==> #[trigger] reason_readable(reports[0].reasons@[k])
}

/// The problem that dose3 reports show: the missing dependencies when there are any,
/// else the conflicts, each list written as a relations field (its entries separated by
/// `, `, as `debian_control` writes a `Relations` made of entries).
pub open spec fn dose3_spec(reports: Seq<Report>) -> Option<ProblemView> {
    let reasons = reports[0].reasons@;
    if all_missing(reasons).len() > 0 {
        Some(ProblemView::UnsatisfiedAptDependencies(crate::text::join_spec(all_missing(reasons), ", "@)))
    } else if all_conflicts(reasons).len() > 0 {
        Some(ProblemView::UnsatisfiedAptConflicts(crate::text::join_spec(all_conflicts(reasons), ", "@)))
    } else {
        None
    }
}

/// The problem that dose3 reports show about the build dependencies: those that are
/// missing, else those that conflict.
pub fn error_from_dose3_reports(reports: &Vec<Report>) -> (r: Option<Problem>)
    requires
        dose3_readable(reports@),
    ensures
        opt_problem_view(r) == dose3_spec(reports@),
{
    let reasons = &reports[0].reasons;
    let mut missing: Vec<String> = Vec::new();
    let mut conflict: Vec<String> = Vec::new();
    let mut k: usize = 0;
    assert(reasons@.take(0) =~= Seq::<Reason>::empty());
    while k < reasons.len()
        invariant
            dose3_readable(reports@),
            reasons@ == reports@[0].reasons@,
            k <= reasons@.len(),
            vec_view(missing) == all_missing(reasons@.take(k as int)),
            vec_view(conflict) == all_conflicts(reasons@.take(k as int)),
        decreases reasons.len() - k,
    {
        let reason = &reasons[k];
        assert(reason_readable(reasons@[k as int]));
        assert(reasons@.take(k + 1).drop_last() =~= reasons@.take(k as int));
        assert(reasons@.take(k + 1).last() == reasons@[k as int]);
        if let Some(m) = &reason.missing {
            if let Some(d) = &m.pkg.unsat_dependency {
                if let Some(text) = entry_text(d.as_str()) {
                    let ghost before = vec_view(missing);
                    missing.push(text);
                    assert(vec_view(missing) =~= before.push(missing_text(*reason).unwrap()));
                }
            }
        }
        if let Some(c) = &reason.conflict {
            if let Some(d) = &c.pkg1.unsat_conflict {
                if let Some(mut texts) = relation_entries(d.as_str()) {
                    let ghost before = vec_view(conflict);
                    let ghost added = vec_view(texts);
                    conflict.append(&mut texts);
                    assert(vec_view(conflict) =~= before + added);
                }
            }
        }
        k = k + 1;
    }
    assert(reasons@.take(k as int) =~= reasons@);
    if missing.len() > 0 {
        return Some(Problem::UnsatisfiedAptDependencies(crate::text::join(&missing, ", ")));
    }
    if conflict.len() > 0 {
        return Some(Problem::UnsatisfiedAptConflicts(crate::text::join(&conflict, ", ")));
    }
    None
}

/// Like [`error_from_dose3_reports`], for any reports: `None` when they cannot be read
/// (not a report on the dummy package alone, or a reason that does not parse).
pub fn try_error_from_dose3_reports(reports: &Vec<Report>) -> (r: Option<Option<Problem>>)
    ensures
        r is Some <==> dose3_readable(reports@),
        r matches Some(p) ==> opt_problem_view(p) == dose3_spec(reports@),
{
    if reports.len() != 1 {
        return None;
    }
    if !str_eq(reports[0].package.as_str(), "sbuild-build-depends-main-dummy") {
        return None;
    }
    let reasons = &reports[0].reasons;
    let mut k: usize = 0;
    while k < reasons.len()
        invariant
            reports@.len() == 1,
            reasons@ == reports@[0].reasons@,
            k <= reasons@.len(),
            forall|j: int| 0 <= j < k ==> #[trigger] reason_readable(reasons@[j]),
        decreases reasons.len() - k,
    {
        let reason = &reasons[k];
        if let Some(m) = &reason.missing {
            match &m.pkg.unsat_dependency {
                Some(d) => {
                    if entry_text(d.as_str()).is_none() {
                        assert(!reason_readable(reports@[0].reasons@[k as int]));
                        return None;
                    }
                },
                None => {
                    assert(!reason_readable(reports@[0].reasons@[k as int]));
                    return None;
                },
            }
        }
        if let Some(c) = &reason.conflict {
            match &c.pkg1.unsat_conflict {
                Some(d) => {
                    if relation_entries(d.as_str()).is_none() {
                        assert(!reason_readable(reports@[0].reasons@[k as int]));
                        return None;
                    }
                },
                None => {
                    assert(!reason_readable(reports@[0].reasons@[k as int]));
                    return None;
                },
            }
        }
        k = k + 1;
    }
    Some(error_from_dose3_reports(reports))
}

} // verus!
