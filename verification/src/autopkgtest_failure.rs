//! The search for the failure in an autopkgtest log: the fields of test output that
//! the log is cut into, the error messages of autopkgtest itself, and the summary.
use vstd::prelude::*;
use crate::autopkgtest::{
    parsable_line, parse_autopkgtest_line, parse_line_spec, Field, Packet, PacketView,
};
use crate::apt::{apt_failure_spec, find_apt_get_failure};
use crate::autopkgtest::{
    blame_entries, deps_unsatisfiable_from_blame_line, find_testbed_setup_failure,
    lemma_extra_count_bound, parse_autopkgtest_summary, summary_from, testbed_scan, Summary,
    SummaryView, TestResult,
};
use crate::common::{build_failure_spec, find_build_failure_description};
use crate::logmatch::{
    last_offset, lemma_match_is_facts, lines_view, match_is, strings_view, LogMatch, Match,
    MatchSpec, SingleLineMatch,
};
use crate::pattern::{get_group, group, regex_captures, regex_captures_spec, regex_is_match, regex_matches};
use crate::problem::{opt_problem_view, opt_view, Problem, ProblemView};
use crate::text::{
    concat, count_char, count_char_spec, join, join_spec, starts_with, str_eq, strip_prefix,
    trim_end, trim_end_char_spec, trim_end_matches, trim_end_spec, trim_spec,
};

verus! {

/// The content of a [`Field`], with its texts as sequences of characters.
pub enum FieldView {
    Output(Seq<char>),
    FieldOutput(Seq<char>, Seq<char>),
    Stderr(Seq<char>),
    Results(Seq<char>),
    PrepareTestbed(Seq<char>),
    Summary,
}

impl View for Field {
    type V = FieldView;

    open spec fn view(&self) -> FieldView {
        match self {
            Field::Output(t) => FieldView::Output(t@),
            Field::FieldOutput(t, f) => FieldView::FieldOutput(t@, f@),
            Field::Stderr(t) => FieldView::Stderr(t@),
            Field::Results(t) => FieldView::Results(t@),
            Field::PrepareTestbed(t) => FieldView::PrepareTestbed(t@),
            Field::Summary => FieldView::Summary,
        }
    }
}

/// The test that a field belongs to, if any.
pub open spec fn field_test(f: FieldView) -> Option<Seq<char>> {
    match f {
        FieldView::Output(t) => Some(t),
        FieldView::FieldOutput(t, _) => Some(t),
        FieldView::Stderr(t) => Some(t),
        FieldView::Results(t) => Some(t),
        FieldView::PrepareTestbed(t) => Some(t),
        FieldView::Summary => None,
    }
}

/// Whether two fields are the same.
fn same_field(a: &Field, b: &Field) -> (r: bool)
    ensures
        r == (a@ == b@),
{
    match (a, b) {
        (Field::Output(x), Field::Output(y)) => str_eq(x.as_str(), y.as_str()),
        (Field::FieldOutput(x, f), Field::FieldOutput(y, g)) => str_eq(x.as_str(), y.as_str())
            && str_eq(f.as_str(), g.as_str()),
        (Field::Stderr(x), Field::Stderr(y)) => str_eq(x.as_str(), y.as_str()),
        (Field::Results(x), Field::Results(y)) => str_eq(x.as_str(), y.as_str()),
        (Field::PrepareTestbed(x), Field::PrepareTestbed(y)) => str_eq(x.as_str(), y.as_str()),
        (Field::Summary, Field::Summary) => true,
        _ => false,
    }
}

/// The lines collected for one field, and the index of the line after the one that
/// opened the field.
pub struct Collected {
    /// The field.
    pub field: Field,
    /// The lines of the field, in order.
    pub lines: Vec<String>,
    /// The index of the line after the one that opened the field.
    pub base: usize,
}

/// One collected field: the field, its lines and its base index.
pub type CollectedView = (FieldView, Seq<Seq<char>>, int);

/// The view of the collected fields.
pub open spec fn outputs_view(v: Seq<Collected>) -> Seq<CollectedView> {
    v.map_values(|c: Collected| (c.field@, strings_view(c.lines@), c.base as int))
}

/// The index of the first entry from `k` on that holds field `f`.
pub open spec fn find_field(outs: Seq<CollectedView>, f: FieldView, k: int) -> Option<int>
    decreases outs.len() - k,
{
    if k < 0 || k >= outs.len() {
        None
    } else if outs[k].0 == f {
        Some(k)
    } else {
        find_field(outs, f, k + 1)
    }
}

/// The lines of field `f` and its base index; no lines and base 0 when it was never
/// opened.
pub open spec fn output_of(outs: Seq<CollectedView>, f: FieldView) -> (Seq<Seq<char>>, int) {
    match find_field(outs, f, 0) {
        Some(k) => (outs[k].1, outs[k].2),
        None => (Seq::empty(), 0),
    }
}

/// The fields once `f` is opened (again) with no lines, at `base`.
pub open spec fn open_field(outs: Seq<CollectedView>, f: FieldView, base: int) -> Seq<CollectedView> {
    match find_field(outs, f, 0) {
        Some(k) => outs.update(k, (f, Seq::empty(), base)),
        None => outs.push((f, Seq::empty(), base)),
    }
}

/// The fields once `line`, at index `i`, is added to field `f`.
pub open spec fn add_line(outs: Seq<CollectedView>, f: FieldView, i: int, line: Seq<char>) -> Seq<
    CollectedView,
> {
    match find_field(outs, f, 0) {
        Some(k) => outs.update(k, (outs[k].0, outs[k].1.push(line), outs[k].2)),
        None => outs.push((f, seq![line], i)),
    }
}

/// The state of the walk over the log: the field that lines go to, and the fields
/// collected so far.
pub type ScanState = (Option<FieldView>, Seq<CollectedView>);

/// The packet that a line holds, if it holds one that can be parsed.
pub open spec fn line_packet(line: Seq<char>) -> Option<PacketView> {
    if parsable_line(line) {
        match parse_line_spec(line) {
            Some((_, p)) => Some(p),
            None => None,
        }
    } else {
        None
    }
}

/// The field that a packet opens, if any.
pub open spec fn opened_by(p: PacketView) -> Option<FieldView> {
    match p {
        PacketView::Summary => Some(FieldView::Summary),
        PacketView::TestBeginOutput(t) => Some(FieldView::Output(t)),
        PacketView::Results(t) => Some(FieldView::Results(t)),
        PacketView::Stderr(t) => Some(FieldView::Stderr(t)),
        PacketView::TestbedSetup(t) => Some(FieldView::PrepareTestbed(t)),
        PacketView::TestOutput(t, f) => Some(FieldView::FieldOutput(t, f)),
        _ => None,
    }
}

/// The state after line `i`: a packet that opens a field makes it current; the end of
/// a test's output leaves no current field; any other line goes to the current field.
pub open spec fn scan_step(st: ScanState, i: int, line: Seq<char>) -> ScanState {
    match line_packet(line) {
        Some(p) => match opened_by(p) {
            Some(f) => (Some(f), open_field(st.1, f, i + 1)),
            None => if p is TestEndOutput {
                (None, st.1)
            } else {
                st
            },
        },
        None => match st.0 {
            Some(f) => (st.0, add_line(st.1, f, i, line)),
            None => st,
        },
    }
}

/// The state after the first `n` lines.
pub open spec fn scan(ls: Seq<Seq<char>>, n: int) -> ScanState
    decreases n,
{
    if n <= 0 {
        (None, Seq::empty())
    } else {
        scan_step(scan(ls, n - 1), n - 1, ls[n - 1])
    }
}

/// The index of the first line from `i` on that holds an error message.
pub open spec fn first_error(ls: Seq<Seq<char>>, i: int) -> Option<int>
    decreases ls.len() - i,
{
    if i < 0 || i >= ls.len() {
        None
    } else if line_packet(ls[i]) matches Some(PacketView::Error(_)) {
        Some(i)
    } else {
        first_error(ls, i + 1)
    }
}

/// The view of an optional field.
pub open spec fn opt_field_view(f: Option<Field>) -> Option<FieldView> {
    match f {
        Some(x) => Some(x@),
        None => None,
    }
}

/// Every collected field's lines come before index `n`.
pub open spec fn within(outs: Seq<Collected>, n: int) -> bool {
    forall|k: int| 0 <= k < outs.len() ==> #[trigger] outs[k].base + outs[k].lines@.len() <= n
}

/// Where field `f` is among the collected fields.
fn find_collected(outs: &Vec<Collected>, f: &Field) -> (r: Option<usize>)
    ensures
        match r {
            Some(k) => find_field(outputs_view(outs@), f@, 0) == Some(k as int) && k < outs@.len(),
            None => find_field(outputs_view(outs@), f@, 0) is None,
        },
{
    let ghost ov = outputs_view(outs@);
    let mut k: usize = 0;
    while k < outs.len()
        invariant
            ov == outputs_view(outs@),
            k <= outs@.len(),
            find_field(ov, f@, 0) == find_field(ov, f@, k as int),
        decreases outs.len() - k,
    {
        if same_field(&outs[k].field, f) {
            return Some(k);
        }
        k = k + 1;
    }
    None
}

/// A copy of a field.
fn copy_field(f: &Field) -> (r: Field)
    ensures
        r@ == f@,
{
    f.copy()
}

/// Opens field `f` with no lines at `base`.
fn open_collected(outs: &mut Vec<Collected>, f: Field, base: usize, Ghost(n): Ghost<int>)
    requires
        within(old(outs)@, n),
        base <= n,
    ensures
        outputs_view(final(outs)@) == open_field(outputs_view(old(outs)@), f@, base as int),
        within(final(outs)@, n),
{
    let ghost before = outputs_view(outs@);
    let empty: Vec<String> = Vec::new();
    assert(strings_view(empty@) =~= Seq::<Seq<char>>::empty());
    match find_collected(outs, &f) {
        Some(k) => {
            let _ = outs.remove(k);
            outs.insert(k, Collected { field: f, lines: empty, base });
            assert(outputs_view(outs@) =~= before.update(k as int, (f@, Seq::empty(), base as int)));
        },
        None => {
            outs.push(Collected { field: f, lines: empty, base });
            assert(outputs_view(outs@) =~= before.push((f@, Seq::empty(), base as int)));
        },
    }
    assert forall|k: int| 0 <= k < outs@.len() implies #[trigger] outs@[k].base + outs@[k].lines@.len() <= n by {
        if outs@[k].lines@.len() > 0 {
            assert(outs@[k] == old(outs)@[k]);
        }
    }
}

/// Adds `line`, at index `i`, to field `f`.
fn add_collected(outs: &mut Vec<Collected>, f: &Field, i: usize, line: &str)
    requires
        within(old(outs)@, i as int),
    ensures
        outputs_view(final(outs)@) == add_line(outputs_view(old(outs)@), f@, i as int, line@),
        within(final(outs)@, i + 1),
{
    let ghost before = outputs_view(outs@);
    match find_collected(outs, f) {
        Some(k) => {
            let mut c = outs.remove(k);
            c.lines.push(line.to_string());
            assert(strings_view(c.lines@) =~= before[k as int].1.push(line@));
            outs.insert(k, c);
            assert(outputs_view(outs@) =~= before.update(
                k as int,
                (before[k as int].0, before[k as int].1.push(line@), before[k as int].2),
            ));
        },
        None => {
            let mut lines: Vec<String> = Vec::new();
            lines.push(line.to_string());
            assert(strings_view(lines@) =~= seq![line@]);
            outs.push(Collected { field: copy_field(f), lines, base: i });
            assert(outputs_view(outs@) =~= before.push((f@, seq![line@], i as int)));
        },
    }
    assert forall|k: int| 0 <= k < outs@.len() implies #[trigger] outs@[k].base + outs@[k].lines@.len() <= i + 1 by {
        if k < old(outs)@.len() && outs@[k] == old(outs)@[k] {
        }
    }
}

/// Walks the log up to its first error message (or its end), collecting the lines of
/// each field: returns where the walk stopped, the current field and the fields.
fn collect(lines: &Vec<&str>) -> (r: (usize, Option<Field>, Vec<Collected>))
    ensures
        r.0 <= lines@.len(),
        first_error(lines_view(lines@), 0) == (if r.0 < lines@.len() {
            Some(r.0 as int)
        } else {
            None
        }),
        (opt_field_view(r.1), outputs_view(r.2@)) == scan(lines_view(lines@), r.0 as int),
        within(r.2@, r.0 as int),
{
    let ghost ls = lines_view(lines@);
    let mut current: Option<Field> = None;
    let mut outs: Vec<Collected> = Vec::new();
    let mut i: usize = 0;
    assert(outputs_view(outs@) =~= Seq::<CollectedView>::empty());
    while i < lines.len()
        invariant
            ls == lines_view(lines@),
            i <= lines@.len(),
            first_error(ls, 0) == first_error(ls, i as int),
            (opt_field_view(current), outputs_view(outs@)) == scan(ls, i as int),
            within(outs@, i as int),
        decreases lines.len() - i,
    {
        let line = lines[i];
        assert(ls[i as int] == line@);
        let ghost st = scan(ls, i as int);
        assert(scan(ls, i + 1) == scan_step(st, i as int, line@));
        match parse_autopkgtest_line(line) {
            Some((_, p)) => {
                assert(line_packet(line@) == Some(p@));
                match p {
                    Packet::Error(_) => {
                        return (i, current, outs);
                    },
                    Packet::Summary => {
                        current = Some(Field::Summary);
                        open_collected(&mut outs, Field::Summary, i + 1, Ghost(i + 1));
                    },
                    Packet::TestBeginOutput(t) => {
                        current = Some(Field::Output(t.clone()));
                        open_collected(&mut outs, Field::Output(t), i + 1, Ghost(i + 1));
                    },
                    Packet::Results(t) => {
                        current = Some(Field::Results(t.clone()));
                        open_collected(&mut outs, Field::Results(t), i + 1, Ghost(i + 1));
                    },
                    Packet::Stderr(t) => {
                        current = Some(Field::Stderr(t.clone()));
                        open_collected(&mut outs, Field::Stderr(t), i + 1, Ghost(i + 1));
                    },
                    Packet::TestbedSetup(t) => {
                        current = Some(Field::PrepareTestbed(t.clone()));
                        open_collected(&mut outs, Field::PrepareTestbed(t), i + 1, Ghost(i + 1));
                    },
                    Packet::TestOutput(t, f) => {
                        current = Some(Field::FieldOutput(t.clone(), f.clone()));
                        open_collected(&mut outs, Field::FieldOutput(t, f), i + 1, Ghost(i + 1));
                    },
                    Packet::TestEndOutput(_) => {
                        current = None;
                    },
                    Packet::Source => {},
                    Packet::Other(_) => {},
                }
            },
            None => {
                assert(line_packet(line@) is None);
                match &current {
                    Some(f) => {
                        add_collected(&mut outs, f, i, line);
                    },
                    None => {},
                }
            },
        }
        i = i + 1;
    }
    (i, current, outs)
}


/// What the search finds: the match and the lines it indexes, the test, the problem and
/// a description.
pub type Finding = (MatchSpec, Seq<Seq<char>>, Option<Seq<char>>, Option<ProblemView>, Option<Seq<char>>);

/// The result of the search, as its parts are returned.
pub type Outcome = (Option<LogMatch>, Option<String>, Option<Problem>, Option<String>);

/// Whether `r` is what `f` describes (all parts absent when `f` is `None`).
pub open spec fn finding_is(r: Outcome, f: Option<Finding>) -> bool {
    match f {
        Some((ms, ctx, test, p, d)) => match_is(r.0, ctx, ms) && opt_view(r.1) == test
            && opt_problem_view(r.2) == p && opt_view(r.3) == d,
        None => r.0 is None && r.1 is None && r.2 is None && r.3 is None,
    }
}

/// A match of line `i` of the log, labelled as a direct match.
pub open spec fn direct(i: int) -> MatchSpec {
    MatchSpec::Single(i, "direct regex"@)
}

/// The test that the current field belongs to.
pub open spec fn last_test(st: ScanState) -> Option<Seq<char>> {
    match st.0 {
        Some(f) => field_test(f),
        None => None,
    }
}

/// What an analysis of `ctx` that found a problem gives: its match, and the line of
/// the match as the description.
pub open spec fn found_problem(
    fb: Option<(MatchSpec, Option<ProblemView>)>,
    ctx: Seq<Seq<char>>,
    test: Option<Seq<char>>,
) -> Option<Finding> {
    match fb {
        Some((ms, Some(p))) => Some((ms, ctx, test, Some(p), Some(ctx[last_offset(ms)]))),
        _ => None,
    }
}

/// Like [`found_problem`], with the match moved to the log: `ctx` starts at line
/// `base` of `ls`.
pub open spec fn found_problem_at(
    fb: Option<(MatchSpec, Option<ProblemView>)>,
    ctx: Seq<Seq<char>>,
    base: int,
    ls: Seq<Seq<char>>,
    test: Option<Seq<char>>,
) -> Option<Finding> {
    match fb {
        Some((ms, Some(p))) => Some(
            (direct(base + last_offset(ms)), ls, test, Some(p), Some(ctx[last_offset(ms)])),
        ),
        _ => None,
    }
}

/// The reason given when the command helper of the testbed failed.
pub open spec fn auxverb_failed() -> Seq<char> {
    "testbed auxverb failed with exit code 255"@
}

/// The reason given when copying the debug output off the testbed failed.
pub open spec fn copy_failed() -> Seq<char> {
    "sent `auxverb_debug_fail', got `copy-failed', expected `ok...'"@
}

/// The reason given when the testbed went away.
pub open spec fn broken_pipe() -> Seq<char> {
    "cannot send to testbed: [Errno 32] Broken pipe"@
}

/// The reason given when apt could not download packages.
pub open spec fn apt_download_failed() -> Seq<char> {
    "apt repeatedly failed to download packages"@
}

/// What a `testbed failure:` message with the given reason shows.
pub open spec fn testbed_outcome(
    ls: Seq<Seq<char>>,
    e: int,
    st: ScanState,
    reason: Seq<char>,
) -> Option<Finding> {
    let lt = last_test(st);
    let aux = if reason == auxverb_failed() && last_test(st) is Some {
        let f = FieldView::Output(last_test(st).unwrap());
        let (ol, ob) = output_of(st.1, f);
        found_problem_at(build_failure_spec(ol), ol, ob, ls, lt)
    } else {
        None
    };
    if aux is Some {
        aux
    } else if reason == copy_failed() && found_problem(build_failure_spec(ls), ls, lt) is Some {
        found_problem(build_failure_spec(ls), ls, lt)
    } else if reason == broken_pipe() && testbed_scan(ls, ls.len() as int) is Some {
        let (i, p) = testbed_scan(ls, ls.len() as int).unwrap();
        Some((direct(i), ls, lt, Some(p), Some(ls[i])))
    } else if reason == apt_download_failed() {
        match found_problem(apt_failure_spec(ls), ls, lt) {
            Some(f) => Some(f),
            None => Some(
                (
                    direct(e),
                    ls,
                    lt,
                    Some(ProblemView::AptFetchFailure { url: None, error: reason }),
                    None,
                ),
            ),
        }
    } else {
        Some((direct(e), ls, lt, Some(ProblemView::AutopkgtestTestbedFailure(reason)), None))
    }
}

/// The expression for a command that failed with output on stderr.
pub open spec fn stderr_failed_regex() -> Seq<char> {
    r#""(.*)" failed with stderr "(.*)("?)"#@
}

/// The expression for stderr output that shows the chroot went away.
pub open spec fn stat_failed_regex() -> Seq<char> {
    "W: (.*): Failed to stat file: No such file or directory"@
}

/// The expression for a testbed failure.
pub open spec fn testbed_failure_regex() -> Seq<char> {
    r"testbed failure: (.*)"@
}

/// The expression for an erroneous package.
pub open spec fn erroneous_regex() -> Seq<char> {
    r"erroneous package: (.*)"@
}

/// What the error message `m` at line `e` shows, given the state of the walk there.
pub open spec fn error_outcome(ls: Seq<Seq<char>>, e: int, st: ScanState, m: Seq<char>) -> Option<
    Finding,
> {
    let sf = regex_captures_spec(stderr_failed_regex(), m);
    let tb = regex_captures_spec(testbed_failure_regex(), m);
    if sf is Some && regex_matches(stat_failed_regex(), group(sf.unwrap(), 2)) {
        Some(
            (
                direct(e),
                ls,
                last_test(st),
                Some(ProblemView::AutopkgtestDepChrootDisappeared),
                Some(group(sf.unwrap(), 2)),
            ),
        )
    } else if tb is Some {
        testbed_outcome(ls, e, st, group(tb.unwrap(), 1))
    } else {
        erroneous_outcome(ls, e, st, m)
    }
}

/// What an error message that is neither about stderr output nor a testbed failure
/// shows: an erroneous package, else what [`unexpected_outcome`] says.
pub open spec fn erroneous_outcome(ls: Seq<Seq<char>>, e: int, st: ScanState, m: Seq<char>) -> Option<
    Finding,
> {
    let ep = regex_captures_spec(erroneous_regex(), m);
    if ep is Some {
        match found_problem(build_failure_spec(ls.take(e)), ls.take(e), last_test(st)) {
            Some(f) => Some(f),
            None => Some(
                (
                    direct(e),
                    ls,
                    last_test(st),
                    Some(ProblemView::AutopkgtestErroneousPackage(group(ep.unwrap(), 1))),
                    None,
                ),
            ),
        }
    } else {
        unexpected_outcome(ls, e, st, m)
    }
}

/// What an unexpected error shows: the problem found in the lines after it, if any;
/// else what [`field_error_outcome`] says.
pub open spec fn unexpected_outcome(ls: Seq<Seq<char>>, e: int, st: ScanState, m: Seq<char>) -> Option<
    Finding,
> {
    let ue = found_problem(build_failure_spec(ls.skip(e + 1)), ls.skip(e + 1), last_test(st));
    if m == "unexpected error:"@ && ue is Some {
        ue
    } else {
        field_error_outcome(ls, e, st, m)
    }
}

/// What an error message shows in the light of the current field: an apt failure in
/// its lines, a test that timed out while cleaning up, or else the message itself.
pub open spec fn field_error_outcome(ls: Seq<Seq<char>>, e: int, st: ScanState, m: Seq<char>) -> Option<
    Finding,
> {
    let lt = last_test(st);
    let known = st.0 is Some && find_field(st.1, st.0.unwrap(), 0) is Some;
    let (ol, ob) = output_of(st.1, st.0.unwrap());
    let ap = found_problem_at(apt_failure_spec(ol), ol, ob, ls, lt);
    if known && ap is Some {
        ap
    } else if known && m == "autopkgtest"@ && 1 <= e && e + 1 < ls.len() && trim_end_spec(ls[e + 1])
        == ": error cleaning up:"@ {
        Some(
            (direct(ob), ls, lt, Some(ProblemView::AutopkgtestTimedOut), Some(trim_end_spec(ls[e - 1]))),
        )
    } else {
        Some((direct(e), ls, lt, None, Some(m)))
    }
}

/// Where `find_field` finds a field, there it is.
pub proof fn lemma_find_field(outs: Seq<CollectedView>, f: FieldView, k: int)
    requires
        0 <= k,
    ensures
        find_field(outs, f, k) matches Some(j) ==> k <= j < outs.len() && outs[j].0 == f,
    decreases outs.len() - k,
{
    if k < outs.len() && outs[k].0 != f {
        lemma_find_field(outs, f, k + 1);
    }
}

/// The lines `[a, b)`.
fn sub_lines<'a>(lines: &Vec<&'a str>, a: usize, b: usize) -> (r: Vec<&'a str>)
    requires
        a <= b <= lines@.len(),
    ensures
        lines_view(r@) == lines_view(lines@).subrange(a as int, b as int),
{
    let mut r: Vec<&'a str> = Vec::new();
    let mut j: usize = a;
    while j < b
        invariant
            a <= j <= b <= lines@.len(),
            r@ == lines@.subrange(a as int, j as int),
        decreases b - j,
    {
        r.push(lines[j]);
        assert(r@ =~= lines@.subrange(a as int, j + 1));
        j = j + 1;
    }
    assert(lines_view(r@) =~= lines_view(lines@).subrange(a as int, b as int));
    r
}

/// The lines of field `f`, its base index, and whether it was ever opened.
fn output_lines<'a>(outs: &'a Vec<Collected>, f: &Field) -> (r: (Vec<&'a str>, usize, bool))
    ensures
        lines_view(r.0@) == output_of(outputs_view(outs@), f@).0,
        r.1 == output_of(outputs_view(outs@), f@).1,
        r.2 == find_field(outputs_view(outs@), f@, 0) is Some,
        r.2 ==> r.1 + r.0@.len() == outs@[find_field(outputs_view(outs@), f@, 0).unwrap()].base
            + outs@[find_field(outputs_view(outs@), f@, 0).unwrap()].lines@.len(),
        !r.2 ==> r.0@.len() == 0 && r.1 == 0,
{
    let mut r: Vec<&'a str> = Vec::new();
    match find_collected(outs, f) {
        Some(k) => {
            let c = &outs[k];
            let mut j: usize = 0;
            while j < c.lines.len()
                invariant
                    j <= c.lines@.len(),
                    r@.len() == j,
                    forall|k: int| 0 <= k < j ==> #[trigger] r@[k]@ == c.lines@[k]@,
                decreases c.lines.len() - j,
            {
                r.push(c.lines[j].as_str());
                j = j + 1;
            }
            assert(lines_view(r@) =~= strings_view(c.lines@));
            (r, c.base, true)
        },
        None => {
            assert(lines_view(r@) =~= Seq::<Seq<char>>::empty());
            (r, 0, false)
        },
    }
}

/// What an analysis by [`find_build_failure_description`] of `ctx` gives when it found a problem.
fn build_problem(ctx: Vec<&str>, test: Option<String>) -> (r: Option<Outcome>)
    ensures
        match found_problem(build_failure_spec(lines_view(ctx@)), lines_view(ctx@), opt_view(test)) {
            Some(f) => r matches Some(o) && finding_is(o, Some(f)),
            None => r is None,
        },
{
    let ghost cv = lines_view(ctx@);
    let (m, p) = find_build_failure_description(ctx);
    match (m, p) {
        (Some(m), Some(p)) => {
            proof {
                let (ms, _) = build_failure_spec(cv).unwrap();
                lemma_match_is_facts(m, cv, ms);
            }
            let d = m.line().to_string();
            Some((Some(m), test, Some(p), Some(d)))
        },
        _ => None,
    }
}

/// Like [`build_problem`], with the match moved to the log, where `ctx` starts at `base`.
fn build_problem_at(lines: &Vec<&str>, ctx: Vec<&str>, base: usize, test: Option<String>) -> (r: Option<Outcome>)
    requires
        base + ctx@.len() <= lines@.len(),
    ensures
        match found_problem_at(build_failure_spec(lines_view(ctx@)), lines_view(ctx@), base as int, lines_view(lines@), opt_view(test)) {
            Some(f) => r matches Some(o) && finding_is(o, Some(f)),
            None => r is None,
        },
{
    let ghost cv = lines_view(ctx@);
    let _n = lines.len();
    assert(cv.len() == ctx@.len());
    let (m, p) = find_build_failure_description(ctx);
    match (m, p) {
        (Some(m), Some(p)) => {
            proof {
                let (ms, _) = build_failure_spec(cv).unwrap();
                lemma_match_is_facts(m, cv, ms);
            }
            let d = m.line().to_string();
            let at = SingleLineMatch::from_lines(lines.as_slice(), base + m.offset(), Some("direct regex"));
            Some((Some(LogMatch::Single(at)), test, Some(p), Some(d)))
        },
        _ => None,
    }
}

/// What an analysis by [`find_apt_get_failure`] of `ctx` gives when it found a problem.
fn apt_problem(ctx: Vec<&str>, test: Option<String>) -> (r: Option<Outcome>)
    ensures
        match found_problem(apt_failure_spec(lines_view(ctx@)), lines_view(ctx@), opt_view(test)) {
            Some(f) => r matches Some(o) && finding_is(o, Some(f)),
            None => r is None,
        },
{
    let ghost cv = lines_view(ctx@);
    let (m, p) = find_apt_get_failure(ctx);
    match (m, p) {
        (Some(m), Some(p)) => {
            proof {
                let (ms, _) = apt_failure_spec(cv).unwrap();
                lemma_match_is_facts(m, cv, ms);
            }
            let d = m.line().to_string();
            Some((Some(m), test, Some(p), Some(d)))
        },
        _ => None,
    }
}

/// Like [`apt_problem`], with the match moved to the log, where `ctx` starts at `base`.
fn apt_problem_at(lines: &Vec<&str>, ctx: Vec<&str>, base: usize, test: Option<String>) -> (r: Option<Outcome>)
    requires
        base + ctx@.len() <= lines@.len(),
    ensures
        match found_problem_at(apt_failure_spec(lines_view(ctx@)), lines_view(ctx@), base as int, lines_view(lines@), opt_view(test)) {
            Some(f) => r matches Some(o) && finding_is(o, Some(f)),
            None => r is None,
        },
{
    let ghost cv = lines_view(ctx@);
    let _n = lines.len();
    assert(cv.len() == ctx@.len());
    let (m, p) = find_apt_get_failure(ctx);
    match (m, p) {
        (Some(m), Some(p)) => {
            proof {
                let (ms, _) = apt_failure_spec(cv).unwrap();
                lemma_match_is_facts(m, cv, ms);
            }
            let d = m.line().to_string();
            let at = SingleLineMatch::from_lines(lines.as_slice(), base + m.offset(), Some("direct regex"));
            Some((Some(LogMatch::Single(at)), test, Some(p), Some(d)))
        },
        _ => None,
    }
}

/// A direct match of line `i`.
fn direct_match(lines: &Vec<&str>, i: usize) -> (r: Option<LogMatch>)
    requires
        i < lines@.len(),
    ensures
        match_is(r, lines_view(lines@), direct(i as int)),
{
    Some(LogMatch::Single(SingleLineMatch::from_lines(lines.as_slice(), i, Some("direct regex"))))
}

/// The test of the current field, owned.
fn current_test(current: &Option<Field>) -> (r: Option<String>)
    ensures
        opt_view(r) == match opt_field_view(*current) {
            Some(f) => field_test(f),
            None => None,
        },
{
    match current {
        Some(f) => match f.testname() {
            Some(t) => Some(t.to_string()),
            None => None,
        },
        None => None,
    }
}

/// What a `testbed failure:` message at line `e` with the given reason shows.
fn testbed_finding(
    lines: &Vec<&str>,
    e: usize,
    current: &Option<Field>,
    outs: &Vec<Collected>,
    reason: &str,
) -> (r: Outcome)
    requires
        e < lines@.len(),
        within(outs@, e as int),
    ensures
        finding_is(r, testbed_outcome(lines_view(lines@), e as int, (opt_field_view(*current), outputs_view(outs@)), reason@)),
{
    let ghost ls = lines_view(lines@);
    let ghost st = (opt_field_view(*current), outputs_view(outs@));
    if str_eq(reason, "testbed auxverb failed with exit code 255") {
        if let Some(cf) = current {
            if let Some(t) = cf.testname() {
                let f = Field::Output(t.to_string());
                let (ol, ob, found) = output_lines(outs, &f);
                proof {
                    lemma_find_field(outputs_view(outs@), f@, 0);
                    if found {
                        let k = find_field(outputs_view(outs@), f@, 0).unwrap();
                        assert(outs@[k].base + outs@[k].lines@.len() <= e);
                    }
                }
                if let Some(o) = build_problem_at(lines, ol, ob, current_test(current)) {
                    return o;
                }
            }
        }
    }
    if str_eq(reason, "sent `auxverb_debug_fail', got `copy-failed', expected `ok...'") {
        if let Some(o) = build_problem(lines.clone(), current_test(current)) {
            return o;
        }
    }
    if str_eq(reason, "cannot send to testbed: [Errno 32] Broken pipe") {
        let (m, p) = find_testbed_setup_failure(lines.clone());
        if m.is_some() && p.is_some() {
            let d = match &m {
                Some(LogMatch::Single(s)) => s.line.clone(),
                _ => String::new(),
            };
            return (m, current_test(current), p, Some(d));
        }
    }
    if str_eq(reason, "apt repeatedly failed to download packages") {
        if let Some(o) = apt_problem(lines.clone(), current_test(current)) {
            return o;
        }
        return (
            direct_match(lines, e),
            current_test(current),
            Some(Problem::AptFetchFailure { url: None, error: reason.to_string() }),
            None,
        );
    }
    (
        direct_match(lines, e),
        current_test(current),
        Some(Problem::AutopkgtestTestbedFailure(reason.to_string())),
        None,
    )
}

/// What the error message `msg` at line `e` shows in the light of the current field.
fn field_error_finding(
    lines: &Vec<&str>,
    e: usize,
    current: &Option<Field>,
    outs: &Vec<Collected>,
    msg: &str,
) -> (r: Outcome)
    requires
        e < lines@.len(),
        within(outs@, e as int),
    ensures
        finding_is(r, field_error_outcome(lines_view(lines@), e as int, (opt_field_view(*current), outputs_view(outs@)), msg@)),
{
    let ghost ls = lines_view(lines@);
    if let Some(cf) = current {
        let (ol, ob, found) = output_lines(outs, cf);
        if found {
            proof {
                lemma_find_field(outputs_view(outs@), cf@, 0);
                let k = find_field(outputs_view(outs@), cf@, 0).unwrap();
                assert(outs@[k].base + outs@[k].lines@.len() <= e);
            }
            if let Some(o) = apt_problem_at(lines, ol, ob, current_test(current)) {
                return o;
            }
            let n = lines.len();
            if str_eq(msg, "autopkgtest") && 1 <= e && e + 1 < n {
                assert(ls[e + 1] == lines@[e + 1]@);
                assert(ls[e - 1] == lines@[e - 1]@);
                if str_eq(trim_end(lines[e + 1]), ": error cleaning up:") {
                    let d = trim_end(lines[e - 1]).to_string();
                    return (
                        direct_match(lines, ob),
                        current_test(current),
                        Some(Problem::AutopkgtestTimedOut),
                        Some(d),
                    );
                }
            }
        }
    }
    (direct_match(lines, e), current_test(current), None, Some(msg.to_string()))
}

/// What an error message that is neither about stderr output nor a testbed failure
/// shows.
fn erroneous_finding(
    lines: &Vec<&str>,
    e: usize,
    current: &Option<Field>,
    outs: &Vec<Collected>,
    msg: &str,
) -> (r: Outcome)
    requires
        e < lines@.len(),
        within(outs@, e as int),
    ensures
        finding_is(r, erroneous_outcome(lines_view(lines@), e as int, (opt_field_view(*current), outputs_view(outs@)), msg@)),
{
    let ghost ls = lines_view(lines@);
    if let Some(c) = regex_captures(r"erroneous package: (.*)", msg) {
        let before = sub_lines(lines, 0, e);
        assert(lines_view(lines@).subrange(0, e as int) =~= ls.take(e as int));
        if let Some(o) = build_problem(before, current_test(current)) {
            return o;
        }
        return (
            direct_match(lines, e),
            current_test(current),
            Some(Problem::AutopkgtestErroneousPackage(get_group(&c, 1))),
            None,
        );
    }
    if str_eq(msg, "unexpected error:") {
        let n = lines.len();
        let after = sub_lines(lines, e + 1, n);
        assert(lines_view(lines@).subrange(e + 1, lines@.len() as int) =~= ls.skip(e + 1));
        if let Some(o) = build_problem(after, current_test(current)) {
            return o;
        }
    }
    field_error_finding(lines, e, current, outs, msg)
}

/// What the error message `msg` at line `e` shows.
fn error_finding(
    lines: &Vec<&str>,
    e: usize,
    current: &Option<Field>,
    outs: &Vec<Collected>,
    msg: &str,
) -> (r: Outcome)
    requires
        e < lines@.len(),
        within(outs@, e as int),
    ensures
        finding_is(r, error_outcome(lines_view(lines@), e as int, (opt_field_view(*current), outputs_view(outs@)), msg@)),
{
    if let Some(c) = regex_captures(r#""(.*)" failed with stderr "(.*)("?)"#, msg) {
        let stderr = get_group(&c, 2);
        if regex_is_match("W: (.*): Failed to stat file: No such file or directory", stderr.as_str()) {
            return (
                direct_match(lines, e),
                current_test(current),
                Some(Problem::AutopkgtestDepChrootDisappeared),
                Some(stderr),
            );
        }
    }
    if let Some(c) = regex_captures(r"testbed failure: (.*)", msg) {
        let reason = get_group(&c, 1);
        return testbed_finding(lines, e, current, outs, reason.as_str());
    }
    erroneous_finding(lines, e, current, outs, msg)
}


/// How many lines are left once the trailing blank lines of the first `n` are dropped.
pub open spec fn trimmed_len(ls: Seq<Seq<char>>, n: int) -> int
    decreases n,
{
    if n <= 0 {
        0
    } else if trim_spec(ls[n - 1]).len() == 0 {
        trimmed_len(ls, n - 1)
    } else {
        n
    }
}

/// What a log without a summary shows: its last non-blank line, given as the test too.
pub open spec fn no_summary_outcome(ls: Seq<Seq<char>>) -> Option<Finding> {
    let t = trimmed_len(ls, ls.len() as int);
    if t <= 0 {
        None
    } else {
        Some((direct(t - 1), ls, Some(ls[t - 1]), None, None))
    }
}

/// The text after `badpkg: ` on the last extra line, if that line has it.
pub open spec fn last_badpkg(extra: Seq<Seq<char>>) -> Option<Seq<char>> {
    if extra.len() > 0 && "badpkg: "@.is_prefix_of(extra.last()) {
        Some(extra.last().skip("badpkg: "@.len() as int))
    } else {
        None
    }
}

/// The index of the last of the first `n` extra lines that starts with `blame: `.
pub open spec fn last_blame(extra: Seq<Seq<char>>, n: int) -> Option<int>
    decreases n,
{
    if n <= 0 || n > extra.len() {
        None
    } else if "blame: "@.is_prefix_of(extra[n - 1]) {
        Some(n - 1)
    } else {
        last_blame(extra, n - 1)
    }
}

/// The line that [`last_blame`] finds starts with `blame: `.
pub proof fn lemma_last_blame(extra: Seq<Seq<char>>, n: int)
    ensures
        last_blame(extra, n) matches Some(j) ==> 0 <= j < n && j < extra.len() && "blame: "@.is_prefix_of(
            extra[j],
        ),
    decreases n,
{
    if n > 0 && n <= extra.len() && !"blame: "@.is_prefix_of(extra[n - 1]) {
        lemma_last_blame(extra, n - 1);
    }
}

/// The description of a failed test, with the reason when there is one.
pub open spec fn failed_text(name: Seq<char>, reason: Option<Seq<char>>) -> Seq<char> {
    match reason {
        Some(r) => "Test "@ + name + " failed: "@ + r,
        None => "Test "@ + name + " failed"@,
    }
}

/// The expression for the warning about `XDG_RUNTIME_DIR`.
pub open spec fn xdg_regex() -> Seq<char> {
    r"QStandardPaths: XDG_RUNTIME_DIR not set, defaulting to \'(.*)\'"@
}

/// What a test that failed because it wrote `output` to stderr shows.
pub open spec fn stderr_outcome(
    ls: Seq<Seq<char>>,
    outs: Seq<CollectedView>,
    p: SummaryView,
    sb: int,
    output: Seq<char>,
) -> Finding {
    let (sl, so) = output_of(outs, FieldView::Stderr(p.name));
    let at = sb + p.offset;
    let unauthorized = "Test "@ + p.name + " failed due to unauthorized stderr output: "@ + output;
    let default_error = ProblemView::AutopkgtestStderrFailure(output);
    if sl.len() > 0 {
        let fb = build_failure_spec(sl);
        let err = match fb {
            Some((_, Some(e))) => e,
            _ => default_error,
        };
        if fb is Some {
            let ms = fb.unwrap().0;
            (direct(so + last_offset(ms)), ls, Some(p.name), Some(err), Some(sl[last_offset(ms)]))
        } else if sl.len() == 1 && regex_matches(xdg_regex(), sl[0]) {
            (direct(so), ls, Some(p.name), Some(ProblemView::XDGRunTimeNotSet), Some(sl[0]))
        } else {
            (direct(so), ls, Some(p.name), Some(err), Some(unauthorized))
        }
    } else {
        let one = seq![output];
        match build_failure_spec(one) {
            Some((ms, e)) => (
                direct(at + last_offset(ms)),
                ls,
                Some(p.name),
                Some(
                    match e {
                        Some(e) => e,
                        None => default_error,
                    },
                ),
                Some(one[last_offset(ms)]),
            ),
            None => (direct(at), ls, Some(p.name), Some(default_error), Some(unauthorized)),
        }
    }
}

/// What a test that failed as a bad package shows.
pub open spec fn badpkg_outcome(ls: Seq<Seq<char>>, outs: Seq<CollectedView>, p: SummaryView, sb: int) -> Finding {
    let (ol, ob) = output_of(outs, FieldView::Output(p.name));
    let ap = if ol.len() > 0 {
        apt_failure_spec(ol)
    } else {
        None
    };
    match ap {
        Some((ms, Some(pr))) => (direct(last_offset(ms) + ob), ls, Some(p.name), Some(pr), None),
        _ => {
            let desc = match last_badpkg(p.extra) {
                Some(b) => "Test "@ + p.name + " failed: "@ + trim_end_char_spec(b, '\n'),
                None => "Test "@ + p.name + " failed"@,
            };
            match last_blame(p.extra, p.extra.len() as int) {
                Some(k) => (
                    direct(sb + p.offset + k + 1),
                    ls,
                    Some(p.name),
                    Some(ProblemView::AutopkgtestDepsUnsatisfiable(blame_entries(p.extra[k]))),
                    Some(desc),
                ),
                None => (direct(sb + p.offset), ls, Some(p.name), None, Some(desc)),
            }
        },
    }
}

/// What any other failed test shows: the problem found in its output, if any.
pub open spec fn other_outcome(ls: Seq<Seq<char>>, outs: Seq<CollectedView>, p: SummaryView, sb: int) -> Finding {
    let (ol, ob) = output_of(outs, FieldView::Output(p.name));
    let known = find_field(outs, FieldView::Output(p.name), 0) is Some;
    match build_failure_spec(ol) {
        Some((ms, e)) => (
            direct(if known { last_offset(ms) + ob } else { sb + p.offset }),
            ls,
            Some(p.name),
            e,
            Some(ol[last_offset(ms)]),
        ),
        None => (direct(sb + p.offset), ls, Some(p.name), None, Some(failed_text(p.name, p.reason))),
    }
}

/// What a failed entry of the summary shows.
pub open spec fn entry_outcome(ls: Seq<Seq<char>>, outs: Seq<CollectedView>, p: SummaryView, sb: int) -> Finding {
    if p.reason == Some("timed out"@) {
        (direct(sb + p.offset), ls, Some(p.name), Some(ProblemView::AutopkgtestTimedOut), p.reason)
    } else if p.reason is Some && "stderr: "@.is_prefix_of(p.reason.unwrap()) {
        stderr_outcome(ls, outs, p, sb, p.reason.unwrap().skip("stderr: "@.len() as int))
    } else if p.reason == Some("badpkg"@) {
        badpkg_outcome(ls, outs, p, sb)
    } else {
        other_outcome(ls, outs, p, sb)
    }
}

/// What the first entry from `k` on that neither passed nor was skipped shows.
pub open spec fn entries_outcome(
    ls: Seq<Seq<char>>,
    outs: Seq<CollectedView>,
    entries: Seq<SummaryView>,
    sb: int,
    k: int,
) -> Option<Finding>
    decreases entries.len() - k,
{
    if k < 0 || k >= entries.len() {
        None
    } else if entries[k].result == TestResult::Pass || entries[k].result == TestResult::Skip {
        entries_outcome(ls, outs, entries, sb, k + 1)
    } else {
        Some(entry_outcome(ls, outs, entries[k], sb))
    }
}

/// What the end of the log shows: the first failed entry of the summary, or the last
/// non-blank line when there is no summary.
pub open spec fn summary_outcome(ls: Seq<Seq<char>>, outs: Seq<CollectedView>) -> Option<Finding> {
    if find_field(outs, FieldView::Summary, 0) is Some {
        let (sl, sb) = output_of(outs, FieldView::Summary);
        entries_outcome(ls, outs, summary_from(sl, 0), sb, 0)
    } else {
        no_summary_outcome(ls)
    }
}

/// Whether a summary entry tells of a failed test: its outcome is FAIL or FLAKY.
pub open spec fn entry_failed(e: SummaryView) -> bool {
    e.result == TestResult::Fail || e.result == TestResult::Flaky
}

/// The outcome of the entries from `k` on is about the first of them that failed, and
/// there is none when none failed.
proof fn lemma_entries_outcome_first_failed(
    ls: Seq<Seq<char>>,
    outs: Seq<CollectedView>,
    entries: Seq<SummaryView>,
    sb: int,
    k: int,
)
    requires
        0 <= k,
    ensures
        match entries_outcome(ls, outs, entries, sb, k) {
            Some(f) => exists|m: int|
                k <= m < entries.len() && entry_failed(#[trigger] entries[m]) && f.2 == Some(
                    entries[m].name,
                ) && forall|j: int| k <= j < m ==> !entry_failed(#[trigger] entries[j]),
            None => forall|j: int| k <= j < entries.len() ==> !entry_failed(#[trigger] entries[j]),
        },
    decreases entries.len() - k,
{
    if k < entries.len() {
        lemma_entries_outcome_first_failed(ls, outs, entries, sb, k + 1);
        if entries[k].result == TestResult::Pass || entries[k].result == TestResult::Skip {
            match entries_outcome(ls, outs, entries, sb, k + 1) {
                Some(f) => {
                    let m = choose|m: int|
                        k + 1 <= m < entries.len() && entry_failed(#[trigger] entries[m]) && f.2
                            == Some(entries[m].name) && forall|j: int|
                            k + 1 <= j < m ==> !entry_failed(#[trigger] entries[j]);
                    assert(forall|j: int| k <= j < m ==> !entry_failed(#[trigger] entries[j]));
                },
                None => {},
            }
        } else {
            let p = entries[k];
            let f = entry_outcome(ls, outs, p, sb);
            assert(f.2 == Some(p.name));
            assert(entry_failed(entries[k]));
        }
    }
}

/// When a log holds no error message of autopkgtest itself but has a summary, what is
/// found is about the first test of the summary that failed (outcome FAIL or FLAKY): the
/// test named is that entry's, every entry above it passed or was skipped, and nothing is
/// found when every entry passed or was skipped. A skipped or passed test is never
/// reported as the failure.
pub proof fn law_summary_names_first_failed_test(ls: Seq<Seq<char>>)
    ensures
        first_error(ls, 0) is None && find_field(scan(ls, ls.len() as int).1, FieldView::Summary, 0)
            is Some ==> {
            let entries = summary_from(
                output_of(scan(ls, ls.len() as int).1, FieldView::Summary).0,
                0,
            );
            match autopkgtest_failure_spec(ls) {
                Some(f) => exists|m: int|
                    0 <= m < entries.len() && entry_failed(#[trigger] entries[m]) && f.2 == Some(
                        entries[m].name,
                    ) && forall|j: int| 0 <= j < m ==> !entry_failed(#[trigger] entries[j]),
                None => forall|j: int| 0 <= j < entries.len() ==> !entry_failed(#[trigger] entries[j]),
            }
        },
{
    let outs = scan(ls, ls.len() as int).1;
    let (sl, sb) = output_of(outs, FieldView::Summary);
    lemma_entries_outcome_first_failed(ls, outs, summary_from(sl, 0), sb, 0);
}

/// The index just past the first line from `j` on with exactly one double quote (the
/// end of the log when there is none).
pub open spec fn quote_end(ls: Seq<Seq<char>>, j: int) -> int
    decreases ls.len() - j,
{
    if j < 0 || j >= ls.len() {
        ls.len() as int
    } else if count_char_spec(ls[j], '"') == 1 {
        j + 1
    } else {
        quote_end(ls, j + 1)
    }
}

/// The text of the error message `m` at line `e`: a message that opens a quotation it
/// does not close runs on over the following lines, up to the one that closes it.
pub open spec fn error_message(ls: Seq<Seq<char>>, e: int, m: Seq<char>) -> Seq<char> {
    if "\""@.is_prefix_of(m) && count_char_spec(m, '"') == 1 {
        join_spec(seq![m] + ls.subrange(e + 1, quote_end(ls, e + 1)), "\n"@)
    } else {
        m
    }
}

/// The error text of a line's packet (empty if it holds no error message).
pub open spec fn error_text_of(line: Seq<char>) -> Seq<char> {
    match line_packet(line) {
        Some(PacketView::Error(m)) => m,
        _ => Seq::empty(),
    }
}

/// What the search for the failure in an autopkgtest log finds: what the first error
/// message of autopkgtest shows, if there is one; else what the summary shows.
pub open spec fn autopkgtest_failure_spec(ls: Seq<Seq<char>>) -> Option<Finding> {
    match first_error(ls, 0) {
        Some(e) => error_outcome(ls, e, scan(ls, e), error_message(ls, e, error_text_of(ls[e]))),
        None => summary_outcome(ls, scan(ls, ls.len() as int).1),
    }
}

/// Every entry of the summary ends before the end of its lines.
pub proof fn lemma_summary_bounds(lines: Seq<Seq<char>>, i: int)
    ensures
        forall|j: int|
            0 <= j < summary_from(lines, i).len() ==> #[trigger] summary_from(lines, i)[j].offset
                + summary_from(lines, i)[j].extra.len() < lines.len(),
    decreases lines.len() - i, 1int,
{
    if i < 0 || i >= lines.len() {
    } else if regex_captures_spec(crate::autopkgtest::pass_regex(), lines[i]) is Some {
        lemma_summary_bounds(lines, i + 1);
        let rest = summary_from(lines, i + 1);
        assert forall|j: int| 0 <= j < summary_from(lines, i).len() implies #[trigger] summary_from(lines, i)[j].offset
            + summary_from(lines, i)[j].extra.len() < lines.len() by {
            if j > 0 {
                assert(summary_from(lines, i)[j] == rest[j - 1]);
            }
        }
    } else if regex_captures_spec(crate::autopkgtest::result_regex(), lines[i]) is Some
        && crate::autopkgtest::result_spec(
        group(regex_captures_spec(crate::autopkgtest::result_regex(), lines[i]).unwrap(), 2),
    ) is Some {
        lemma_extra_count_bound(lines, i);
        let c = regex_captures_spec(crate::autopkgtest::result_regex(), lines[i]).unwrap();
        let n: nat = if group(c, 3) == "badpkg"@ {
            crate::autopkgtest::extra_count(lines, i)
        } else {
            0
        };
        lemma_summary_bounds(lines, i + 1 + n);
        let rest = summary_from(lines, i + 1 + n);
        assert forall|j: int| 0 <= j < summary_from(lines, i).len() implies #[trigger] summary_from(lines, i)[j].offset
            + summary_from(lines, i)[j].extra.len() < lines.len() by {
            if j > 0 {
                assert(summary_from(lines, i)[j] == rest[j - 1]);
            }
        }
    } else {
        lemma_summary_bounds(lines, i + 1);
    }
}

/// The text of the error message `m` at line `e`.
fn error_text(lines: &Vec<&str>, e: usize, m: &str) -> (r: String)
    requires
        e < lines@.len(),
    ensures
        r@ == error_message(lines_view(lines@), e as int, m@),
{
    let ghost ls = lines_view(lines@);
    if starts_with(m, "\"") && count_char(m, '"') == 1 {
        let mut parts: Vec<String> = Vec::new();
        parts.push(m.to_string());
        let n = lines.len();
        let mut j: usize = e + 1;
        assert(strings_view(parts@) =~= seq![m@] + ls.subrange(e + 1, j as int));
        while j < n
            invariant
                ls == lines_view(lines@),
                n == lines@.len(),
                e + 1 <= j <= n,
                strings_view(parts@) == seq![m@] + ls.subrange(e + 1, j as int),
                quote_end(ls, e + 1) == quote_end(ls, j as int),
                "\""@.is_prefix_of(m@),
                count_char_spec(m@, '"') == 1,
            decreases n - j,
        {
            assert(ls[j as int] == lines@[j as int]@);
            let ghost before = strings_view(parts@);
            parts.push(lines[j].to_string());
            assert(strings_view(parts@) =~= before.push(ls[j as int]));
            assert(ls.subrange(e + 1, j + 1) =~= ls.subrange(e + 1, j as int).push(ls[j as int]));
            assert(strings_view(parts@) =~= seq![m@] + ls.subrange(e + 1, j + 1));
            if count_char(lines[j], '"') == 1 {
                assert(strings_view(parts@) =~= parts@.map_values(|s: String| s@));
                return join(&parts, "\n");
            }
            j = j + 1;
        }
        assert(strings_view(parts@) =~= parts@.map_values(|s: String| s@));
        join(&parts, "\n")
    } else {
        m.to_string()
    }
}

/// What a log without a summary shows.
fn no_summary_finding(lines: &Vec<&str>) -> (r: Outcome)
    ensures
        finding_is(r, no_summary_outcome(lines_view(lines@))),
{
    let ghost ls = lines_view(lines@);
    let mut t = lines.len();
    while t > 0 && crate::common::is_blank(lines[t - 1])
        invariant
            ls == lines_view(lines@),
            t <= lines@.len(),
            trimmed_len(ls, lines@.len() as int) == trimmed_len(ls, t as int),
        decreases t,
    {
        assert(ls[t - 1] == lines@[t - 1]@);
        t = t - 1;
    }
    if t == 0 {
        return (None, None, None, None);
    }
    assert(ls[t - 1] == lines@[t - 1]@);
    (direct_match(lines, t - 1), Some(lines[t - 1].to_string()), None, None)
}

/// "Test NAME failed", with ": REASON" when there is a reason.
fn failed_description(name: &str, reason: Option<&str>) -> (r: String)
    ensures
        r@ == failed_text(name@, crate::autopkgtest::opt_str_view(reason)),
{
    let a = concat("Test ", name);
    match reason {
        Some(why) => {
            let b = concat(a.as_str(), " failed: ");
            concat(b.as_str(), why)
        },
        None => concat(a.as_str(), " failed"),
    }
}

/// What a test that failed because it wrote `output` to stderr shows.
fn stderr_finding(lines: &Vec<&str>, outs: &Vec<Collected>, p: &Summary, sb: usize, output: &str) -> (r: Outcome)
    requires
        within(outs@, lines@.len() as int),
        sb + p.offset < lines@.len(),
    ensures
        finding_is(r, Some(stderr_outcome(lines_view(lines@), outputs_view(outs@), p@, sb as int, output@))),
{
    let ghost ls = lines_view(lines@);
    let n = lines.len();
    let field = Field::Stderr(p.name.clone());
    let (sl, so, found) = output_lines(outs, &field);
    proof {
        lemma_find_field(outputs_view(outs@), field@, 0);
        if found {
            let k = find_field(outputs_view(outs@), field@, 0).unwrap();
            assert(outs@[k].base + outs@[k].lines@.len() <= n);
        }
    }
    let a = concat("Test ", p.name.as_str());
    let b = concat(a.as_str(), " failed due to unauthorized stderr output: ");
    let unauthorized = concat(b.as_str(), output);
    let at = sb + p.offset;
    if sl.len() > 0 {
        let ghost sv = lines_view(sl@);
        let first = sl[0];
        assert(sv[0] == first@);
        let count = sl.len();
        let (m, e) = find_build_failure_description(sl);
        let err = match e {
            Some(e) => e,
            None => Problem::AutopkgtestStderrFailure(output.to_string()),
        };
        match m {
            Some(m) => {
                proof {
                    let (ms, _) = build_failure_spec(sv).unwrap();
                    lemma_match_is_facts(m, sv, ms);
                }
                let d = m.line().to_string();
                let o = so + m.offset();
                return (direct_match(lines, o), Some(p.name.clone()), Some(err), Some(d));
            },
            None => {},
        }
        if count == 1 && regex_is_match(
            r"QStandardPaths: XDG_RUNTIME_DIR not set, defaulting to \'(.*)\'",
            first,
        ) {
            return (
                direct_match(lines, so),
                Some(p.name.clone()),
                Some(Problem::XDGRunTimeNotSet),
                Some(first.to_string()),
            );
        }
        return (direct_match(lines, so), Some(p.name.clone()), Some(err), Some(unauthorized));
    }
    let mut one: Vec<&str> = Vec::new();
    one.push(output);
    let ghost ov = lines_view(one@);
    assert(ov =~= seq![output@]);
    let (m, e) = find_build_failure_description(one);
    let err = match e {
        Some(e) => e,
        None => Problem::AutopkgtestStderrFailure(output.to_string()),
    };
    match m {
        Some(m) => {
            proof {
                let (ms, _) = build_failure_spec(ov).unwrap();
                lemma_match_is_facts(m, ov, ms);
            }
            let d = m.line().to_string();
            let o = at + m.offset();
            (direct_match(lines, o), Some(p.name.clone()), Some(err), Some(d))
        },
        None => (direct_match(lines, at), Some(p.name.clone()), Some(err), Some(unauthorized)),
    }
}

/// What a test that failed as a bad package shows.
fn badpkg_finding(lines: &Vec<&str>, outs: &Vec<Collected>, p: &Summary, sb: usize) -> (r: Outcome)
    requires
        within(outs@, lines@.len() as int),
        sb + p.offset + p.extra@.len() < lines@.len(),
    ensures
        finding_is(r, Some(badpkg_outcome(lines_view(lines@), outputs_view(outs@), p@, sb as int))),
{
    let ghost ls = lines_view(lines@);
    let n = lines.len();
    let field = Field::Output(p.name.clone());
    let (ol, ob, found) = output_lines(outs, &field);
    proof {
        lemma_find_field(outputs_view(outs@), field@, 0);
        if found {
            let k = find_field(outputs_view(outs@), field@, 0).unwrap();
            assert(outs@[k].base + outs@[k].lines@.len() <= n);
        }
    }
    if ol.len() > 0 {
        let ghost ov = lines_view(ol@);
        let (m, e) = find_apt_get_failure(ol);
        match (m, e) {
            (Some(m), Some(e)) => {
                proof {
                    let (ms, _) = apt_failure_spec(ov).unwrap();
                    lemma_match_is_facts(m, ov, ms);
                }
                let o = m.offset() + ob;
                return (direct_match(lines, o), Some(p.name.clone()), Some(e), None);
            },
            _ => {},
        }
    }
    let ghost ev = p@.extra;
    let mut badpkg: Option<&str> = None;
    let mut blame: Option<usize> = None;
    let mut k: usize = 0;
    while k < p.extra.len()
        invariant
            ev == p@.extra,
            ev.len() == p.extra@.len(),
            k <= p.extra@.len(),
            crate::autopkgtest::opt_str_view(badpkg) == (if k == 0 {
                None
            } else {
                last_badpkg(ev.take(k as int))
            }),
            blame == match last_blame(ev, k as int) {
                Some(j) => Some(j as usize),
                None => None::<usize>,
            },
            last_blame(ev, k as int) matches Some(j) ==> 0 <= j < k,
        decreases p.extra.len() - k,
    {
        let line = p.extra[k].as_str();
        assert(ev[k as int] == line@);
        assert(ev.take(k + 1).last() == line@);
        badpkg = strip_prefix(line, "badpkg: ");
        proof {
            reveal_strlit("badpkg: ");
        }
        if starts_with(line, "blame: ") {
            blame = Some(k);
        }
        k = k + 1;
    }
    assert(ev.take(k as int) =~= ev);
    let desc = match badpkg {
        Some(b) => {
            let a = concat("Test ", p.name.as_str());
            let c = concat(a.as_str(), " failed: ");
            concat(c.as_str(), trim_end_matches(b, '\n'))
        },
        None => {
            let a = concat("Test ", p.name.as_str());
            concat(a.as_str(), " failed")
        },
    };
    match blame {
        Some(j) => {
            proof {
                lemma_last_blame(ev, ev.len() as int);
            }
            let line = p.extra[j].as_str();
            assert(ev[j as int] == line@);
            let problem = deps_unsatisfiable_from_blame_line(line);
            (direct_match(lines, sb + p.offset + j + 1), Some(p.name.clone()), Some(problem), Some(desc))
        },
        None => (direct_match(lines, sb + p.offset), Some(p.name.clone()), None, Some(desc)),
    }
}

/// What any other failed test shows.
fn other_finding(lines: &Vec<&str>, outs: &Vec<Collected>, p: &Summary, sb: usize) -> (r: Outcome)
    requires
        within(outs@, lines@.len() as int),
        sb + p.offset < lines@.len(),
    ensures
        finding_is(r, Some(other_outcome(lines_view(lines@), outputs_view(outs@), p@, sb as int))),
{
    let n = lines.len();
    let field = Field::Output(p.name.clone());
    let (ol, ob, found) = output_lines(outs, &field);
    proof {
        lemma_find_field(outputs_view(outs@), field@, 0);
        if found {
            let k = find_field(outputs_view(outs@), field@, 0).unwrap();
            assert(outs@[k].base + outs@[k].lines@.len() <= n);
        }
    }
    let ghost ov = lines_view(ol@);
    let (m, e) = find_build_failure_description(ol);
    match m {
        Some(m) => {
            proof {
                let (ms, _) = build_failure_spec(ov).unwrap();
                lemma_match_is_facts(m, ov, ms);
            }
            let d = m.line().to_string();
            let o = if found { m.offset() + ob } else { sb + p.offset };
            (direct_match(lines, o), Some(p.name.clone()), e, Some(d))
        },
        None => {
            let reason = match &p.reason {
                Some(r) => Some(r.as_str()),
                None => None,
            };
            let d = failed_description(p.name.as_str(), reason);
            (direct_match(lines, sb + p.offset), Some(p.name.clone()), None, Some(d))
        },
    }
}

/// What a failed entry of the summary shows.
fn entry_finding(lines: &Vec<&str>, outs: &Vec<Collected>, p: &Summary, sb: usize) -> (r: Outcome)
    requires
        within(outs@, lines@.len() as int),
        sb + p.offset + p.extra@.len() < lines@.len(),
    ensures
        finding_is(r, Some(entry_outcome(lines_view(lines@), outputs_view(outs@), p@, sb as int))),
{
    let _n = lines.len();
    if let Some(reason) = &p.reason {
        let reason = reason.as_str();
        if str_eq(reason, "timed out") {
            return (
                direct_match(lines, sb + p.offset),
                Some(p.name.clone()),
                Some(Problem::AutopkgtestTimedOut),
                Some(reason.to_string()),
            );
        }
        if let Some(output) = strip_prefix(reason, "stderr: ") {
            proof {
                reveal_strlit("stderr: ");
            }
            return stderr_finding(lines, outs, p, sb, output);
        }
        if str_eq(reason, "badpkg") {
            return badpkg_finding(lines, outs, p, sb);
        }
    }
    other_finding(lines, outs, p, sb)
}

/// What the end of the log shows.
fn summary_finding(lines: &Vec<&str>, outs: &Vec<Collected>) -> (r: Outcome)
    requires
        within(outs@, lines@.len() as int),
    ensures
        finding_is(r, summary_outcome(lines_view(lines@), outputs_view(outs@))),
{
    let n = lines.len();
    let field = Field::Summary;
    let (sl, sb, found) = output_lines(outs, &field);
    if !found {
        return no_summary_finding(lines);
    }
    proof {
        lemma_find_field(outputs_view(outs@), field@, 0);
        let k = find_field(outputs_view(outs@), field@, 0).unwrap();
        assert(outs@[k].base + outs@[k].lines@.len() <= n);
    }
    let ghost sv = lines_view(sl@);
    let entries = parse_autopkgtest_summary(sl);
    let ghost ev = entries@.map_values(|s: Summary| s@);
    proof {
        lemma_summary_bounds(sv, 0);
    }
    let mut k: usize = 0;
    while k < entries.len()
        invariant
            ev == entries@.map_values(|s: Summary| s@),
            ev == summary_from(sv, 0),
            sb + sv.len() <= n,
            n == lines@.len(),
            within(outs@, lines@.len() as int),
            k <= entries@.len(),
            forall|j: int| 0 <= j < ev.len() ==> #[trigger] ev[j].offset + ev[j].extra.len() < sv.len(),
            summary_outcome(lines_view(lines@), outputs_view(outs@)) == entries_outcome(
                lines_view(lines@),
                outputs_view(outs@),
                ev,
                sb as int,
                k as int,
            ),
        decreases entries.len() - k,
    {
        let p = &entries[k];
        assert(ev[k as int] == p@);
        match p.result {
            TestResult::Pass => {},
            TestResult::Skip => {},
            _ => {
                assert(p@.extra.len() == p.extra@.len());
                assert(entries_outcome(lines_view(lines@), outputs_view(outs@), ev, sb as int, k as int)
                    == Some(entry_outcome(lines_view(lines@), outputs_view(outs@), ev[k as int], sb as int)));
                return entry_finding(lines, outs, p, sb);
            },
        }
        k = k + 1;
    }
    (None, None, None, None)
}

/// Finds the failure in an autopkgtest log: the match, the test it concerns, the
/// problem and a description.
///
/// The first error message of autopkgtest decides, if there is one; else the first test
/// of the summary that neither passed nor was skipped; a log without a summary gives its
/// last non-blank line.
pub fn find_autopkgtest_failure_description(lines: Vec<&str>) -> (r: Outcome)
    ensures
        finding_is(r, autopkgtest_failure_spec(lines_view(lines@))),
{
    let ghost ls = lines_view(lines@);
    let (e, current, outs) = collect(&lines);
    if e < lines.len() {
        assert(ls[e as int] == lines@[e as int]@);
        let m = match parse_autopkgtest_line(lines[e]) {
            Some((_, Packet::Error(m))) => m,
            _ => String::new(),
        };
        let msg = error_text(&lines, e, m.as_str());
        return error_finding(&lines, e, &current, &outs, msg.as_str());
    }
    summary_finding(&lines, &outs)
}

} // verus!
