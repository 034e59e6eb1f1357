//! Parsing of autopkgtest logs: the packets that structure the log, the summary
//! section, and the search for the line that explains a failure.
use vstd::prelude::*;
use crate::logmatch::lines_view;
use crate::pattern::{group, regex_captures, regex_captures_spec, get_group, captures_view};
use crate::logmatch::{LogMatch, SingleLineMatch, origin_text, single_match_at};
use crate::problem::{Problem, ProblemView, opt_view, opt_problem_view};
use crate::pattern::regex_is_match;
use crate::pattern::regex_matches;
use crate::text::{split_spec, split_char, parse_i32, signed_value, concat, occurs_at};
use crate::text::{
    first_occurrence, contains_spec, trim_end_char_spec, starts_with, strip_prefix, split_once,
    trim_end_matches, str_eq,
};

verus! {

/// A structural line of an autopkgtest log.
#[derive(Debug, PartialEq, Eq, Clone)]
pub enum Packet {
    /// The start of the source section.
    Source,
    /// The start of the summary section.
    Summary,
    /// The start of the output of a test.
    TestBeginOutput(String),
    /// The end of the output of a test.
    TestEndOutput(String),
    /// The start of the results of a test.
    Results(String),
    /// The start of the stderr of a test.
    Stderr(String),
    /// The testbed being prepared for a test.
    TestbedSetup(String),
    /// Another field of output of a test: the test name and the field.
    TestOutput(String, String),
    /// An error message.
    Error(String),
    /// Any other autopkgtest message.
    Other(String),
}

/// The content of a [`Packet`], with its texts as sequences of characters.
pub enum PacketView {
    Source,
    Summary,
    TestBeginOutput(Seq<char>),
    TestEndOutput(Seq<char>),
    Results(Seq<char>),
    Stderr(Seq<char>),
    TestbedSetup(Seq<char>),
    TestOutput(Seq<char>, Seq<char>),
    Error(Seq<char>),
    Other(Seq<char>),
}

impl View for Packet {
    type V = PacketView;

    open spec fn view(&self) -> PacketView {
        match self {
            Packet::Source => PacketView::Source,
            Packet::Summary => PacketView::Summary,
            Packet::TestBeginOutput(t) => PacketView::TestBeginOutput(t@),
            Packet::TestEndOutput(t) => PacketView::TestEndOutput(t@),
            Packet::Results(t) => PacketView::Results(t@),
            Packet::Stderr(t) => PacketView::Stderr(t@),
            Packet::TestbedSetup(t) => PacketView::TestbedSetup(t@),
            Packet::TestOutput(t, f) => PacketView::TestOutput(t@, f@),
            Packet::Error(m) => PacketView::Error(m@),
            Packet::Other(m) => PacketView::Other(m@),
        }
    }
}

/// The expression that recognises an autopkgtest message line.
pub open spec fn packet_regex() -> Seq<char> {
    "autopkgtest \\[([0-9:]+)\\]: (.*)"@
}

/// The message of a test packet: the text after `test `, without trailing newlines.
pub open spec fn test_message(message: Seq<char>) -> Seq<char> {
    trim_end_char_spec(message.skip("test "@.len() as int), '\n')
}

/// Whether a message is a test packet (it starts with `test `).
pub open spec fn is_test_message(message: Seq<char>) -> bool {
    !"@@@@@@@@@@@@@@@@@@@@ source "@.is_prefix_of(message)
        && !"@@@@@@@@@@@@@@@@@@@@ summary"@.is_prefix_of(message) && "test "@.is_prefix_of(message)
}

/// The packet that a test message describes, given where its `: ` separator is.
pub open spec fn test_packet(rest: Seq<char>, i: int) -> PacketView {
    let name = rest.take(i);
    let status = rest.skip(i + ": "@.len());
    if status == "[-----------------------"@ {
        PacketView::TestBeginOutput(name)
    } else if status == "-----------------------]"@ {
        PacketView::TestEndOutput(name)
    } else if status == " - - - - - - - - - - results - - - - - - - - - -"@ {
        PacketView::Results(name)
    } else if status == " - - - - - - - - - - stderr - - - - - - - - - -"@ {
        PacketView::Stderr(name)
    } else if status == "preparing testbed"@ {
        PacketView::TestbedSetup(name)
    } else {
        PacketView::TestOutput(name, status)
    }
}

/// The packet that an autopkgtest message describes.
pub open spec fn classify_message(message: Seq<char>) -> PacketView {
    if "@@@@@@@@@@@@@@@@@@@@ source "@.is_prefix_of(message) {
        PacketView::Source
    } else if "@@@@@@@@@@@@@@@@@@@@ summary"@.is_prefix_of(message) {
        PacketView::Summary
    } else if "test "@.is_prefix_of(message) {
        let rest = test_message(message);
        test_packet(rest, choose|i: int| first_occurrence(rest, ": "@, i))
    } else if "ERROR: "@.is_prefix_of(message) {
        PacketView::Error(message.skip("ERROR: "@.len() as int))
    } else {
        PacketView::Other(message)
    }
}

/// The timestamp and packet of an autopkgtest log line, if it is a message line.
pub open spec fn parse_line_spec(line: Seq<char>) -> Option<(Seq<char>, PacketView)> {
    match regex_captures_spec(packet_regex(), line) {
        Some(c) => Some((group(c, 1), classify_message(group(c, 2)))),
        None => None,
    }
}

/// Whether a line can be parsed: a test message must hold a `: ` separator.
pub open spec fn parsable_line(line: Seq<char>) -> bool {
    match regex_captures_spec(packet_regex(), line) {
        Some(c) => is_test_message(group(c, 2)) ==> contains_spec(
            test_message(group(c, 2)),
            ": "@,
        ),
        None => true,
    }
}

/// The first occurrence of a pattern is unique.
pub proof fn lemma_first_occurrence_unique(s: Seq<char>, p: Seq<char>, i: int, j: int)
    requires
        first_occurrence(s, p, i),
        first_occurrence(s, p, j),
    ensures
        i == j,
{
    if i < j {
        assert(!crate::text::occurs_at(s, p, i));
    } else if j < i {
        assert(!crate::text::occurs_at(s, p, j));
    }
}

/// Parses one line of an autopkgtest log into its timestamp and packet.
///
/// A test message without the `: ` that separates the test name from its status
/// cannot be parsed; such a line is not taken for a packet.
pub fn parse_autopkgtest_line(line: &str) -> (r: Option<(String, Packet)>)
    ensures
        r matches Some((ts, p)) ==> parsable_line(line@) && parse_line_spec(line@) == Some(
            (ts@, p@),
        ),
        r is None ==> parse_line_spec(line@) is None || !parsable_line(line@),
{
    let caps = match regex_captures("autopkgtest \\[([0-9:]+)\\]: (.*)", line) {
        Some(c) => c,
        None => {
            return None;
        },
    };
    let ghost c = captures_view(caps@);
    let timestamp = get_group(&caps, 1);
    let message = get_group(&caps, 2);
    let message = message.as_str();
    if starts_with(message, "@@@@@@@@@@@@@@@@@@@@ source ") {
        Some((timestamp, Packet::Source))
    } else if starts_with(message, "@@@@@@@@@@@@@@@@@@@@ summary") {
        Some((timestamp, Packet::Summary))
    } else if let Some(rest) = strip_prefix(message, "test ") {
        let rest = trim_end_matches(rest, '\n');
        assert(rest@ == test_message(message@));
        assert(is_test_message(message@));
        let (testname, status) = match split_once(rest, ": ") {
            Some(pair) => pair,
            None => {
                return None;
            },
        };
        proof {
            let i = choose|i: int| first_occurrence(rest@, ": "@, i);
            lemma_first_occurrence_unique(rest@, ": "@, i, testname@.len() as int);
            assert(testname@ == rest@.take(i));
            assert(status@ == rest@.skip(i + ": "@.len()));
        }
        let p = if str_eq(status, "[-----------------------") {
            Packet::TestBeginOutput(testname.to_string())
        } else if str_eq(status, "-----------------------]") {
            Packet::TestEndOutput(testname.to_string())
        } else if str_eq(status, " - - - - - - - - - - results - - - - - - - - - -") {
            Packet::Results(testname.to_string())
        } else if str_eq(status, " - - - - - - - - - - stderr - - - - - - - - - -") {
            Packet::Stderr(testname.to_string())
        } else if str_eq(status, "preparing testbed") {
            Packet::TestbedSetup(testname.to_string())
        } else {
            Packet::TestOutput(testname.to_string(), status.to_string())
        };
        Some((timestamp, p))
    } else if let Some(rest) = strip_prefix(message, "ERROR: ") {
        Some((timestamp, Packet::Error(rest.to_string())))
    } else {
        Some((timestamp, Packet::Other(message.to_string())))
    }
}

/// The outcome of one test in the summary section.
#[derive(Debug, PartialEq, Eq, Clone, Copy, Structural)]
pub enum TestResult {
    /// The test passed.
    Pass,
    /// The test failed.
    Fail,
    /// The test was skipped.
    Skip,
    /// The test failed but is known to be flaky.
    Flaky,
}

/// The result that a word names, if any.
pub open spec fn result_spec(s: Seq<char>) -> Option<TestResult> {
    if s == "PASS"@ {
        Some(TestResult::Pass)
    } else if s == "FAIL"@ {
        Some(TestResult::Fail)
    } else if s == "SKIP"@ {
        Some(TestResult::Skip)
    } else if s == "FLAKY"@ {
        Some(TestResult::Flaky)
    } else {
        None
    }
}

impl TestResult {
    /// Parses `PASS`, `FAIL`, `SKIP` or `FLAKY`; any other text is an error.
    pub fn from_str(s: &str) -> (r: Result<TestResult, ()>)
        ensures
            r matches Ok(t) ==> result_spec(s@) == Some(t),
            r is Err ==> result_spec(s@) is None,
    {
        if str_eq(s, "PASS") {
            Ok(TestResult::Pass)
        } else if str_eq(s, "FAIL") {
            Ok(TestResult::Fail)
        } else if str_eq(s, "SKIP") {
            Ok(TestResult::Skip)
        } else if str_eq(s, "FLAKY") {
            Ok(TestResult::Flaky)
        } else {
            Err(())
        }
    }
}

/// One entry of the summary section.
#[derive(Debug, PartialEq, Eq, Clone)]
pub struct Summary {
    /// The 0-based offset of the entry within the summary lines.
    pub offset: usize,
    /// The name of the test.
    pub name: String,
    /// The outcome of the test.
    pub result: TestResult,
    /// The reason given after the outcome, if any.
    pub reason: Option<String>,
    /// The `badpkg:` and `blame:` lines that follow a `badpkg` entry.
    pub extra: Vec<String>,
}

/// The content of a [`Summary`].
pub struct SummaryView {
    pub offset: nat,
    pub name: Seq<char>,
    pub result: TestResult,
    pub reason: Option<Seq<char>>,
    pub extra: Seq<Seq<char>>,
}

impl View for Summary {
    type V = SummaryView;

    open spec fn view(&self) -> SummaryView {
        SummaryView {
            offset: self.offset as nat,
            name: self.name@,
            result: self.result,
            reason: match self.reason {
                Some(r) => Some(r@),
                None => None,
            },
            extra: self.extra@.map_values(|s: String| s@),
        }
    }
}

impl Summary {
    /// The 0-based offset of the entry.
    pub fn offset(&self) -> (r: usize)
        ensures
            r == self.offset,
    {
        self.offset
    }

    /// The 1-based line number of the entry.
    pub fn lineno(&self) -> (r: usize)
        requires
            self.offset < usize::MAX,
        ensures
            r == self.offset + 1,
    {
        self.offset + 1
    }
}

/// The expression for a passing summary entry.
pub open spec fn pass_regex() -> Seq<char> {
    "([^ ]+)(?:[ ]+)PASS"@
}

/// The expression for a summary entry with an outcome and a reason.
pub open spec fn result_regex() -> Seq<char> {
    "([^ ]+)(?:[ ]+)(FAIL|PASS|SKIP|FLAKY) (.+)"@
}

/// Whether a line continues a `badpkg` entry.
pub open spec fn is_badpkg_extra(line: Seq<char>) -> bool {
    "badpkg:"@.is_prefix_of(line) || "blame:"@.is_prefix_of(line)
}

/// How many lines after `i` continue a `badpkg` entry.
pub open spec fn extra_count(lines: Seq<Seq<char>>, i: int) -> nat
    decreases lines.len() - i,
{
    if 0 <= i && i + 1 < lines.len() && is_badpkg_extra(lines[i + 1]) {
        1 + extra_count(lines, i + 1)
    } else {
        0
    }
}

/// The entries of the summary lines from index `i` on.
pub open spec fn summary_from(lines: Seq<Seq<char>>, i: int) -> Seq<SummaryView>
    decreases lines.len() - i, 1int,
{
    if i < 0 || i >= lines.len() {
        Seq::empty()
    } else if regex_captures_spec(pass_regex(), lines[i]) is Some {
        let c = regex_captures_spec(pass_regex(), lines[i]).unwrap();
        seq![
            SummaryView {
                offset: i as nat,
                name: group(c, 1),
                result: TestResult::Pass,
                reason: None,
                extra: Seq::empty(),
            },
        ] + summary_from(lines, i + 1)
    } else if regex_captures_spec(result_regex(), lines[i]) is Some && result_spec(
        group(regex_captures_spec(result_regex(), lines[i]).unwrap(), 2),
    ) is Some {
        let c = regex_captures_spec(result_regex(), lines[i]).unwrap();
        let reason = group(c, 3);
        proof {
            lemma_extra_count_bound(lines, i);
        }
        let n: nat = if reason == "badpkg"@ {
            extra_count(lines, i)
        } else {
            0
        };
        seq![
            SummaryView {
                offset: i as nat,
                name: group(c, 1),
                result: result_spec(group(c, 2)).unwrap(),
                reason: Some(reason),
                extra: lines.subrange(i + 1, i + 1 + n),
            },
        ] + summary_from(lines, i + 1 + n)
    } else {
        summary_from(lines, i + 1)
    }
}

/// The number of continuation lines never runs past the end.
pub proof fn lemma_extra_count_bound(lines: Seq<Seq<char>>, i: int)
    requires
        0 <= i < lines.len(),
    ensures
        i + 1 + extra_count(lines, i) <= lines.len(),
        forall|k: int|
            i + 1 <= k < i + 1 + extra_count(lines, i) ==> #[trigger] is_badpkg_extra(lines[k]),
    decreases lines.len() - i,
{
    if i + 1 < lines.len() && is_badpkg_extra(lines[i + 1]) {
        lemma_extra_count_bound(lines, i + 1);
    }
}

/// Whether a line is an entry of the summary: a passing test, or a test with an outcome
/// that autopkgtest knows and a reason.
pub open spec fn is_entry_line(line: Seq<char>) -> bool {
    ||| regex_captures_spec(pass_regex(), line) is Some
    ||| (regex_captures_spec(result_regex(), line) is Some && result_spec(
        group(regex_captures_spec(result_regex(), line).unwrap(), 2),
    ) is Some)
}

/// Whether summary entry `e` is what its lines say: it stands at an entry line, its name,
/// outcome and reason are read from that line, and its extra lines are the `badpkg:` and
/// `blame:` lines right below it (all of them, and only for a `badpkg` reason).
pub open spec fn entry_reads_its_lines(ls: Seq<Seq<char>>, e: SummaryView) -> bool {
    let end: int = e.offset as int + 1 + e.extra.len();
    &&& end <= ls.len()
    &&& is_entry_line(ls[e.offset as int])
    &&& match regex_captures_spec(pass_regex(), ls[e.offset as int]) {
        Some(c) => e.name == group(c, 1) && e.result == TestResult::Pass && e.reason is None,
        None => {
            let c = regex_captures_spec(result_regex(), ls[e.offset as int]).unwrap();
            &&& e.name == group(c, 1)
            &&& Some(e.result) == result_spec(group(c, 2))
            &&& e.reason == Some(group(c, 3))
        },
    }
    &&& e.extra == ls.subrange(e.offset as int + 1, end)
    &&& forall|m: int| 0 <= m < e.extra.len() ==> is_badpkg_extra(#[trigger] e.extra[m])
    &&& if e.reason == Some("badpkg"@) {
        end == ls.len() || !is_badpkg_extra(ls[end])
    } else {
        e.extra.len() == 0
    }
}

/// Whether entry `e` covers line `j`: its own line or one of its extra lines.
pub open spec fn entry_covers(e: SummaryView, j: int) -> bool {
    e.offset <= j <= e.offset + e.extra.len()
}

/// The `badpkg:` and `blame:` lines after line `i` end at a line that is not one.
proof fn lemma_extra_count_end(lines: Seq<Seq<char>>, i: int)
    requires
        0 <= i < lines.len(),
    ensures
        i + 1 + extra_count(lines, i) == lines.len() || !is_badpkg_extra(
            lines[i + 1 + extra_count(lines, i)],
        ),
    decreases lines.len() - i,
{
    if i + 1 < lines.len() && is_badpkg_extra(lines[i + 1]) {
        lemma_extra_count_end(lines, i + 1);
    }
}

/// The shape of the entries read from line `i` on.
proof fn lemma_summary_shape(ls: Seq<Seq<char>>, i: int)
    requires
        0 <= i,
    ensures
        forall|k: int| 0 <= k < summary_from(ls, i).len() ==> i <= #[trigger] summary_from(ls, i)[k].offset
            && entry_reads_its_lines(ls, summary_from(ls, i)[k]),
        forall|k1: int, k2: int|
            0 <= k1 < k2 < summary_from(ls, i).len() ==> #[trigger] summary_from(ls, i)[k1].offset
                + summary_from(ls, i)[k1].extra.len() < #[trigger] summary_from(ls, i)[k2].offset,
        forall|j: int|
            i <= j < ls.len() && is_entry_line(#[trigger] ls[j]) ==> exists|k: int|
                0 <= k < summary_from(ls, i).len() && entry_covers(#[trigger] summary_from(ls, i)[k], j),
    decreases ls.len() - i,
{
    let r = summary_from(ls, i);
    if i >= ls.len() {
    } else if regex_captures_spec(pass_regex(), ls[i]) is Some {
        lemma_summary_shape(ls, i + 1);
        let rest = summary_from(ls, i + 1);
        assert(r == seq![r[0]] + rest);
        assert forall|k: int| 0 < k < r.len() implies r[k] == rest[k - 1] by {}
        assert(r[0].extra =~= ls.subrange(i + 1, i + 1));
        assert forall|j: int| i <= j < ls.len() && is_entry_line(#[trigger] ls[j]) implies exists|k: int|
            0 <= k < r.len() && entry_covers(#[trigger] r[k], j) by {
            if j == i {
                assert(entry_covers(r[0], j));
            } else {
                let k = choose|k: int| 0 <= k < rest.len() && entry_covers(#[trigger] rest[k], j);
                assert(r[k + 1] == rest[k]);
                assert(entry_covers(r[k + 1], j));
            }
        }
    } else if regex_captures_spec(result_regex(), ls[i]) is Some && result_spec(
        group(regex_captures_spec(result_regex(), ls[i]).unwrap(), 2),
    ) is Some {
        let c = regex_captures_spec(result_regex(), ls[i]).unwrap();
        lemma_extra_count_bound(ls, i);
        lemma_extra_count_end(ls, i);
        let n: nat = if group(c, 3) == "badpkg"@ {
            extra_count(ls, i)
        } else {
            0
        };
        lemma_summary_shape(ls, i + 1 + n);
        let rest = summary_from(ls, i + 1 + n);
        assert(r == seq![r[0]] + rest);
        assert forall|k: int| 0 < k < r.len() implies r[k] == rest[k - 1] by {}
        assert(r[0].extra.len() == n);
        assert(entry_reads_its_lines(ls, r[0]));
        assert forall|j: int| i <= j < ls.len() && is_entry_line(#[trigger] ls[j]) implies exists|k: int|
            0 <= k < r.len() && entry_covers(#[trigger] r[k], j) by {
            if j <= i + n {
                assert(entry_covers(r[0], j));
            } else {
                let k = choose|k: int| 0 <= k < rest.len() && entry_covers(#[trigger] rest[k], j);
                assert(r[k + 1] == rest[k]);
                assert(entry_covers(r[k + 1], j));
            }
        }
    } else {
        lemma_summary_shape(ls, i + 1);
        assert forall|j: int| i <= j < ls.len() && is_entry_line(#[trigger] ls[j]) implies exists|k: int|
            0 <= k < r.len() && entry_covers(#[trigger] r[k], j) by {
            assert(j != i);
        }
    }
}

/// The summary yields exactly one entry for every entry line that does not continue a
/// `badpkg` entry above it. Each entry is what its line says (name, outcome and reason),
/// with the `badpkg:` and `blame:` lines right below a `badpkg` entry as its extra lines
/// (all of them, and no others); the entries follow the lines in order without sharing
/// a line; and every entry line of the log is the line of an entry or one of its extra
/// lines, so no entry is lost.
pub proof fn law_summary_entries_follow_lines(ls: Seq<Seq<char>>)
    ensures
        forall|k: int| 0 <= k < summary_from(ls, 0).len() ==> entry_reads_its_lines(ls, #[trigger] summary_from(ls, 0)[k]),
        forall|k1: int, k2: int|
            0 <= k1 < k2 < summary_from(ls, 0).len() ==> #[trigger] summary_from(ls, 0)[k1].offset
                + summary_from(ls, 0)[k1].extra.len() < #[trigger] summary_from(ls, 0)[k2].offset,
        forall|j: int|
            0 <= j < ls.len() && is_entry_line(#[trigger] ls[j]) ==> exists|k: int|
                0 <= k < summary_from(ls, 0).len() && entry_covers(#[trigger] summary_from(ls, 0)[k], j),
{
    lemma_summary_shape(ls, 0);
}

/// Parses the summary section of an autopkgtest log into its entries.
pub fn parse_autopkgtest_summary(lines: Vec<&str>) -> (r: Vec<Summary>)
    ensures
        r@.map_values(|s: Summary| s@) == summary_from(lines_view(lines@), 0),
{
    let ghost ls = lines_view(lines@);
    let mut i: usize = 0;
    let mut ret: Vec<Summary> = Vec::new();
    while i < lines.len()
        invariant
            ls == lines_view(lines@),
            i <= lines@.len(),
            ret@.map_values(|s: Summary| s@) + summary_from(ls, i as int) == summary_from(ls, 0),
        decreases lines.len() - i,
    {
        let line = lines[i];
        assert(ls[i as int] == line@);
        let ghost before = ret@.map_values(|s: Summary| s@);
        if let Some(caps) = regex_captures("([^ ]+)(?:[ ]+)PASS", line) {
            let s = Summary {
                offset: i,
                name: get_group(&caps, 1),
                result: TestResult::Pass,
                reason: None,
                extra: Vec::new(),
            };
            ret.push(s);
            proof {
                assert(s@.extra =~= Seq::<Seq<char>>::empty());
                assert(ret@.map_values(|s: Summary| s@) =~= before.push(s@));
                assert(summary_from(ls, i as int) == seq![s@] + summary_from(ls, i + 1));
                assert(before.push(s@) + summary_from(ls, i + 1) =~= before + (seq![s@]
                    + summary_from(ls, i + 1)));
            }
            i = i + 1;
            continue;
        }
        if let Some(caps) = regex_captures("([^ ]+)(?:[ ]+)(FAIL|PASS|SKIP|FLAKY) (.+)", line) {
            let result_text = get_group(&caps, 2);
            let result = match TestResult::from_str(result_text.as_str()) {
                Ok(t) => t,
                Err(()) => {
                    i = i + 1;
                    continue;
                },
            };
            let testname = get_group(&caps, 1);
            let reason = get_group(&caps, 3);
            let offset = i;
            let mut extra: Vec<String> = Vec::new();
            let is_badpkg = str_eq(reason.as_str(), "badpkg");
            proof {
                lemma_extra_count_bound(ls, i as int);
            }
            if is_badpkg {
                while i + 1 < lines.len() && (starts_with(lines[i + 1], "badpkg:") || starts_with(
                    lines[i + 1],
                    "blame:",
                ))
                    invariant
                        ls == lines_view(lines@),
                        offset <= i < lines@.len(),
                        i - offset + extra_count(ls, i as int) == extra_count(ls, offset as int),
                        extra@.map_values(|s: String| s@) =~= ls.subrange(
                            offset + 1,
                            i + 1,
                        ),
                    decreases lines.len() - i,
                {
                    assert(ls[i + 1] == lines@[i + 1]@);
                    let ghost prev = extra@.map_values(|s: String| s@);
                    extra.push(lines[i + 1].to_string());
                    assert(extra@.map_values(|s: String| s@) =~= prev.push(ls[i + 1]));
                    i = i + 1;
                    assert(ls.subrange(offset + 1, i + 1) =~= ls.subrange(offset + 1, i as int).push(
                        ls[i as int],
                    ));
                }
                proof {
                    if i + 1 < lines.len() {
                        assert(ls[i + 1] == lines@[i + 1]@);
                    }
                    assert(extra_count(ls, i as int) == 0);
                }
            }
            proof {
                if !is_badpkg {
                    assert(extra@.map_values(|s: String| s@) =~= ls.subrange(
                        offset + 1,
                        offset + 1,
                    ));
                }
                assert(reason@ == group(captures_view(caps@), 3));
                assert(result_spec(group(captures_view(caps@), 2)) == Some(result));
            }
            let s = Summary { offset, name: testname, result, reason: Some(reason), extra };
            ret.push(s);
            proof {
                assert(ret@.map_values(|s: Summary| s@) =~= before.push(s@));
                assert(summary_from(ls, offset as int) == seq![s@] + summary_from(ls, i + 1));
                assert(before.push(s@) + summary_from(ls, i + 1) =~= before + (seq![s@]
                    + summary_from(ls, i + 1)));
            }
            i = i + 1;
        } else {
            i = i + 1;
        }
    }
    assert(summary_from(ls, i as int) =~= Seq::<SummaryView>::empty());
    assert(ret@.map_values(|s: Summary| s@) + summary_from(ls, i as int) =~= ret@.map_values(
        |s: Summary| s@,
    ));
    ret
}

/// A section of autopkgtest output that lines are collected into.
#[derive(Debug, PartialEq, Eq, Clone, Hash)]
pub enum Field {
    /// The output of a test.
    Output(String),
    /// Another field of output of a test: the test name and the field.
    FieldOutput(String, String),
    /// The stderr of a test.
    Stderr(String),
    /// The results of a test.
    Results(String),
    /// The testbed setup for a test.
    PrepareTestbed(String),
    /// The summary section.
    Summary,
}

/// The test that a field belongs to, if any.
pub open spec fn field_testname(f: &Field) -> Option<Seq<char>> {
    match f {
        Field::Output(t) => Some(t@),
        Field::FieldOutput(t, _) => Some(t@),
        Field::Stderr(t) => Some(t@),
        Field::Results(t) => Some(t@),
        Field::PrepareTestbed(t) => Some(t@),
        Field::Summary => None,
    }
}

/// How a field is described in messages.
pub open spec fn field_text(f: &Field) -> Seq<char> {
    match f {
        Field::Output(t) => "output for test "@ + t@,
        Field::Stderr(t) => "stderr for test "@ + t@,
        Field::Results(t) => "results for test "@ + t@,
        Field::PrepareTestbed(t) => "testbed setup for test "@ + t@,
        Field::FieldOutput(t, f) => f@ + " for test "@ + t@,
        Field::Summary => "summary"@,
    }
}

impl Field {
    /// The test that this field belongs to, if any.
    pub fn testname(&self) -> (r: Option<&str>)
        ensures
            opt_str_view(r) == field_testname(self),
    {
        match self {
            Field::Output(t) => Some(t.as_str()),
            Field::Stderr(t) => Some(t.as_str()),
            Field::Results(t) => Some(t.as_str()),
            Field::PrepareTestbed(t) => Some(t.as_str()),
            Field::FieldOutput(t, _) => Some(t.as_str()),
            Field::Summary => None,
        }
    }

    /// How the field is described in messages.
    pub fn to_string(&self) -> (r: String)
        ensures
            r@ == field_text(self),
    {
        match self {
            Field::Output(t) => concat("output for test ", t.as_str()),
            Field::Stderr(t) => concat("stderr for test ", t.as_str()),
            Field::Results(t) => concat("results for test ", t.as_str()),
            Field::PrepareTestbed(t) => concat("testbed setup for test ", t.as_str()),
            Field::FieldOutput(t, f) => {
                let a = concat(f.as_str(), " for test ");
                concat(a.as_str(), t.as_str())
            },
            Field::Summary => "summary".to_string(),
        }
    }

    /// A copy of this field.
    pub fn copy(&self) -> (r: Field)
        ensures
            r == *self,
    {
        match self {
            Field::Output(t) => Field::Output(t.clone()),
            Field::Stderr(t) => Field::Stderr(t.clone()),
            Field::Results(t) => Field::Results(t.clone()),
            Field::PrepareTestbed(t) => Field::PrepareTestbed(t.clone()),
            Field::FieldOutput(t, f) => Field::FieldOutput(t.clone(), f.clone()),
            Field::Summary => Field::Summary,
        }
    }
}

/// The view of an optional borrowed text.
pub open spec fn opt_str_view(s: Option<&str>) -> Option<Seq<char>> {
    match s {
        Some(t) => Some(t@),
        None => None,
    }
}

/// One entry of a `blame:` line: the text before the first `:` as its kind, if
/// there is a `:`, and the rest.
pub open spec fn blame_entry(e: Seq<char>) -> (Option<Seq<char>>, Seq<char>) {
    if contains_spec(e, ":"@) {
        let i = choose|i: int| first_occurrence(e, ":"@, i);
        (Some(e.take(i)), e.skip(i + 1))
    } else {
        (None, e)
    }
}

/// The entries of a `blame:` line.
pub open spec fn blame_entries(line: Seq<char>) -> Seq<(Option<Seq<char>>, Seq<char>)> {
    split_spec(trim_end_char_spec(line.skip("blame: "@.len() as int), '\n'), ' ').map_values(
        |e: Seq<char>| blame_entry(e),
    )
}

/// The unsatisfiable-dependencies problem that a `blame:` line of the summary describes.
pub fn deps_unsatisfiable_from_blame_line(line: &str) -> (r: Problem)
    requires
        "blame: "@.is_prefix_of(line@),
    ensures
        r@ == ProblemView::AutopkgtestDepsUnsatisfiable(blame_entries(line@)),
{
    let rest = match strip_prefix(line, "blame: ") {
        Some(rest) => rest,
        None => line,
    };
    let rest = trim_end_matches(rest, '\n');
    let entries = split_char(rest, ' ');
    let ghost ev = entries@.map_values(|t: String| t@);
    let mut args: Vec<(Option<String>, String)> = Vec::new();
    let mut i: usize = 0;
    while i < entries.len()
        invariant
            ev == entries@.map_values(|t: String| t@),
            ev == split_spec(rest@, ' '),
            i <= entries@.len(),
            args@.len() == i,
            forall|k: int|
                0 <= k < i ==> (opt_view((#[trigger] args@[k]).0), args@[k].1@) == blame_entry(
                    ev[k],
                ),
        decreases entries.len() - i,
    {
        let entry = entries[i].as_str();
        assert(entry@ == ev[i as int]);
        match split_once(entry, ":") {
            Some((kind, arg)) => {
                proof {
                    let j = choose|j: int| first_occurrence(entry@, ":"@, j);
                    lemma_first_occurrence_unique(entry@, ":"@, j, kind@.len() as int);
                    reveal_strlit(":");
                }
                args.push((Some(kind.to_string()), arg.to_string()));
            },
            None => {
                args.push((None, entry.to_string()));
            },
        }
        i = i + 1;
    }
    let r = Problem::AutopkgtestDepsUnsatisfiable(args);
    assert(crate::problem::pairs_view(args) =~= blame_entries(line@));
    r
}

/// The expression for a failed testbed command.
pub open spec fn testbed_command_regex() -> Seq<char> {
    "\\[(.*)\\] failed \\(exit status ([0-9]+), stderr \\'(.*)\\'\\)\\n"@
}

/// The expression for a missing chroot in a command's stderr.
pub open spec fn chroot_not_found_regex() -> Seq<char> {
    "E: (.*): Chroot not found\\\\n"@
}

/// The expression for a virtualisation subprocess writing to stderr.
pub open spec fn virt_stderr_regex() -> Seq<char> {
    "<VirtSubproc>: failure: \\['(.*)'\\] unexpectedly produced stderr output `(.*)\\n"@
}

/// The expression for a schroot session that went away.
pub open spec fn schroot_gone_regex() -> Seq<char> {
    "W: /var/lib/schroot/session/(.*): Failed to stat file: No such file or directory"@
}

/// The problem that a line shows about testbed setup, if any.
///
/// A failed-command line whose exit status does not fit an `i32` shows nothing.
pub open spec fn testbed_line_problem(line: Seq<char>) -> Option<ProblemView> {
    match regex_captures_spec(testbed_command_regex(), line) {
        Some(c) => {
            let stderr = group(c, 3);
            match regex_captures_spec(chroot_not_found_regex(), stderr) {
                Some(c2) => Some(ProblemView::ChrootNotFound { chroot: group(c2, 1) }),
                None => match signed_value(group(c, 2)) {
                    Some(v) => if i32::MIN <= v <= i32::MAX {
                        Some(
                            ProblemView::AutopkgtestTestbedSetupFailure {
                                command: group(c, 1),
                                exit_status: v as i32,
                                error: stderr,
                            },
                        )
                    } else {
                        None
                    },
                    None => None,
                },
            }
        },
        None => match regex_captures_spec(virt_stderr_regex(), line) {
            Some(c) => if regex_matches(schroot_gone_regex(), group(c, 2)) {
                Some(ProblemView::AutopkgtestDepChrootDisappeared)
            } else {
                Some(
                    ProblemView::AutopkgtestTestbedSetupFailure {
                        command: group(c, 1),
                        exit_status: 1,
                        error: group(c, 2),
                    },
                )
            },
            None => None,
        },
    }
}

/// The last line below index `n` that shows a testbed setup problem, with the problem.
pub open spec fn testbed_scan(lines: Seq<Seq<char>>, n: int) -> Option<(int, ProblemView)>
    decreases n,
{
    if n <= 0 {
        None
    } else {
        match testbed_line_problem(lines[n - 1]) {
            Some(p) => Some((n - 1, p)),
            None => testbed_scan(lines, n - 1),
        }
    }
}

/// The problem that one line shows about testbed setup, if any.
fn testbed_problem(line: &str) -> (r: Option<Problem>)
    ensures
        match r {
            Some(p) => testbed_line_problem(line@) == Some(p@),
            None => testbed_line_problem(line@) is None,
        },
{
    if let Some(c) = regex_captures(
        r"\[(.*)\] failed \(exit status ([0-9]+), stderr \'(.*)\'\)\n",
        line,
    ) {
        let command = get_group(&c, 1);
        let status = get_group(&c, 2);
        let stderr = get_group(&c, 3);
        if let Some(c2) = regex_captures(r"E: (.*): Chroot not found\\n", stderr.as_str()) {
            return Some(Problem::ChrootNotFound { chroot: get_group(&c2, 1) });
        }
        return match parse_i32(status.as_str()) {
            Some(v) => Some(
                Problem::AutopkgtestTestbedSetupFailure { command, exit_status: v, error: stderr },
            ),
            None => None,
        };
    }
    if let Some(c) = regex_captures(
        r"<VirtSubproc>: failure: \['(.*)'\] unexpectedly produced stderr output `(.*)\n",
        line,
    ) {
        let command = get_group(&c, 1);
        let stderr = get_group(&c, 2);
        if regex_is_match(
            r"W: /var/lib/schroot/session/(.*): Failed to stat file: No such file or directory",
            stderr.as_str(),
        ) {
            return Some(Problem::AutopkgtestDepChrootDisappeared);
        }
        return Some(
            Problem::AutopkgtestTestbedSetupFailure { command, exit_status: 1, error: stderr },
        );
    }
    None
}

/// Whether a line shows no testbed setup problem: a failed-command line whose stderr
/// names no missing chroot and whose exit status is no `i32`, or a line that is neither a
/// failed-command line nor a line of a virtualisation subprocess writing to stderr.
pub open spec fn shows_no_testbed_problem(line: Seq<char>) -> bool {
    match regex_captures_spec(testbed_command_regex(), line) {
        Some(c) => regex_captures_spec(chroot_not_found_regex(), group(c, 3)) is None && match signed_value(
            group(c, 2),
        ) {
            Some(v) => !(i32::MIN <= v <= i32::MAX),
            None => true,
        },
        None => regex_captures_spec(virt_stderr_regex(), line) is None,
    }
}

/// The line that the search for a testbed setup problem reports shows that problem, and
/// the lines below it up to `n` show none.
proof fn lemma_testbed_scan_line(ls: Seq<Seq<char>>, n: int)
    requires
        n <= ls.len(),
    ensures
        match testbed_scan(ls, n) {
            Some((i, p)) => 0 <= i < n && testbed_line_problem(ls[i]) == Some(p) && forall|j: int|
                i < j < n ==> testbed_line_problem(#[trigger] ls[j]) is None,
            None => forall|j: int| 0 <= j < n ==> testbed_line_problem(#[trigger] ls[j]) is None,
        },
    decreases n,
{
    if n > 0 {
        lemma_testbed_scan_line(ls, n - 1);
    }
}

/// A line shows no testbed setup problem exactly when the search finds none on it.
proof fn lemma_no_testbed_problem(line: Seq<char>)
    ensures
        testbed_line_problem(line) is None <==> shows_no_testbed_problem(line),
{
}

/// A failed testbed command is reported with its parts where they belong. On the line
/// that the search reports, when it reads `[C] failed (exit status N, stderr 'S')` (C, N
/// and S being the three groups of the failed-command expression), S names no missing
/// chroot and N fits an `i32`, the problem is a testbed setup failure whose command is
/// C, whose exit status is N and whose error is S. When instead the line reads
/// `<VirtSubproc>: failure: ['C'] unexpectedly produced stderr output `S` and S does
/// not tell of a vanished schroot session, the command is C, the exit status 1 and the
/// error S. The line reported is the last one that shows a testbed setup problem, and
/// nothing is reported when no line shows one.
pub proof fn law_testbed_failure_fields(ls: Seq<Seq<char>>)
    ensures
        testbed_scan(ls, ls.len() as int) is None ==> forall|j: int|
            0 <= j < ls.len() ==> shows_no_testbed_problem(#[trigger] ls[j]),
        testbed_scan(ls, ls.len() as int) matches Some((i, p)) ==> {
            &&& 0 <= i < ls.len()
            &&& forall|j: int| i < j < ls.len() ==> shows_no_testbed_problem(#[trigger] ls[j])
            &&& match regex_captures_spec(testbed_command_regex(), ls[i]) {
                Some(c) => match signed_value(group(c, 2)) {
                    Some(v) => (regex_captures_spec(chroot_not_found_regex(), group(c, 3)) is None
                        && i32::MIN <= v <= i32::MAX) ==> p
                        == ProblemView::AutopkgtestTestbedSetupFailure {
                        command: group(c, 1),
                        exit_status: v as i32,
                        error: group(c, 3),
                    },
                    None => true,
                },
                None => match regex_captures_spec(virt_stderr_regex(), ls[i]) {
                    Some(c) => !regex_matches(schroot_gone_regex(), group(c, 2)) ==> p
                        == ProblemView::AutopkgtestTestbedSetupFailure {
                        command: group(c, 1),
                        exit_status: 1,
                        error: group(c, 2),
                    },
                    None => true,
                },
            }
        },
{
    lemma_testbed_scan_line(ls, ls.len() as int);
    assert forall|j: int| 0 <= j < ls.len() implies (testbed_line_problem(#[trigger] ls[j]) is None
        <==> shows_no_testbed_problem(ls[j])) by {
        lemma_no_testbed_problem(ls[j]);
    }
}

/// Finds the last line that shows why the testbed could not be set up.
pub fn find_testbed_setup_failure(lines: Vec<&str>) -> (r: (Option<LogMatch>, Option<Problem>))
    ensures
        match testbed_scan(lines_view(lines@), lines@.len() as int) {
            Some((i, p)) => single_match_at(r.0, lines_view(lines@), i, "direct regex"@)
                && opt_problem_view(r.1) == Some(p),
            None => r.0 is None && r.1 is None,
        },
{
    let ghost ls = lines_view(lines@);
    let mut n = lines.len();
    while n > 0
        invariant
            ls == lines_view(lines@),
            n <= lines@.len(),
            testbed_scan(ls, lines@.len() as int) == testbed_scan(ls, n as int),
        decreases n,
    {
        let i = n - 1;
        assert(ls[i as int] == lines@[i as int]@);
        if let Some(p) = testbed_problem(lines[i]) {
            let m = SingleLineMatch::from_lines(lines.as_slice(), i, Some("direct regex"));
            return (Some(LogMatch::Single(m)), Some(p));
        }
        n = i;
    }
    (None, None)
}

} // verus!
