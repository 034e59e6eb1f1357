//! Located matches in a log: where an issue was found, and which lines show it.
use vstd::prelude::*;

verus! {

/// The view of a list of borrowed lines: the text of each line.
pub open spec fn lines_view(lines: Seq<&str>) -> Seq<Seq<char>> {
    lines.map_values(|s: &str| s@)
}

/// The view of a list of owned lines: the text of each line.
pub open spec fn strings_view(lines: Seq<String>) -> Seq<Seq<char>> {
    lines.map_values(|s: String| s@)
}

/// Every offset shifted by `k`.
pub open spec fn shift_offsets(offsets: Seq<usize>, k: int) -> Seq<int> {
    offsets.map_values(|o: usize| o + k)
}

/// True when every offset plus `k` still fits in a `usize`.
pub open spec fn offsets_fit(offsets: Seq<usize>, k: int) -> bool {
    forall|i: int| 0 <= i < offsets.len() ==> #[trigger] offsets[i] + k <= usize::MAX
}

/// The origin text that a match is labelled with: the given one, or the empty string.
pub open spec fn origin_text(origin: Option<&str>) -> Seq<char> {
    match origin {
        Some(s) => s@,
        None => Seq::<char>::empty(),
    }
}

/// Source identifier for a match, typically the name of the rule that found it.
#[derive(Clone, Debug)]
pub struct Origin(pub String);

impl Origin {
    /// Returns the inner string value.
    pub fn as_str(&self) -> (r: &str)
        ensures
            r@ == self.0@,
    {
        self.0.as_str()
    }

    /// A copy of this origin.
    pub fn copy(&self) -> (r: Origin)
        ensures
            r.0@ == self.0@,
    {
        Origin(self.0.clone())
    }

    /// The text that the origin is displayed as.
    pub fn to_string(&self) -> (r: String)
        ensures
            r@ == self.0@,
    {
        self.0.clone()
    }
}

/// Builds an origin from an optional label, falling back to the empty string.
pub fn origin_from_option(origin: Option<&str>) -> (r: Origin)
    ensures
        r.0@ == origin_text(origin),
{
    match origin {
        Some(s) => Origin(s.to_string()),
        None => Origin(String::new()),
    }
}

/// A match of content in a log file: the lines that show an issue and where they are.
///
/// A match is well formed when it holds at least one line and one offset per line.
pub trait Match: Sized {
    /// The origin label of the match.
    spec fn spec_origin(&self) -> Seq<char>;

    /// The 0-based offsets of the matched lines.
    spec fn spec_offsets(&self) -> Seq<usize>;

    /// The text of the matched lines.
    spec fn spec_lines(&self) -> Seq<Seq<char>>;

    /// At least one line, and as many offsets as lines.
    open spec fn well_formed(&self) -> bool {
        &&& self.spec_offsets().len() > 0
        &&& self.spec_offsets().len() == self.spec_lines().len()
    }

    /// Returns the matched line of text (the last one of a multi-line match).
    fn line(&self) -> (r: &str)
        requires
            self.well_formed(),
        ensures
            r@ == self.spec_lines().last(),
    ;

    /// Returns the origin information for this match.
    fn origin(&self) -> (r: &Origin)
        ensures
            r.0@ == self.spec_origin(),
    ;

    /// Returns the 0-based offset of the match (the last one of a multi-line match).
    fn offset(&self) -> (r: usize)
        requires
            self.well_formed(),
        ensures
            r == self.spec_offsets().last(),
    ;

    /// Returns the 1-based line number of the match.
    fn lineno(&self) -> (r: usize)
        requires
            self.well_formed(),
            self.spec_offsets().last() < usize::MAX,
        ensures
            r == self.spec_offsets().last() + 1,
    {
        self.offset() + 1
    }

    /// Returns all 1-based line numbers for this match.
    fn linenos(&self) -> (r: Vec<usize>)
        requires
            offsets_fit(self.spec_offsets(), 1),
        ensures
            r@.map_values(|x: usize| x as int) == shift_offsets(self.spec_offsets(), 1),
    {
        let offsets = self.offsets();
        let mut r: Vec<usize> = Vec::new();
        let mut i: usize = 0;
        while i < offsets.len()
            invariant
                offsets@ == self.spec_offsets(),
                offsets_fit(self.spec_offsets(), 1),
                i <= offsets.len(),
                r@.len() == i,
                forall|j: int| 0 <= j < i ==> #[trigger] r@[j] == offsets@[j] + 1,
            decreases offsets.len() - i,
        {
            assert(offsets@[i as int] + 1 <= usize::MAX);
            r.push(offsets[i] + 1);
            i = i + 1;
        }
        assert(r@.map_values(|x: usize| x as int) =~= shift_offsets(self.spec_offsets(), 1));
        r
    }

    /// Returns all 0-based offsets for this match.
    fn offsets(&self) -> (r: Vec<usize>)
        ensures
            r@ == self.spec_offsets(),
    ;

    /// Returns all lines of text in this match.
    fn lines(&self) -> (r: Vec<&str>)
        ensures
            lines_view(r@) == self.spec_lines(),
    ;

    /// Creates a new match with all offsets shifted by the given amount.
    fn add_offset(&self, extra: usize) -> (r: Self)
        requires
            offsets_fit(self.spec_offsets(), extra as int),
        ensures
            r.spec_offsets().map_values(|x: usize| x as int) == shift_offsets(
                self.spec_offsets(),
                extra as int,
            ),
            r.spec_lines() == self.spec_lines(),
            r.spec_origin() == self.spec_origin(),
    ;
}

/// A match for a single line in a log file.
#[derive(Clone, Debug)]
pub struct SingleLineMatch {
    /// Source identifier for the match.
    pub origin: Origin,
    /// Zero-based line offset in the source.
    pub offset: usize,
    /// The matched line content.
    pub line: String,
}

impl Match for SingleLineMatch {
    open spec fn spec_origin(&self) -> Seq<char> {
        self.origin.0@
    }

    open spec fn spec_offsets(&self) -> Seq<usize> {
        seq![self.offset]
    }

    open spec fn spec_lines(&self) -> Seq<Seq<char>> {
        seq![self.line@]
    }

    fn line(&self) -> (r: &str) {
        self.line.as_str()
    }

    fn origin(&self) -> (r: &Origin) {
        &self.origin
    }

    fn offset(&self) -> (r: usize) {
        self.offset
    }

    fn offsets(&self) -> (r: Vec<usize>) {
        let mut v: Vec<usize> = Vec::new();
        v.push(self.offset);
        assert(v@ =~= seq![self.offset]);
        v
    }

    fn lines(&self) -> (r: Vec<&str>) {
        let mut v: Vec<&str> = Vec::new();
        v.push(self.line.as_str());
        assert(lines_view(v@) =~= seq![self.line@]);
        v
    }

    fn add_offset(&self, extra: usize) -> (r: Self) {
        assert(self.spec_offsets()[0] == self.offset);
        let r = SingleLineMatch {
            origin: self.origin.copy(),
            offset: self.offset + extra,
            line: self.line.clone(),
        };
        assert(r.spec_offsets().map_values(|x: usize| x as int) =~= shift_offsets(
            self.spec_offsets(),
            extra as int,
        ));
        r
    }
}

impl SingleLineMatch {
    /// The text that the match is displayed as: `origin:lineno: line`.
    pub fn to_string(&self) -> (r: String)
        requires
            self.offset < usize::MAX,
        ensures
            r@ == crate::text::display_match(self.origin.0@, (self.offset + 1) as nat, self.line@),
    {
        crate::text::format_match(self.origin.0.as_str(), self.offset + 1, self.line.as_str())
    }

    /// Creates a new `SingleLineMatch` for the line at `offset` of `lines`.
    pub fn from_lines(lines: &[&str], offset: usize, origin: Option<&str>) -> (r: Self)
        requires
            offset < lines@.len(),
        ensures
            r.offset == offset,
            r.line@ == lines@[offset as int]@,
            r.origin.0@ == origin_text(origin),
    {
        let line = lines[offset];
        SingleLineMatch { origin: origin_from_option(origin), offset, line: line.to_string() }
    }
}

/// A match for multiple lines in a log file.
#[derive(Clone, Debug)]
pub struct MultiLineMatch {
    /// Source identifier for the match.
    pub origin: Origin,
    /// Zero-based line offsets for each matching line.
    pub offsets: Vec<usize>,
    /// The matched line contents.
    pub lines: Vec<String>,
}

impl MultiLineMatch {
    /// Creates a new `MultiLineMatch` with the specified origin, offsets, and lines.
    pub fn new(origin: Origin, offsets: Vec<usize>, lines: Vec<String>) -> (r: Self)
        requires
            offsets@.len() > 0,
            offsets@.len() == lines@.len(),
        ensures
            r.origin == origin,
            r.offsets@ == offsets@,
            r.lines@ == lines@,
            r.well_formed(),
    {
        MultiLineMatch { origin, offsets, lines }
    }

    /// Creates a new `MultiLineMatch` from the lines of `lines` at the given offsets.
    pub fn from_lines(lines: &[&str], offsets: Vec<usize>, origin: Option<&str>) -> (r: Self)
        requires
            offsets@.len() > 0,
            forall|i: int| 0 <= i < offsets@.len() ==> #[trigger] offsets@[i] < lines@.len(),
        ensures
            r.offsets@ == offsets@,
            r.lines@.len() == offsets@.len(),
            forall|i: int|
                0 <= i < offsets@.len() ==> #[trigger] r.lines@[i]@ == lines@[offsets@[i] as int]@,
            r.origin.0@ == origin_text(origin),
            r.well_formed(),
    {
        let mut picked: Vec<String> = Vec::new();
        let mut i: usize = 0;
        while i < offsets.len()
            invariant
                i <= offsets@.len(),
                picked@.len() == i,
                forall|k: int| 0 <= k < offsets@.len() ==> #[trigger] offsets@[k] < lines@.len(),
                forall|k: int| 0 <= k < i ==> #[trigger] picked@[k]@ == lines@[offsets@[k] as int]@,
            decreases offsets.len() - i,
        {
            let o = offsets[i];
            picked.push(lines[o].to_string());
            i = i + 1;
        }
        Self::new(origin_from_option(origin), offsets, picked)
    }

    /// The text that the match is displayed as: `origin:lineno: line`.
    pub fn to_string(&self) -> (r: String)
        requires
            self.well_formed(),
            self.offsets@.last() < usize::MAX,
        ensures
            r@ == crate::text::display_match(
                self.origin.0@,
                (self.offsets@.last() + 1) as nat,
                self.lines@.last()@,
            ),
    {
        let n = self.offsets.len();
        crate::text::format_match(
            self.origin.0.as_str(),
            self.offsets[n - 1] + 1,
            self.lines[n - 1].as_str(),
        )
    }
}

impl Match for MultiLineMatch {
    open spec fn spec_origin(&self) -> Seq<char> {
        self.origin.0@
    }

    open spec fn spec_offsets(&self) -> Seq<usize> {
        self.offsets@
    }

    open spec fn spec_lines(&self) -> Seq<Seq<char>> {
        strings_view(self.lines@)
    }

    fn line(&self) -> (r: &str) {
        let n = self.lines.len();
        self.lines[n - 1].as_str()
    }

    fn origin(&self) -> (r: &Origin) {
        &self.origin
    }

    fn offset(&self) -> (r: usize) {
        let n = self.offsets.len();
        self.offsets[n - 1]
    }

    fn offsets(&self) -> (r: Vec<usize>) {
        self.offsets.clone()
    }

    fn lines(&self) -> (r: Vec<&str>) {
        let mut v: Vec<&str> = Vec::new();
        let mut i: usize = 0;
        while i < self.lines.len()
            invariant
                i <= self.lines@.len(),
                v@.len() == i,
                forall|k: int| 0 <= k < i ==> #[trigger] v@[k]@ == self.lines@[k]@,
            decreases self.lines.len() - i,
        {
            v.push(self.lines[i].as_str());
            i = i + 1;
        }
        assert(lines_view(v@) =~= strings_view(self.lines@));
        v
    }

    fn add_offset(&self, extra: usize) -> (r: Self) {
        let mut offsets: Vec<usize> = Vec::new();
        let mut i: usize = 0;
        while i < self.offsets.len()
            invariant
                i <= self.offsets@.len(),
                offsets_fit(self.offsets@, extra as int),
                offsets@.len() == i,
                forall|k: int| 0 <= k < i ==> #[trigger] offsets@[k] == self.offsets@[k] + extra,
            decreases self.offsets.len() - i,
        {
            assert(self.offsets@[i as int] + extra <= usize::MAX);
            offsets.push(self.offsets[i] + extra);
            i = i + 1;
        }
        let r = MultiLineMatch { origin: self.origin.copy(), offsets, lines: self.lines.clone() };
        assert(r.spec_offsets().map_values(|x: usize| x as int) =~= shift_offsets(
            self.spec_offsets(),
            extra as int,
        ));
        r
    }
}

/// A match of either shape, as the detectors return it.
#[derive(Clone, Debug)]
pub enum LogMatch {
    /// A match of one line.
    Single(SingleLineMatch),
    /// A match of several lines.
    Multi(MultiLineMatch),
}

impl Match for LogMatch {
    open spec fn spec_origin(&self) -> Seq<char> {
        match self {
            LogMatch::Single(m) => m.spec_origin(),
            LogMatch::Multi(m) => m.spec_origin(),
        }
    }

    open spec fn spec_offsets(&self) -> Seq<usize> {
        match self {
            LogMatch::Single(m) => m.spec_offsets(),
            LogMatch::Multi(m) => m.spec_offsets(),
        }
    }

    open spec fn spec_lines(&self) -> Seq<Seq<char>> {
        match self {
            LogMatch::Single(m) => m.spec_lines(),
            LogMatch::Multi(m) => m.spec_lines(),
        }
    }

    fn line(&self) -> (r: &str) {
        match self {
            LogMatch::Single(m) => m.line(),
            LogMatch::Multi(m) => m.line(),
        }
    }

    fn origin(&self) -> (r: &Origin) {
        match self {
            LogMatch::Single(m) => m.origin(),
            LogMatch::Multi(m) => m.origin(),
        }
    }

    fn offset(&self) -> (r: usize) {
        match self {
            LogMatch::Single(m) => m.offset(),
            LogMatch::Multi(m) => m.offset(),
        }
    }

    fn offsets(&self) -> (r: Vec<usize>) {
        match self {
            LogMatch::Single(m) => m.offsets(),
            LogMatch::Multi(m) => m.offsets(),
        }
    }

    fn lines(&self) -> (r: Vec<&str>) {
        match self {
            LogMatch::Single(m) => m.lines(),
            LogMatch::Multi(m) => m.lines(),
        }
    }

    fn add_offset(&self, extra: usize) -> (r: Self) {
        match self {
            LogMatch::Single(m) => LogMatch::Single(m.add_offset(extra)),
            LogMatch::Multi(m) => LogMatch::Multi(m.add_offset(extra)),
        }
    }
}

/// Whether `m` is a single-line match of line `i` of `lines`, labelled `origin`.
pub open spec fn single_match_at(m: Option<LogMatch>, lines: Seq<Seq<char>>, i: int, origin: Seq<char>) -> bool {
    match m {
        Some(LogMatch::Single(s)) => {
            &&& 0 <= i < lines.len()
            &&& s.offset == i
            &&& s.line@ == lines[i]
            &&& s.origin.0@ == origin
        },
        _ => false,
    }
}

/// What a detector's match should be: which lines, and the origin label.
pub enum MatchSpec {
    /// One line at the given index.
    Single(int, Seq<char>),
    /// The lines at the given indices, in this order.
    Multi(Seq<int>, Seq<char>),
}

/// Whether `m` is the match that `spec` describes over `lines`.
pub open spec fn match_is(m: Option<LogMatch>, lines: Seq<Seq<char>>, spec: MatchSpec) -> bool {
    match spec {
        MatchSpec::Single(i, origin) => single_match_at(m, lines, i, origin),
        MatchSpec::Multi(offsets, origin) => match m {
            Some(LogMatch::Multi(mm)) => {
                &&& offsets.len() > 0
                &&& mm.offsets@.len() == offsets.len()
                &&& mm.lines@.len() == offsets.len()
                &&& forall|k: int|
                    #![trigger mm.offsets@[k]]
                    0 <= k < offsets.len() ==> mm.offsets@[k] == offsets[k] && 0 <= offsets[k]
                        < lines.len() && mm.lines@[k]@ == lines[offsets[k]]
                &&& mm.origin.0@ == origin
            },
            _ => false,
        },
    }
}

/// Shifting a match's offsets by `a` and then by `b` shifts them by `a + b`.
pub proof fn lemma_shift_offsets_compose(offsets: Seq<usize>, a: int, b: int)
    requires
        offsets_fit(offsets, a),
    ensures
        shift_offsets(offsets, a).map_values(|x: int| x + b) == shift_offsets(offsets, a + b),
{
    assert(shift_offsets(offsets, a).map_values(|x: int| x + b) =~= shift_offsets(offsets, a + b));
}

/// The index of the line that a described match ends at (its only line, or its last).
pub open spec fn last_offset(spec: MatchSpec) -> int {
    match spec {
        MatchSpec::Single(i, _) => i,
        MatchSpec::Multi(offsets, _) => offsets.last(),
    }
}

/// A match that `spec` describes is well formed, and its offset and line are those of
/// the line that `spec` ends at.
pub proof fn lemma_match_is_facts(m: LogMatch, lines: Seq<Seq<char>>, spec: MatchSpec)
    requires
        match_is(Some(m), lines, spec),
    ensures
        m.well_formed(),
        0 <= last_offset(spec) < lines.len(),
        m.spec_offsets().last() == last_offset(spec),
        m.spec_lines().last() == lines[last_offset(spec)],
{
    match spec {
        MatchSpec::Single(i, _) => {},
        MatchSpec::Multi(offsets, _) => {
            if let LogMatch::Multi(mm) = m {
                let k = offsets.len() - 1;
                assert(mm.offsets@[k] == offsets[k]);
            }
        },
    }
}

/// The lines to show around a match whose offsets run from `first` to `last`: from
/// `context` lines before the first one (or the start) up to `context` lines after the
/// last one (or the end), as a range `[start, end)`.
pub fn context_window(first: usize, last: usize, context: usize, len: usize) -> (r: (usize, usize))
    requires
        last + context + 1 <= usize::MAX,
    ensures
        r.0 == (if first >= context {
            first - context
        } else {
            0
        }),
        r.1 == (if len < last + context + 1 {
            len as int
        } else {
            last + context + 1
        }),
{
    let start = if first >= context { first - context } else { 0 };
    let after = last + context + 1;
    let end = if len < after { len } else { after };
    (start, end)
}


/// The first line of a highlighted match: `Issue found at line N:` for a match of one
/// line, else `Issue found at lines A-B:` with the first and last line numbers.
pub open spec fn highlight_header(offsets: Seq<usize>) -> Seq<char> {
    if offsets.len() == 1 {
        "Issue found at line "@ + crate::text::decimal((offsets[0] + 1) as nat) + ":\n"@
    } else {
        "Issue found at lines "@ + crate::text::decimal((offsets[0] + 1) as nat) + "-"@
            + crate::text::decimal((offsets.last() + 1) as nat) + ":\n"@
    }
}

/// One shown line of a highlighted match: a space, `>` for a matched line or a space for
/// another, two spaces, and the line without trailing newlines.
pub open spec fn highlighted_line(marked: bool, line: Seq<char>) -> Seq<char> {
    seq![' ', if marked { '>' } else { ' ' }, ' ', ' '] + crate::text::trim_end_char_spec(line, '\n')
        + seq!['\n']
}

/// The shown lines `start..end` of `lines`, those at `offsets` marked.
pub open spec fn highlight_body(lines: Seq<Seq<char>>, offsets: Seq<usize>, start: int, end: int) -> Seq<
    char,
>
    decreases end - start,
{
    if end <= start {
        Seq::empty()
    } else {
        highlight_body(lines, offsets, start, end - 1) + highlighted_line(
            offsets.contains((end - 1) as usize),
            lines[end - 1],
        )
    }
}

/// The text that shows a match at `offsets` in `lines` with `context` lines around it:
/// the header, then each line from `context` before the first offset (or the start) up to
/// `context` after the last one (or the end).
pub open spec fn highlight_spec(lines: Seq<Seq<char>>, offsets: Seq<usize>, context: int) -> Seq<char> {
    let start = if offsets[0] >= context {
        offsets[0] - context
    } else {
        0
    };
    let end = if lines.len() < offsets.last() + context + 1 {
        lines.len() as int
    } else {
        offsets.last() + context + 1
    };
    highlight_header(offsets) + highlight_body(lines, offsets, start, end)
}

/// Whether `offsets` holds `i`.
fn holds_offset(offsets: &Vec<usize>, i: usize) -> (r: bool)
    ensures
        r == offsets@.contains(i),
{
    let mut k: usize = 0;
    while k < offsets.len()
        invariant
            k <= offsets.len(),
            forall|j: int| 0 <= j < k ==> offsets@[j] != i,
        decreases offsets.len() - k,
    {
        if offsets[k] == i {
            assert(offsets@[k as int] == i);
            return true;
        }
        k = k + 1;
    }
    false
}

/// The text that shows match `m` in `lines` with `context` lines before and after it:
/// a header naming its line numbers, then the lines around it, each marked with `>` when
/// it belongs to the match.
pub fn highlight_lines<M: Match>(lines: &[&str], m: &M, context: usize) -> (r: String)
    requires
        m.spec_offsets().len() > 0,
        offsets_fit(m.spec_offsets(), 1),
        m.spec_offsets().last() + context + 1 <= usize::MAX,
    ensures
        r@ == highlight_spec(lines_view(lines@), m.spec_offsets(), context as int),
{
    let offsets = m.offsets();
    let n = offsets.len();
    let first = offsets[0];
    let last = offsets[n - 1];
    assert(first + 1 <= usize::MAX && last + 1 <= usize::MAX);
    let mut r = if n == 1 {
        let mut h = crate::text::concat("Issue found at line ", crate::text::usize_text(first + 1).as_str());
        h.append(":\n");
        h
    } else {
        let mut h = crate::text::concat("Issue found at lines ", crate::text::usize_text(first + 1).as_str());
        h.append("-");
        h.append(crate::text::usize_text(last + 1).as_str());
        h.append(":\n");
        h
    };
    let ghost header = r@;
    assert(header == highlight_header(m.spec_offsets()));
    let (start, end) = context_window(first, last, context, lines.len());
    let ghost lv = lines_view(lines@);
    let mut i: usize = start;
    assert(r@ =~= header + highlight_body(lv, offsets@, start as int, start as int));
    while i < end
        invariant
            start <= i,
            i == start || i <= end,
            end <= lines@.len(),
            lv == lines_view(lines@),
            r@ == header + highlight_body(lv, offsets@, start as int, i as int),
        decreases end - i,
    {
        let marked = holds_offset(&offsets, i);
        if marked {
            r.append(" >  ");
        } else {
            r.append("    ");
        }
        r.append(crate::text::trim_end_matches(lines[i], '\n'));
        r.append("\n");
        proof {
            reveal_strlit(" >  ");
            reveal_strlit("    ");
            reveal_strlit("\n");
        }
        assert(r@ =~= header + highlight_body(lv, offsets@, start as int, i + 1));
        i = i + 1;
    }
    assert(highlight_body(lv, offsets@, start as int, i as int) == highlight_body(
        lv,
        offsets@,
        start as int,
        end as int,
    ));
    r
}

} // verus!
