//! Collections of text lines, walked forwards or backwards, with optional limits.
use vstd::prelude::*;
use crate::logmatch::{lines_view, strings_view};

verus! {

/// How many lines a walk with the given limit yields from `len` lines.
pub open spec fn limited(len: nat, limit: Option<usize>) -> nat {
    match limit {
        Some(l) => if l < len { l as nat } else { len },
        None => len,
    }
}

/// The first index that a walk over the last `limit` of `len` lines starts at.
pub open spec fn tail_start(len: nat, limit: usize) -> nat {
    if limit < len { (len - limit) as nat } else { 0 }
}

/// The lines taken forwards, at most `n` of them.
pub open spec fn forward_view(lines: Seq<Seq<char>>, n: nat) -> Seq<Seq<char>> {
    lines.take(n as int)
}

/// The lines taken backwards from the last one, at most `n` of them.
pub open spec fn backward_view(lines: Seq<Seq<char>>, n: nat) -> Seq<Seq<char>> {
    Seq::new(n, |k: int| lines[lines.len() - 1 - k])
}

/// True when `r` holds the pairs `(start + k, lines[start + k])` for `k` below `n`.
pub open spec fn forward_pairs(r: Seq<(usize, &str)>, lines: Seq<Seq<char>>, start: nat, n: nat) -> bool {
    &&& r.len() == n
    &&& forall|k: int| #![trigger r[k]] 0 <= k < n ==> r[k].0 == start + k && r[k].1@ == lines[start + k]
}

/// True when `r` holds the pairs `(j, lines[j])` for `j = len - 1 - k` and `k` below `n`.
pub open spec fn backward_pairs(r: Seq<(usize, &str)>, lines: Seq<Seq<char>>, n: nat) -> bool {
    &&& r.len() == n
    &&& forall|k: int|
        #![trigger r[k]]
        0 <= k < n ==> r[k].0 == lines.len() - 1 - k && r[k].1@ == lines[lines.len() - 1 - k]
}

/// A walk never yields more lines than there are.
pub proof fn lemma_limited_bound(len: nat, limit: Option<usize>)
    ensures
        limited(len, limit) <= len,
        tail_start(len, limit.unwrap_or(0)) <= len,
{
}

/// A collection of text lines that can be walked in both directions.
pub trait Lines<'a> {
    /// The text of each line, in order.
    spec fn spec_lines(&self) -> Seq<Seq<char>>;

    /// The lines in forward order, at most `limit` of them.
    fn iter_forward(&'a self, limit: Option<usize>) -> (r: Vec<&'a str>)
        ensures
            lines_view(r@) == forward_view(
                self.spec_lines(),
                limited(self.spec_lines().len(), limit),
            ),
    ;

    /// The lines with their indices, in forward order, at most `limit` of them.
    fn enumerate_forward(&'a self, limit: Option<usize>) -> (r: Vec<(usize, &'a str)>)
        ensures
            forward_pairs(r@, self.spec_lines(), 0, limited(self.spec_lines().len(), limit)),
    {
        let lines = self.iter_forward(limit);
        let mut r: Vec<(usize, &'a str)> = Vec::new();
        let mut i: usize = 0;
        proof {
            lemma_limited_bound(self.spec_lines().len(), limit);
            assert(lines_view(lines@).len() == lines@.len());
        }
        while i < lines.len()
            invariant
                lines@.len() == limited(self.spec_lines().len(), limit),
                limited(self.spec_lines().len(), limit) <= self.spec_lines().len(),
                lines_view(lines@) == forward_view(
                    self.spec_lines(),
                    limited(self.spec_lines().len(), limit),
                ),
                i <= lines@.len(),
                r@.len() == i,
                forall|k: int|
                    0 <= k < i ==> #[trigger] r@[k].0 == k && r@[k].1@ == self.spec_lines()[k],
            decreases lines.len() - i,
        {
            assert(lines_view(lines@)[i as int] == lines@[i as int]@);
            r.push((i, lines[i]));
            i = i + 1;
        }
        r
    }

    /// The lines in backward order, starting at the last, at most `limit` of them.
    fn iter_backward(&'a self, limit: Option<usize>) -> (r: Vec<&'a str>)
        ensures
            lines_view(r@) == backward_view(
                self.spec_lines(),
                limited(self.spec_lines().len(), limit),
            ),
    ;

    /// The last `limit` lines (all of them if there are fewer), with their
    /// indices, in forward order.
    fn enumerate_tail_forward(&'a self, limit: usize) -> (r: Vec<(usize, &'a str)>)
        ensures
            forward_pairs(
                r@,
                self.spec_lines(),
                tail_start(self.spec_lines().len(), limit),
                (self.spec_lines().len() - tail_start(self.spec_lines().len(), limit)) as nat,
            ),
    {
        let all = self.iter_forward(None);
        let n = all.len();
        let start: usize = if limit < n { n - limit } else { 0 };
        let mut r: Vec<(usize, &'a str)> = Vec::new();
        let mut i: usize = start;
        assert(lines_view(all@).len() == all@.len());
        while i < n
            invariant
                lines_view(all@) == forward_view(self.spec_lines(), self.spec_lines().len()),
                n == all@.len(),
                n == self.spec_lines().len(),
                start == tail_start(self.spec_lines().len(), limit),
                start <= i <= n,
                forward_pairs(r@, self.spec_lines(), start as nat, (i - start) as nat),
            decreases n - i,
        {
            assert(lines_view(all@)[i as int] == all@[i as int]@);
            r.push((i, all[i]));
            i = i + 1;
        }
        r
    }

    /// The lines with their indices, in backward order, at most `limit` of them.
    fn enumerate_backward(&'a self, limit: Option<usize>) -> (r: Vec<(usize, &'a str)>)
        ensures
            backward_pairs(r@, self.spec_lines(), limited(self.spec_lines().len(), limit)),
    {
        let len = self.len();
        let lines = self.iter_backward(limit);
        let mut r: Vec<(usize, &'a str)> = Vec::new();
        let mut i: usize = 0;
        proof {
            lemma_limited_bound(self.spec_lines().len(), limit);
            assert(lines_view(lines@).len() == lines@.len());
        }
        while i < lines.len()
            invariant
                lines@.len() == limited(self.spec_lines().len(), limit),
                limited(self.spec_lines().len(), limit) <= self.spec_lines().len(),
                len == self.spec_lines().len(),
                lines_view(lines@) == backward_view(
                    self.spec_lines(),
                    limited(self.spec_lines().len(), limit),
                ),
                i <= lines@.len(),
                r@.len() == i,
                forall|k: int|
                    0 <= k < i ==> #[trigger] r@[k].0 == len - 1 - k && r@[k].1@
                        == self.spec_lines()[len - 1 - k],
            decreases lines.len() - i,
        {
            assert(lines_view(lines@)[i as int] == lines@[i as int]@);
            r.push((len - i - 1, lines[i]));
            i = i + 1;
        }
        r
    }

    /// The number of lines.
    fn len(&self) -> (r: usize)
        ensures
            r == self.spec_lines().len(),
    ;

    /// Whether there are no lines.
    fn is_empty(&self) -> (r: bool)
        ensures
            r == (self.spec_lines().len() == 0),
    ;
}

/// The first `n` lines of `lines`, as borrowed text.
fn take_forward<'a>(lines: &[&'a str], limit: Option<usize>) -> (r: Vec<&'a str>)
    ensures
        lines_view(r@) == forward_view(lines_view(lines@), limited(lines@.len(), limit)),
{
    let n: usize = match limit {
        Some(l) => if l < lines.len() { l } else { lines.len() },
        None => lines.len(),
    };
    let mut r: Vec<&'a str> = Vec::new();
    let mut i: usize = 0;
    while i < n
        invariant
            n <= lines@.len(),
            n == limited(lines@.len(), limit),
            i <= n,
            r@.len() == i,
            forall|k: int| 0 <= k < i ==> #[trigger] r@[k]@ == lines@[k]@,
        decreases n - i,
    {
        r.push(lines[i]);
        i = i + 1;
    }
    assert(lines_view(r@) =~= forward_view(lines_view(lines@), n as nat));
    r
}

/// The last `n` lines of `lines`, last first, as borrowed text.
fn take_backward<'a>(lines: &[&'a str], limit: Option<usize>) -> (r: Vec<&'a str>)
    ensures
        lines_view(r@) == backward_view(lines_view(lines@), limited(lines@.len(), limit)),
{
    let len = lines.len();
    let n: usize = match limit {
        Some(l) => if l < len { l } else { len },
        None => len,
    };
    let mut r: Vec<&'a str> = Vec::new();
    let mut i: usize = 0;
    while i < n
        invariant
            len == lines@.len(),
            n <= len,
            i <= n,
            r@.len() == i,
            forall|k: int| 0 <= k < i ==> #[trigger] r@[k]@ == lines@[len - 1 - k]@,
        decreases n - i,
    {
        r.push(lines[len - 1 - i]);
        i = i + 1;
    }
    assert(lines_view(r@) =~= backward_view(lines_view(lines@), n as nat));
    r
}

/// Borrows each owned line as text.
fn borrow_all<'a>(lines: &'a Vec<String>) -> (r: Vec<&'a str>)
    ensures
        lines_view(r@) == strings_view(lines@),
{
    let mut r: Vec<&'a str> = Vec::new();
    let mut i: usize = 0;
    while i < lines.len()
        invariant
            i <= lines@.len(),
            r@.len() == i,
            forall|k: int| 0 <= k < i ==> #[trigger] r@[k]@ == lines@[k]@,
        decreases lines.len() - i,
    {
        r.push(lines[i].as_str());
        i = i + 1;
    }
    assert(lines_view(r@) =~= strings_view(lines@));
    r
}

impl<'a> Lines<'a> for Vec<&'a str> {
    open spec fn spec_lines(&self) -> Seq<Seq<char>> {
        lines_view(self@)
    }

    fn iter_forward(&'a self, limit: Option<usize>) -> (r: Vec<&'a str>) {
        take_forward(self.as_slice(), limit)
    }

    fn iter_backward(&'a self, limit: Option<usize>) -> (r: Vec<&'a str>) {
        take_backward(self.as_slice(), limit)
    }

    fn len(&self) -> (r: usize) {
        self.len()
    }

    fn is_empty(&self) -> (r: bool) {
        self.len() == 0
    }
}

impl<'a> Lines<'a> for Vec<String> {
    open spec fn spec_lines(&self) -> Seq<Seq<char>> {
        strings_view(self@)
    }

    fn iter_forward(&'a self, limit: Option<usize>) -> (r: Vec<&'a str>) {
        let all = borrow_all(self);
        let r = take_forward(all.as_slice(), limit);
        r
    }

    fn iter_backward(&'a self, limit: Option<usize>) -> (r: Vec<&'a str>) {
        let all = borrow_all(self);
        let r = take_backward(all.as_slice(), limit);
        r
    }

    fn len(&self) -> (r: usize) {
        self.len()
    }

    fn is_empty(&self) -> (r: bool) {
        self.len() == 0
    }
}

impl<'a> Lines<'a> for &'a [&'a str] {
    open spec fn spec_lines(&self) -> Seq<Seq<char>> {
        lines_view(self@)
    }

    fn iter_forward(&'a self, limit: Option<usize>) -> (r: Vec<&'a str>) {
        take_forward(*self, limit)
    }

    fn iter_backward(&'a self, limit: Option<usize>) -> (r: Vec<&'a str>) {
        take_backward(*self, limit)
    }

    fn len(&self) -> (r: usize) {
        (*self).len()
    }

    fn is_empty(&self) -> (r: bool) {
        (*self).len() == 0
    }
}

/// Walking all lines backwards yields the forward walk reversed.
pub proof fn lemma_backward_reverses_forward(lines: Seq<Seq<char>>)
    ensures
        backward_view(lines, lines.len()) == forward_view(lines, lines.len()).reverse(),
{
    assert(backward_view(lines, lines.len()) =~= forward_view(lines, lines.len()).reverse());
}

/// A backward walk limited to `n` lines is the reverse of the last `n` lines.
pub proof fn lemma_backward_is_reversed_tail(lines: Seq<Seq<char>>, n: nat)
    requires
        n <= lines.len(),
    ensures
        backward_view(lines, n) == lines.subrange(lines.len() - n, lines.len() as int).reverse(),
{
    assert(backward_view(lines, n) =~= lines.subrange(lines.len() - n, lines.len() as int).reverse());
}

/// The pairs of a backward walk over all lines, read in reverse, are the pairs of
/// the forward walk over all lines.
pub proof fn lemma_enumerate_backward_reverses_forward(
    fwd: Seq<(usize, &str)>,
    bwd: Seq<(usize, &str)>,
    lines: Seq<Seq<char>>,
)
    requires
        forward_pairs(fwd, lines, 0, lines.len()),
        backward_pairs(bwd, lines, lines.len()),
    ensures
        forall|k: int|
            0 <= k < lines.len() ==> #[trigger] bwd[k].0 == fwd[lines.len() - 1 - k].0
                && bwd[k].1@ == fwd[lines.len() - 1 - k].1@,
{
    assert forall|k: int| 0 <= k < lines.len() implies #[trigger] bwd[k].0 == fwd[lines.len() - 1
        - k].0 && bwd[k].1@ == fwd[lines.len() - 1 - k].1@ by {
        let j = lines.len() - 1 - k;
        assert(0 <= j < lines.len());
        assert(fwd[j].0 == 0 + j && fwd[j].1@ == lines[0 + j]);
        assert(bwd[k].0 == lines.len() - 1 - k && bwd[k].1@ == lines[lines.len() - 1 - k]);
    }
}

/// When the limit covers every line, the tail walk is the whole forward walk.
pub proof fn lemma_full_tail_is_forward(len: nat, limit: usize)
    requires
        len <= limit,
    ensures
        tail_start(len, limit) == 0,
        limited(len, None) == len,
{
}

} // verus!
