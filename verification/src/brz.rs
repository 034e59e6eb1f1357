//! The errors that Breezy (brz) reports, in the context of Debian packaging.
use vstd::prelude::*;
use crate::logmatch::lines_view;
use crate::pattern::{
    captures_view, get_group, group, group_present, has_group, regex_captures,
    regex_captures_spec,
};
use crate::problem::{opt_problem_view, vec_view, Problem, ProblemView};
use crate::text::{
    concat, join, join_spec, split_char_once, starts_with, strip_prefix, strip_suffix, trim,
    trim_end, trim_end_char_spec, trim_end_matches, trim_end_spec, trim_spec,
};

verus! {

/// How a Breezy error expression turns its match into a problem.
#[derive(Debug, Clone, Copy, PartialEq, Eq, Structural)]
pub enum BrzRule {
    /// The upstream tarball of a package (group 1) at a version (group 2) is missing.
    UpstreamTarball,
    /// Unknown Mercurial extra fields (group 2).
    MercurialExtraFields,
    /// uscan made too many requests to a page (group 2).
    TooManyRequests,
    /// The upstream signature did not verify.
    SignatureFailed,
    /// The source format and the version disagree (groups 1 and 2 say "not").
    InconsistentFormat,
    /// uscan found no release of a version (group 2).
    VersionMissing,
    /// uscan failed to download a URL (group 1) for a reason (group 2).
    DownloadFailed,
    /// The newest upstream version (group 2) of a package (group 1) is not the one
    /// wanted (group 3).
    RemoteVersionMismatch,
    /// A paragraph (group 1) of debian/watch is malformed.
    WatchfileMalformed,
    /// The upstream metadata file (group 1) does not parse, for a reason (group 2).
    MetadataParseError,
    /// debcargo failed; the lines above the error say why.
    Debcargo,
    /// A nested tree (group 1) cannot be resolved.
    NestedTree,
    /// A submodule at a path (group 1) and commit (group 2) was met.
    Submodule,
    /// An internal error of a type (group 1) with a message (group 2).
    InternalError,
    /// The device ran out of space.
    NoSpace,
}

/// The expressions for Breezy errors, each with its rule, tried in order.
pub open spec fn brz_rules() -> Seq<(&'static str, BrzRule)> {
    seq![
        ("Unable to find the needed upstream tarball for package (.*), version (.*)\\.", BrzRule::UpstreamTarball),
        ("Unknown mercurial extra fields in (.*): b'(.*)'.", BrzRule::MercurialExtraFields),
        ("UScan failed to run: In watchfile (.*), reading webpage (.*) failed: 429 too many requests\\.", BrzRule::TooManyRequests),
        ("UScan failed to run: OpenPGP signature did not verify..", BrzRule::SignatureFailed),
        (r"Inconsistency between source format and version: version is( not)? native, format is( not)? native\.", BrzRule::InconsistentFormat),
        (r"UScan failed to run: In (.*) no matching hrefs for version (.*) in watch line", BrzRule::VersionMissing),
        (r"UScan failed to run: In (.*) no matching files for version (.*) in watch line", BrzRule::VersionMissing),
        (r"UScan failed to run: In directory ., downloading (.*) failed: (.*)", BrzRule::DownloadFailed),
        (r"UScan failed to run: In directory \., downloading\n  (.*) failed: (.*)", BrzRule::DownloadFailed),
        (r"UScan failed to run: In watchfile debian/watch, reading webpage\n  (.*) failed: (.*)", BrzRule::DownloadFailed),
        (r"UScan failed to run: In watchfile debian/watch, reading webpage (.*) failed: (.*)", BrzRule::DownloadFailed),
        (r"UScan failed to run: Newest version of (.*) on remote site is (.*), specified download version is (.*)\.", BrzRule::RemoteVersionMismatch),
        (r"UScan failed to run: The following paragraph isn't well formatted, skipping it: ([\s\S]*)", BrzRule::WatchfileMalformed),
        (r"Unable to parse upstream metadata file (.*): (.*)", BrzRule::MetadataParseError),
        (r"Debcargo failed to run\.", BrzRule::Debcargo),
        (r"The nested tree for (.*) can not be resolved\.", BrzRule::NestedTree),
        (r"dulwich\.objects\.SubmoduleEncountered: \(b?'?([^']+)'?, b?'?([0-9a-f]+)'?\)", BrzRule::Submodule),
        (r"^([A-Z][A-Za-z]*Error): ?(.*)$", BrzRule::InternalError),
        (r"\[Errno 28\] No space left on device", BrzRule::NoSpace),
    ]
}

/// The expressions for Breezy errors, each with its rule.
fn brz_rule_table() -> (r: Vec<(&'static str, BrzRule)>)
    ensures
        r@ == brz_rules(),
{
    let mut v: Vec<(&'static str, BrzRule)> = Vec::new();
    v.push(("Unable to find the needed upstream tarball for package (.*), version (.*)\\.", BrzRule::UpstreamTarball));
    v.push(("Unknown mercurial extra fields in (.*): b'(.*)'.", BrzRule::MercurialExtraFields));
    v.push(("UScan failed to run: In watchfile (.*), reading webpage (.*) failed: 429 too many requests\\.", BrzRule::TooManyRequests));
    v.push(("UScan failed to run: OpenPGP signature did not verify..", BrzRule::SignatureFailed));
    v.push((r"Inconsistency between source format and version: version is( not)? native, format is( not)? native\.", BrzRule::InconsistentFormat));
    v.push((r"UScan failed to run: In (.*) no matching hrefs for version (.*) in watch line", BrzRule::VersionMissing));
    v.push((r"UScan failed to run: In (.*) no matching files for version (.*) in watch line", BrzRule::VersionMissing));
    v.push((r"UScan failed to run: In directory ., downloading (.*) failed: (.*)", BrzRule::DownloadFailed));
    v.push((r"UScan failed to run: In directory \., downloading\n  (.*) failed: (.*)", BrzRule::DownloadFailed));
    v.push((r"UScan failed to run: In watchfile debian/watch, reading webpage\n  (.*) failed: (.*)", BrzRule::DownloadFailed));
    v.push((r"UScan failed to run: In watchfile debian/watch, reading webpage (.*) failed: (.*)", BrzRule::DownloadFailed));
    v.push((r"UScan failed to run: Newest version of (.*) on remote site is (.*), specified download version is (.*)\.", BrzRule::RemoteVersionMismatch));
    v.push((r"UScan failed to run: The following paragraph isn't well formatted, skipping it: ([\s\S]*)", BrzRule::WatchfileMalformed));
    v.push((r"Unable to parse upstream metadata file (.*): (.*)", BrzRule::MetadataParseError));
    v.push((r"Debcargo failed to run\.", BrzRule::Debcargo));
    v.push((r"The nested tree for (.*) can not be resolved\.", BrzRule::NestedTree));
    v.push((r"dulwich\.objects\.SubmoduleEncountered: \(b?'?([^']+)'?, b?'?([0-9a-f]+)'?\)", BrzRule::Submodule));
    v.push((r"^([A-Z][A-Za-z]*Error): ?(.*)$", BrzRule::InternalError));
    v.push((r"\[Errno 28\] No space left on device", BrzRule::NoSpace));
    assert(v@ =~= brz_rules());
    v
}

/// The last of the lines above the error, once the colour reset that ends it is cut.
pub open spec fn more_tail() -> Seq<char> {
    "\x1b[0m\n"@
}

/// The first way the explanation of a debcargo failure is introduced.
pub open spec fn more_head1() -> Seq<char> {
    "\x1b[1;31mSomething failed: "@
}

/// The second way the explanation of a debcargo failure is introduced.
pub open spec fn more_head2() -> Seq<char> {
    "\x1b[1;31mdebcargo failed: "@
}

/// The lines of the explanation of a debcargo failure, gathered upwards: `acc` holds
/// those gathered so far, its first one being the next to check for the introduction;
/// line `j` is the next to gather.
pub open spec fn gather_explanation(prior: Seq<Seq<char>>, j: int, acc: Seq<Seq<char>>) -> Seq<Seq<char>>
    decreases j + 1,
{
    if j < 0 || acc.len() == 0 {
        acc
    } else if more_head1().is_prefix_of(acc[0]) {
        acc.update(0, acc[0].skip(more_head1().len() as int))
    } else if more_head2().is_prefix_of(acc[0]) {
        acc.update(0, acc[0].skip(more_head2().len() as int))
    } else {
        gather_explanation(prior, j - 1, seq![prior[j]] + acc)
    }
}

/// The explanation of a debcargo failure in the lines above the error: nothing unless
/// it runs over two lines or more.
pub open spec fn debcargo_explanation(prior: Seq<Seq<char>>) -> Seq<Seq<char>> {
    let last = prior.last();
    let t0 = last.take(last.len() - more_tail().len());
    let e = gather_explanation(prior, prior.len() - 2, seq![t0]);
    if e.len() == 1 {
        Seq::empty()
    } else {
        e
    }
}

/// The crate and version that a debcargo requirement such as `name = 1.0` names.
pub open spec fn debcargo_crate(text: Seq<char>) -> ProblemView {
    let t = trim_spec(text);
    if t.contains('=') {
        let i = crate::text::first_char_index(t, '=');
        ProblemView::MissingDebcargoCrate {
            cratename: trim_spec(t.take(i)),
            version: Some(trim_spec(t.skip(i + 1))),
        }
    } else {
        ProblemView::MissingDebcargoCrate { cratename: t, version: None }
    }
}

/// The line that asks for the crates.io index to be updated.
pub open spec fn try_update() -> Seq<char> {
    "Try `debcargo update` to update the crates.io index."@
}

/// What a debcargo failure shows, given the lines above the error.
pub open spec fn debcargo_spec(prior: Seq<Seq<char>>) -> ProblemView {
    let generic = ProblemView::DebcargoFailure("Debcargo failed to run"@);
    if prior.len() == 0 || !more_tail().is_suffix_of(prior.last()) {
        generic
    } else {
        let e = debcargo_explanation(prior);
        if e.len() >= 2 && try_update().is_prefix_of(e.last()) {
            let before = e[e.len() - 2];
            match regex_captures_spec(r"Couldn't find any crate matching (.*)"@, trim_end_spec(before)) {
                Some(c) => debcargo_crate(group(c, 1)),
                None => ProblemView::DpkgSourcePackFailed(before),
            }
        } else if e.len() > 0 {
            match regex_captures_spec(
                r"Cannot represent prerelease part of dependency: (.*) Predicate \{ (.*) \}"@,
                e[0],
            ) {
                Some(c) => ProblemView::DebcargoUnacceptablePredicate {
                    cratename: group(c, 1),
                    predicate: group(c, 2),
                },
                None => match regex_captures_spec(
                    r"Cannot represent prerelease part of dependency: (.*) Comparator \{ (.*) \}"@,
                    e[0],
                ) {
                    Some(c) => ProblemView::DebcargoUnacceptableComparator {
                        cratename: group(c, 1),
                        comparator: group(c, 2),
                    },
                    None => generic,
                },
            }
        } else {
            ProblemView::DebcargoFailure(Seq::empty())
        }
    }
}

/// The crate and version that a debcargo requirement names.
fn debcargo_crate_problem(text: &str) -> (r: Problem)
    ensures
        r@ == debcargo_crate(text@),
{
    let t = trim(text);
    match split_char_once(t, '=') {
        Some((name, version)) => Problem::MissingDebcargoCrate {
            cratename: trim(name).to_string(),
            version: Some(trim(version).to_string()),
        },
        None => Problem::MissingDebcargoCrate { cratename: t.to_string(), version: None },
    }
}

/// Finds why debcargo failed in the lines above the error.
fn parse_debcargo_failure(prior_lines: &Vec<&str>) -> (r: Problem)
    ensures
        r@ == debcargo_spec(lines_view(prior_lines@)),
{
    let ghost pv = lines_view(prior_lines@);
    let n = prior_lines.len();
    proof {
        reveal_strlit("\x1b[0m\n");
        reveal_strlit("\x1b[1;31mSomething failed: ");
        reveal_strlit("\x1b[1;31mdebcargo failed: ");
        reveal_strlit("Try `debcargo update` to update the crates.io index.");
    }
    if n == 0 {
        return Problem::DebcargoFailure("Debcargo failed to run".to_string());
    }
    assert(pv.last() == prior_lines@[n - 1]@);
    let last = match strip_suffix(prior_lines[n - 1], "\x1b[0m\n") {
        Some(rest) => rest,
        None => {
            return Problem::DebcargoFailure("Debcargo failed to run".to_string());
        },
    };
    let mut extra: Vec<&str> = Vec::new();
    extra.push(last);
    let mut j: usize = n - 1;
    let ghost t0 = last@;
    assert(lines_view(extra@) =~= seq![t0]);
    loop
        invariant_except_break
            gather_explanation(pv, n - 2, seq![t0]) == gather_explanation(pv, j - 1, lines_view(extra@)),
        invariant
            pv == lines_view(prior_lines@),
            n == prior_lines@.len(),
            j < n,
            extra@.len() > 0,
        ensures
            gather_explanation(pv, n - 2, seq![t0]) == lines_view(extra@),
            extra@.len() > 0,
        decreases j,
    {
        if j == 0 {
            break;
        }
        let first = extra[0];
        assert(lines_view(extra@)[0] == first@);
        if let Some(middle) = strip_prefix(first, "\x1b[1;31mSomething failed: ") {
            let ghost before = lines_view(extra@);
            let _ = extra.remove(0);
            extra.insert(0, middle);
            assert(lines_view(extra@) =~= before.update(0, before[0].skip(more_head1().len() as int)));
            break;
        }
        if let Some(middle) = strip_prefix(first, "\x1b[1;31mdebcargo failed: ") {
            let ghost before = lines_view(extra@);
            let _ = extra.remove(0);
            extra.insert(0, middle);
            assert(lines_view(extra@) =~= before.update(0, before[0].skip(more_head2().len() as int)));
            break;
        }
        let ghost before = lines_view(extra@);
        assert(pv[j - 1] == prior_lines@[j - 1]@);
        extra.insert(0, prior_lines[j - 1]);
        assert(lines_view(extra@) =~= seq![pv[j - 1]] + before);
        j = j - 1;
    }
    let count = extra.len();
    if count == 1 {
        let none: Vec<&str> = Vec::new();
        assert(lines_view(none@) =~= Seq::<Seq<char>>::empty());
        return parse_debcargo_explanation(&none, n, &prior_lines);
    }
    parse_debcargo_explanation(&extra, n, &prior_lines)
}

/// What the gathered explanation of a debcargo failure shows.
fn parse_debcargo_explanation(extra: &Vec<&str>, n: usize, prior_lines: &Vec<&str>) -> (r: Problem)
    requires
        n == prior_lines@.len(),
        n > 0,
        more_tail().is_suffix_of(prior_lines@[n - 1]@),
        lines_view(extra@) == debcargo_explanation(lines_view(prior_lines@)),
    ensures
        r@ == debcargo_spec(lines_view(prior_lines@)),
{
    let ghost ev = lines_view(extra@);
    let len = extra.len();
    assert(lines_view(prior_lines@).last() == prior_lines@[n - 1]@);
    proof {
        reveal_strlit("Try `debcargo update` to update the crates.io index.");
    }
    if len >= 2 {
        assert(ev.last() == extra@[len - 1]@);
        if strip_prefix(extra[len - 1], "Try `debcargo update` to update the crates.io index.").is_some() {
            let before = extra[len - 2];
            assert(ev[len - 2] == before@);
            return match regex_captures(r"Couldn't find any crate matching (.*)", trim_end(before)) {
                Some(c) => debcargo_crate_problem(get_group(&c, 1).as_str()),
                None => Problem::DpkgSourcePackFailed(before.to_string()),
            };
        }
    }
    if len > 0 {
        let first = extra[0];
        assert(ev[0] == first@);
        if let Some(c) = regex_captures(
            r"Cannot represent prerelease part of dependency: (.*) Predicate \{ (.*) \}",
            first,
        ) {
            return Problem::DebcargoUnacceptablePredicate {
                cratename: get_group(&c, 1),
                predicate: get_group(&c, 2),
            };
        }
        if let Some(c) = regex_captures(
            r"Cannot represent prerelease part of dependency: (.*) Comparator \{ (.*) \}",
            first,
        ) {
            return Problem::DebcargoUnacceptableComparator {
                cratename: get_group(&c, 1),
                comparator: get_group(&c, 2),
            };
        }
        return Problem::DebcargoFailure("Debcargo failed to run".to_string());
    }
    Problem::DebcargoFailure(String::new())
}


/// The problem that a Breezy error expression finds, from its groups and the lines
/// above the error.
pub open spec fn brz_rule_problem(rule: BrzRule, c: Seq<Option<Seq<char>>>, prior: Seq<Seq<char>>) -> ProblemView {
    match rule {
        BrzRule::UpstreamTarball => ProblemView::UnableToFindUpstreamTarball {
            package: group(c, 1),
            version: group(c, 2),
        },
        BrzRule::MercurialExtraFields => ProblemView::UnknownMercurialExtraFields(group(c, 2)),
        BrzRule::TooManyRequests => ProblemView::UScanTooManyRequests(group(c, 2)),
        BrzRule::SignatureFailed => ProblemView::UpstreamPGPSignatureVerificationFailed,
        BrzRule::InconsistentFormat => ProblemView::InconsistentSourceFormat {
            version: has_group(c, 1),
            source_format: has_group(c, 2),
        },
        BrzRule::VersionMissing => ProblemView::UScanRequestVersionMissing(group(c, 2)),
        BrzRule::DownloadFailed => ProblemView::UScanFailed { url: group(c, 1), reason: group(c, 2) },
        BrzRule::RemoteVersionMismatch => ProblemView::UScanRemoteVersionMismatch {
            package: group(c, 1),
            remote_version: group(c, 2),
            wanted_version: group(c, 3),
        },
        BrzRule::WatchfileMalformed => ProblemView::UScanWatchfileMalformed {
            paragraph: trim_spec(group(c, 1)),
        },
        BrzRule::MetadataParseError => ProblemView::UpstreamMetadataFileParseError {
            path: group(c, 1),
            reason: group(c, 2),
        },
        BrzRule::Debcargo => debcargo_spec(prior),
        BrzRule::NestedTree => ProblemView::NestedTreeUnresolvable { name: group(c, 1) },
        BrzRule::Submodule => ProblemView::SubmoduleEncountered { path: group(c, 1), sha: group(c, 2) },
        BrzRule::InternalError => ProblemView::BrzInternalError {
            exception_type: group(c, 1),
            exception_message: trim_spec(group(c, 2)),
        },
        BrzRule::NoSpace => ProblemView::NoSpaceOnDevice,
    }
}

/// The problem that a Breezy error expression finds.
fn brz_rule_apply(rule: BrzRule, caps: &Vec<Option<String>>, prior_lines: &Vec<&str>) -> (r: Problem)
    ensures
        r@ == brz_rule_problem(rule, captures_view(caps@), lines_view(prior_lines@)),
{
    match rule {
        BrzRule::UpstreamTarball => Problem::UnableToFindUpstreamTarball {
            package: get_group(caps, 1),
            version: get_group(caps, 2),
        },
        BrzRule::MercurialExtraFields => Problem::UnknownMercurialExtraFields(get_group(caps, 2)),
        BrzRule::TooManyRequests => Problem::UScanTooManyRequests(get_group(caps, 2)),
        BrzRule::SignatureFailed => Problem::UpstreamPGPSignatureVerificationFailed,
        BrzRule::InconsistentFormat => Problem::InconsistentSourceFormat {
            version: group_present(caps, 1),
            source_format: group_present(caps, 2),
        },
        BrzRule::VersionMissing => Problem::UScanRequestVersionMissing(get_group(caps, 2)),
        BrzRule::DownloadFailed => Problem::UScanFailed { url: get_group(caps, 1), reason: get_group(caps, 2) },
        BrzRule::RemoteVersionMismatch => Problem::UScanRemoteVersionMismatch {
            package: get_group(caps, 1),
            remote_version: get_group(caps, 2),
            wanted_version: get_group(caps, 3),
        },
        BrzRule::WatchfileMalformed => Problem::UScanWatchfileMalformed {
            paragraph: trim(get_group(caps, 1).as_str()).to_string(),
        },
        BrzRule::MetadataParseError => Problem::UpstreamMetadataFileParseError {
            path: get_group(caps, 1),
            reason: get_group(caps, 2),
        },
        BrzRule::Debcargo => parse_debcargo_failure(prior_lines),
        BrzRule::NestedTree => Problem::NestedTreeUnresolvable { name: get_group(caps, 1) },
        BrzRule::Submodule => Problem::SubmoduleEncountered { path: get_group(caps, 1), sha: get_group(caps, 2) },
        BrzRule::InternalError => Problem::BrzInternalError {
            exception_type: get_group(caps, 1),
            exception_message: trim(get_group(caps, 2).as_str()).to_string(),
        },
        BrzRule::NoSpace => Problem::NoSpaceOnDevice,
    }
}

/// The text that a problem found in a Breezy error is described by.
pub open spec fn brz_description(p: ProblemView) -> Seq<char> {
    match p {
        ProblemView::UnableToFindUpstreamTarball { package, version } => "Unable to find the needed upstream tarball for package "@
            + package + ", version "@ + version + "."@,
        ProblemView::UnknownMercurialExtraFields(f) => "Unknown mercurial extra fields: "@ + f,
        ProblemView::UScanTooManyRequests(url) => "UScan: "@ + url + ": too many requests"@,
        ProblemView::UpstreamPGPSignatureVerificationFailed => "Unable to verify the PGP signature on the upstream source"@,
        ProblemView::InconsistentSourceFormat { .. } => "Inconsistent source format between version and source format"@,
        ProblemView::UScanRequestVersionMissing(v) => "UScan can not find requested version "@ + v + "."@,
        ProblemView::UScanFailed { url, reason } => "UScan failed to download "@ + url + ": "@ + reason + "."@,
        ProblemView::UScanRemoteVersionMismatch { package, remote_version, wanted_version } => "uscan: "@
            + package + " latest is "@ + remote_version + ", wanted "@ + wanted_version,
        ProblemView::UScanWatchfileMalformed { .. } => "uscan rejected malformed debian/watch paragraph"@,
        ProblemView::UpstreamMetadataFileParseError { path, reason } => "Unable to parse upstream metadata file "@
            + path + ": "@ + reason,
        ProblemView::NestedTreeUnresolvable { name } => "Nested tree for "@ + name + " cannot be resolved"@,
        ProblemView::SubmoduleEncountered { path, sha } => "Submodule encountered at "@ + path + " ("@ + sha + ")"@,
        ProblemView::BrzInternalError { exception_type, exception_message } => if exception_message.len() == 0 {
            "brz internal error: "@ + exception_type
        } else {
            "brz internal error: "@ + exception_type + ": "@ + exception_message
        },
        ProblemView::MissingDebcargoCrate { cratename, version } => match version {
            Some(v) => "debcargo can't find crate "@ + cratename + " (version: "@ + v + ")"@,
            None => "debcargo can't find crate "@ + cratename,
        },
        ProblemView::DpkgSourcePackFailed(reason) => "Packing source directory failed: "@ + reason,
        ProblemView::DebcargoUnacceptablePredicate { cratename, predicate } => "Cannot represent prerelease part of dependency: "@
            + cratename + " Predicate { "@ + predicate + " }"@,
        ProblemView::DebcargoUnacceptableComparator { cratename, comparator } => "Cannot represent prerelease part of dependency: "@
            + cratename + " Comparator { "@ + comparator + " }"@,
        ProblemView::DebcargoFailure(reason) => "Debcargo failed: "@ + reason,
        ProblemView::NoSpaceOnDevice => "No space left on device"@,
        _ => crate::problem::kind_spec(p),
    }
}

/// Concatenates three texts.
fn concat3(a: &str, b: &str, c: &str) -> (r: String)
    ensures
        r@ == a@ + b@ + c@,
{
    let ab = concat(a, b);
    concat(ab.as_str(), c)
}

/// Concatenates five texts.
fn concat5(a: &str, b: &str, c: &str, d: &str, e: &str) -> (r: String)
    ensures
        r@ == a@ + b@ + c@ + d@ + e@,
{
    let abc = concat3(a, b, c);
    concat3(abc.as_str(), d, e)
}

/// The text that a problem found in a Breezy error is described by.
pub fn brz_describe(p: &Problem) -> (r: String)
    ensures
        r@ == brz_description(p@),
{
    match p {
        Problem::UnableToFindUpstreamTarball { package, version } => {
            let a = concat5(
                "Unable to find the needed upstream tarball for package ",
                package.as_str(),
                ", version ",
                version.as_str(),
                ".",
            );
            a
        },
        Problem::UnknownMercurialExtraFields(f) => concat("Unknown mercurial extra fields: ", f.as_str()),
        Problem::UScanTooManyRequests(url) => concat3("UScan: ", url.as_str(), ": too many requests"),
        Problem::UpstreamPGPSignatureVerificationFailed => "Unable to verify the PGP signature on the upstream source".to_string(),
        Problem::InconsistentSourceFormat { .. } => "Inconsistent source format between version and source format".to_string(),
        Problem::UScanRequestVersionMissing(v) => concat3("UScan can not find requested version ", v.as_str(), "."),
        Problem::UScanFailed { url, reason } => {
            let a = concat5("UScan failed to download ", url.as_str(), ": ", reason.as_str(), ".");
            a
        },
        Problem::UScanRemoteVersionMismatch { package, remote_version, wanted_version } => {
            let a = concat5("uscan: ", package.as_str(), " latest is ", remote_version.as_str(), ", wanted ");
            concat(a.as_str(), wanted_version.as_str())
        },
        Problem::UScanWatchfileMalformed { .. } => "uscan rejected malformed debian/watch paragraph".to_string(),
        Problem::UpstreamMetadataFileParseError { path, reason } => {
            let a = concat3("Unable to parse upstream metadata file ", path.as_str(), ": ");
            concat(a.as_str(), reason.as_str())
        },
        Problem::NestedTreeUnresolvable { name } => concat3("Nested tree for ", name.as_str(), " cannot be resolved"),
        Problem::SubmoduleEncountered { path, sha } => {
            let a = concat5("Submodule encountered at ", path.as_str(), " (", sha.as_str(), ")");
            a
        },
        Problem::BrzInternalError { exception_type, exception_message } => {
            if exception_message.as_str().is_empty() {
                concat("brz internal error: ", exception_type.as_str())
            } else {
                let a = concat5(
                    "brz internal error: ",
                    exception_type.as_str(),
                    ": ",
                    exception_message.as_str(),
                    "",
                );
                proof {
                    reveal_strlit("");
                }
                assert(a@ =~= "brz internal error: "@ + exception_type@ + ": "@ + exception_message@);
                a
            }
        },
        Problem::MissingDebcargoCrate { cratename, version } => match version {
            Some(v) => {
                let a = concat5("debcargo can't find crate ", cratename.as_str(), " (version: ", v.as_str(), ")");
                a
            },
            None => concat("debcargo can't find crate ", cratename.as_str()),
        },
        Problem::DpkgSourcePackFailed(reason) => concat("Packing source directory failed: ", reason.as_str()),
        Problem::DebcargoUnacceptablePredicate { cratename, predicate } => {
            let a = concat5(
                "Cannot represent prerelease part of dependency: ",
                cratename.as_str(),
                " Predicate { ",
                predicate.as_str(),
                " }",
            );
            a
        },
        Problem::DebcargoUnacceptableComparator { cratename, comparator } => {
            let a = concat5(
                "Cannot represent prerelease part of dependency: ",
                cratename.as_str(),
                " Comparator { ",
                comparator.as_str(),
                " }",
            );
            a
        },
        Problem::DebcargoFailure(reason) => concat("Debcargo failed: ", reason.as_str()),
        Problem::NoSpaceOnDevice => "No space left on device".to_string(),
        _ => p.kind(),
    }
}

/// The first Breezy error expression from index `k` on that matches `t`, with its
/// groups.
pub open spec fn first_brz_rule(t: Seq<char>, k: int) -> Option<(int, Seq<Option<Seq<char>>>)>
    decreases brz_rules().len() - k,
{
    if k < 0 || k >= brz_rules().len() {
        None
    } else {
        match regex_captures_spec(brz_rules()[k].0@, t) {
            Some(c) => Some((k, c)),
            None => first_brz_rule(t, k + 1),
        }
    }
}

/// What a Breezy error message shows, with the lines above it: the problem, if it is
/// a known one, and the text that describes it.
pub open spec fn brz_error_spec(line: Seq<char>, prior: Seq<Seq<char>>) -> (Option<ProblemView>, Seq<char>) {
    let t = trim_spec(line);
    match first_brz_rule(t, 0) {
        Some((k, c)) => {
            let p = brz_rule_problem(brz_rules()[k].1, c, prior);
            (Some(p), brz_description(p))
        },
        None => if "UScan failed to run: "@.is_prefix_of(t) {
            (Some(ProblemView::UScanError(t.skip(21))), t)
        } else if "Unable to parse changelog: "@.is_prefix_of(t) {
            (Some(ProblemView::ChangelogParseError(t.skip(27))), t)
        } else if t.contains('\n') {
            (None, t.take(crate::text::first_char_index(t, '\n')))
        } else {
            (None, t)
        },
    }
}

/// Parses a Breezy error message, with the lines above it, into the problem it shows
/// (if it is a known one) and a text that describes it.
pub fn parse_brz_error(line: &str, prior_lines: Vec<&str>) -> (r: (Option<Problem>, String))
    ensures
        (opt_problem_view(r.0), r.1@) == brz_error_spec(line@, lines_view(prior_lines@)),
{
    let t = trim(line);
    let rules = brz_rule_table();
    let mut k: usize = 0;
    while k < rules.len()
        invariant
            rules@ == brz_rules(),
            k <= rules@.len(),
            t@ == trim_spec(line@),
            first_brz_rule(t@, 0) == first_brz_rule(t@, k as int),
        decreases rules.len() - k,
    {
        let (pattern, rule) = rules[k];
        assert(rules@[k as int] == (pattern, rule));
        if let Some(c) = regex_captures(pattern, t) {
            assert(first_brz_rule(t@, k as int) == Some((k as int, captures_view(c@))));
            let err = brz_rule_apply(rule, &c, &prior_lines);
            let description = brz_describe(&err);
            return (Some(err), description);
        }
        k = k + 1;
    }
    proof {
        reveal_strlit("UScan failed to run: ");
        reveal_strlit("Unable to parse changelog: ");
    }
    if let Some(suffix) = strip_prefix(t, "UScan failed to run: ") {
        return (Some(Problem::UScanError(suffix.to_string())), t.to_string());
    }
    if let Some(suffix) = strip_prefix(t, "Unable to parse changelog: ") {
        return (Some(Problem::ChangelogParseError(suffix.to_string())), t.to_string());
    }
    match split_char_once(t, '\n') {
        Some((head, _)) => (None, head.to_string()),
        None => (None, t.to_string()),
    }
}

/// The index of the last line below `n` that starts with `brz: ERROR: `.
pub open spec fn brz_error_line(ls: Seq<Seq<char>>, n: int) -> Option<int>
    decreases n,
{
    if n <= 0 || n > ls.len() {
        None
    } else if "brz: ERROR: "@.is_prefix_of(ls[n - 1]) {
        Some(n - 1)
    } else {
        brz_error_line(ls, n - 1)
    }
}

/// The indented lines from index `j` on, without their trailing newlines: the lines
/// that a Breezy error runs on over.
pub open spec fn continuation(ls: Seq<Seq<char>>, j: int) -> Seq<Seq<char>>
    decreases ls.len() - j,
{
    if j < 0 || j >= ls.len() {
        Seq::empty()
    } else if " "@.is_prefix_of(ls[j]) {
        seq![trim_end_char_spec(ls[j], '\n')] + continuation(ls, j + 1)
    } else {
        continuation(ls, j + 1)
    }
}

/// What the last Breezy error of a log shows: its message, joined with the indented
/// lines after it, read with the lines above it.
pub open spec fn brz_build_error_spec(ls: Seq<Seq<char>>) -> Option<(Option<ProblemView>, Seq<char>)> {
    match brz_error_line(ls, ls.len() as int) {
        Some(i) => {
            let first = trim_end_char_spec(ls[i].skip("brz: ERROR: "@.len() as int), '\n');
            Some(brz_error_spec(join_spec(seq![first] + continuation(ls, i + 1), "\n"@), ls.take(i)))
        },
        None => None,
    }
}

/// Finds the last Breezy error in a log, and what it shows.
pub fn find_brz_build_error(lines: Vec<&str>) -> (r: Option<(Option<Problem>, String)>)
    ensures
        match brz_build_error_spec(lines_view(lines@)) {
            Some((p, d)) => r matches Some((rp, rd)) && opt_problem_view(rp) == p && rd@ == d,
            None => r is None,
        },
{
    let ghost ls = lines_view(lines@);
    proof {
        reveal_strlit("brz: ERROR: ");
    }
    let n = lines.len();
    let mut i: usize = n;
    while i > 0
        invariant
            ls == lines_view(lines@),
            n == lines@.len(),
            i <= n,
            brz_error_line(ls, n as int) == brz_error_line(ls, i as int),
        decreases i,
    {
        assert(ls[i - 1] == lines@[i - 1]@);
        if let Some(suffix) = strip_prefix(lines[i - 1], "brz: ERROR: ") {
            let e = i - 1;
            let mut rest: Vec<String> = Vec::new();
            proof {
                reveal_strlit("brz: ERROR: ");
            }
            assert(suffix@ == lines@[e as int]@.skip(12));
            assert(ls[e as int] == lines@[e as int]@);
            let first = trim_end_matches(suffix, '\n').to_string();
            assert(first@ == trim_end_char_spec(ls[e as int].skip(12), '\n'));
            rest.push(first);
            assert(vec_view(rest) =~= seq![first@]);
            let mut j: usize = e + 1;
            assert(continuation(ls, e + 1) == vec_view(rest).skip(1) + continuation(ls, j as int)) by {
                assert(vec_view(rest).skip(1) =~= Seq::<Seq<char>>::empty());
                assert(Seq::<Seq<char>>::empty() + continuation(ls, j as int) =~= continuation(ls, j as int));
            }
            while j < n
                invariant
                    ls == lines_view(lines@),
                    n == lines@.len(),
                    e + 1 <= j <= n,
                    vec_view(rest).len() >= 1,
                    vec_view(rest)[0] == trim_end_char_spec(ls[e as int].skip(12), '\n'),
                    continuation(ls, e + 1) == vec_view(rest).skip(1) + continuation(ls, j as int),
                decreases n - j,
            {
                assert(ls[j as int] == lines@[j as int]@);
                let ghost before = vec_view(rest);
                if starts_with(lines[j], " ") {
                    rest.push(trim_end_matches(lines[j], '\n').to_string());
                    assert(vec_view(rest) =~= before.push(trim_end_char_spec(ls[j as int], '\n')));
                    assert(vec_view(rest).skip(1) + continuation(ls, j + 1) =~= before.skip(1) + continuation(ls, j as int));
                }
                j = j + 1;
            }
            assert(vec_view(rest) =~= seq![vec_view(rest)[0]] + vec_view(rest).skip(1));
            assert(continuation(ls, j as int) =~= Seq::<Seq<char>>::empty());
            let reflowed = join(&rest, "\n");
            let mut prior: Vec<&str> = Vec::new();
            let mut k: usize = 0;
            while k < e
                invariant
                    k <= e < n,
                    n == lines@.len(),
                    prior@ == lines@.take(k as int),
                decreases e - k,
            {
                prior.push(lines[k]);
                assert(prior@ =~= lines@.take(k + 1));
                k = k + 1;
            }
            assert(lines_view(prior@) =~= ls.take(e as int));
            let (err, line) = parse_brz_error(reflowed.as_str(), prior);
            return Some((err, line));
        }
        i = i - 1;
    }
    None
}


/// Breezy's missing-upstream-tarball error names the package first and the version
/// second. For an error whose text the expression
/// `Unable to find the needed upstream tarball for package (.*), version (.*)\.` matches,
/// the problem is a missing upstream tarball whose package is the text the first group
/// matched (after `for package `) and whose version is the text the second group matched
/// (after `, version `), and the description puts them back into the same sentence, in
/// that order.
pub proof fn law_upstream_tarball_package_then_version(line: Seq<char>, prior: Seq<Seq<char>>)
    ensures
        regex_captures_spec(
            "Unable to find the needed upstream tarball for package (.*), version (.*)\\."@,
            trim_spec(line),
        ) matches Some(c) ==> brz_error_spec(line, prior) == (
            Some(ProblemView::UnableToFindUpstreamTarball { package: group(c, 1), version: group(c, 2) }),
            "Unable to find the needed upstream tarball for package "@ + group(c, 1) + ", version "@
                + group(c, 2) + "."@,
        ),
{
    assert(brz_rules()[0].0@ == "Unable to find the needed upstream tarball for package (.*), version (.*)\\."@);
}

/// Each Breezy error expression puts the parts of its message where they belong. When
/// the first expression (in order) that matches the trimmed error text has groups `c`:
/// a missing tarball names the package (group 1) and the version (group 2); a failed
/// download names the URL (group 1) and the reason (group 2); a remote version mismatch
/// names the package (group 1), the version found (group 2) and the one wanted (group 3);
/// an unparsable metadata file names the path (group 1) and the reason (group 2); a
/// submodule names its path (group 1) and commit (group 2); an internal error names its
/// type (group 1) and, trimmed, its message (group 2); a missing version, the extra
/// Mercurial fields and a rate-limited page are group 2; an unresolvable nested tree is
/// group 1.
pub proof fn law_brz_groups_in_place(line: Seq<char>, prior: Seq<Seq<char>>)
    ensures
        first_brz_rule(trim_spec(line), 0) matches Some((k, c)) ==> {
            let p = brz_error_spec(line, prior).0;
            match brz_rules()[k].1 {
                BrzRule::UpstreamTarball => p == Some(
                    ProblemView::UnableToFindUpstreamTarball { package: group(c, 1), version: group(c, 2) },
                ),
                BrzRule::DownloadFailed => p == Some(
                    ProblemView::UScanFailed { url: group(c, 1), reason: group(c, 2) },
                ),
                BrzRule::RemoteVersionMismatch => p == Some(
                    ProblemView::UScanRemoteVersionMismatch {
                        package: group(c, 1),
                        remote_version: group(c, 2),
                        wanted_version: group(c, 3),
                    },
                ),
                BrzRule::MetadataParseError => p == Some(
                    ProblemView::UpstreamMetadataFileParseError { path: group(c, 1), reason: group(c, 2) },
                ),
                BrzRule::Submodule => p == Some(
                    ProblemView::SubmoduleEncountered { path: group(c, 1), sha: group(c, 2) },
                ),
                BrzRule::InternalError => p == Some(
                    ProblemView::BrzInternalError {
                        exception_type: group(c, 1),
                        exception_message: trim_spec(group(c, 2)),
                    },
                ),
                BrzRule::VersionMissing => p == Some(ProblemView::UScanRequestVersionMissing(group(c, 2))),
                BrzRule::MercurialExtraFields => p == Some(
                    ProblemView::UnknownMercurialExtraFields(group(c, 2)),
                ),
                BrzRule::TooManyRequests => p == Some(ProblemView::UScanTooManyRequests(group(c, 2))),
                BrzRule::NestedTree => p == Some(ProblemView::NestedTreeUnresolvable { name: group(c, 1) }),
                _ => true,
            }
        },
{
}

} // verus!
