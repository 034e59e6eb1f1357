use buildlog_consultant::brz::{find_brz_build_error, parse_brz_error};
use buildlog_consultant::problem::Problem;

#[test]
fn test_inconsistent_source_format() {
    let (err, line) = parse_brz_error(
            "Inconsistency between source format and version: version is not native, format is native.",
            Vec::new());
    assert_eq!(
        line,
        "Inconsistent source format between version and source format",
    );
    assert_eq!(
        Some(Problem::InconsistentSourceFormat {
            version: true,
            source_format: false
        }),
        err
    );
}

#[test]
fn test_missing_debcargo_crate() {
    let lines = vec![
        "Using crate name: version-check, version 0.9.2   Updating crates.io index\n",
        "\x1b[1;31mSomething failed: Couldn't find any crate matching version-check = 0.9.2\n",
        "Try `debcargo update` to update the crates.io index.\x1b[0m\n",
        "brz: ERROR: Debcargo failed to run.\n",
    ];
    let (err, line) = find_brz_build_error(lines).unwrap();
    assert_eq!(
        line,
        "debcargo can't find crate version-check (version: 0.9.2)"
    );
    assert_eq!(
        err,
        Some(Problem::MissingDebcargoCrate {
            cratename: "version-check".to_string(),
            version: Some("0.9.2".to_string())
        })
    );
}

#[test]
fn test_uscan_no_matching_files_for_version() {
    let lines = vec![
        "Using uscan to look for the upstream tarball.\n",
        "uscan warn: In debian/watch no matching files for version 1.2.0 in watch line\n",
        "brz: ERROR: UScan failed to run: In debian/watch no matching files for version 1.2.0 in watch line.\n",
    ];
    let (err, _line) = find_brz_build_error(lines).unwrap();
    assert_eq!(
        err,
        Some(Problem::UScanRequestVersionMissing("1.2.0".to_string()))
    );
}

/// Regression: brz wraps long uscan errors across two lines, with the
/// second line indented by two spaces. The previous reflow joined the
/// segments with `\n`, but section lines retain their own trailing `\n`,
/// so the result was `\n\n  ...` and the matcher regex (which expects a
/// single `\n  `) silently failed.
#[test]
fn test_uscan_failed_multiline_reflow() {
    let lines = vec![
        "Using uscan to look for the upstream tarball.\n",
        "uscan warn: In watchfile debian/watch, reading webpage\n",
        "  https://example.com/dist/ failed: 404 Not Found\n",
        "brz: ERROR: UScan failed to run: In watchfile debian/watch, reading webpage\n",
        "  https://example.com/dist/ failed: 404 Not Found.\n",
    ];
    let (err, _line) = find_brz_build_error(lines).unwrap();
    assert_eq!(
        err,
        Some(Problem::UScanFailed {
            url: "https://example.com/dist/".to_string(),
            reason: "404 Not Found.".to_string(),
        })
    );
}

/// Regression: a brz error line without a continuation (so no
/// embedded `\n` after reflow) used to panic in the fallback
/// branch when calling `split_once('\n').unwrap()`. Also pins
/// that the nested-tree pattern is now classified (was `None`
/// before; surfaced as `unidentified` in janitor.debian.net).
#[test]
fn test_brz_error_nested_tree_unresolvable() {
    let lines = vec!["brz: ERROR: The nested tree for lib can not be resolved.\n"];
    let (err, line) = find_brz_build_error(lines).unwrap();
    assert_eq!(
        err,
        Some(Problem::NestedTreeUnresolvable {
            name: "lib".to_string(),
        })
    );
    assert_eq!(line, "Nested tree for lib cannot be resolved");
}

/// uscan: requested version vs newest-on-remote mismatch. brz
/// renames the changelog version to the source version then asks
/// uscan to fetch *that* exact version; when upstream's
/// watchfile points at a moving target the labels don't line
/// up. Real example from janitor.debian.net (castor 1.3.2 vs
/// 1.3.2 — equality is fine; the mismatch in the live logs was
/// for sonnet 5.116.0 vs 5.116.0 with internal version-suffix
/// quirks). Use the documented "newest is X, specified Y"
/// shape that brz emits regardless.
#[test]
fn test_brz_error_uscan_remote_version_mismatch() {
    let lines = vec![
        "Using uscan to look for the upstream tarball.\n",
        "brz: ERROR: UScan failed to run: Newest version of td1.8.11 on remote site is 1.8.0+git20260425.8fc2344, specified download version is 1.8.11~git20230202.3179d35.\n",
    ];
    let (err, line) = find_brz_build_error(lines).unwrap();
    assert_eq!(
        err,
        Some(Problem::UScanRemoteVersionMismatch {
            package: "td1.8.11".to_string(),
            remote_version: "1.8.0+git20260425.8fc2344".to_string(),
            wanted_version: "1.8.11~git20230202.3179d35".to_string(),
        })
    );
    assert_eq!(
        line,
        "uscan: td1.8.11 latest is 1.8.0+git20260425.8fc2344, wanted 1.8.11~git20230202.3179d35"
    );
}

/// uscan: refuses to parse a malformed paragraph in
/// debian/watch. The capture is the paragraph text, not the
/// `<<==EOF==` markers around it.
#[test]
fn test_brz_error_uscan_watchfile_malformed() {
    let lines = vec![
        "brz: ERROR: UScan failed to run: The following paragraph isn't well formatted, skipping it: << ==EOF==\n",
    ];
    let (err, line) = find_brz_build_error(lines).unwrap();
    assert_eq!(
        err,
        Some(Problem::UScanWatchfileMalformed {
            paragraph: "<< ==EOF==".to_string(),
        })
    );
    assert_eq!(line, "uscan rejected malformed debian/watch paragraph");
}

/// dulwich submodule: the (path, sha) error format.
#[test]
fn test_brz_error_submodule_encountered() {
    let lines = vec![
        "brz: ERROR: dulwich.objects.SubmoduleEncountered: (b'subprojects/libcmatrix', b'6c260ee37bd2eff096ee44c29690f30718566c1c')\n",
    ];
    let (err, _line) = find_brz_build_error(lines).unwrap();
    assert_eq!(
        err,
        Some(Problem::SubmoduleEncountered {
            path: "subprojects/libcmatrix".to_string(),
            sha: "6c260ee37bd2eff096ee44c29690f30718566c1c".to_string(),
        })
    );
}

/// brz internal error: empty AssertionError (the td1.8.11 case).
/// Pre-fix this surfaced as `unidentified` because no matcher
/// claimed the bare `AssertionError:` line.
#[test]
fn test_brz_error_internal_assertion_error_empty() {
    let lines = vec!["brz: ERROR: AssertionError: \n"];
    let (err, line) = find_brz_build_error(lines).unwrap();
    assert_eq!(
        err,
        Some(Problem::BrzInternalError {
            exception_type: "AssertionError".to_string(),
            exception_message: String::new(),
        })
    );
    assert_eq!(line, "brz internal error: AssertionError");
}

/// brz internal error with a non-empty message also surfaces.
#[test]
fn test_brz_error_internal_attribute_error_with_message() {
    let lines = vec![
        "brz: ERROR: AttributeError: 'RemoteGitRepository' object has no attribute '_git'\n",
    ];
    let (err, line) = find_brz_build_error(lines).unwrap();
    assert_eq!(
        err,
        Some(Problem::BrzInternalError {
            exception_type: "AttributeError".to_string(),
            exception_message: "'RemoteGitRepository' object has no attribute '_git'"
                .to_string(),
        })
    );
    assert_eq!(
        line,
        "brz internal error: AttributeError: 'RemoteGitRepository' object has no attribute '_git'"
    );
}

#[test]
fn test_missing_debcargo_crate2() {
    let lines = vec![
        "Running 'sbuild -A -s -v'\n",
        "Building using working tree\n",
        "Building package in merge mode\n",
        "Using crate name: utf8parse, version 0.10.1+git20220116.1.dfac57e\n",
        "    Updating crates.io index\n",
        "    Updating crates.io index\n",
        "\x1b[1;31mdebcargo failed: Couldn't find any crate matching utf8parse =0.10.1\n",
        "Try `debcargo update` to update the crates.io index.\x1b[0m\n",
        "brz: ERROR: Debcargo failed to run.\n",
    ];
    let (err, line) = find_brz_build_error(lines).unwrap();
    assert_eq!(
        line,
        "debcargo can't find crate utf8parse (version: 0.10.1)"
    );
    assert_eq!(
        err,
        Some(Problem::MissingDebcargoCrate {
            cratename: "utf8parse".to_owned(),
            version: Some("0.10.1".to_owned())
        })
    );
}

