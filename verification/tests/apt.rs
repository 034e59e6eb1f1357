use buildlog_consultant::apt::{
    error_from_dose3_reports, find_apt_get_failure, find_apt_get_update_failure, find_cudf_output,
    try_error_from_dose3_reports,
};
use buildlog_consultant::cudf::{
    parse_output_version, Conflict, Cudf, Missing, Pkg, Reason, Report, Status,
};
use buildlog_consultant::problem::Problem;
use buildlog_consultant::Match;

fn assert_just_match(lines: Vec<&str>, lineno: usize) {
    let (found, actual_err) = find_apt_get_failure(lines.clone());
    assert!(actual_err.is_none());
    if let Some(found) = found.as_ref() {
        assert_eq!(&found.line(), &lines[lineno - 1]);
        assert_eq!(lineno, found.lineno());
    } else {
        assert!(found.is_none());
    }
}

fn assert_match(lines: Vec<&str>, lineno: usize, expected: Option<Problem>) {
    let (found, actual_err) = find_apt_get_failure(lines.clone());
    if let Some(found) = found.as_ref() {
        assert_eq!(&found.line(), &lines[lineno - 1]);
        assert_eq!(lineno, found.lineno());
    } else {
        assert!(found.is_none());
    }
    if let Some(expected) = expected {
        assert!(found.is_some(), "err ({:?}) provided but match missing", &expected);
        assert_eq!(actual_err, Some(expected));
    } else {
        assert!(actual_err.is_none());
    }
}

#[test]
fn apt_test_make_missing_rule() {
    assert_match(
        vec![
            "E: Failed to fetch http://janitor.debian.net/blah/Packages.xz  File has unexpected size (3385796 != 3385720). Mirror sync in progress? [IP]"
        ],
        1,
        Some(Problem::AptFetchFailure {
            url: Some("http://janitor.debian.net/blah/Packages.xz".to_owned()),
            error: "File has unexpected size (3385796 != 3385720). Mirror sync in progress? [IP]".to_owned(),
        }),
    );
}

#[test]
fn test_missing_release_file() {
    assert_match(
        vec![
            "E: The repository 'https://janitor.debian.net/ blah/ Release' does not have a Release file.",
        ],
        1,
        Some(Problem::AptMissingReleaseFile("https://janitor.debian.net/ blah/ Release".to_owned())),
    );
}

#[test]
fn apt_test_vague() {
    assert_just_match(vec!["E: Stuff is broken"], 1);
}

#[test]
fn test_no_space_on_device() {
    assert_match(
        vec![
            "E: Failed to fetch http://apt.example.com/pool/main/h/hello/hello_2.10.orig.tar.gz  No space left on device"
        ],
        1,
        Some(Problem::NoSpaceOnDevice),
    );
}

#[test]
fn test_dpkg_no_space_on_device() {
    assert_match(
        vec![
            "dpkg-deb: error: unable to write file '/var/cache/apt/archives/hello_2.10-2_amd64.deb': No space left on device"
        ],
        1,
        Some(Problem::NoSpaceOnDevice),
    );
}

#[test]
fn test_apt_no_space_error() {
    assert_match(vec!["E: You don't have enough free space in /var."], 1, Some(Problem::NoSpaceOnDevice));
}

#[test]
fn test_write_error_no_space() {
    assert_match(vec!["E: Write error - write (28: No space left on device)"], 1, Some(Problem::NoSpaceOnDevice));
}

#[test]
fn test_dpkg_error_no_space() {
    assert_match(
        vec!["dpkg: error: writing to '/var/lib/dpkg/status': No space left on device"],
        1,
        Some(Problem::NoSpaceOnDevice),
    );
}

#[test]
fn test_dpkg_error_general() {
    assert_match(
        vec!["dpkg: error: some other error occurred"],
        1,
        Some(Problem::DpkgError("some other error occurred".to_string())),
    );
}

#[test]
fn test_dpkg_error_processing_package_direct() {
    let lines = vec![
        "dpkg: error processing package hello (--configure):",
        "subprocess installed post-installation script returned error exit status 1",
    ];
    let (match_result, problem) = find_apt_get_failure(lines);
    assert!(match_result.is_some());
    assert_eq!(problem, Some(Problem::DpkgError("processing package hello (--configure)".to_string())));
}

#[test]
fn test_broken_packages_direct() {
    let lines = vec!["The following packages have unmet dependencies:", "E: Broken packages"];
    let (match_result, problem) = find_apt_get_failure(lines);
    assert!(match_result.is_some());
    assert_eq!(
        problem,
        Some(Problem::AptBrokenPackages {
            description: "The following packages have unmet dependencies:".to_string(),
            broken: None,
        })
    );
}

#[test]
fn test_unable_to_locate_package_direct() {
    let lines = vec!["E: Unable to locate package nonexistent-package"];
    let (match_result, problem) = find_apt_get_failure(lines);
    assert!(match_result.is_some());
    assert_eq!(problem, Some(Problem::AptPackageUnknown("nonexistent-package".to_string())));
}

#[test]
fn test_copy_extracted_data_no_space_direct() {
    let lines = vec![
        "some text before",
        " cannot copy extracted data for '/var/cache/apt/archives/hello_2.10-2_amd64.deb' to '/tmp/hello': failed to write (No space left on device)",
        "some text after",
    ];
    let (match_result, problem) = find_apt_get_failure(lines);
    assert!(match_result.is_some());
    assert_eq!(problem, Some(Problem::NoSpaceOnDevice));
}

#[test]
fn test_generic_no_space_error_direct() {
    let lines = vec![
        "some text before",
        " /var/cache/apt/archives/hello_2.10-2_amd64.deb: No space left on device",
        "some text after",
    ];
    let (match_result, problem) = find_apt_get_failure(lines);
    assert!(match_result.is_some());
    assert_eq!(problem, Some(Problem::NoSpaceOnDevice));
}

fn dummy_pkg(unsat_dependency: Option<&str>, unsat_conflict: Option<&str>) -> Pkg {
    Pkg {
        package: "sbuild-build-depends-main-dummy".to_string(),
        version: "0.invalid.0".to_string(),
        architecture: "amd64".to_string(),
        unsat_conflict: unsat_conflict.map(|s| s.to_string()),
        unsat_dependency: unsat_dependency.map(|s| s.to_string()),
    }
}

fn dummy_report(reasons: Vec<Reason>) -> Report {
    Report {
        package: "sbuild-build-depends-main-dummy".to_string(),
        version: "0.invalid.0".to_string(),
        architecture: "amd64".to_string(),
        status: Status::Broken,
        reasons,
    }
}

#[test]
fn test_error_from_dose3_reports() {
    let missing_reports = vec![dummy_report(vec![Reason {
        missing: Some(Missing { pkg: dummy_pkg(Some("libfoo (>= 1.0)"), None) }),
        conflict: None,
    }])];
    let problem = error_from_dose3_reports(&missing_reports);
    assert_eq!(problem, Some(Problem::UnsatisfiedAptDependencies("libfoo (>= 1.0)".to_string())));

    let conflict_reports = vec![dummy_report(vec![Reason {
        missing: None,
        conflict: Some(Conflict {
            pkg1: dummy_pkg(None, Some("libbar (>= 2.0)")),
            pkg2: Pkg {
                package: "libbar".to_string(),
                version: "2.1".to_string(),
                architecture: "amd64".to_string(),
                unsat_conflict: None,
                unsat_dependency: None,
            },
        }),
    }])];
    let problem = error_from_dose3_reports(&conflict_reports);
    assert_eq!(problem, Some(Problem::UnsatisfiedAptConflicts("libbar (>= 2.0)".to_string())));

    let ok_reports = vec![dummy_report(vec![])];
    assert!(error_from_dose3_reports(&ok_reports).is_none());
}

#[test]
fn dose3_missing_dependencies_are_joined_as_a_relations_field() {
    let reports = vec![dummy_report(vec![
        Reason { missing: Some(Missing { pkg: dummy_pkg(Some("libfoo (>= 1.0)"), None) }), conflict: None },
        Reason { missing: Some(Missing { pkg: dummy_pkg(Some("libbaz"), None) }), conflict: None },
    ])];
    assert_eq!(
        error_from_dose3_reports(&reports),
        Some(Problem::UnsatisfiedAptDependencies("libfoo (>= 1.0), libbaz".to_string()))
    );
}

#[test]
fn dose3_reports_that_cannot_be_read_are_refused() {
    let two = vec![dummy_report(vec![]), dummy_report(vec![])];
    assert!(try_error_from_dose3_reports(&two).is_none());
    let unparsable = vec![dummy_report(vec![Reason {
        missing: Some(Missing { pkg: dummy_pkg(Some("libfoo (>= "), None) }),
        conflict: None,
    }])];
    assert!(try_error_from_dose3_reports(&unparsable).is_none());
    let fine = vec![dummy_report(vec![])];
    assert_eq!(try_error_from_dose3_reports(&fine), Some(None));
}

#[test]
fn cudf_output_runs_to_the_blank_line() {
    let lines = vec![
        "Some text\n",
        "output-version: 1.2\n",
        "native-architecture: amd64\n",
        "report:\n",
        "\n",
        "after\n",
    ];
    let (offsets, text) = find_cudf_output(lines).unwrap();
    assert_eq!(offsets, vec![1, 2, 3]);
    assert_eq!(text, "output-version: 1.2\n\nnative-architecture: amd64\n\nreport:\n");
    assert!(find_cudf_output(vec!["nothing here\n"]).is_none());
}

#[test]
fn test_deserialize_output_version() {
    assert_eq!(parse_output_version("2.0"), Ok((2, 0)));
}

#[test]
fn test_deserialize_output_version_invalid() {
    assert!(parse_output_version("invalid").is_err());
    assert!(parse_output_version("2.300").is_err());
}

#[test]
fn update_failure_names_its_section() {
    let lines = vec![
        "Get:1 http://deb.debian.org/debian unstable InRelease [161 kB]\n",
        "E: Failed to fetch http://janitor.debian.net/blah/Packages.xz  File has unexpected size (3385796 != 3385720). Mirror sync in progress? [IP]\n",
    ];
    let (section, m, _) = find_apt_get_update_failure(lines.clone());
    assert_eq!(section.as_deref(), Some("update chroot"));
    let (m2, _) = find_apt_get_failure(lines);
    assert_eq!(m.map(|m| m.lineno()), m2.map(|m| m.lineno()));
}

/// The text of a scalar member of a YAML mapping.
fn yaml_text(v: &serde_yaml::Value, key: &str) -> Option<String> {
    match v.get(key)? {
        serde_yaml::Value::String(s) => Some(s.clone()),
        serde_yaml::Value::Number(n) => Some(n.to_string()),
        other => panic!("unexpected YAML value for {}: {:?}", key, other),
    }
}

fn yaml_pkg(v: &serde_yaml::Value) -> Pkg {
    Pkg {
        package: yaml_text(v, "package").unwrap(),
        version: yaml_text(v, "version").unwrap(),
        architecture: yaml_text(v, "architecture").unwrap(),
        unsat_dependency: yaml_text(v, "unsat-dependency"),
        unsat_conflict: yaml_text(v, "unsat-conflict)"),
    }
}

/// Reads the CUDF text that `find_cudf_output` hands back, as the build log reader does.
fn read_cudf(text: &str) -> Cudf {
    let v: serde_yaml::Value = serde_yaml::from_str(text).unwrap();
    let report = v["report"]
        .as_sequence()
        .unwrap()
        .iter()
        .map(|r| Report {
            package: yaml_text(r, "package").unwrap(),
            version: yaml_text(r, "version").unwrap(),
            architecture: yaml_text(r, "architecture").unwrap(),
            status: match yaml_text(r, "status").unwrap().as_str() {
                "broken" => Status::Broken,
                other => panic!("unknown status {}", other),
            },
            reasons: r["reasons"]
                .as_sequence()
                .unwrap()
                .iter()
                .map(|reason| Reason {
                    missing: reason.get("missing").map(|m| Missing { pkg: yaml_pkg(&m["pkg"]) }),
                    conflict: reason.get("conflict").map(|c| Conflict {
                        pkg1: yaml_pkg(&c["pkg1"]),
                        pkg2: yaml_pkg(&c["pkg2"]),
                    }),
                })
                .collect(),
        })
        .collect();
    Cudf {
        output_version: parse_output_version(&yaml_text(&v, "output-version").unwrap()).unwrap(),
        native_architecture: yaml_text(&v, "native-architecture").unwrap(),
        report,
    }
}

#[test]
fn test_find_cudf_output() {
    let mut log = String::new();
    for i in 0..104 {
        log.push_str(&format!("sbuild progress line {}\n", i));
    }
    for line in [
        "output-version: 1.2",
        "native-architecture: amd64",
        "report:",
        " -",
        "  package: sbuild-build-depends-main-dummy",
        "  version: 0.invalid.0",
        "  architecture: amd64",
        "  status: broken",
        "  reasons:",
        "   -",
        "    missing:",
        "     pkg:",
        "      package: sbuild-build-depends-main-dummy",
        "      version: 0.invalid.0",
        "      architecture: amd64",
        "      unsat-dependency: librust-breezyshim+dirty-tracker-dev:amd64 (>= 0.1.138-~~)",
        "",
        "The following packages have unmet dependencies:",
    ] {
        log.push_str(line);
        log.push('\n');
    }
    let lines = log.split_inclusive('\n').collect::<Vec<_>>();
    let (offsets, text) = find_cudf_output(lines).unwrap();
    assert_eq!(offsets, (104..=119).collect::<Vec<_>>());
    let report = read_cudf(&text);
    let expected = Cudf {
        output_version: (1, 2),
        native_architecture: "amd64".to_string(),
        report: vec![Report {
            package: "sbuild-build-depends-main-dummy".to_string(),
            version: "0.invalid.0".to_string(),
            architecture: "amd64".to_string(),
            status: Status::Broken,
            reasons: vec![Reason {
                missing: Some(Missing {
                    pkg: Pkg {
                        package: "sbuild-build-depends-main-dummy".to_string(),
                        version: "0.invalid.0".to_string(),
                        architecture: "amd64".to_string(),
                        unsat_conflict: None,
                        unsat_dependency: Some(
                            "librust-breezyshim+dirty-tracker-dev:amd64 (>= 0.1.138-~~)"
                                .to_string(),
                        ),
                    },
                }),
                conflict: None,
            }],
        }],
    };
    assert_eq!(format!("{:?}", report), format!("{:?}", expected));
}
