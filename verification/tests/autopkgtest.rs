use buildlog_consultant::autopkgtest::{
    parse_autopkgtest_line, parse_autopkgtest_summary, Packet, Summary, TestResult,
};
use buildlog_consultant::autopkgtest_failure::find_autopkgtest_failure_description;
use buildlog_consultant::problem::Problem;
use buildlog_consultant::Match;

fn assert_autopkgtest_match(
    lines: Vec<&str>,
    expected_offsets: Vec<usize>,
    expected_testname: Option<&str>,
    expected_error: Option<Problem>,
    expected_description: Option<&str>,
) {
    let (found, testname, error, description) =
        find_autopkgtest_failure_description(lines);
    if !expected_offsets.is_empty() {
        assert_eq!(found.as_ref().unwrap().offsets(), expected_offsets);
    } else {
        assert!(found.is_none());
    }
    assert_eq!(testname, expected_testname.map(|x| x.to_string()));
    assert_eq!(error, expected_error);
    assert_eq!(description, expected_description.map(|x| x.to_string()));
}

#[test]
fn autopkgtest_test_empty() {
    assert_autopkgtest_match(vec![], vec![], None, None, None);
}

#[test]
fn test_no_match() {
    let lines = vec!["blalblala\n"];
    assert_autopkgtest_match(lines, vec![0],Some("blalblala\n"), None, None);
}

#[test]
fn test_unknown_error() {
    assert_autopkgtest_match(
        vec![
            "autopkgtest [07:58:03]: @@@@@@@@@@@@@@@@@@@@ summary\n",
            "python-bcolz           FAIL some error\n",
        ],
        vec![1],
        Some("python-bcolz"),
        None,
        Some("Test python-bcolz failed: some error"),
    );
}

#[test]
fn test_timed_out() {
    let error = Problem::AutopkgtestTimedOut;
    let lines = vec![
        "autopkgtest [07:58:03]: @@@@@@@@@@@@@@@@@@@@ summary\n",
        "unit-tests           FAIL timed out\n",
    ];
    assert_autopkgtest_match(lines, vec![1], Some("unit-tests"), Some(error), Some("timed out"));
}

#[test]
fn test_deps() {
    let error = Problem::AutopkgtestDepsUnsatisfiable(vec![
            (
                Some("arg".to_string()),
                "/home/janitor/tmp/tmppvupofwl/build-area/bcolz-doc_1.2.1+ds2-4~jan+lint1_all.deb".to_string(),
            ),
            (Some("deb".to_string()), "bcolz-doc".to_string()),
            (
                Some("arg".to_string()),
                "/home/janitor/tmp/tmppvupofwl/build-area/python-bcolz-dbgsym_1.2.1+ds2-4~jan+lint1_amd64.deb".to_string(),
            ),
            (Some("deb".to_string()), "python-bcolz-dbgsym".to_string()),
            (
                Some("arg".to_string()),
                "/home/janitor/tmp/tmppvupofwl/build-area/python-bcolz_1.2.1+ds2-4~jan+lint1_amd64.deb".to_string(),
            ),
            (Some("deb".to_string()), "python-bcolz".to_string()),
            (
                Some("arg".to_string()),
                "/home/janitor/tmp/tmppvupofwl/build-area/python3-bcolz-dbgsym_1.2.1+ds2-4~jan+lint1_amd64.deb".to_string(),
            ),
            (Some("deb".to_string()), "python3-bcolz-dbgsym".to_string()),
            (
                Some("arg".to_string()),
                "/home/janitor/tmp/tmppvupofwl/build-area/python3-bcolz_1.2.1+ds2-4~jan+lint1_amd64.deb".to_string(),
            ),
            (Some("deb".to_string()), "python3-bcolz".to_string()),
            (
                None,
                "/home/janitor/tmp/tmppvupofwl/build-area/bcolz_1.2.1+ds2-4~jan+lint1.dsc".to_string(),
            ),
        ]
    );

    let lines = vec![
                "autopkgtest [07:58:03]: @@@@@@@@@@@@@@@@@@@@ summary\n",
                "python-bcolz         FAIL badpkg\n",
                "blame: arg:/home/janitor/tmp/tmppvupofwl/build-area/bcolz-doc_1.2.1+ds2-4~jan+lint1_all.deb deb:bcolz-doc arg:/home/janitor/tmp/tmppvupofwl/build-area/python-bcolz-dbgsym_1.2.1+ds2-4~jan+lint1_amd64.deb deb:python-bcolz-dbgsym arg:/home/janitor/tmp/tmppvupofwl/build-area/python-bcolz_1.2.1+ds2-4~jan+lint1_amd64.deb deb:python-bcolz arg:/home/janitor/tmp/tmppvupofwl/build-area/python3-bcolz-dbgsym_1.2.1+ds2-4~jan+lint1_amd64.deb deb:python3-bcolz-dbgsym arg:/home/janitor/tmp/tmppvupofwl/build-area/python3-bcolz_1.2.1+ds2-4~jan+lint1_amd64.deb deb:python3-bcolz /home/janitor/tmp/tmppvupofwl/build-area/bcolz_1.2.1+ds2-4~jan+lint1.dsc\n",
                "badpkg: Test dependencies are unsatisfiable. A common reason is that your testbed is out of date with respect to the archive, and you need to use a current testbed or run apt-get update or use -U.\n",
            ];

    assert_autopkgtest_match(lines, vec![2], Some("python-bcolz"), Some(error), Some("Test python-bcolz failed: Test dependencies are unsatisfiable. A common reason is that your testbed is out of date with respect to the archive, and you need to use a current testbed or run apt-get update or use -U."));

    let error = Problem::AutopkgtestDepsUnsatisfiable(vec![
            (
                Some("arg".to_string()),
                "/home/janitor/tmp/tmpgbn5jhou/build-area/cmake-extras_1.3+17.04.20170310-6~jan+unchanged1_all.deb".to_string(),
            ),
            (Some("deb".to_string()), "cmake-extras".to_string()),
            (
                None,
                "/home/janitor/tmp/tmpgbn5jhou/build-area/cmake-extras_1.3+17.04.20170310-6~jan.dsc".to_string(),
            ),
        ]
    );
    let lines = vec![
                "autopkgtest [07:58:03]: @@@@@@@@@@@@@@@@@@@@ summary\n",
                "intltool             FAIL badpkg",
                "blame: arg:/home/janitor/tmp/tmpgbn5jhou/build-area/cmake-extras_1.3+17.04.20170310-6~jan+unchanged1_all.deb deb:cmake-extras /home/janitor/tmp/tmpgbn5jhou/build-area/cmake-extras_1.3+17.04.20170310-6~jan.dsc",
                "badpkg: Test dependencies are unsatisfiable. A common reason is that your testbed is out of date with respect to the archive, and you need to use a current testbed or run apt-get update or use -U.",
            ];

    assert_autopkgtest_match(lines, vec![2], Some("intltool"), Some(error), Some("Test intltool failed: Test dependencies are unsatisfiable. A common reason is that your testbed is out of date with respect to the archive, and you need to use a current testbed or run apt-get update or use -U."));
}

#[test]
fn test_session_disappeared() {
    let error = Problem::AutopkgtestDepChrootDisappeared;

    let lines = vec![
"autopkgtest [22:52:18]: starting date: 2021-04-01\n",
"autopkgtest [22:52:18]: version 5.16\n",
"autopkgtest [22:52:18]: host osuosl167-amd64; command line: /usr/bin/autopkgtest '/tmp/tmpb0o8ai2j/build-area/liquid-dsp_1.2.0+git20210131.9ae84d8-1~jan+deb1_amd64.changes' --no-auto-control -- schroot unstable-amd64-sbuild\n",
"<VirtSubproc>: failure: ['chmod', '1777', '/tmp/autopkgtest.JLqPpH'] unexpectedly produced stderr output `W: /var/lib/schroot/session/unstable-amd64-sbuild-dbcdb3f2-53ed-4f84-8f0d-2c53ebe71010: Failed to stat file: No such file or directory\n",
"'\n",
"autopkgtest [22:52:19]: ERROR: testbed failure: cannot send to testbed: [Errno 32] Broken pipe\n"
    ];
    assert_autopkgtest_match(lines, vec![3], 
            None,
            Some(error),
            Some("<VirtSubproc>: failure: ['chmod', '1777', '/tmp/autopkgtest.JLqPpH'] unexpectedly produced stderr output `W: /var/lib/schroot/session/unstable-amd64-sbuild-dbcdb3f2-53ed-4f84-8f0d-2c53ebe71010: Failed to stat file: No such file or directory\n")
        );
}

#[test]
fn autopkgtest_test_stderr() {
    let error = Problem::AutopkgtestStderrFailure("some output".to_string());
    let lines = vec![
        "intltool            FAIL stderr: some output",
        "autopkgtest [20:49:00]: test intltool:  - - - - - - - - - - stderr - - - - - - - - - -",
        "some output",
        "some more output",
        "autopkgtest [20:49:00]: @@@@@@@@@@@@@@@@@@@@ summary",
        "intltool            FAIL stderr: some output",
    ];

    assert_autopkgtest_match(lines, vec![2], 
            Some("intltool"),
            Some(error),
            Some("Test intltool failed due to unauthorized stderr output: some output"),
    );
    let lines =                 vec![
                "autopkgtest [20:49:00]: test intltool:  - - - - - - - - - - stderr - - - - - - - - - -",
                "/tmp/bla: 12: ss: not found",
                "some more output",
                "autopkgtest [20:49:00]: @@@@@@@@@@@@@@@@@@@@ summary",
                "intltool            FAIL stderr: /tmp/bla: 12: ss: not found",
            ];
    let error = Problem::MissingCommand("ss".to_owned());
    assert_autopkgtest_match(lines, vec![1], Some("intltool"), Some(error), Some("/tmp/bla: 12: ss: not found"));

    let lines = vec![
                "autopkgtest [07:58:03]: @@@@@@@@@@@@@@@@@@@@ summary\n",
                r#"command10            FAIL stderr: Can't exec "uptime": No such file or directory at /usr/lib/nagios/plugins/check_uptime line 529."#,
    ];

    let error = Problem::MissingCommand("uptime".to_owned());
    assert_autopkgtest_match(
        lines, vec![1], Some("command10"), Some(error), Some(r#"Can't exec "uptime": No such file or directory at /usr/lib/nagios/plugins/check_uptime line 529."#));
}

#[test]
fn test_testbed_failure() {
    let error = Problem::AutopkgtestTestbedFailure(
        "sent `copyup /tmp/autopkgtest.9IStGJ/build.0Pm/src/ /tmp/autopkgtest.output.icg0g8e6/tests-tree/', got `timeout', expected `ok...'".to_owned()
    );
    let lines = vec![
                "autopkgtest [12:46:18]: ERROR: testbed failure: sent `copyup /tmp/autopkgtest.9IStGJ/build.0Pm/src/ /tmp/autopkgtest.output.icg0g8e6/tests-tree/', got `timeout', expected `ok...'\n"
            ];

    assert_autopkgtest_match(lines, vec![0], None, Some(error), None);
}

#[test]
fn test_testbed_failure_with_test() {
    let error = Problem::AutopkgtestTestbedFailure("testbed auxverb failed with exit code 255".to_owned());

    let lines = vec!["Removing autopkgtest-satdep (0) ...\n",
    "autopkgtest [06:59:00]: test phpunit: [-----------------------\n",
    "PHP Fatal error:  Declaration of Wicked_TestCase::setUp() must be compatible with PHPUnit\\Framework\\TestCase::setUp(): void in /tmp/autopkgtest.5ShOBp/build.ViG/src/wicked-2.0.8/test/Wicked/TestCase.php on line 31\n",
"autopkgtest [06:59:01]: ERROR: testbed failure: testbed auxverb failed with exit code 255\n",
"Exiting with 16\n"
    ];
    assert_autopkgtest_match(lines, vec![3], Some("phpunit"), Some(error), None);
}

#[test]
fn test_test_command_failure() {
    let lines = vec![
        "Removing autopkgtest-satdep (0) ...\n",
"autopkgtest [01:30:11]: test command2: phpunit --bootstrap /usr/autoload.php\n",
"autopkgtest [01:30:11]: test command2: [-----------------------\n",
"PHPUnit 8.5.2 by Sebastian Bergmann and contributors.\n",
"\n",
"Cannot open file \"/usr/share/php/Pimple/autoload.php\".\n",
"\n",
"autopkgtest [01:30:12]: test command2: -----------------------]\n",
"autopkgtest [01:30:12]: test command2:  - - - - - - - - - - results - - - - - - - - - -\n",
"command2             FAIL non-zero exit status 1\n",
"autopkgtest [01:30:12]: @@@@@@@@@@@@@@@@@@@@ summary\n",
"command1             PASS\n",
"command2             FAIL non-zero exit status 1\n",
"Exiting with 4\n"
    ];

    let error = Problem::MissingFile { path: "/usr/share/php/Pimple/autoload.php".to_string() };

    assert_autopkgtest_match(lines, vec![5], Some("command2"), Some(error), Some("Cannot open file \"/usr/share/php/Pimple/autoload.php\".\n"));
}

#[test]
fn test_dpkg_failure() {
    let lines = vec![
        "autopkgtest [19:19:19]: test require: [-----------------------\n",
        "autopkgtest [19:19:20]: test require: -----------------------]\n",
        "autopkgtest [19:19:20]: test require:  - - - - - - - - - - results - - - - - - - - - -\n",
        "require              PASS\n",
        "autopkgtest [19:19:20]: test runtestsuite: preparing testbed\n",
        "Get:1 file:/tmp/autopkgtest.hdIETy/binaries  InRelease\n",
        "Ign:1 file:/tmp/autopkgtest.hdIETy/binaries  InRelease\n",
        "autopkgtest [19:19:23]: ERROR: \"dpkg --unpack /tmp/autopkgtest.hdIETy/4-autopkgtest-satdep.deb\" failed with stderr \"W: /var/lib/schroot/session/unstable-amd64-sbuild-7fb1b836-14f9-4709-8584-cbbae284db97: Failed to stat file: No such file or directory\n",
    ];

    let error = Problem::AutopkgtestDepChrootDisappeared;

    assert_autopkgtest_match(lines, vec![7], Some("runtestsuite"), Some(error), Some("W: /var/lib/schroot/session/unstable-amd64-sbuild-7fb1b836-14f9-4709-8584-cbbae284db97: Failed to stat file: No such file or directory"));
}

#[test]
fn test_last_stderr_line() {
    let lines = vec![
        "autopkgtest [17:38:49]: test unmunge: [-----------------------\n",
        "munge: Error: Failed to access \"/run/munge/munge.socket.2\": No such file or directory\n",
        "unmunge: Error: No credential specified\n",
        "autopkgtest [17:38:50]: test unmunge: -----------------------]\n",
        "autopkgtest [17:38:50]: test unmunge:  - - - - - - - - - - results - - - - - - - - - -\n",
        "unmunge              FAIL non-zero exit status 2\n",
        "autopkgtest [17:38:50]: test unmunge:  - - - - - - - - - - stderr - - - - - - - - - -\n",
        "munge: Error: Failed to access \"/run/munge/munge.socket.2\": No such file or directory\n",
        "unmunge: Error: No credential specified\n",
        "autopkgtest [17:38:50]: @@@@@@@@@@@@@@@@@@@@ summary\n",
        "unmunge              FAIL non-zero exit status 2\n",
        "Exiting with 4\n"
    ];

    assert_autopkgtest_match(lines, vec![10], Some("unmunge"), None, Some("Test unmunge failed: non-zero exit status 2"));
}

#[test]
fn test_python_error_in_output() {
    let lines = vec![
"autopkgtest [14:55:35]: test unit-tests-3: [-----------------------",
" File \"twisted/test/test_log.py\", line 511, in test_getTimezoneOffsetWithout",
"   self._getTimezoneOffsetTest(\"Africa/Johannesburg\", -7200, -7200)",
" File \"twisted/test/test_log.py\", line 460, in _getTimezoneOffsetTest",
"   daylight = time.mktime(localDaylightTuple)",
"builtins.OverflowError: mktime argument out of range",
"-------------------------------------------------------------------------------",
"Ran 12377 tests in 143.490s",
"",
"143.4904797077179 12377 12377 1 0 2352",
"autopkgtest [14:58:01]: test unit-tests-3: -----------------------]",
"autopkgtest [14:58:01]: test unit-tests-3:  - - - - - - - - - - results - - - - - - - - - -",
"unit-tests-3         FAIL non-zero exit status 1",
"autopkgtest [14:58:01]: @@@@@@@@@@@@@@@@@@@@ summary",
"unit-tests-3         FAIL non-zero exit status 1",
"Exiting with 4"
    ];

    assert_autopkgtest_match(lines, vec![5], Some("unit-tests-3"), None, Some("builtins.OverflowError: mktime argument out of range"));
}

#[test]
fn parse_summary_test_empty() {
    assert_eq!(parse_autopkgtest_summary(vec![]), vec![]);
}

#[test]
fn test_single_pass() {
    assert_eq!(
        parse_autopkgtest_summary(vec!["python-bcolz PASS"]),
        vec![Summary {
            offset: 0,
            name: "python-bcolz".to_string(),
            result: TestResult::Pass,
            reason: None,
            extra: vec![]
        }]
    );
}

#[test]
fn test_single_fail() {
    assert_eq!(
        parse_autopkgtest_summary(vec!["python-bcolz FAIL some error"]),
        vec![Summary {
            offset: 0,
            name: "python-bcolz".to_string(),
            result: TestResult::Fail,
            reason: Some("some error".to_string()),
            extra: vec![]
        }]
    );
}

#[test]
fn test_single_skip() {
    assert_eq!(
        parse_autopkgtest_summary(vec!["python-bcolz SKIP some reason"]),
        vec![Summary {
            offset: 0,
            name: "python-bcolz".to_string(),
            result: TestResult::Skip,
            reason: Some("some reason".to_string()),
            extra: vec![]
        }]
    );
}

#[test]
fn test_single_flaky() {
    assert_eq!(
        parse_autopkgtest_summary(vec!["python-bcolz FLAKY some reason"]),
        vec![Summary {
            offset: 0,
            name: "python-bcolz".to_string(),
            result: TestResult::Flaky,
            reason: Some("some reason".to_string()),
            extra: vec![]
        }]
    );
}

#[test]
fn test_multiple() {
    assert_eq!(
        parse_autopkgtest_summary(vec![
            "python-bcolz PASS",
            "python-bcolz FAIL some error",
            "python-bcolz SKIP some reason",
            "python-bcolz FLAKY some reason"
        ]),
        vec![
            Summary {
                offset: 0,
                name: "python-bcolz".to_string(),
                result: TestResult::Pass,
                reason: None,
                extra: vec![]
            },
            Summary {
                offset: 1,
                name: "python-bcolz".to_string(),
                result: TestResult::Fail,
                reason: Some("some error".to_string()),
                extra: vec![]
            },
            Summary {
                offset: 2,
                name: "python-bcolz".to_string(),
                result: TestResult::Skip,
                reason: Some("some reason".to_string()),
                extra: vec![]
            },
            Summary {
                offset: 3,
                name: "python-bcolz".to_string(),
                result: TestResult::Flaky,
                reason: Some("some reason".to_string()),
                extra: vec![]
            }
        ]
    );
}

#[test]
fn test_source() {
    assert_eq!(
        parse_autopkgtest_line("autopkgtest [07:58:03]: @@@@@@@@@@@@@@@@@@@@ source "),
        Some(("07:58:03".to_string(), Packet::Source))
    );
}

#[test]
fn test_summary() {
    assert_eq!(
        parse_autopkgtest_line("autopkgtest [07:58:03]: @@@@@@@@@@@@@@@@@@@@ summary"),
        Some(("07:58:03".to_string(), Packet::Summary))
    );
}

#[test]
fn test_test_begin_output() {
    assert_eq!(
        parse_autopkgtest_line("autopkgtest [07:58:03]: test unit-tests: [-----------------------"),
        Some(("07:58:03".to_string(), Packet::TestBeginOutput("unit-tests".to_string())))
    );
}

#[test]
fn test_test_end_output() {
    assert_eq!(
        parse_autopkgtest_line("autopkgtest [07:58:03]: test unit-tests: -----------------------]"),
        Some(("07:58:03".to_string(), Packet::TestEndOutput("unit-tests".to_string())))
    );
}

#[test]
fn test_results() {
    assert_eq!(
        parse_autopkgtest_line("autopkgtest [07:58:03]: test unit-tests:  - - - - - - - - - - results - - - - - - - - - -"),
        Some(("07:58:03".to_string(), Packet::Results("unit-tests".to_string())))
    );
}

#[test]
fn parse_line_test_stderr() {
    assert_eq!(
        parse_autopkgtest_line("autopkgtest [07:58:03]: test unit-tests:  - - - - - - - - - - stderr - - - - - - - - - -"),
        Some(("07:58:03".to_string(), Packet::Stderr("unit-tests".to_string())))
    );
}

#[test]
fn test_testbed_setup() {
    assert_eq!(
        parse_autopkgtest_line("autopkgtest [07:58:03]: test unit-tests: preparing testbed"),
        Some(("07:58:03".to_string(), Packet::TestbedSetup("unit-tests".to_string())))
    );
}

#[test]
fn test_test_output() {
    assert_eq!(
        parse_autopkgtest_line("autopkgtest [07:58:03]: test unit-tests: some output"),
        Some(("07:58:03".to_string(), Packet::TestOutput("unit-tests".to_string(), "some output".to_string())))
    );
}

#[test]
fn test_error() {
    assert_eq!(
        parse_autopkgtest_line("autopkgtest [07:58:03]: ERROR: some error"),
        Some(("07:58:03".to_string(), Packet::Error("some error".to_string())))
    );
}

