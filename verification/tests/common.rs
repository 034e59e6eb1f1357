use buildlog_consultant::common::{find_build_failure_description, find_secondary_build_failure, match_lines};
use buildlog_consultant::problem::Problem;
use buildlog_consultant::Match;

#[test]
fn secondary_match_names_its_expression() {
    let m = find_secondary_build_failure(&["all fine", "Killed"], 10).unwrap();
    assert_eq!(m.offset, 1);
    assert_eq!(m.origin.as_str(), "secondary regex Killed");
}

#[test]
fn secondary_search_looks_only_at_the_tail() {
    assert!(find_secondary_build_failure(&["Killed", "a", "b"], 2).is_none());
    assert!(find_secondary_build_failure(&["Killed", "a", "b"], 3).is_some());
}

fn assert_match(lines: Vec<&str>, lineno: usize, expected: Option<Problem>) {
    let (m, p) = find_build_failure_description(lines);
    let m = m.expect("a match");
    assert_eq!(m.lineno(), lineno);
    assert_eq!(p, expected);
}

fn assert_just_match(lines: Vec<&str>, lineno: usize) {
    let (m, p) = find_build_failure_description(lines);
    let m = m.expect("a match");
    assert_eq!(m.lineno(), lineno);
    assert!(p.is_none());
}

#[test]
fn configure_error_with_a_url() {
    assert_match(
        vec![
            "configure: error:",
            "",
            "   Unable to find the Multi Precision library (https://gmplib.org/).",
        ],
        3,
        Some(Problem::MissingVagueDependency {
            name: "the Multi Precision library".to_string(),
            url: Some("s://gmplib.org/".to_string()),
            minimum_version: None,
            current_version: None,
        }),
    );
}

#[test]
fn haskell_missing_dependencies_are_listed() {
    assert_match(
        vec![
            "hlint.cabal: Encountered missing or private dependencies:",
            "    base >=4.9 && <5,",
            "    cmdargs ==0.10.*,",
            "",
        ],
        3,
        Some(Problem::MissingHaskellDependencies(vec![
            "base >=4.9 && <5".to_string(),
            "cmdargs ==0.10.*".to_string(),
        ])),
    );
}

#[test]
fn perl_missing_modules_name_the_module() {
    assert_match(
        vec![
            "# The following modules are not available.",
            "# `perl Makefile.PL | cpanm` will install them:",
            "Foo::Bar",
        ],
        3,
        Some(Problem::MissingPerlModule { module: "Foo::Bar".to_string(), filename: None, inc: None, minimum_version: None }),
    );
}

#[test]
fn cmake_error_takes_its_explanation() {
    let (m, p) = find_build_failure_description(vec![
        "-- The C compiler identification is GNU",
        "CMake Error at CMakeLists.txt:4 (find_package):",
        "  Could not find a package configuration file provided by \"KF5Foo\" with any of",
        "",
    ]);
    let m = m.expect("a match");
    assert_eq!(m.offsets(), vec![1, 2]);
    assert!(p.is_some());
}

#[test]
fn no_failure_in_a_clean_log() {
    let (m, p) = find_build_failure_description(vec!["all is well", "done"]);
    assert!(m.is_none());
    assert!(p.is_none());
}

#[test]
fn match_lines_finds_a_missing_command() {
    let lines = vec!["sh: 1: gcc: not found"];
    let (m, p) = match_lines(&lines, 0).unwrap().expect("a match");
    assert_eq!(m.offset(), 0);
    assert_eq!(p, Some(Problem::MissingCommand("gcc".to_string())));
}

#[test]
fn compiler_output_inside_a_cmake_error_is_analysed() {
    let lines = vec![
        "-- Check for working C compiler: /usr/bin/cc - broken\n",
        "CMake Error at /usr/share/cmake-3.18/Modules/CMakeTestCCompiler.cmake:66 (message):\n",
        "  The C compiler\n",
        "\n",
        "    \"/usr/bin/cc\"\n",
        "\n",
        "  is not able to compile a simple test program.\n",
        "\n",
        "  It fails with the following output:\n",
        "\n",
        "    Change Dir: /tmp/CMakeFiles/CMakeTmp\n",
        "    ValueError: Namespace Foo not available\n",
        "\n",
        "  CMake will not be able to correctly generate this project.\n",
        "Call Stack (most recent call first):\n",
    ];
    let (m, problem) = find_build_failure_description(lines);
    let m = m.unwrap();
    assert_eq!(m.offsets(), (1..14).collect::<Vec<usize>>());
    assert_eq!(problem, Some(Problem::MissingIntrospectionTypelib("Foo".to_string())));
}
