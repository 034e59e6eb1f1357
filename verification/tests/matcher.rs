use buildlog_consultant::common::{Matcher, MatcherGroup};
use buildlog_consultant::matcher::{
    command_missing, file_not_found, pkg_config_missing, pytest_arguments, webpack_file_missing,
    Callback, Error,
    RegexLineMatcher,
};
use buildlog_consultant::problem::Problem;
use buildlog_consultant::template::{Template, Text, Texts};
use buildlog_consultant::Match;

#[test]
fn test_error_display() {
    let error = Error {
        message: "test error".to_string(),
    };
    assert_eq!(error.to_string(), "test error");
}

#[test]
fn test_regex_line_matcher_new() {
    let m = RegexLineMatcher::new(r"test", Callback::Nothing);
    assert!(m.matches_line("this is a test"));
    assert!(!m.matches_line("this is not"));
}

#[test]
fn regex_line_matcher_extracts_the_problem_of_its_callback() {
    let m = RegexLineMatcher::new(r"^(.*): command not found$", Callback::CommandGroup(1));
    let found = m.extract_from_line("gcc: command not found").unwrap();
    assert_eq!(found, Some(Some(Problem::MissingCommand("gcc".to_string()))));
    assert_eq!(m.extract_from_line("all good").unwrap(), None);
}

#[test]
fn file_not_found_judges_by_the_path() {
    assert_eq!(
        file_not_found("/usr/bin/foo"),
        Some(Problem::MissingFile { path: "/usr/bin/foo".to_string() })
    );
    assert_eq!(
        file_not_found("/<<PKGBUILDDIR>>/src/x.c"),
        Some(Problem::MissingBuildFile { filename: "src/x.c".to_string() })
    );
    assert_eq!(
        file_not_found(".git/HEAD"),
        Some(Problem::VcsControlDirectoryNeeded { vcs: vec!["git".to_string()] })
    );
    assert_eq!(file_not_found("a/b"), None);
}

#[test]
fn pkg_config_missing_reads_the_minimum_version() {
    assert_eq!(
        pkg_config_missing("glib-2.0 >= 2.40"),
        Some(Problem::MissingPkgConfig {
            module: "glib-2.0".to_string(),
            minimum_version: Some("2.40".to_string()),
        })
    );
    assert_eq!(
        pkg_config_missing("zlib"),
        Some(Problem::MissingPkgConfig { module: "zlib".to_string(), minimum_version: None })
    );
    assert_eq!(pkg_config_missing("two words"), None);
}

#[test]
fn command_missing_ignores_the_build_tree() {
    assert_eq!(command_missing("./configure"), Some(Problem::MissingConfigure));
    assert_eq!(command_missing("./build.sh"), None);
    assert_eq!(command_missing("debian/rules"), None);
    assert_eq!(command_missing("cmake"), Some(Problem::MissingCommand("cmake".to_string())));
}

#[test]
fn test_regex_line_matcher_matches_line() {
    let matcher = RegexLineMatcher::new(r"test", Callback::Nothing);
    assert!(matcher.matches_line("test line"));
    assert!(!matcher.matches_line("other line"));
}

#[test]
fn test_regex_line_matcher_extract_from_line() {
    let matcher = RegexLineMatcher::new(r"test", Callback::Kind("test"));
    let result = matcher.extract_from_line("test line").unwrap();
    assert!(result.is_some());
    let problem = result.unwrap();
    assert!(problem.is_some());
    let problem = problem.unwrap();
    assert_eq!(problem.kind(), "test");
}

#[test]
fn test_regex_line_matcher_extract_from_line_no_match() {
    let matcher = RegexLineMatcher::new(r"test", Callback::Kind("test"));
    let result = matcher.extract_from_line("other line").unwrap();
    assert!(result.is_none());
}

#[test]
fn test_regex_line_matcher_extract_from_line_no_problem() {
    let matcher = RegexLineMatcher::new(r"test", Callback::Nothing);
    let result = matcher.extract_from_line("test line").unwrap();
    assert!(result.is_some());
    let problem = result.unwrap();
    assert!(problem.is_none());
}

#[test]
fn test_regex_line_matcher_extract_from_lines() {
    let matcher = RegexLineMatcher::new(r"test", Callback::Kind("test"));
    let lines = vec!["line 1", "test line", "line 3"];
    let result = matcher.extract_from_lines(&lines, 1).unwrap();
    assert!(result.is_some());
    let (m, problem) = result.unwrap();
    assert_eq!(m.line(), "test line");
    assert_eq!(m.offset(), 1);
    assert!(problem.is_some());
    let problem = problem.unwrap();
    assert_eq!(problem.kind(), "test");
}

#[test]
fn test_regex_line_matcher_extract_from_lines_no_match() {
    let matcher = RegexLineMatcher::new(r"test", Callback::Kind("test"));
    let lines = vec!["line 1", "line 2", "line 3"];
    let result = matcher.extract_from_lines(&lines, 1).unwrap();
    assert!(result.is_none());
}

#[test]
fn test_matcher_group() {
    let matcher1 = RegexLineMatcher::new(r"test1", Callback::Kind("test"));
    let matcher2 = RegexLineMatcher::new(r"test2", Callback::Kind("test"));
    let group = MatcherGroup::new(vec![Matcher::Regex(matcher1), Matcher::Regex(matcher2)]);
    let lines = vec!["line 1", "test2 line", "line 3"];
    let result = group.extract_from_lines(&lines, 1).unwrap();
    assert!(result.is_some());
    let (m, problem) = result.unwrap();
    assert_eq!(m.line(), "test2 line");
    assert_eq!(m.offset(), 1);
    assert!(problem.is_some());
    let problem = problem.unwrap();
    assert_eq!(problem.kind(), "test");
}

#[test]
fn test_matcher_group_no_match() {
    let matcher1 = RegexLineMatcher::new(r"test1", Callback::Kind("test"));
    let matcher2 = RegexLineMatcher::new(r"test2", Callback::Kind("test"));
    let group = MatcherGroup::new(vec![Matcher::Regex(matcher1), Matcher::Regex(matcher2)]);
    let lines = vec!["line 1", "line 2", "line 3"];
    let result = group.extract_from_lines(&lines, 1).unwrap();
    assert!(result.is_none());
}

#[test]
fn recipes_build_problems_from_the_groups() {
    let m = RegexLineMatcher::new(
        r"^Can't locate (.*)\.pm in @INC \(you may need to install the (.*) module\) \(@INC contains: (.*)\)\.$",
        Callback::Make(Template::MissingPerlModule {
            module: Text::Group(2),
            filename: Some(Text::Suffixed(1, ".pm")),
            inc: Some(Texts::Split(3, ' ')),
            minimum_version: None,
        }),
    );
    let found = m
        .extract_from_line("Can't locate Foo/Bar.pm in @INC (you may need to install the Foo::Bar module) (@INC contains: /a /b).")
        .unwrap();
    assert_eq!(
        found,
        Some(Some(Problem::MissingPerlModule {
            module: "Foo::Bar".to_string(),
            filename: Some("Foo/Bar.pm".to_string()),
            inc: Some(vec!["/a".to_string(), "/b".to_string()]),
            minimum_version: None,
        }))
    );
}

#[test]
fn python_requirements_are_normalised() {
    let m = RegexLineMatcher::new(r"^missing '(.*)' for python(.*)$", Callback::PythonDistribution(1, Some(2)));
    let found = m.extract_from_line("missing 'Setuptools_SCM>=3.0, <4; python_version > \"3\"' for python3.9").unwrap();
    assert_eq!(
        found,
        Some(Some(Problem::MissingPythonDistribution {
            distribution: "setuptools-scm".to_string(),
            python_version: Some(3),
            minimum_version: Some("3.0".to_string()),
        }))
    );
}

#[test]
fn webpack_paths_are_resolved_against_their_directory() {
    assert_eq!(
        webpack_file_missing("index.js", "/usr/share/app"),
        Some(Problem::MissingFile { path: "/usr/share/app/index.js".to_string() })
    );
    assert_eq!(webpack_file_missing("index.js", "/<<PKGBUILDDIR>>"), None);
    assert_eq!(webpack_file_missing("index.js", "src"), None);
    assert_eq!(
        webpack_file_missing("/etc/x.js", "/<<PKGBUILDDIR>>"),
        Some(Problem::MissingFile { path: "/etc/x.js".to_string() })
    );
}

#[test]
fn pytest_arguments_are_read_as_a_shell_reads_them() {
    assert_eq!(
        pytest_arguments("--cov=janitor 'a b' --x"),
        Some(Problem::UnsupportedPytestArguments(vec![
            "--cov=janitor".to_string(),
            "a b".to_string(),
            "--x".to_string()
        ]))
    );
    assert_eq!(pytest_arguments("'unclosed"), None);
}
