use buildlog_consultant::llm::{
    format_prompt, parse_response, pick_model, system_prompt, truncate_lines, LlmProblem,
    MAX_PROMPT_CHARS,
};

#[test]
fn test_format_prompt() {
    let lines = vec!["make: *** [all] Error 2", "dpkg-buildpackage: error"];
    let prompt = format_prompt(&lines, 10);
    assert_eq!(
        prompt,
        "11: make: *** [all] Error 2\n12: dpkg-buildpackage: error\n"
    );
}

#[test]
fn test_format_prompt_zero_offset() {
    let lines = vec!["first line"];
    let prompt = format_prompt(&lines, 0);
    assert_eq!(prompt, "1: first line\n");
}

#[test]
fn test_truncate_lines_short() {
    let lines = vec!["line 1", "line 2", "line 3"];
    let (offset, selected) = truncate_lines(&lines);
    assert_eq!(offset, 0);
    assert_eq!(selected, lines);
}

#[test]
fn test_truncate_lines_long() {
    let long_line = "x".repeat(500);
    let lines: Vec<&str> = std::iter::repeat(long_line.as_str()).take(20).collect();
    let (offset, selected) = truncate_lines(&lines);
    assert!(offset > 0);
    assert!(selected.len() < lines.len());
}

#[test]
fn truncated_prompt_fits_and_one_more_line_would_not() {
    let long_line = "x".repeat(500);
    let lines: Vec<&str> = std::iter::repeat(long_line.as_str()).take(20).collect();
    let (offset, selected) = truncate_lines(&lines);
    assert_eq!(offset + selected.len(), lines.len());
    assert_eq!(selected, lines[offset..].to_vec());
    assert!(format_prompt(&selected, offset).len() <= MAX_PROMPT_CHARS);
    let wider = &lines[offset - 1..];
    assert!(format_prompt(wider, offset - 1).len() > MAX_PROMPT_CHARS);
    assert_eq!(offset, 12);
}

#[test]
fn test_parse_response_json() {
    let lines = vec!["ok", "error: missing gcc", "ok"];
    let response = r#"{"line": 2, "kind": "command-missing", "details": {"command": "gcc"}}"#;
    let result = parse_response(response, &lines, "test").unwrap();
    assert_eq!(result.matched.offset, 1);
    assert_eq!(result.matched.line, "error: missing gcc");
    let problem = result.problem.unwrap();
    assert_eq!(problem.kind(), "command-missing");
    let expected: serde_json::Value = serde_json::from_str(r#"{"command": "gcc"}"#).unwrap();
    assert_eq!(problem.json(), expected);
}

#[test]
fn test_parse_response_json_no_details() {
    let lines = vec!["ok", "Segmentation fault", "ok"];
    let response = r#"{"line": 2, "kind": "segmentation-fault"}"#;
    let result = parse_response(response, &lines, "test").unwrap();
    assert_eq!(result.matched.offset, 1);
    let problem = result.problem.unwrap();
    assert_eq!(problem.kind(), "segmentation-fault");
    let expected: serde_json::Value = serde_json::from_str("{}").unwrap();
    assert_eq!(problem.json(), expected);
}

#[test]
fn test_parse_response_json_no_kind() {
    let lines = vec!["ok", "error here", "ok"];
    let response = r#"{"line": 2}"#;
    let result = parse_response(response, &lines, "test").unwrap();
    assert_eq!(result.matched.offset, 1);
    assert!(result.problem.is_none());
}

#[test]
fn test_parse_response_json_in_code_fence() {
    let lines = vec!["ok", "error: missing gcc", "ok"];
    let response = "```json\n{\"line\": 2, \"kind\": \"command-missing\", \"details\": {\"command\": \"gcc\"}}\n```";
    let result = parse_response(response, &lines, "test").unwrap();
    assert_eq!(result.matched.offset, 1);
    let problem = result.problem.unwrap();
    assert_eq!(problem.kind(), "command-missing");
}

#[test]
fn test_parse_response_fallback_plain_number() {
    let lines = vec!["ok", "error here", "ok"];
    let result = parse_response("2", &lines, "test").unwrap();
    assert_eq!(result.matched.offset, 1);
    assert!(result.problem.is_none());
}

#[test]
fn test_parse_response_out_of_range() {
    let lines = vec!["ok", "ok"];
    assert!(parse_response(r#"{"line": 99}"#, &lines, "test").is_none());
}

#[test]
fn test_parse_response_zero() {
    let lines = vec!["ok"];
    assert!(parse_response(r#"{"line": 0}"#, &lines, "test").is_none());
}

#[test]
fn test_parse_response_no_number() {
    let lines = vec!["ok"];
    assert!(parse_response("no number here", &lines, "test").is_none());
}

#[test]
fn parse_response_takes_the_first_number_in_prose() {
    let lines = vec!["a", "b", "c", "d"];
    let result = parse_response("The culprit is line 3, not 4.", &lines, "model").unwrap();
    assert_eq!(result.matched.offset, 2);
    assert_eq!(result.matched.origin.as_str(), "model");
}

#[test]
fn parse_response_json_without_line_falls_back_to_digits() {
    let lines = vec!["a", "b"];
    let result = parse_response(r#"{"kind": "x", "at": 2}"#, &lines, "t").unwrap();
    assert_eq!(result.matched.offset, 1);
    assert!(result.problem.is_none());
}

#[test]
fn pick_model_prefers_the_cheapest_tier() {
    let models = vec![
        "family-opus-4".to_string(),
        "family-sonnet-4".to_string(),
        "family-haiku-3".to_string(),
    ];
    assert_eq!(pick_model(&models), Some("family-haiku-3".to_string()));
    let models = vec!["family-opus-4".to_string(), "family-sonnet-4".to_string()];
    assert_eq!(pick_model(&models), Some("family-sonnet-4".to_string()));
    let models = vec!["other".to_string(), "family-opus-4".to_string()];
    assert_eq!(pick_model(&models), Some("family-opus-4".to_string()));
    let models = vec!["first".to_string(), "second".to_string()];
    assert_eq!(pick_model(&models), Some("first".to_string()));
    assert_eq!(pick_model(&Vec::new()), None);
}

#[test]
fn test_system_prompt_contains_registered_kinds() {
    let prompt = system_prompt();
    assert!(prompt.contains("command-missing"));
    assert!(prompt.contains("missing-file"));
    assert!(prompt.contains("no-space-on-device"));
}

#[test]
fn system_prompt_lists_kinds_with_their_fields() {
    let prompt = system_prompt();
    assert!(prompt.starts_with("You are a build log analyst."));
    assert!(prompt.contains("- command-missing: {\"command\": ...}\n"));
    assert!(prompt.contains("- no-space-on-device: {}\n"));
    assert!(prompt.contains("- missing-file: {\"path\": ...}\n"));
}

#[test]
fn test_llm_problem_display() {
    let mut details = serde_json::Map::new();
    details.insert("command".to_string(), serde_json::Value::String("gcc".to_string()));
    let p = LlmProblem {
        kind: "command-missing".to_string(),
        details: serde_json::Value::Object(details),
    };
    assert_eq!(p.to_string(), r#"command-missing: {"command":"gcc"}"#);
}

#[test]
fn problem_without_details_displays_an_empty_object() {
    let lines = vec!["ok", "Segmentation fault", "ok"];
    let response = r#"{"line": 2, "kind": "segmentation-fault"}"#;
    let problem = parse_response(response, &lines, "test").unwrap().problem.unwrap();
    assert_eq!(problem.to_string(), "segmentation-fault: {}");
}
