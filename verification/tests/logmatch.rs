use buildlog_consultant::logmatch::{context_window, LogMatch};
use buildlog_consultant::{highlight_lines, Match, MultiLineMatch, Origin, SingleLineMatch};

fn single() -> SingleLineMatch {
    SingleLineMatch {
        origin: Origin("test".to_string()),
        offset: 10,
        line: "test line".to_string(),
    }
}

fn multi() -> MultiLineMatch {
    MultiLineMatch {
        origin: Origin("test".to_string()),
        offsets: vec![10, 11, 12],
        lines: vec![
            "line 1".to_string(),
            "line 2".to_string(),
            "line 3".to_string(),
        ],
    }
}

#[test]
fn test_singlelinematch_line() {
    let m = single();
    assert_eq!(m.line(), "test line");
}

#[test]
fn test_singlelinematch_origin() {
    let m = single();
    let origin = m.origin();
    assert_eq!(origin.as_str(), "test");
}

#[test]
fn test_singlelinematch_offset() {
    let m = single();
    assert_eq!(m.offset(), 10);
}

#[test]
fn test_singlelinematch_lineno() {
    let m = single();
    assert_eq!(m.lineno(), 11);
}

#[test]
fn test_singlelinematch_linenos() {
    let m = single();
    assert_eq!(m.linenos(), vec![11]);
}

#[test]
fn test_singlelinematch_offsets() {
    let m = single();
    assert_eq!(m.offsets(), vec![10]);
}

#[test]
fn test_singlelinematch_lines() {
    let m = single();
    assert_eq!(m.lines(), vec!["test line"]);
}

#[test]
fn test_singlelinematch_add_offset() {
    let m = single();
    let new_m = m.add_offset(5);
    assert_eq!(new_m.offset(), 15);
}

#[test]
fn test_multilinelmatch_line() {
    let m = multi();
    assert_eq!(m.line(), "line 3");
}

#[test]
fn test_multilinelmatch_origin() {
    let m = multi();
    let origin = m.origin();
    assert_eq!(origin.as_str(), "test");
}

#[test]
fn test_multilinelmatch_offset() {
    let m = multi();
    assert_eq!(m.offset(), 12);
}

#[test]
fn test_multilinelmatch_lineno() {
    let m = multi();
    assert_eq!(m.lineno(), 13);
}

#[test]
fn test_multilinelmatch_offsets() {
    let m = multi();
    assert_eq!(m.offsets(), vec![10, 11, 12]);
}

#[test]
fn test_multilinelmatch_lines() {
    let m = multi();
    assert_eq!(m.lines(), vec!["line 1", "line 2", "line 3"]);
}

#[test]
fn test_multilinelmatch_linenos() {
    let m = multi();
    assert_eq!(m.linenos(), vec![11, 12, 13]);
}

#[test]
fn test_multilinelmatch_add_offset() {
    let m = multi();
    let new_m = m.add_offset(5);
    assert_eq!(new_m.offsets(), vec![15, 16, 17]);
    assert_eq!(new_m.lines(), vec!["line 1", "line 2", "line 3"]);
    assert_eq!(new_m.origin().as_str(), "test");
}

#[test]
fn add_offset_twice_adds_the_sum() {
    let m = multi();
    let once = m.add_offset(2).add_offset(3);
    let both = m.add_offset(5);
    assert_eq!(once.offsets(), both.offsets());
}

#[test]
fn lineno_is_offset_plus_one() {
    let m = single();
    assert_eq!(m.lineno(), m.offset() + 1);
}

#[test]
fn single_match_displays_origin_lineno_and_line() {
    let m = single();
    assert_eq!(m.to_string(), "test:11: test line");
}

#[test]
fn multi_match_displays_its_last_line() {
    let m = multi();
    assert_eq!(m.to_string(), "test:13: line 3");
}

#[test]
fn single_match_from_lines_picks_the_line() {
    let lines = vec!["a", "b", "c"];
    let m = SingleLineMatch::from_lines(&lines, 1, Some("origin"));
    assert_eq!(m.offset, 1);
    assert_eq!(m.line, "b");
    assert_eq!(m.origin.as_str(), "origin");
    let unnamed = SingleLineMatch::from_lines(&lines, 2, None);
    assert_eq!(unnamed.origin.as_str(), "");
}

#[test]
fn multi_match_from_lines_picks_the_lines() {
    let lines = vec!["a", "b", "c", "d"];
    let m = MultiLineMatch::from_lines(&lines, vec![1, 3], Some("o"));
    assert_eq!(m.lines, vec!["b".to_string(), "d".to_string()]);
    assert_eq!(m.offsets, vec![1, 3]);
}

#[test]
fn multi_match_new_keeps_its_parts() {
    let m = MultiLineMatch::new(Origin("x".to_string()), vec![4], vec!["l".to_string()]);
    assert_eq!(m.offset(), 4);
    assert_eq!(m.line(), "l");
}

#[test]
fn log_match_forwards_to_its_shape() {
    let s = LogMatch::Single(single());
    assert_eq!(s.offset(), 10);
    let m = LogMatch::Multi(multi());
    assert_eq!(m.offsets(), vec![10, 11, 12]);
    assert_eq!(m.add_offset(1).offsets(), vec![11, 12, 13]);
}

#[test]
fn context_window_is_clamped_to_the_log() {
    assert_eq!(context_window(10, 12, 5, 100), (5, 18));
    assert_eq!(context_window(2, 3, 5, 6), (0, 6));
}

#[test]
fn test_highlight_lines() {
    let lines = vec!["line 1", "line 2", "line 3", "line 4", "line 5"];
    let m = SingleLineMatch {
        origin: Origin("test".to_string()),
        offset: 2,
        line: "line 3".to_string(),
    };
    // This test just ensures the function doesn't panic
    highlight_lines(&lines, &m, 1);
}

#[test]
fn highlighted_single_line_marks_it_among_its_neighbours() {
    let lines = vec!["line 1\n", "line 2\n", "line 3\n", "line 4\n", "line 5\n"];
    let m = SingleLineMatch {
        origin: Origin("test".to_string()),
        offset: 2,
        line: "line 3\n".to_string(),
    };
    assert_eq!(
        highlight_lines(&lines, &m, 1),
        "Issue found at line 3:\n    line 2\n >  line 3\n    line 4\n"
    );
}

#[test]
fn highlighted_lines_name_their_range_and_stop_at_the_log_edges() {
    let lines = vec!["a", "b", "c", "d"];
    let m = MultiLineMatch {
        origin: Origin("test".to_string()),
        offsets: vec![0, 2],
        lines: vec!["a".to_string(), "c".to_string()],
    };
    assert_eq!(
        highlight_lines(&lines, &m, 5),
        "Issue found at lines 1-3:\n >  a\n    b\n >  c\n    d\n"
    );
    let twelve: Vec<String> = (1..=12).map(|i| format!("l{}", i)).collect();
    let refs: Vec<&str> = twelve.iter().map(|s| s.as_str()).collect();
    let m = LogMatch::Single(SingleLineMatch {
        origin: Origin("x".to_string()),
        offset: 10,
        line: "l11".to_string(),
    });
    assert_eq!(
        highlight_lines(&refs, &m, 0),
        "Issue found at line 11:\n >  l11\n"
    );
}
