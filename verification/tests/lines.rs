use buildlog_consultant::lines::Lines;

#[test]
fn test_iter_forward() {
    let lines = vec!["a", "b", "c", "d", "e"];
    let iter = lines.iter_forward(None);
    assert_eq!(iter, vec!["a", "b", "c", "d", "e"]);
    let iter = lines.iter_forward(Some(3));
    assert_eq!(iter, vec!["a", "b", "c"]);
}

#[test]
fn test_iter_backward() {
    let lines = vec!["a", "b", "c", "d", "e"];
    let iter = lines.iter_backward(None);
    assert_eq!(iter, vec!["e", "d", "c", "b", "a"]);
    let iter = lines.iter_backward(Some(3));
    assert_eq!(iter, vec!["e", "d", "c"]);
}

#[test]
fn test_enumerate_tail_forward() {
    let lines = vec!["a", "b", "c", "d", "e"];
    let iter = lines.enumerate_tail_forward(3);
    assert_eq!(iter, vec![(2, "c"), (3, "d"), (4, "e")]);
}

#[test]
fn test_enumerate_forward() {
    let lines = vec!["a", "b", "c", "d", "e"];
    let iter = lines.enumerate_forward(None);
    assert_eq!(iter, vec![(0, "a"), (1, "b"), (2, "c"), (3, "d"), (4, "e")]);
    let iter = lines.enumerate_forward(Some(3));
    assert_eq!(iter, vec![(0, "a"), (1, "b"), (2, "c")]);
}

#[test]
fn test_enumerate_backward() {
    let lines = vec!["a", "b", "c", "d", "e"];
    let iter = lines.enumerate_backward(None);
    assert_eq!(iter, vec![(4, "e"), (3, "d"), (2, "c"), (1, "b"), (0, "a")]);
    let iter = lines.enumerate_backward(Some(3));
    assert_eq!(iter, vec![(4, "e"), (3, "d"), (2, "c")]);
}

#[test]
fn test_string_vec_impl() {
    let lines: Vec<String> = vec!["a".to_string(), "b".to_string(), "c".to_string()];
    assert_eq!(lines.len(), 3);
    assert!(!lines.is_empty());

    let forward = lines.iter_forward(None);
    assert_eq!(forward, vec!["a", "b", "c"]);

    let limited = lines.iter_forward(Some(2));
    assert_eq!(limited, vec!["a", "b"]);

    let backward = lines.iter_backward(None);
    assert_eq!(backward, vec!["c", "b", "a"]);

    let limited_backward = lines.iter_backward(Some(2));
    assert_eq!(limited_backward, vec!["c", "b"]);

    let tail = lines.enumerate_tail_forward(2);
    assert_eq!(tail, vec![(1, "b"), (2, "c")]);
}

#[test]
fn test_slice_impl() {
    let slice = &["a", "b", "c"][..];
    assert_eq!(slice.len(), 3);
    assert!(!slice.is_empty());

    let forward = slice.iter_forward(None);
    assert_eq!(forward, vec!["a", "b", "c"]);

    let limited = slice.iter_forward(Some(2));
    assert_eq!(limited, vec!["a", "b"]);

    let backward = slice.iter_backward(None);
    assert_eq!(backward, vec!["c", "b", "a"]);

    let limited_backward = slice.iter_backward(Some(2));
    assert_eq!(limited_backward, vec!["c", "b"]);

    let tail = slice.enumerate_tail_forward(2);
    assert_eq!(tail, vec![(1, "b"), (2, "c")]);
}

#[test]
fn test_empty_collections() {
    let empty_vec: Vec<&str> = Vec::new();
    assert_eq!(empty_vec.len(), 0);
    assert!(empty_vec.is_empty());
    assert_eq!(empty_vec.iter_forward(None).len(), 0);
    assert_eq!(empty_vec.iter_backward(None).len(), 0);
    assert_eq!(empty_vec.enumerate_forward(None).len(), 0);
    assert_eq!(empty_vec.enumerate_backward(None).len(), 0);
    assert_eq!(empty_vec.enumerate_tail_forward(5).len(), 0);

    let empty_string_vec: Vec<String> = Vec::new();
    assert_eq!(empty_string_vec.len(), 0);
    assert!(empty_string_vec.is_empty());
    assert_eq!(empty_string_vec.iter_forward(None).len(), 0);
    assert_eq!(empty_string_vec.iter_backward(None).len(), 0);

    let empty_slice: &[&str] = &[];
    assert_eq!(empty_slice.len(), 0);
    assert!(empty_slice.is_empty());
    assert_eq!(empty_slice.iter_forward(None).len(), 0);
    assert_eq!(empty_slice.iter_backward(None).len(), 0);
}

#[test]
fn backward_walk_is_forward_walk_reversed() {
    let lines = vec!["1", "2", "3", "4"];
    let mut forward = lines.iter_forward(None);
    forward.reverse();
    assert_eq!(lines.iter_backward(None), forward);
}

#[test]
fn limit_larger_than_the_lines_yields_all() {
    let lines = vec!["x", "y"];
    assert_eq!(lines.iter_forward(Some(10)), vec!["x", "y"]);
    assert_eq!(lines.enumerate_tail_forward(10), lines.enumerate_forward(None));
}
