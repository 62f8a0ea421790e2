use agama::progress::ProgressSequence;

fn names(list: &[&str]) -> Vec<String> {
    list.iter().map(|s| s.to_string()).collect()
}

#[test]
fn test_empty_sequence_is_finished() {
    let mut seq = ProgressSequence::new(Vec::new());
    let snap = seq.snapshot();
    assert_eq!(snap.current_step, 0);
    assert_eq!(snap.max_steps, 0);
    assert_eq!(snap.current_title, "");
    assert!(snap.finished);
    assert!(seq.advance().is_none());
    assert_eq!(seq.current, 0);
}

#[test]
fn test_advance_reports_each_step() {
    let mut seq = ProgressSequence::new(names(&["read", "write"]));
    let first = seq.advance().expect("a first step");
    assert_eq!(first.current_step, 1);
    assert_eq!(first.max_steps, 2);
    assert_eq!(first.current_title, "read");
    assert!(!first.finished);
    let second = seq.advance().expect("a second step");
    assert_eq!(second.current_step, 2);
    assert_eq!(second.current_title, "write");
    assert!(second.finished);
    assert!(seq.advance().is_none());
    assert_eq!(seq.current, 2);
}

#[test]
fn test_snapshot_does_not_mutate() {
    let seq = ProgressSequence::new(names(&["only"]));
    let one = seq.snapshot();
    let two = seq.snapshot();
    assert_eq!(one.current_step, two.current_step);
    assert_eq!(one.current_title, "");
    assert_eq!(seq.current, 0);
    assert!(!one.finished);
}
