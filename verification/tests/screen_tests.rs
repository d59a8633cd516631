use mux::screen::Screen;

fn texts(v: &[&str]) -> Vec<String> {
    v.iter().map(|s| s.to_string()).collect()
}

fn line_texts(lines: &[mux::screen::Line]) -> Vec<String> {
    lines.iter().map(|l| l.text.clone()).collect()
}

#[test]
fn new_screen_is_blank_with_requested_dimensions() {
    let s = Screen::new(24, 80);
    let d = s.dimensions();
    assert_eq!(d.viewport_rows, 24);
    assert_eq!(d.cols, 80);
    assert_eq!(d.scrollback_rows, 24);
    assert_eq!(d.physical_top, 0);
    assert_eq!(d.scrollback_top, 0);
    let (base, lines) = s.get_lines(0, 24);
    assert_eq!(base, 0);
    assert_eq!(lines.len(), 24);
    assert!(lines.iter().all(|l| l.text.is_empty()));
}

#[test]
fn get_lines_left_clamps_to_extent() {
    let mut s = Screen::new(4, 10);
    s.apply_changes(&vec![(0, "alpha".to_string()), (1, "beta".to_string())]);
    let (base, lines) = s.get_lines(-5, 2);
    assert_eq!(base, 0);
    assert_eq!(line_texts(&lines), vec!["alpha".to_string(), "beta".to_string()]);
}

#[test]
fn get_lines_clamps_below_extent() {
    let s = Screen::new(4, 10);
    let (base, lines) = s.get_lines(10, 20);
    assert_eq!(base, 4);
    assert!(lines.is_empty());
}

#[test]
fn append_lines_extends_extent_downward() {
    let mut s = Screen::new(2, 10);
    s.append_lines(&texts(&["one", "two", "three"]));
    let (base, lines) = s.get_lines(0, 5);
    assert_eq!(base, 0);
    assert_eq!(
        line_texts(&lines),
        vec!["".to_string(), "".to_string(), "one".to_string(), "two".to_string(),
            "three".to_string()]
    );
    assert_eq!(s.dimensions().scrollback_rows, 5);
}

#[test]
fn apply_changes_bumps_seqno_once_per_batch() {
    let mut s = Screen::new(4, 10);
    assert_eq!(s.seqno, 0);
    s.apply_changes(&vec![(0, "a".to_string()), (2, "c".to_string())]);
    assert_eq!(s.seqno, 1);
    s.apply_changes(&vec![(1, "b".to_string())]);
    assert_eq!(s.seqno, 2);
}

#[test]
fn changed_since_reports_exactly_the_touched_rows() {
    let mut s = Screen::new(4, 10);
    let observed = s.seqno;
    s.apply_changes(&vec![(1, "x".to_string()), (3, "y".to_string())]);
    let cs = s.get_changed_since(0, 4, observed);
    assert!(!cs.contains(0));
    assert!(cs.contains(1));
    assert!(!cs.contains(2));
    assert!(cs.contains(3));
}

#[test]
fn changed_since_never_under_reports_across_batches() {
    let mut s = Screen::new(4, 10);
    let observed = s.seqno;
    let before: Vec<String> = {
        let (_, lines) = s.get_lines(0, 4);
        line_texts(&lines)
    };
    s.apply_changes(&vec![(0, "first".to_string())]);
    s.append_lines(&texts(&["tail"]));
    s.apply_changes(&vec![(2, "second".to_string())]);
    let (base, after) = s.get_lines(0, 4);
    assert_eq!(base, 0);
    let cs = s.get_changed_since(0, 4, observed);
    for r in 0..4usize {
        if line_texts(&after)[r] != before[r] {
            assert!(cs.contains(r as isize), "row {} changed but was not reported", r);
        }
    }
}

#[test]
fn changed_since_is_empty_for_current_seqno() {
    let mut s = Screen::new(4, 10);
    s.apply_changes(&vec![(0, "a".to_string())]);
    let cs = s.get_changed_since(0, 4, s.seqno);
    assert!(cs.is_empty());
}

#[test]
fn resize_keeps_previous_viewport_rows() {
    let mut s = Screen::new(3, 10);
    s.apply_changes(&vec![(0, "keep0".to_string()), (1, "keep1".to_string()), (2,
        "keep2".to_string())]);
    s.resize(5, 20);
    let d = s.dimensions();
    assert_eq!(d.viewport_rows, 5);
    assert_eq!(d.cols, 20);
    let (base, lines) = s.get_lines(0, 3);
    assert_eq!(base, 0);
    assert_eq!(
        line_texts(&lines),
        vec!["keep0".to_string(), "keep1".to_string(), "keep2".to_string()]
    );
}

#[test]
fn splice_above_keeps_existing_rows() {
    let mut s = Screen::new(2, 10);
    s.apply_changes(&vec![(0, "live0".to_string()), (1, "live1".to_string())]);
    s.splice_above(-3, &texts(&["h0", "h1", "h2"]));
    let (base, lines) = s.get_lines(-3, 2);
    assert_eq!(base, -3);
    assert_eq!(
        line_texts(&lines),
        vec!["h0".to_string(), "h1".to_string(), "h2".to_string(), "live0".to_string(),
            "live1".to_string()]
    );
}

#[test]
fn trim_top_drops_only_rows_above_new_top() {
    let mut s = Screen::new(2, 10);
    s.append_lines(&texts(&["a", "b", "c"]));
    s.set_cursor(0, 4);
    let seq_before = s.seqno;
    s.trim_top(2);
    assert_eq!(s.seqno, seq_before);
    let (base, lines) = s.get_lines(-10, 10);
    assert_eq!(base, 2);
    assert_eq!(line_texts(&lines), vec!["a".to_string(), "b".to_string(), "c".to_string()]);
}

#[test]
fn cursor_moves_as_reported() {
    let mut s = Screen::new(4, 10);
    s.set_cursor(3, 2);
    assert_eq!(s.cursor.x, 3);
    assert_eq!(s.cursor.y, 2);
}
