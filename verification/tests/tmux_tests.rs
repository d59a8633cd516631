use mux::pane::Pane;
use mux::tmux_pane::{FetchState, LinesReply, TmuxPane, MAX_FETCH_ATTEMPTS};
use mux::{PaneError, PtySize};

fn fresh(history: u64) -> TmuxPane {
    TmuxPane::new(11, 4, 40, 2, history, "remote".to_string())
}

fn texts(v: &[&str]) -> Vec<String> {
    v.iter().map(|s| s.to_string()).collect()
}

fn line_texts(lines: &[mux::screen::Line]) -> Vec<String> {
    lines.iter().map(|l| l.text.clone()).collect()
}

#[test]
fn delegates_identity_to_the_embedded_local_pane() {
    let p = fresh(100);
    assert_eq!(p.pane_id(), 11);
    assert_eq!(p.domain_id(), 2);
    assert_eq!(p.get_title(), "remote".to_string());
    assert!(!p.is_dead());
    let d = p.get_dimensions();
    assert_eq!(d.viewport_rows, 4);
    assert_eq!(d.cols, 40);
}

#[test]
fn request_inside_extent_is_answered_locally() {
    let mut p = fresh(100);
    p.localpane.apply_output_changes(&vec![(0, "row0".to_string())]).unwrap();
    match p.poll_lines(0, 2).unwrap() {
        LinesReply::Lines(base, lines) => {
            assert_eq!(base, 0);
            assert_eq!(line_texts(&lines), vec!["row0".to_string(), "".to_string()]);
        }
        LinesReply::Fetch(_, _) => panic!("no fetch needed inside the extent"),
    }
    assert!(!p.fetch_in_flight());
}

#[test]
fn request_above_extent_starts_a_clamped_fetch() {
    let mut p = fresh(100);
    match p.poll_lines(-150, 2).unwrap() {
        LinesReply::Fetch(start, end) => {
            assert_eq!(start, -100);
            assert_eq!(end, 0);
        }
        LinesReply::Lines(_, _) => panic!("rows above the extent require a fetch"),
    }
    assert!(p.fetch_in_flight());
}

#[test]
fn splice_makes_fetched_history_addressable() {
    let mut p = fresh(100);
    p.localpane.apply_output_changes(&vec![(0, "live".to_string())]).unwrap();
    let (fs, fe) = match p.poll_lines(-3, 1).unwrap() {
        LinesReply::Fetch(fs, fe) => (fs, fe),
        LinesReply::Lines(_, _) => panic!("expected a fetch"),
    };
    assert_eq!((fs, fe), (-3, 0));
    let seq_before = p.get_current_seqno();
    assert_eq!(p.splice_fetched(-3, &texts(&["h0", "h1", "h2"])), Ok(()));
    assert!(!p.fetch_in_flight());
    assert_eq!(p.get_current_seqno(), seq_before + 1);
    match p.poll_lines(-3, 1).unwrap() {
        LinesReply::Lines(base, lines) => {
            assert_eq!(base, -3);
            assert_eq!(
                line_texts(&lines),
                vec!["h0".to_string(), "h1".to_string(), "h2".to_string(), "live".to_string()]
            );
        }
        LinesReply::Fetch(_, _) => panic!("spliced rows must be served locally"),
    }
}

#[test]
fn fast_path_is_identical_while_a_fetch_is_in_flight() {
    let mut p = fresh(100);
    p.localpane.apply_output_changes(&vec![(1, "steady".to_string())]).unwrap();
    let (base_before, before) = p.get_lines(0, 4);
    match p.poll_lines(-50, 0).unwrap() {
        LinesReply::Fetch(_, _) => {}
        LinesReply::Lines(_, _) => panic!("expected a fetch of unrelated history"),
    }
    assert!(p.fetch_in_flight());
    let (base_during, during) = p.get_lines(0, 4);
    assert_eq!(base_before, base_during);
    assert_eq!(line_texts(&before), line_texts(&during));
}

#[test]
fn request_beyond_history_returns_closest_prefix() {
    let mut p = fresh(1000);
    match p.poll_lines(-2000, -1500).unwrap() {
        LinesReply::Lines(base, lines) => {
            assert!(base >= -1000);
            assert!(lines.is_empty());
        }
        LinesReply::Fetch(_, _) => panic!("rows beyond the retained history are not fetchable"),
    }
}

#[test]
fn zero_history_never_fetches() {
    let mut p = fresh(0);
    match p.poll_lines(-5, 1).unwrap() {
        LinesReply::Lines(base, _) => assert!(base >= 0),
        LinesReply::Fetch(_, _) => panic!("nothing is retained with zero history"),
    }
}

#[test]
fn transient_failures_time_out_after_bounded_retries() {
    let mut p = fresh(100);
    assert!(matches!(p.poll_lines(-10, 0).unwrap(), LinesReply::Fetch(-10, 0)));
    let mut retries: usize = 0;
    loop {
        match p.fetch_failed() {
            Ok(range) => {
                assert_eq!(range, (-10, 0));
                retries += 1;
                assert!(retries < MAX_FETCH_ATTEMPTS);
            }
            Err(e) => {
                assert_eq!(e, PaneError::FetchTimeout);
                break;
            }
        }
    }
    assert_eq!(retries, MAX_FETCH_ATTEMPTS - 1);
    assert!(!p.fetch_in_flight());
}

#[test]
fn teardown_releases_an_in_flight_fetch_with_pane_closed() {
    let mut p = fresh(100);
    assert!(matches!(p.poll_lines(-10, 0).unwrap(), LinesReply::Fetch(_, _)));
    p.tear_down();
    assert!(p.is_dead());
    assert_eq!(p.splice_fetched(-10, &texts(&["a", "b", "c", "d", "e", "f", "g", "h", "i", "j"])),
        Err(PaneError::PaneClosed));
    assert!(!p.fetch_in_flight());
}

#[test]
fn dead_pane_fails_requests_and_input() {
    let mut p = fresh(100);
    p.tear_down();
    assert!(matches!(p.poll_lines(0, 1), Err(PaneError::PaneClosed)));
    assert_eq!(p.send_paste("x"), Err(PaneError::PaneClosed));
    assert!(p.writer().is_err());
}

#[test]
fn resize_propagates_through_the_delegation() {
    let mut p = fresh(100);
    assert_eq!(p.resize(PtySize { rows: 9, cols: 77, pixel_width: 0, pixel_height: 0 }), Ok(()));
    let d = p.get_dimensions();
    assert_eq!(d.viewport_rows, 9);
    assert_eq!(d.cols, 77);
}

#[test]
fn appended_output_is_trimmed_to_the_retained_window() {
    let mut p = fresh(2);
    let rows = texts(&["r0", "r1", "r2", "r3", "r4"]);
    assert_eq!(p.append_output_lines(&rows), Ok(()));
    let d = p.get_dimensions();
    assert_eq!(d.scrollback_rows, 6);
    assert_eq!(d.scrollback_top, 3);
    let (base, lines) = p.get_lines(-10, 20);
    assert_eq!(base, 3);
    assert_eq!(
        line_texts(&lines),
        vec!["".to_string(), "r0".to_string(), "r1".to_string(), "r2".to_string(),
            "r3".to_string(), "r4".to_string()]
    );
}

#[test]
fn excess_during_a_fetch_is_trimmed_when_the_splice_lands() {
    let mut p = fresh(1);
    assert!(matches!(p.poll_lines(-5, 1).unwrap(), LinesReply::Fetch(-1, 0)));
    assert_eq!(p.append_output_lines(&texts(&["a0", "a1", "a2"])), Ok(()));
    // the pending splice pins the top, so the excess stays for now
    assert_eq!(p.get_dimensions().scrollback_rows, 7);
    assert_eq!(p.splice_fetched(-1, &texts(&["h"])), Ok(()));
    let d = p.get_dimensions();
    assert_eq!(d.scrollback_rows, 5);
    assert_eq!(d.scrollback_top, 2);
    let (base, lines) = p.get_lines(-5, 10);
    assert_eq!(base, 2);
    assert_eq!(lines.len(), 5);
}

#[test]
fn trim_to_history_removes_excess_a_resize_exposed() {
    let mut p = fresh(2);
    assert_eq!(p.append_output_lines(&texts(&["x0", "x1"])), Ok(()));
    assert_eq!(p.resize(PtySize { rows: 3, cols: 40, pixel_width: 0, pixel_height: 0 }), Ok(()));
    assert_eq!(p.trim_to_history(), Ok(()));
    let d = p.get_dimensions();
    assert_eq!(d.viewport_rows, 3);
    assert_eq!(d.scrollback_rows, 5);
    assert_eq!(d.scrollback_top, 1);
}

#[test]
fn idle_fetch_state_is_observable() {
    let p = fresh(100);
    assert_eq!(p.fetch, FetchState::Idle);
    assert!(!p.fetch_in_flight());
}
