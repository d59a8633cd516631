use mux::localpane::LocalPane;
use mux::pane::Pane;
use mux::{InputEvent, KeyCode, KeyModifiers, MouseEvent, MouseEventKind, PaneError, PtySize};

fn fresh() -> LocalPane {
    LocalPane::new(7, 3, 4, 20, "shell".to_string())
}

#[test]
fn new_pane_reports_identity_and_liveness() {
    let p = fresh();
    assert_eq!(p.pane_id(), 7);
    assert_eq!(p.domain_id(), 3);
    assert!(!p.is_dead());
    assert_eq!(p.get_title(), "shell".to_string());
    assert_eq!(p.get_current_seqno(), 0);
    assert!(p.get_current_working_dir().is_none());
    assert!(!p.is_mouse_grabbed());
    assert!(!p.is_alt_screen_active());
}

#[test]
fn send_paste_queues_event_for_the_emulator() {
    let mut p = fresh();
    assert_eq!(p.send_paste("hello"), Ok(()));
    match p.next_event() {
        Some(InputEvent::Paste(s)) => assert_eq!(s, "hello".to_string()),
        other => panic!("expected a queued paste, got {:?}", other.is_some()),
    }
    assert!(p.next_event().is_none());
}

#[test]
fn key_events_queue_in_order() {
    let mut p = fresh();
    let mods = KeyModifiers { bits: 0 };
    assert_eq!(p.key_down(KeyCode::Char('a'), mods), Ok(()));
    assert_eq!(p.key_up(KeyCode::Char('a'), mods), Ok(()));
    assert!(matches!(p.next_event(), Some(InputEvent::KeyDown(KeyCode::Char('a'), _))));
    assert!(matches!(p.next_event(), Some(InputEvent::KeyUp(KeyCode::Char('a'), _))));
}

#[test]
fn mouse_event_queues() {
    let mut p = fresh();
    let ev = MouseEvent {
        kind: MouseEventKind::Press,
        x: 1,
        y: 0,
        button: 1,
        modifiers: KeyModifiers { bits: 0 },
    };
    assert_eq!(p.mouse_event(ev), Ok(()));
    assert!(matches!(p.next_event(), Some(InputEvent::Mouse(_))));
}

#[test]
fn dead_pane_rejects_input_with_pane_closed() {
    let mut p = fresh();
    p.mark_dead();
    assert!(p.is_dead());
    assert_eq!(p.send_paste("x"), Err(PaneError::PaneClosed));
    assert_eq!(p.key_down(KeyCode::Enter, KeyModifiers { bits: 0 }), Err(PaneError::PaneClosed));
    assert_eq!(p.key_up(KeyCode::Enter, KeyModifiers { bits: 0 }), Err(PaneError::PaneClosed));
    assert!(p.writer().is_err());
    assert_eq!(
        p.resize(PtySize { rows: 10, cols: 10, pixel_width: 0, pixel_height: 0 }),
        Err(PaneError::PaneClosed)
    );
}

#[test]
fn broken_channel_fails_input_with_channel_write_failed() {
    let mut p = fresh();
    p.mark_writer_closed();
    assert!(!p.is_dead());
    assert_eq!(p.send_paste("x"), Err(PaneError::ChannelWriteFailed));
    let mods = KeyModifiers { bits: 0 };
    assert_eq!(p.key_down(KeyCode::Enter, mods), Err(PaneError::ChannelWriteFailed));
    assert_eq!(p.key_up(KeyCode::Enter, mods), Err(PaneError::ChannelWriteFailed));
    let ev = MouseEvent {
        kind: MouseEventKind::Move,
        x: 0,
        y: 0,
        button: 0,
        modifiers: mods,
    };
    assert_eq!(p.mouse_event(ev), Err(PaneError::ChannelWriteFailed));
    assert!(p.next_event().is_none());
}

#[test]
fn writer_grants_access_to_the_input_sink() {
    let mut p = fresh();
    {
        let w = p.writer().expect("live pane must grant the writer");
        w.push(b'l');
        w.push(b's');
    }
    assert_eq!(p.take_input(), vec![b'l', b's']);
    assert_eq!(p.take_input(), Vec::<u8>::new());
}

#[test]
fn resize_updates_dimensions_and_keeps_rows() {
    let mut p = fresh();
    p.apply_output_changes(&vec![(0, "top row".to_string())]).unwrap();
    assert_eq!(p.resize(PtySize { rows: 6, cols: 33, pixel_width: 0, pixel_height: 0 }), Ok(()));
    let d = p.get_dimensions();
    assert_eq!(d.viewport_rows, 6);
    assert_eq!(d.cols, 33);
    let (base, lines) = p.get_lines(0, 1);
    assert_eq!(base, 0);
    assert_eq!(lines[0].text, "top row".to_string());
}

#[test]
fn dead_pane_rejects_output_application() {
    let mut p = fresh();
    p.mark_dead();
    assert_eq!(p.append_output_lines(&vec!["x".to_string()]), Err(PaneError::PaneClosed));
    assert_eq!(p.apply_output_changes(&vec![(0, "x".to_string())]), Err(PaneError::PaneClosed));
}

#[test]
fn working_directory_round_trips() {
    let mut p = fresh();
    let wd = url::Url::parse("file:///var/log").unwrap();
    p.set_current_working_dir(Some(wd.clone()));
    assert_eq!(p.get_current_working_dir(), Some(wd));
}

#[test]
fn title_and_flags_follow_the_emulator_reports() {
    let mut p = fresh();
    p.set_title("editor".to_string());
    p.set_mouse_grabbed(true);
    p.set_alt_screen(true);
    assert_eq!(p.get_title(), "editor".to_string());
    assert!(p.is_mouse_grabbed());
    assert!(p.is_alt_screen_active());
}

#[test]
fn get_changed_since_through_the_capability_interface() {
    let mut p = fresh();
    let observed = p.get_current_seqno();
    p.apply_output_changes(&vec![(2, "dirty".to_string())]).unwrap();
    let cs = p.get_changed_since(0, 4, observed);
    assert!(cs.contains(2));
    assert!(!cs.contains(0));
}
