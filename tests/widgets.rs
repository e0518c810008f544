use hive_tui::app::Key;
use hive_tui::control_panel::App;
use hive_tui::tui::TUI;
use hive_tui::workers::Workers;

#[test]
fn workers_wrap_both_ways() {
    let mut w = Workers::default();
    assert_eq!(w.selected(), 0);
    assert_eq!(w.names().len(), 4);
    w.up();
    assert_eq!(w.selected(), 3);
    w.down();
    assert_eq!(w.selected(), 0);
    w.down();
    w.down();
    assert_eq!(w.selected(), 2);
}

#[test]
fn empty_workers_do_not_move() {
    let mut w = Workers::new(Vec::new());
    w.up();
    w.down();
    assert_eq!(w.selected(), 0);
}

#[test]
fn tui_starts_running() {
    let mut t = TUI::new();
    assert!(!t.should_exit());
    t.set_exit(true);
    assert!(t.should_exit());
}

#[test]
fn control_panel_counter_wraps() {
    let mut p = App::from(("http://h".to_string(), "tok".to_string()));
    assert_eq!(p.url(), "http://h");
    assert_eq!(p.token(), "tok");
    assert!(!p.handle_key_event(Key::Left));
    assert_eq!(p.counter(), 255);
    assert!(!p.handle_key_event(Key::Right));
    assert!(!p.handle_key_event(Key::Right));
    assert_eq!(p.counter(), 1);
    assert!(!p.handle_key_event(Key::Down));
    assert_eq!(p.workers().selected(), 1);
    assert!(p.handle_key_event(Key::Char('q')));
}
