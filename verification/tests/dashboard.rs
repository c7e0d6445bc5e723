use net_monitor::input::{Key, Step};
use net_monitor::state::{App, InputMode};
use net_monitor::timing::{poll_timeout_ms, should_sample};
use net_monitor::CAPACITY;

fn key_str(app: &mut App, s: &str) {
    for c in s.chars() {
        let step = app.on_key(Key::Char(c));
        assert_eq!(step, Step::Continue);
    }
}

#[test]
fn default_state() {
    let app = App::default();
    assert!(app.rules.is_empty());
    assert_eq!(app.index, 0);
    assert!(app.chart.is_empty());
    assert!(app.net_speed.is_empty());
    assert_eq!(app.window, (0, 100));
    assert_eq!(app.last_total, 0);
    assert_eq!(app.second, 0);
    assert!(app.input.is_empty());
    assert_eq!(app.input_mode, InputMode::Normal);
    assert!(app.current_rule().is_none());
}

#[test]
fn bounded_series_after_105_ticks() {
    let mut app = App::default();
    for i in 0..105u64 {
        app.tick(i, i);
        assert!(app.chart.len() <= CAPACITY);
        assert!(app.net_speed.len() <= CAPACITY);
    }
    assert_eq!(app.chart.len(), CAPACITY);
    assert_eq!(app.net_speed.len(), CAPACITY);
}

#[test]
fn chart_evicts_tail_first() {
    let mut app = App::default();
    for i in 0..105u64 {
        app.tick(i, 0);
    }
    // newest first: samples 104 down to 5 survive; 0..=4 were evicted
    assert_eq!(app.chart.len(), 100);
    for (pos, value) in app.chart.iter().enumerate() {
        assert_eq!(*value, 104 - pos as u64);
    }
}

#[test]
fn series_evicts_front_first() {
    let mut app = App::default();
    for i in 0..105u64 {
        app.tick(0, 10 * i);
    }
    // oldest first: points for seconds 5..=104 survive; 0..=4 were evicted
    assert_eq!(app.net_speed.len(), 100);
    for (pos, point) in app.net_speed.iter().enumerate() {
        let second = 5 + pos as u64;
        assert_eq!(*point, (second, 10));
    }
}

#[test]
fn rate_computation() {
    let mut app = App::default();
    let totals = [0u64, 50, 120, 120, 200];
    for total in totals {
        app.tick(0, total);
    }
    let deltas: Vec<u64> = app.net_speed.iter().map(|p| p.1).collect();
    assert_eq!(deltas, vec![0, 50, 70, 0, 80]);
    let seconds: Vec<u64> = app.net_speed.iter().map(|p| p.0).collect();
    assert_eq!(seconds, vec![0, 1, 2, 3, 4]);
}

#[test]
fn window_advances_once_series_is_full() {
    let mut app = App::default();
    for _ in 0..100 {
        app.tick(0, 0);
    }
    assert_eq!(app.window, (0, 100));
    app.tick(0, 0);
    assert_eq!(app.window, (1, 101));
    app.tick(0, 0);
    assert_eq!(app.window, (2, 102));
    app.tick(0, 0);
    assert_eq!(app.window, (3, 103));
}

#[test]
fn second_counter_steps_by_one_per_tick() {
    let mut app = App::default();
    for i in 0..105u64 {
        assert_eq!(app.second, i);
        app.tick(7, i);
        assert_eq!(app.second, i + 1);
    }
}

#[test]
fn first_tick_delta_is_full_total() {
    let mut app = App::default();
    app.tick(3, 42);
    assert_eq!(app.net_speed, vec![(0, 42)]);
    assert_eq!(app.last_total, 42);
    assert_eq!(app.chart, vec![3]);
}

#[test]
fn edit_then_commit_rule() {
    let mut app = App::default();
    assert_eq!(app.on_key(Key::Char('e')), Step::Continue);
    assert_eq!(app.input_mode, InputMode::Editing);
    key_str(&mut app, "tcp port 80");
    assert_eq!(app.input_string(), "tcp port 80");
    let step = app.on_key(Key::Enter);
    assert_eq!(step, Step::Register("tcp port 80".to_string()));
    assert_eq!(app.rules, vec!["tcp port 80".to_string()]);
    assert_eq!(app.input_string(), "");
    assert_eq!(app.input_mode, InputMode::Editing);
    assert_eq!(app.current_rule(), Some(&"tcp port 80".to_string()));
}

#[test]
fn esc_keeps_buffer() {
    let mut app = App::default();
    app.on_key(Key::Char('e'));
    key_str(&mut app, "udp");
    assert_eq!(app.on_key(Key::Esc), Step::Continue);
    assert_eq!(app.input_mode, InputMode::Normal);
    assert_eq!(app.input_string(), "udp");
}

#[test]
fn backspace_edits_buffer() {
    let mut app = App::default();
    app.on_key(Key::Char('e'));
    key_str(&mut app, "ab");
    assert_eq!(app.on_key(Key::Backspace), Step::Continue);
    assert_eq!(app.input_string(), "a");
    app.on_key(Key::Backspace);
    assert_eq!(app.input_string(), "");
    // backspace on an empty buffer is a no-op
    assert_eq!(app.on_key(Key::Backspace), Step::Continue);
    assert_eq!(app.input_string(), "");
    assert_eq!(app.input_mode, InputMode::Editing);
}

#[test]
fn quit_only_from_normal_mode() {
    let mut app = App::default();
    assert_eq!(app.on_key(Key::Char('q')), Step::Quit);
    // in Editing mode, `q` is just another character
    app.on_key(Key::Char('e'));
    assert_eq!(app.on_key(Key::Char('q')), Step::Continue);
    assert_eq!(app.input_string(), "q");
}

#[test]
fn normal_mode_ignores_other_keys() {
    let mut app = App::default();
    for key in [Key::Enter, Key::Backspace, Key::Esc, Key::Other, Key::Char('x')] {
        assert_eq!(app.on_key(key), Step::Continue);
        assert_eq!(app.input_mode, InputMode::Normal);
        assert!(app.rules.is_empty());
        assert!(app.input.is_empty());
    }
}

#[test]
fn editing_mode_ignores_unrecognized_keys() {
    let mut app = App::default();
    app.on_key(Key::Char('e'));
    key_str(&mut app, "ip");
    assert_eq!(app.on_key(Key::Other), Step::Continue);
    assert_eq!(app.input_mode, InputMode::Editing);
    assert_eq!(app.input_string(), "ip");
}

#[test]
fn empty_commit_is_permitted() {
    let mut app = App::default();
    app.on_key(Key::Char('e'));
    let step = app.on_key(Key::Enter);
    assert_eq!(step, Step::Register(String::new()));
    assert_eq!(app.rules, vec![String::new()]);
}

#[test]
fn duplicate_rules_are_independent_entries() {
    let mut app = App::default();
    app.on_key(Key::Char('e'));
    key_str(&mut app, "tcp");
    app.on_key(Key::Enter);
    key_str(&mut app, "tcp");
    app.on_key(Key::Enter);
    assert_eq!(app.rules, vec!["tcp".to_string(), "tcp".to_string()]);
    // the charted rule stays the first one
    assert_eq!(app.current_rule(), Some(&"tcp".to_string()));
}

#[test]
fn keys_never_touch_sampler_state() {
    let mut app = App::default();
    app.on_key(Key::Char('e'));
    key_str(&mut app, "tcp");
    app.on_key(Key::Enter);
    app.tick(9, 30);
    let (chart, speed, window) = (app.chart.clone(), app.net_speed.clone(), app.window);
    let (second, last_total) = (app.second, app.last_total);
    for key in [Key::Char('z'), Key::Backspace, Key::Esc, Key::Char('q'), Key::Other] {
        app.on_key(key);
        assert_eq!(app.chart, chart);
        assert_eq!(app.net_speed, speed);
        assert_eq!(app.window, window);
        assert_eq!(app.second, second);
        assert_eq!(app.last_total, last_total);
    }
}

#[test]
fn sampling_is_due_only_with_a_rule_and_a_full_interval() {
    assert!(!should_sample(0, 5000));
    assert!(!should_sample(3, 999));
    assert!(should_sample(1, 1000));
    assert!(should_sample(2, 1500));
}

#[test]
fn poll_timeout_bounds_input_latency() {
    assert_eq!(poll_timeout_ms(0), 250);
    assert_eq!(poll_timeout_ms(100), 150);
    assert_eq!(poll_timeout_ms(249), 1);
    assert_eq!(poll_timeout_ms(250), 0);
    assert_eq!(poll_timeout_ms(10_000), 0);
}
