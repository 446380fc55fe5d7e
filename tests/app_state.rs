use sdr_terminal::app::{pause_after, App, Key};
use sdr_terminal::params::{Parameters, Tab};
use sdr_terminal::signal::IqSample;

fn streaming_app() -> App {
    let mut app = App::new();
    app.on_key(Key::Char('s'));
    app
}

#[test]
fn new_app_has_defaults() {
    let app = App::new();
    assert!(!app.should_quit);
    assert_eq!(app.current_tab, Tab::Frequency);
    assert_eq!(app.params.frequency_hz, 890_000_000);
    assert_eq!(app.params.gain_db, 20);
    assert_eq!(app.params.sample_rate_hz, 1_000_000);
    assert!(!app.is_streaming);
    assert_eq!(app.status_message, "DEMO MODE - No USRP hardware detected");
    assert_eq!(app.spectrum_data, vec![0u32; 512]);
    assert!(app.sample_buffer.is_empty());
}

#[test]
fn frequency_steps_and_floor() {
    let mut app = App::new();
    app.on_key(Key::Up);
    assert_eq!(app.params.frequency_hz, 891_000_000);
    app.on_key(Key::Down);
    app.on_key(Key::Down);
    assert_eq!(app.params.frequency_hz, 889_000_000);
    for _ in 0..1000 {
        app.on_key(Key::Down);
    }
    assert_eq!(app.params.frequency_hz, 1_000_000);
    assert_eq!(app.params.gain_db, 20);
    assert_eq!(app.params.sample_rate_hz, 1_000_000);
}

#[test]
fn adjust_never_leaves_range() {
    let mut p = Parameters::new();
    for _ in 0..7000 {
        p.adjust(Tab::Frequency, true);
        p.adjust(Tab::Gain, true);
        p.adjust(Tab::SampleRate, true);
    }
    assert_eq!(p.frequency_hz, 6_000_000_000);
    assert_eq!(p.gain_db, 60);
    assert_eq!(p.sample_rate_hz, 10_000_000);
    for _ in 0..7000 {
        p.adjust(Tab::Frequency, false);
        p.adjust(Tab::Gain, false);
        p.adjust(Tab::SampleRate, false);
    }
    assert_eq!(p.frequency_hz, 1_000_000);
    assert_eq!(p.gain_db, 0);
    assert_eq!(p.sample_rate_hz, 100_000);
}

#[test]
fn gain_and_sample_rate_follow_selected_tab() {
    let mut app = App::new();
    app.on_key(Key::Right);
    app.on_key(Key::Up);
    assert_eq!(app.params.gain_db, 21);
    app.on_key(Key::Tab);
    app.on_key(Key::Down);
    assert_eq!(app.params.sample_rate_hz, 900_000);
    assert_eq!(app.params.frequency_hz, 890_000_000);
}

#[test]
fn tab_navigation_cycles() {
    let mut app = App::new();
    app.on_key(Key::Left);
    assert_eq!(app.current_tab, Tab::SampleRate);
    app.on_key(Key::Right);
    assert_eq!(app.current_tab, Tab::Frequency);
    for start in [Tab::Frequency, Tab::Gain, Tab::SampleRate] {
        assert_eq!(start.next().next().next(), start);
        assert_eq!(start.prev().prev().prev(), start);
        assert_eq!(start.next().prev(), start);
        assert_eq!(start.prev().next(), start);
    }
    assert_eq!(Tab::SampleRate.next(), Tab::Frequency);
    assert_eq!(Tab::Gain.index(), 1);
}

#[test]
fn quit_and_escape_set_quit() {
    let mut app = App::new();
    app.on_key(Key::Char('q'));
    assert!(app.should_quit);
    let mut app = App::new();
    assert!(!app.update(Some(Key::Esc)));
    let mut app = App::new();
    assert!(app.update(None));
}

#[test]
fn connect_sets_status_only() {
    let mut app = App::new();
    app.on_key(Key::Char('c'));
    assert_eq!(app.status_message, "MOCK USRP connected (demo mode)");
    assert!(!app.is_streaming);
    assert_eq!(app.params, Parameters::new());
}

#[test]
fn other_keys_change_nothing() {
    let mut app = App::new();
    app.on_key(Key::Other);
    app.on_key(Key::Char('x'));
    assert!(!app.should_quit);
    assert_eq!(app.current_tab, Tab::Frequency);
    assert_eq!(app.params, Parameters::new());
    assert_eq!(app.status_message, "DEMO MODE - No USRP hardware detected");
}

#[test]
fn start_gives_one_hundred_samples_in_range() {
    let app = streaming_app();
    assert!(app.is_streaming);
    assert_eq!(app.status_message, "Mock streaming started (demo mode)");
    assert_eq!(app.sample_buffer.len(), 100);
    for s in &app.sample_buffer {
        assert!(500_000 <= s.magnitude && s.magnitude <= 1_000_000);
        assert!(s.phase < 6_283_186);
    }
}

#[test]
fn toggling_twice_gives_two_batches() {
    let mut app = streaming_app();
    let first = app.sample_buffer.clone();
    app.on_key(Key::Char('s'));
    assert!(!app.is_streaming);
    assert_eq!(app.status_message, "Streaming stopped");
    app.on_key(Key::Char('s'));
    assert!(app.is_streaming);
    assert_eq!(first.len(), 100);
    assert_eq!(app.sample_buffer.len(), 100);
    assert_ne!(first, app.sample_buffer);
}

#[test]
fn ticks_stay_in_range() {
    let mut app = streaming_app();
    for _ in 0..10 {
        assert!(app.update(None));
        assert_eq!(app.spectrum_data.len(), 512);
        assert!(app.spectrum_data.iter().all(|&p| p <= 1_000_000));
        assert_eq!(app.sample_buffer.len(), 20);
        for s in &app.sample_buffer {
            assert!(800_000 <= s.magnitude && s.magnitude < 1_000_000);
        }
    }
}

#[test]
fn stopping_keeps_last_data() {
    let mut app = streaming_app();
    for _ in 0..3 {
        app.update(None);
    }
    let spectrum = app.spectrum_data.clone();
    let samples = app.sample_buffer.clone();
    assert!(app.update(Some(Key::Char('s'))));
    assert!(!app.is_streaming);
    for key in [None, Some(Key::Up), Some(Key::Right), Some(Key::Char('c')), None] {
        app.update(key);
        assert_eq!(app.spectrum_data, spectrum);
        assert_eq!(app.sample_buffer, samples);
    }
}

#[test]
fn tick_while_stopped_changes_nothing() {
    let mut app = App::new();
    app.simulate_streaming_data_with(&vec![7u32; 572]);
    assert_eq!(app.spectrum_data, vec![0u32; 512]);
    assert!(app.sample_buffer.is_empty());
}

#[test]
fn start_with_fixed_draws() {
    let mut app = App::new();
    let mut d = vec![0u32; 200];
    d[0] = u32::MAX;
    d[1] = u32::MAX;
    app.start_streaming_with(&d);
    assert_eq!(app.sample_buffer[0], IqSample { magnitude: 999_999, phase: 6_283_185 });
    assert_eq!(app.sample_buffer[1], IqSample { magnitude: 500_000, phase: 0 });
    assert_eq!(app.sample_buffer.len(), 100);
}

#[test]
fn tick_with_fixed_draws() {
    let mut app = streaming_app();
    let mut d = vec![1u32 << 31; 572];
    d[512] = 0;
    d[513] = 0;
    d[514] = 0;
    app.simulate_streaming_data_with(&d);
    // 890 MHz puts the main peak near bin 456; noise is zero at the midpoint draw.
    assert_eq!(app.spectrum_data[456], 700_000);
    assert_eq!(app.spectrum_data[410], 300_000);
    assert_eq!(app.spectrum_data[0], 0);
    assert_eq!(app.sample_buffer[0], IqSample { magnitude: 800_000, phase: 0 });
    assert_eq!(app.sample_buffer[1], IqSample { magnitude: 900_000, phase: 3_141_593 + 50_000 });
    assert_eq!(app.sample_buffer.len(), 20);
}

#[test]
fn pause_fills_minimum_iteration() {
    assert_eq!(pause_after(10), 40);
    assert_eq!(pause_after(0), 50);
    assert_eq!(pause_after(50), 0);
    assert_eq!(pause_after(70), 0);
}

#[test]
fn spectrum_bars_scale_to_twenty() {
    let mut app = App::new();
    app.spectrum_data[0] = 1_000_000;
    app.spectrum_data[16] = 500_000;
    app.spectrum_data[32] = 49_999;
    app.spectrum_data[17] = 1_000_000;
    let bars = app.spectrum_bars();
    assert_eq!(bars.len(), 32);
    assert_eq!(bars[0], 20);
    assert_eq!(bars[1], 10);
    assert_eq!(bars[2], 0);
    assert_eq!(bars[3], 0);
}

#[test]
fn average_power_of_samples() {
    let mut app = App::new();
    assert_eq!(app.average_power(), None);
    app.sample_buffer = vec![
        IqSample { magnitude: 1_000_000, phase: 0 },
        IqSample { magnitude: 500_000, phase: 17 },
    ];
    assert_eq!(app.average_power(), Some(625_000_000_000));
}
