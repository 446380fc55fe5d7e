use sdr_terminal::random::draws;
use sdr_terminal::signal::{make_start_sample, make_tick_sample, scale_draw, spectrum_bin, IqSample};

#[test]
fn scale_draw_spans_range() {
    assert_eq!(scale_draw(0, 50_000), 0);
    assert_eq!(scale_draw(1 << 31, 50_000), 25_000);
    assert_eq!(scale_draw(u32::MAX, 50_000), 49_999);
}

#[test]
fn spectrum_bin_exact_values() {
    let mid = 1u32 << 31;
    assert_eq!(spectrum_bin(456, 890_000_000, mid), 700_000);
    assert_eq!(spectrum_bin(456, 890_000_000, 0), 675_000);
    assert_eq!(spectrum_bin(456, 890_000_000, u32::MAX), 724_999);
    assert_eq!(spectrum_bin(0, 890_000_000, 0), 0);
    assert_eq!(spectrum_bin(0, 890_000_000, u32::MAX), 24_999);
    // Side peak at 0.1 above a 700 MHz centre falls on the background peak at 0.8.
    assert_eq!(spectrum_bin(410, 700_000_000, mid), 800_000);
    // Main peak on the background peak saturates at full scale.
    assert_eq!(spectrum_bin(410, 800_000_000, u32::MAX), 1_000_000);
    // Above 1 GHz the tuned peaks leave the display.
    assert_eq!(spectrum_bin(511, 2_000_000_000, mid), 0);
}

#[test]
fn sample_generators_exact_values() {
    assert_eq!(make_start_sample(0, 0), IqSample { magnitude: 500_000, phase: 0 });
    assert_eq!(
        make_start_sample(u32::MAX, u32::MAX),
        IqSample { magnitude: 999_999, phase: 6_283_185 }
    );
    assert_eq!(make_tick_sample(0, 0, 0), IqSample { magnitude: 800_000, phase: 0 });
    assert_eq!(
        make_tick_sample(u32::MAX, u32::MAX, u32::MAX),
        IqSample { magnitude: 999_999, phase: 6_283_185 + 99_999 }
    );
}

#[test]
fn draws_gives_requested_count() {
    let d = draws(1000);
    assert_eq!(d.len(), 1000);
    assert!(d.iter().any(|&x| x != d[0]));
}
