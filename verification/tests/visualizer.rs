use signal_visualizer::clock::next_millisecond_count;
use signal_visualizer::color::fill_color;
use signal_visualizer::display::{
    bar_height, bar_segment, bar_width, bar_x_start, fits_on_screen, screen_clear_segment, BarFill,
    BarGraph, BarSegment,
};
use signal_visualizer::normalize::{
    normalize_band_response, MAX_MSGEQ7_BAND_RESPONSES, MIN_MSGEQ7_BAND_RESPONSES,
};
use signal_visualizer::reader::{
    MSGEQ7ReaderState, MSGEQ7ResetState, MSGEQ7StrobeState, ReaderAction, SampleOutcome,
};

#[test]
fn normalize_maps_window_linearly() {
    let bands = [150, 300, 250, 260, 292, 380, 555];
    assert_eq!(normalize_band_response(bands), [512, 512, 512, 512, 510, 512, 466]);
}

#[test]
fn normalize_clamps_outside_window() {
    let above = [201, 401, 301, 311, 476, 611, 741];
    assert_eq!(normalize_band_response(above), [1024, 1024, 1024, 1024, 1024, 1024, 1024]);
    let below = [99, 199, 199, 209, 109, 149, 399];
    assert_eq!(normalize_band_response(below), [0, 0, 0, 0, 0, 0, 0]);
}

#[test]
fn normalize_window_ends_are_scale_ends() {
    assert_eq!(
        normalize_band_response(MIN_MSGEQ7_BAND_RESPONSES),
        [0, 0, 0, 0, 0, 0, 0]
    );
    assert_eq!(
        normalize_band_response(MAX_MSGEQ7_BAND_RESPONSES),
        [1024, 1024, 1024, 1024, 1024, 1024, 1024]
    );
}

#[test]
fn normalize_middle_of_every_window() {
    let bands = [150, 300, 250, 260, 110, 380, 570];
    assert_eq!(normalize_band_response(bands), [512, 512, 512, 512, 0, 512, 512]);
}

#[test]
fn normalize_one_step_above_minimum_rounds_down() {
    let bands = [101, 201, 201, 211, 111, 151, 401];
    assert_eq!(normalize_band_response(bands), [10, 5, 10, 10, 2, 2, 3]);
}

#[test]
fn normalize_clamps_adc_maximum() {
    assert_eq!(normalize_band_response([1023; 7]), [1024; 7]);
}

#[test]
fn normalize_reaches_ends_exactly_at_window_ends() {
    for i in 0..7 {
        for a in 0..1100u16 {
            let n = normalize_band_response([a; 7])[i];
            assert_eq!(n == 1024, a >= MAX_MSGEQ7_BAND_RESPONSES[i]);
            assert_eq!(n == 0, a <= MIN_MSGEQ7_BAND_RESPONSES[i]);
        }
    }
}

#[test]
fn normalize_extremes_of_u16() {
    assert_eq!(normalize_band_response([0; 7]), [0, 0, 0, 0, 0, 0, 0]);
    assert_eq!(
        normalize_band_response([u16::MAX; 7]),
        [1024; 7]
    );
}

#[test]
fn normalize_keeps_order_within_band() {
    let mut last = [0u16; 7];
    for a in 0..1100u16 {
        let n = normalize_band_response([a; 7]);
        for i in 0..7 {
            assert!(n[i] >= last[i]);
            assert!(n[i] <= 1024);
            if MIN_MSGEQ7_BAND_RESPONSES[i] < a && a <= MAX_MSGEQ7_BAND_RESPONSES[i] {
                assert!(n[i] > last[i]);
            }
        }
        last = n;
    }
}

#[test]
fn clock_advances_and_wraps() {
    assert_eq!(next_millisecond_count(0), 1);
    assert_eq!(next_millisecond_count(41), 42);
    assert_eq!(next_millisecond_count(u32::MAX), 0);
}

#[test]
fn clock_counts_overflows_from_zero() {
    let mut counter = 0u32;
    for _ in 0..100_000u32 {
        counter = next_millisecond_count(counter);
    }
    assert_eq!(counter, 100_000);
}

#[test]
fn equal_heights_above_the_screen_paint_nothing() {
    assert_eq!(bar_segment(1, 2000, 2000), None);
    // 5000 and 5001 both give a height of 976 pixels
    assert_eq!(bar_segment(1, 5001, 5000), None);
}

#[test]
fn reader_waits_until_wait_has_passed() {
    let s = MSGEQ7ReaderState::start(10);
    assert_eq!(s.poll(10), (s, ReaderAction::Wait));
    assert_eq!(s.poll(11), (s, ReaderAction::Wait));
    let (s1, a1) = s.poll(12);
    assert_eq!(a1, ReaderAction::ReleaseReset);
    assert_eq!(
        s1,
        MSGEQ7ReaderState::Resetting(MSGEQ7ResetState::High { time_set_high_ms: 12 })
    );
}

#[test]
fn reader_reads_seven_bands_then_resets() {
    let mut amplitudes = [0u16; 7];
    let mut now = 0;
    let mut state = MSGEQ7ReaderState::start(now);
    now += 2;
    let (s, a) = state.poll(now);
    assert_eq!(a, ReaderAction::ReleaseReset);
    state = s;
    now += 2;
    let (s, a) = state.poll(now);
    assert_eq!(a, ReaderAction::BeginStrobing);
    state = s;
    let readings = [150u16, 300, 250, 260, 292, 380, 555];
    for band in 0..7u8 {
        now += 2;
        let (s, a) = state.poll(now);
        assert_eq!(a, ReaderAction::SampleBand { band });
        assert!(s.is_awaiting_sample());
        let (s, outcome) = s.record_sample(now, readings[band as usize], &mut amplitudes);
        if band < 6 {
            assert_eq!(outcome, SampleOutcome::NextBand);
            assert_eq!(
                s,
                MSGEQ7ReaderState::Reading {
                    strobe_state: MSGEQ7StrobeState::Low { time_set_low_ms: now },
                    frequency_band_index: band,
                }
            );
            now += 2;
            let (s2, a2) = s.poll(now);
            assert_eq!(a2, ReaderAction::RaiseStrobe);
            state = s2;
        } else {
            assert_eq!(
                outcome,
                SampleOutcome::FrameComplete { normalized: [512, 512, 512, 512, 510, 512, 466] }
            );
            assert_eq!(s, MSGEQ7ReaderState::start(now));
            state = s;
        }
    }
    assert_eq!(amplitudes, readings);
    assert!(state.is_well_formed());
}

#[test]
fn reader_rejects_out_of_range_band_index() {
    let bad = MSGEQ7ReaderState::Reading {
        strobe_state: MSGEQ7StrobeState::High { time_set_high_ms: 0 },
        frequency_band_index: 7,
    };
    assert!(!bad.is_well_formed());
    let low_last = MSGEQ7ReaderState::Reading {
        strobe_state: MSGEQ7StrobeState::Low { time_set_low_ms: 0 },
        frequency_band_index: 6,
    };
    assert!(!low_last.is_well_formed());
    assert_eq!(low_last.since_ms(), 0);
}

#[test]
fn bar_geometry() {
    assert_eq!(bar_width(), 35);
    assert_eq!(bar_x_start(0), 4);
    assert_eq!(bar_x_start(6), 238);
    assert_eq!(bar_height(0), 0);
    assert_eq!(bar_height(512), 100);
    assert_eq!(bar_height(1024), 200);
    assert_eq!(bar_height(1023), 199);
    assert!(fits_on_screen(1029));
    assert!(!fits_on_screen(1030));
}

#[test]
fn growing_bar_paints_bar_colour() {
    assert_eq!(
        bar_segment(0, 512, 0),
        Some(BarSegment {
            x_start: 4,
            y_start: 100,
            x_end: 38,
            y_end: 199,
            pixel_count: 3500,
            fill: BarFill::Bar,
        })
    );
}

#[test]
fn shrinking_bar_paints_background() {
    assert_eq!(
        bar_segment(2, 512, 1024),
        Some(BarSegment {
            x_start: 82,
            y_start: 0,
            x_end: 116,
            y_end: 99,
            pixel_count: 3500,
            fill: BarFill::Background,
        })
    );
}

#[test]
fn equal_heights_paint_nothing() {
    assert_eq!(bar_segment(3, 700, 700), None);
    // 5 and 0 both round down to a height of 0 pixels
    assert_eq!(bar_segment(3, 5, 0), None);
}

#[test]
fn drawing_same_bands_twice_paints_nothing_the_second_time() {
    let mut graph = BarGraph::new();
    assert_eq!(graph.most_recent_drawn_bands(), [0; 7]);
    let bands = [1024, 0, 512, 300, 1023, 10, 700];
    let first = graph.draw_bands(bands);
    assert_eq!(first.len(), 7);
    assert_eq!(first[1], None);
    assert_eq!(first[0].unwrap().pixel_count, 35 * 200);
    assert_eq!(graph.most_recent_drawn_bands(), bands);
    let second = graph.draw_bands(bands);
    assert!(second.iter().all(|s| s.is_none()));
}

#[test]
fn column_shows_new_height_after_painting() {
    // rows of column 0 covered by the bar colour, for each old/new pair
    for (old, new) in [(0u16, 512u16), (512, 100), (1024, 0), (300, 900)] {
        let mut rows = [false; 200];
        for y in (200 - bar_height(old) as usize)..200 {
            rows[y] = true;
        }
        if let Some(seg) = bar_segment(0, new, old) {
            for y in seg.y_start..=seg.y_end {
                rows[y as usize] = seg.fill == BarFill::Bar;
            }
        }
        let top = 200 - bar_height(new) as usize;
        for y in 0..200 {
            assert_eq!(rows[y], y >= top);
        }
    }
}

#[test]
fn screen_clear_covers_whole_screen() {
    assert_eq!(
        screen_clear_segment(),
        BarSegment {
            x_start: 0,
            y_start: 0,
            x_end: 279,
            y_end: 199,
            pixel_count: 56000,
            fill: BarFill::Background,
        }
    );
}

#[test]
fn fill_colours_are_cyan_and_black() {
    assert_eq!(fill_color(BarFill::Bar), 0x07ff);
    assert_eq!(fill_color(BarFill::Background), 0x0000);
}
