use mobile_scene::color::{Rgb, FULL};
use mobile_scene::fps::{fps_color, fps_label, fps_text, Label, FAST, SLOW, SMOOTH};

const RED: Rgb = Rgb { red: FULL, green: 0, blue: 0 };
const YELLOW: Rgb = Rgb { red: FULL, green: FULL, blue: 0 };
const GREEN: Rgb = Rgb { red: 0, green: FULL, blue: 0 };
const WHITE: Rgb = Rgb { red: FULL, green: FULL, blue: FULL };

fn color_at(fps: f64) -> Rgb {
    fps_color(Some(fps.to_bits()))
}

/// A channel that a ramp moves up from none.
fn rising(steps: u64) -> f32 {
    (steps as f64 / FULL as f64) as f32
}

/// A channel that a ramp moves down from full.
fn falling(steps: u64) -> f32 {
    (1.0 - (FULL - steps) as f64 / FULL as f64) as f32
}

#[test]
fn thresholds_are_the_patterns_of_30_60_and_120() {
    assert_eq!(SLOW, 30.0f64.to_bits());
    assert_eq!(SMOOTH, 60.0f64.to_bits());
    assert_eq!(FAST, 120.0f64.to_bits());
}

#[test]
fn no_reading_is_white() {
    assert_eq!(fps_color(None), WHITE);
}

#[test]
fn from_120_on_the_label_is_green() {
    assert_eq!(color_at(120.0), GREEN);
    assert_eq!(color_at(120.00000000000001), GREEN);
    assert_eq!(color_at(144.0), GREEN);
    assert_eq!(color_at(1e300), GREEN);
    assert_eq!(color_at(f64::MAX), GREEN);
    assert_eq!(color_at(f64::INFINITY), GREEN);
}

#[test]
fn below_30_the_label_is_red() {
    assert_eq!(color_at(29.999999999999996), RED);
    assert_eq!(color_at(15.0), RED);
    assert_eq!(color_at(1.0), RED);
    assert_eq!(color_at(5e-324), RED);
    assert_eq!(color_at(0.0), RED);
    assert_eq!(color_at(-0.0), RED);
    assert_eq!(color_at(-60.0), RED);
    assert_eq!(color_at(-144.0), RED);
    assert_eq!(color_at(f64::NEG_INFINITY), RED);
}

#[test]
fn a_nan_reading_is_red() {
    assert_eq!(color_at(f64::NAN), RED);
    assert_eq!(fps_color(Some(0xFFF8_0000_0000_0000)), RED);
    assert_eq!(fps_color(Some(0x7FF0_0000_0000_0001)), RED);
    assert_eq!(fps_color(Some(u64::MAX)), RED);
}

#[test]
fn at_30_the_lower_ramp_starts_in_red() {
    assert_eq!(color_at(30.0), RED);
    assert_eq!(color_at(30.000000000000004), Rgb { red: FULL, green: 2, blue: 0 });
}

#[test]
fn at_60_the_ramps_meet_in_yellow() {
    assert_eq!(color_at(60.0), YELLOW);
    assert_eq!(color_at(59.99999999999999), Rgb { red: FULL, green: FULL - 4, blue: 0 });
    assert_eq!(color_at(60.00000000000001), Rgb { red: FULL - 2, green: FULL, blue: 0 });
}

#[test]
fn just_below_120_a_trace_of_red_is_left() {
    assert_eq!(color_at(119.99999999999999), Rgb { red: 4, green: FULL, blue: 0 });
}

#[test]
fn the_lower_ramp_is_linear_in_green() {
    assert_eq!(color_at(45.0), Rgb { red: FULL, green: FULL / 2, blue: 0 });
    assert_eq!(color_at(37.5), Rgb { red: FULL, green: FULL / 4, blue: 0 });
    assert_eq!(color_at(31.0), Rgb { red: FULL, green: FULL / 30, blue: 0 });
    assert_eq!(color_at(40.0), Rgb { red: FULL, green: FULL / 3, blue: 0 });
    assert_eq!(color_at(52.5), Rgb { red: FULL, green: FULL / 4 * 3, blue: 0 });
}

#[test]
fn the_upper_ramp_is_linear_in_red() {
    assert_eq!(color_at(90.0), Rgb { red: FULL / 2, green: FULL, blue: 0 });
    assert_eq!(color_at(75.0), Rgb { red: FULL / 4 * 3, green: FULL, blue: 0 });
    assert_eq!(color_at(105.0), Rgb { red: FULL / 4, green: FULL, blue: 0 });
    assert_eq!(color_at(61.0), Rgb { red: FULL / 60 * 59, green: FULL, blue: 0 });
    assert_eq!(color_at(100.0), Rgb { red: FULL / 3, green: FULL, blue: 0 });
}

#[test]
fn full_intensity_has_room_for_both_ramps() {
    assert_eq!(FULL, 60 << 48);
    assert_eq!(FULL % 60, 0);
    assert_eq!(FULL % 2, 0);
}

#[test]
fn a_higher_reading_is_never_redder_nor_less_green() {
    let mut readings: Vec<f64> = vec![-1.0, 0.0, 12.0, 29.0, 30.0];
    for i in 1..=3600 {
        readings.push(30.0 + i as f64 * 0.025);
    }
    readings.push(130.0);
    readings.push(f64::INFINITY);
    for pair in readings.windows(2) {
        let lower = color_at(pair[0]);
        let higher = color_at(pair[1]);
        assert!(lower.red >= higher.red, "{:?}", pair);
        assert!(lower.green <= higher.green, "{:?}", pair);
    }
}

#[test]
fn no_channel_goes_beyond_full_and_blue_stays_out() {
    for i in 0..=2000 {
        let color = color_at(-10.0 + i as f64 * 0.07);
        assert!(color.red <= FULL && color.green <= FULL);
        assert_eq!(color.blue, 0);
    }
}

#[test]
fn on_the_ramps_the_channels_divide_without_remainder() {
    for i in 0..3000 {
        let fps = 30.0 + i as f64 * 0.01;
        let color = color_at(fps);
        let exact = num_over_two_to_the_48(fps);
        let thirty = 30u128 << 48;
        let full = FULL as u128;
        assert_eq!(color.green as u128 * thirty, (exact - thirty) * full);
    }
    for i in 0..6000 {
        let fps = 60.0 + i as f64 * 0.01;
        let color = color_at(fps);
        let exact = num_over_two_to_the_48(fps);
        let sixty = 60u128 << 48;
        let full = FULL as u128;
        assert_eq!(color.red as u128 * sixty, ((120u128 << 48) - exact) * full);
    }
}

/// `fps` times two to the power of 48, which is a whole number for every
/// binary64 number from 16 on.
fn num_over_two_to_the_48(fps: f64) -> u128 {
    let scaled = fps * 281474976710656.0;
    assert_eq!(scaled.fract(), 0.0);
    scaled as u128
}

#[test]
fn channels_come_out_as_the_ramp_in_floating_point() {
    let mut readings: Vec<f64> = vec![
        f64::NEG_INFINITY,
        -3.0,
        0.0,
        29.999999999999996,
        30.0,
        30.000000000000004,
        59.99999999999999,
        60.0,
        60.00000000000001,
        63.99999999999999,
        64.0,
        119.99999999999999,
        120.0,
        500.0,
        f64::INFINITY,
        f64::NAN,
    ];
    for i in 0..=20000 {
        readings.push(25.0 + i as f64 * 0.005);
        readings.push(25.0 + i as f64 * 0.0049999);
    }
    let mut bits = 30.0f64.to_bits();
    while bits < 120.0f64.to_bits() {
        readings.push(f64::from_bits(bits));
        bits += 0x0000_00A3_5F1D_7C4B;
    }
    for value in readings {
        let (red, green, blue) = if value >= 120.0 {
            (0.0f32, 1.0f32, 0.0f32)
        } else if value >= 60.0 {
            ((1.0 - (value - 60.0) / (120.0 - 60.0)) as f32, 1.0, 0.0)
        } else if value >= 30.0 {
            (1.0, ((value - 30.0) / (60.0 - 30.0)) as f32, 0.0)
        } else {
            (1.0, 0.0, 0.0)
        };
        let color = color_at(value);
        assert_eq!(falling(color.red).to_bits(), red.to_bits(), "red at {value:?}");
        assert_eq!(rising(color.green).to_bits(), green.to_bits(), "green at {value:?}");
        assert_eq!(rising(color.blue).to_bits(), blue.to_bits(), "blue at {value:?}");
    }
}

#[test]
fn white_comes_out_as_white() {
    let color = fps_color(None);
    assert_eq!(falling(color.red), 1.0);
    assert_eq!(rising(color.green), 1.0);
    assert_eq!(rising(color.blue), 1.0);
}

#[test]
fn the_label_shows_the_reading_behind_its_prefix() {
    let shown = format!("{:>4.0}", 59.6f64);
    assert_eq!(fps_label(Some(&shown)), "FPS :   60");
    assert_eq!(fps_label(Some(" 144")), "FPS :  144");
    assert_eq!(fps_label(Some("12345")), "FPS : 12345");
    assert_eq!(fps_label(Some("")), "FPS : ");
}

#[test]
fn the_label_without_a_reading_says_so() {
    assert_eq!(fps_label(None), "FPS : N/A");
}

#[test]
fn a_reading_gives_its_text_and_its_colour() {
    let value = 89.6f64;
    let shown = format!("{value:>4.0}");
    assert_eq!(
        fps_text(Some((value.to_bits(), &shown))),
        Label { text: "FPS :   90".to_string(), color: color_at(89.6) }
    );
    assert_eq!(
        fps_text(Some((144.2f64.to_bits(), " 144"))),
        Label { text: "FPS :  144".to_string(), color: GREEN }
    );
    assert_eq!(
        fps_text(Some((7.0f64.to_bits(), "   7"))),
        Label { text: "FPS :    7".to_string(), color: RED }
    );
}

#[test]
fn no_reading_gives_the_white_sentinel() {
    assert_eq!(fps_text(None), Label { text: "FPS : N/A".to_string(), color: WHITE });
}
