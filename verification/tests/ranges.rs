use kline::fixed::{div_floor, saturate, SCALE};
use kline::range::{
    is_in_window, pad_range, pad_volume, raise, recompute, visible_extent, widen, AxisRange,
};
use kline::real_data::{Candle, RealData};

fn units(x: i64) -> i64 {
    x * 1_000_000
}

fn primitive(position: u64, low: i64, high: i64, volume: i64) -> RealData {
    let candle = Candle {
        open: units(low),
        close: units(high),
        high: units(high),
        low: units(low),
        volume: units(volume),
        datetime: String::from("2023-05-17T09:30"),
    };
    RealData::new(&candle, position).unwrap()
}

fn window(min: i64, max: i64) -> AxisRange {
    AxisRange { min: units(min), max: units(max) }
}

#[test]
fn the_scale_is_a_million() {
    assert_eq!(SCALE, 1_000_000);
}

#[test]
fn no_primitives_give_no_range() {
    assert_eq!(visible_extent(&Vec::new(), window(0, 10)), (None, None));
    assert_eq!(recompute(&Vec::new(), window(0, 10)), (None, None));
}

#[test]
fn a_window_without_primitives_gives_no_range() {
    let held = vec![primitive(1, 10, 20, 5), primitive(2, 5, 15, 7)];
    assert_eq!(visible_extent(&held, window(3, 10)), (None, None));
    assert_eq!(recompute(&held, window(3, 10)), (None, None));
    assert_eq!(recompute(&held, AxisRange { min: -500_000, max: 0 }), (None, None));
}

#[test]
fn two_primitives_inside_the_window() {
    let held = vec![primitive(1, 10, 20, 5), primitive(2, 5, 15, 7)];
    let (range, peak) = visible_extent(&held, window(0, 3));
    assert_eq!(range, Some(AxisRange { min: units(5), max: units(20) }));
    assert_eq!(peak, Some(units(7)));
    let (padded, top) = recompute(&held, window(0, 3));
    assert_eq!(padded, Some(AxisRange { min: 3_500_000, max: 21_500_000 }));
    assert_eq!(top, Some(7_700_000));
}

#[test]
fn only_the_primitives_inside_the_window_count() {
    let held = vec![primitive(1, 1, 100, 90), primitive(2, 10, 20, 5), primitive(3, 5, 15, 7)];
    let (range, peak) = visible_extent(&held, window(2, 3));
    assert_eq!(range, Some(AxisRange { min: units(5), max: units(20) }));
    assert_eq!(peak, Some(units(7)));
}

#[test]
fn the_edges_of_the_window_are_inside() {
    assert!(is_in_window(2, window(2, 3)));
    assert!(is_in_window(3, window(2, 3)));
    assert!(!is_in_window(1, window(2, 3)));
    assert!(!is_in_window(4, window(2, 3)));
    assert!(!is_in_window(2, AxisRange { min: 2_000_001, max: 3_000_000 }));
    assert!(!is_in_window(3, AxisRange { min: 2_000_000, max: 2_999_999 }));
}

#[test]
fn a_position_beyond_every_window_is_outside() {
    assert!(!is_in_window(u64::MAX, AxisRange { min: i64::MIN, max: i64::MAX }));
    assert!(is_in_window(0, AxisRange { min: i64::MIN, max: i64::MAX }));
}

#[test]
fn widening_covers_both() {
    assert_eq!(widen(None, 3, 4), Some(AxisRange { min: 3, max: 4 }));
    assert_eq!(widen(Some(AxisRange { min: 3, max: 4 }), 1, 2), Some(AxisRange { min: 1, max: 4 }));
    assert_eq!(widen(Some(AxisRange { min: 3, max: 4 }), 5, 9), Some(AxisRange { min: 3, max: 9 }));
    assert_eq!(raise(None, -3), Some(-3));
    assert_eq!(raise(Some(4), 9), Some(9));
    assert_eq!(raise(Some(4), 1), Some(4));
}

#[test]
fn padding_adds_a_tenth_of_the_height() {
    assert_eq!(
        pad_range(AxisRange { min: units(5), max: units(20) }),
        AxisRange { min: 3_500_000, max: 21_500_000 }
    );
    assert_eq!(pad_range(AxisRange { min: 0, max: 19 }), AxisRange { min: -1, max: 20 });
}

#[test]
fn padding_leaves_a_flat_range_alone() {
    assert_eq!(pad_range(AxisRange { min: 7, max: 7 }), AxisRange { min: 7, max: 7 });
    assert_eq!(pad_range(AxisRange { min: 0, max: 9 }), AxisRange { min: 0, max: 9 });
}

#[test]
fn padding_a_range_whose_bounds_are_swapped() {
    assert_eq!(pad_range(AxisRange { min: 20, max: 0 }), AxisRange { min: 22, max: -2 });
    assert_eq!(pad_range(AxisRange { min: 5, max: 0 }), AxisRange { min: 6, max: -1 });
}

#[test]
fn padding_stays_inside_the_representable_range() {
    assert_eq!(
        pad_range(AxisRange { min: i64::MIN, max: i64::MAX }),
        AxisRange { min: i64::MIN, max: i64::MAX }
    );
    assert_eq!(pad_volume(i64::MAX), i64::MAX);
    assert_eq!(pad_volume(i64::MIN), i64::MIN);
}

#[test]
fn the_volume_peak_gets_a_tenth_on_top() {
    assert_eq!(pad_volume(units(100)), units(110));
    assert_eq!(pad_volume(0), 0);
    assert_eq!(pad_volume(9), 9);
    assert_eq!(pad_volume(10), 11);
    assert_eq!(pad_volume(-10), -11);
    assert_eq!(pad_volume(-9), -10);
}

#[test]
fn saturation_clamps() {
    assert_eq!(saturate(0), 0);
    assert_eq!(saturate(i64::MAX as i128 + 1), i64::MAX);
    assert_eq!(saturate(i64::MIN as i128 - 1), i64::MIN);
    assert_eq!(saturate(-5), -5);
}

#[test]
fn floor_division_rounds_down() {
    assert_eq!(div_floor(7, 2), 3);
    assert_eq!(div_floor(-7, 2), -4);
    assert_eq!(div_floor(-8, 2), -4);
    assert_eq!(div_floor(-1, 10), -1);
    assert_eq!(div_floor(0, 10), 0);
    assert_eq!(div_floor(i128::MIN, 1), i128::MIN);
    assert_eq!(div_floor(i128::MAX, 1), i128::MAX);
}
