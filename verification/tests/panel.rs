use kline::panel::{
    couple, find_hovered, format_axis_label, is_near, negate, panel_sizes, panel_state, tooltip,
    Panel, PanelResponse, PanelSizes, PanelState, Tooltip, MARGIN,
};
use kline::real_data::{Candle, RealData};
use kline::store::convert;

fn units(x: i64) -> i64 {
    x * 1_000_000
}

fn candle(open: i64, close: i64, high: i64, low: i64, volume: i64, minute: u32) -> Candle {
    Candle {
        open: units(open),
        close: units(close),
        high: units(high),
        low: units(low),
        volume: units(volume),
        datetime: format!("2023-05-17T09:{:02}", minute),
    }
}

fn held() -> Vec<RealData> {
    convert(
        &vec![
            candle(10, 12, 13, 9, 100, 30),
            candle(12, 12, 12, 12, 0, 31),
            candle(15, 11, 16, 10, 50, 32),
        ],
        1,
    )
}

fn still() -> PanelResponse {
    PanelResponse { dragged: false, drag_delta_x: 0 }
}

#[test]
fn a_drag_of_the_price_panel_pans_the_other_way() {
    let dragged = PanelResponse { dragged: true, drag_delta_x: units(5) };
    assert_eq!(couple(dragged, still()), units(-5));
}

#[test]
fn a_drag_of_the_volume_panel_pans_the_other_way() {
    let dragged = PanelResponse { dragged: true, drag_delta_x: -2_500_000 };
    assert_eq!(couple(still(), dragged), 2_500_000);
}

#[test]
fn without_a_drag_nothing_pans() {
    assert_eq!(couple(still(), still()), 0);
    let moved = PanelResponse { dragged: false, drag_delta_x: units(9) };
    assert_eq!(couple(moved, moved), 0);
}

#[test]
fn the_price_panel_goes_first() {
    let price = PanelResponse { dragged: true, drag_delta_x: 3 };
    let volume = PanelResponse { dragged: true, drag_delta_x: 8 };
    assert_eq!(couple(price, volume), -3);
}

#[test]
fn negation_stays_inside_the_representable_range() {
    assert_eq!(negate(5), -5);
    assert_eq!(negate(-5), 5);
    assert_eq!(negate(0), 0);
    assert_eq!(negate(i64::MAX), i64::MIN + 1);
    assert_eq!(negate(i64::MIN), i64::MAX);
}

#[test]
fn a_drag_takes_precedence_over_hovering() {
    assert_eq!(panel_state(false, false), PanelState::Idle);
    assert_eq!(panel_state(true, false), PanelState::Hovering);
    assert_eq!(panel_state(true, true), PanelState::Dragging);
    assert_eq!(panel_state(false, true), PanelState::Dragging);
}

#[test]
fn near_is_strictly_inside_the_half_distance() {
    assert!(is_near(2_000_000, 300_000, 2));
    assert!(is_near(2_299_999, 300_000, 2));
    assert!(is_near(1_700_001, 300_000, 2));
    assert!(!is_near(2_300_000, 300_000, 2));
    assert!(!is_near(1_700_000, 300_000, 2));
    assert!(!is_near(2_000_000, 0, 2));
    assert!(!is_near(i64::MAX, i64::MAX, u64::MAX));
    assert!(!is_near(i64::MIN, i64::MAX, 0));
    assert!(is_near(-1, i64::MAX, 0));
}

#[test]
fn the_primitive_under_the_pointer_is_found() {
    let real_datas = held();
    assert_eq!(find_hovered(&real_datas, Panel::Price, 2_100_000, 300_000), Some(1));
    assert_eq!(find_hovered(&real_datas, Panel::Volume, 2_900_000, 300_000), Some(2));
    assert_eq!(find_hovered(&real_datas, Panel::Price, 1_000_000, 300_000), Some(0));
}

#[test]
fn between_two_primitives_none_is_found() {
    let real_datas = held();
    assert_eq!(find_hovered(&real_datas, Panel::Price, 1_500_000, 300_000), None);
    assert_eq!(find_hovered(&real_datas, Panel::Price, 3_300_000, 300_000), None);
    assert_eq!(find_hovered(&real_datas, Panel::Price, -4_000_000, 300_000), None);
    assert_eq!(find_hovered(&Vec::new(), Panel::Price, 1_000_000, 300_000), None);
}

#[test]
fn the_first_match_wins_over_the_nearest() {
    let real_datas = held();
    assert_eq!(find_hovered(&real_datas, Panel::Price, 1_900_000, 1_000_000), Some(0));
    assert_eq!(find_hovered(&real_datas, Panel::Price, 2_900_000, 5_000_000), Some(0));
}

#[test]
fn the_tooltip_gives_the_candle_back() {
    let real_datas = held();
    assert_eq!(
        tooltip(&real_datas[0]),
        Tooltip {
            datetime: String::from("2023-05-17 09:30"),
            open: units(10),
            high: units(13),
            low: units(9),
            close: units(12),
            volume: units(100),
        }
    );
    assert_eq!(
        tooltip(&real_datas[1]),
        Tooltip {
            datetime: String::from("2023-05-17 09:31"),
            open: units(12),
            high: units(12),
            low: units(12),
            close: units(12),
            volume: 0,
        }
    );
    assert_eq!(
        tooltip(&real_datas[2]),
        Tooltip {
            datetime: String::from("2023-05-17 09:32"),
            open: units(15),
            high: units(16),
            low: units(10),
            close: units(11),
            volume: units(50),
        }
    );
}

#[test]
fn whole_positions_are_labelled_with_their_time() {
    let real_datas = held();
    assert_eq!(format_axis_label(1_000_000, &real_datas), "2023-05-17 09:30");
    assert_eq!(format_axis_label(2_000_000, &real_datas), "2023-05-17 09:31");
    assert_eq!(format_axis_label(3_000_000, &real_datas), "2023-05-17 09:32");
}

#[test]
fn other_coordinates_have_no_label() {
    let real_datas = held();
    assert_eq!(format_axis_label(0, &real_datas), "");
    assert_eq!(format_axis_label(500_000, &real_datas), "");
    assert_eq!(format_axis_label(1_500_000, &real_datas), "");
    assert_eq!(format_axis_label(2_000_001, &real_datas), "");
    assert_eq!(format_axis_label(4_000_000, &real_datas), "");
    assert_eq!(format_axis_label(-1_000_000, &real_datas), "");
    assert_eq!(format_axis_label(i64::MAX, &real_datas), "");
    assert_eq!(format_axis_label(i64::MIN, &real_datas), "");
    assert_eq!(format_axis_label(1_000_000, &Vec::new()), "");
}

#[test]
fn the_panels_share_the_height_six_to_four() {
    assert_eq!(MARGIN, units(16));
    assert_eq!(
        panel_sizes(units(816), units(616)),
        PanelSizes { width: units(800), price_height: units(360), volume_height: units(240) }
    );
}

#[test]
fn panel_heights_are_rounded_down() {
    let sizes = panel_sizes(units(16), units(16) + 9);
    assert_eq!(sizes, PanelSizes { width: 0, price_height: 5, volume_height: 3 });
}

#[test]
fn a_region_smaller_than_the_margin_gives_negative_sizes() {
    let sizes = panel_sizes(0, 0);
    assert_eq!(
        sizes,
        PanelSizes { width: units(-16), price_height: -9_600_000, volume_height: -6_400_000 }
    );
}

#[test]
fn panel_sizes_stay_inside_the_representable_range() {
    let sizes = panel_sizes(i64::MIN, i64::MIN);
    assert_eq!(sizes.width, i64::MIN);
    assert_eq!(sizes.price_height, -5_534_023_222_122_465_485);
    let large = panel_sizes(i64::MAX, i64::MAX);
    assert_eq!(large.width, i64::MAX - 16_000_000);
    assert_eq!(large.price_height, 5_534_023_222_103_265_484);
    assert_eq!(large.volume_height, 3_689_348_814_735_510_322);
}
