use kline::real_data::{Candle, Color, RealData};
use kline::store::{convert, SaveInfo, LAST_POSITION};

fn units(x: i64) -> i64 {
    x * 1_000_000
}

fn candle(open: i64, close: i64, high: i64, low: i64, volume: i64, datetime: &str) -> Candle {
    Candle {
        open: units(open),
        close: units(close),
        high: units(high),
        low: units(low),
        volume: units(volume),
        datetime: String::from(datetime),
    }
}

fn page(first_minute: u32, len: u32) -> Vec<Candle> {
    let mut candles = Vec::new();
    for k in 0..len {
        candles.push(candle(10, 12, 13, 9, 100, &format!("2023-05-17T09:{:02}", first_minute + k)));
    }
    candles
}

#[test]
fn a_new_store_is_empty() {
    let store = SaveInfo::new();
    assert_eq!(store.len(), 0);
    assert!(store.snapshot().is_empty());
    assert_eq!(SaveInfo::default().len(), 0);
}

#[test]
fn conversion_counts_from_the_start() {
    let real_datas = convert(&page(0, 3), 1);
    assert_eq!(real_datas.len(), 3);
    for (i, real_data) in real_datas.iter().enumerate() {
        assert_eq!(real_data.box_elem.argument, i as u64 + 1);
        assert_eq!(real_data.bar.argument, i as u64 + 1);
        assert_eq!(real_data.datetime, format!("2023-05-17 09:{:02}", i));
    }
    let later = convert(&page(0, 2), 41);
    assert_eq!(later[0].box_elem.argument, 41);
    assert_eq!(later[1].box_elem.argument, 42);
}

#[test]
fn conversion_of_no_candles_gives_nothing() {
    assert!(convert(&Vec::new(), 1).is_empty());
}

#[test]
fn a_malformed_candle_is_passed_over_and_uses_no_position() {
    let mut candles = page(0, 3);
    candles[1].datetime = String::from("garbage");
    let real_datas = convert(&candles, 1);
    assert_eq!(real_datas.len(), 2);
    assert_eq!(real_datas[0].box_elem.argument, 1);
    assert_eq!(real_datas[0].datetime, "2023-05-17 09:00");
    assert_eq!(real_datas[1].box_elem.argument, 2);
    assert_eq!(real_datas[1].datetime, "2023-05-17 09:02");
}

#[test]
fn conversion_stops_at_the_last_position() {
    let real_datas = convert(&page(0, 3), LAST_POSITION);
    assert_eq!(real_datas.len(), 1);
    assert_eq!(real_datas[0].box_elem.argument, LAST_POSITION);
    assert!(convert(&page(0, 3), u64::MAX).is_empty());
}

#[test]
fn the_three_candle_scenario() {
    let candles = vec![
        candle(10, 12, 13, 9, 100, "2023-05-17T09:30"),
        candle(12, 12, 12, 12, 0, "2023-05-17T09:31"),
        candle(15, 11, 16, 10, 50, "2023-05-17T09:32"),
    ];
    let real_datas = convert(&candles, 1);
    let colors: Vec<Color> = real_datas.iter().map(|r| r.box_elem.color).collect();
    assert_eq!(colors, vec![Color::Bullish, Color::Neutral, Color::Bearish]);
    let positions: Vec<u64> = real_datas.iter().map(|r| r.box_elem.argument).collect();
    assert_eq!(positions, vec![1, 2, 3]);
    let transparent: Vec<bool> = real_datas.iter().map(|r| r.bar.transparent).collect();
    assert_eq!(transparent, vec![false, true, false]);
}

#[test]
fn appending_keeps_the_order() {
    let mut store = SaveInfo::new();
    let first = convert(&page(0, 3), 1);
    let second = convert(&page(10, 2), 4);
    let mut expected: Vec<RealData> = first.clone();
    expected.extend(second.clone());
    store.append(first);
    assert_eq!(store.len(), 3);
    store.append(second);
    assert_eq!(store.len(), 5);
    assert_eq!(store.snapshot(), &expected);
    for (i, real_data) in store.snapshot().iter().enumerate() {
        assert_eq!(real_data.box_elem.argument, i as u64 + 1);
    }
    for pair in store.snapshot().windows(2) {
        assert!(pair[0].box_elem.argument < pair[1].box_elem.argument);
    }
}

#[test]
fn appending_nothing_changes_nothing() {
    let mut store = SaveInfo::new();
    store.append(convert(&page(0, 2), 1));
    let before = store.snapshot().clone();
    store.append(Vec::new());
    assert_eq!(store.snapshot(), &before);
}
