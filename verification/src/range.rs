//! The vertical ranges of the two panels, computed from the primitives inside
//! the horizontal window.

use vstd::prelude::*;

use crate::fixed::{clamp, div_floor, saturate, SCALE};
use crate::real_data::{greater, lesser, RealData, RealDataView};

verus! {

/// A closed interval on one axis, in fixed-point units.
#[derive(Clone, Copy, Debug, PartialEq, Eq, Structural)]
pub struct AxisRange {
    pub min: i64,
    pub max: i64,
}

/// The values of a sequence of primitives.
pub open spec fn views(real_datas: Seq<RealData>) -> Seq<RealDataView> {
    real_datas.map_values(|real_data: RealData| real_data@)
}

/// Whether the position `argument`, given in whole units, lies inside `window`.
pub open spec fn in_window(argument: u64, window: AxisRange) -> bool {
    window.min <= argument * SCALE <= window.max
}

/// Whether a primitive is visible in `window`: both panels go by the position of
/// the price box.
pub open spec fn visible(real_data: RealDataView, window: AxisRange) -> bool {
    in_window(real_data.box_elem.argument, window)
}

/// `range` extended to cover `[low, high]`. The empty range extended is
/// `[low, high]` itself.
pub open spec fn widened(range: Option<AxisRange>, low: i64, high: i64) -> Option<AxisRange> {
    match range {
        None => Some(AxisRange { min: low, max: high }),
        Some(r) => Some(
            AxisRange {
                min: lesser(r.min as int, low as int) as i64,
                max: greater(r.max as int, high as int) as i64,
            },
        ),
    }
}

/// `peak` raised to at least `value`.
pub open spec fn raised(peak: Option<i64>, value: i64) -> Option<i64> {
    match peak {
        None => Some(value),
        Some(p) => Some(greater(p as int, value as int) as i64),
    }
}

/// The price range before padding: from the lowest lower whisker to the highest
/// upper whisker among the primitives visible in `window`; `None` where none is
/// visible.
pub open spec fn price_range(real_datas: Seq<RealDataView>, window: AxisRange) -> Option<AxisRange>
    decreases real_datas.len(),
{
    if real_datas.len() == 0 {
        None
    } else {
        let before = price_range(real_datas.drop_last(), window);
        let last = real_datas.last();
        if visible(last, window) {
            widened(before, last.box_elem.spread.lower_whisker, last.box_elem.spread.upper_whisker)
        } else {
            before
        }
    }
}

/// The greatest volume among the primitives visible in `window`, before
/// padding; `None` where none is visible.
pub open spec fn volume_peak(real_datas: Seq<RealDataView>, window: AxisRange) -> Option<i64>
    decreases real_datas.len(),
{
    if real_datas.len() == 0 {
        None
    } else {
        let before = volume_peak(real_datas.drop_last(), window);
        let last = real_datas.last();
        if visible(last, window) {
            raised(before, last.bar.value)
        } else {
            before
        }
    }
}

/// The margin added below and above a range: a tenth of its height, rounded
/// down.
pub open spec fn margin(range: AxisRange) -> int {
    (range.max - range.min) / 10
}

/// `range` with its margin added on both sides, each bound kept inside the
/// `i64` range.
pub open spec fn padded(range: AxisRange) -> AxisRange {
    AxisRange {
        min: clamp(range.min - margin(range)) as i64,
        max: clamp(range.max + margin(range)) as i64,
    }
}

/// `peak` with a tenth added on top, rounded down and kept inside the `i64`
/// range.
pub open spec fn padded_peak(peak: i64) -> i64 {
    clamp(peak * 11 / 10) as i64
}

/// The padded price range where there is one.
pub open spec fn padded_range(range: Option<AxisRange>) -> Option<AxisRange> {
    match range {
        None => None,
        Some(r) => Some(padded(r)),
    }
}

/// The padded volume peak where there is one.
pub open spec fn padded_volume(peak: Option<i64>) -> Option<i64> {
    match peak {
        None => None,
        Some(p) => Some(padded_peak(p)),
    }
}

/// Whether the position `argument` lies inside `window`.
pub fn is_in_window(argument: u64, window: AxisRange) -> (r: bool)
    ensures
        r == in_window(argument, window),
{
    let x: i128 = argument as i128 * 1_000_000;
    assert(x == argument * SCALE) by (nonlinear_arith)
        requires
            x == argument * 1_000_000,
            SCALE == 1_000_000,
    ;
    window.min as i128 <= x && x <= window.max as i128
}

/// Extends `range` to cover `[low, high]`.
pub fn widen(range: Option<AxisRange>, low: i64, high: i64) -> (r: Option<AxisRange>)
    ensures
        r == widened(range, low, high),
{
    match range {
        None => Some(AxisRange { min: low, max: high }),
        Some(current) => Some(
            AxisRange {
                min: if current.min <= low { current.min } else { low },
                max: if current.max >= high { current.max } else { high },
            },
        ),
    }
}

/// Raises `peak` to at least `value`.
pub fn raise(peak: Option<i64>, value: i64) -> (r: Option<i64>)
    ensures
        r == raised(peak, value),
{
    match peak {
        None => Some(value),
        Some(current) => Some(if current >= value { current } else { value }),
    }
}

/// The unpadded price range and volume peak of the primitives visible in
/// `window`.
pub fn visible_extent(real_datas: &Vec<RealData>, window: AxisRange) -> (r: (
    Option<AxisRange>,
    Option<i64>,
))
    ensures
        r.0 == price_range(views(real_datas@), window),
        r.1 == volume_peak(views(real_datas@), window),
{
    let mut range: Option<AxisRange> = None;
    let mut peak: Option<i64> = None;
    let mut i: usize = 0;
    while i < real_datas.len()
        invariant
            i <= real_datas.len(),
            range == price_range(views(real_datas@).take(i as int), window),
            peak == volume_peak(views(real_datas@).take(i as int), window),
        decreases real_datas.len() - i,
    {
        let real_data = &real_datas[i];
        proof {
            let all = views(real_datas@);
            assert(all.take(i + 1).drop_last() =~= all.take(i as int));
            assert(all.take(i + 1).last() == real_data@);
        }
        if is_in_window(real_data.box_elem.argument, window) {
            range = widen(
                range,
                real_data.box_elem.spread.lower_whisker,
                real_data.box_elem.spread.upper_whisker,
            );
            peak = raise(peak, real_data.bar.value);
        }
        i += 1;
    }
    proof {
        let all = views(real_datas@);
        assert(all.take(i as int) =~= all);
    }
    (range, peak)
}

/// Adds the margin to a price range.
pub fn pad_range(range: AxisRange) -> (r: AxisRange)
    ensures
        r == padded(range),
{
    let space: i128 = div_floor(range.max as i128 - range.min as i128, 10);
    AxisRange {
        min: saturate(range.min as i128 - space),
        max: saturate(range.max as i128 + space),
    }
}

/// Adds the tenth on top of a volume peak.
pub fn pad_volume(peak: i64) -> (r: i64)
    ensures
        r == padded_peak(peak),
{
    saturate(div_floor(peak as i128 * 11, 10))
}

/// The padded price range and the padded volume peak of the primitives visible
/// in `window`. Both are `None` where no primitive is visible: there is then
/// nothing to draw.
pub fn recompute(real_datas: &Vec<RealData>, window: AxisRange) -> (r: (
    Option<AxisRange>,
    Option<i64>,
))
    ensures
        r.0 == padded_range(price_range(views(real_datas@), window)),
        r.1 == padded_volume(volume_peak(views(real_datas@), window)),
{
    let (range, peak) = visible_extent(real_datas, window);
    let price = match range {
        None => None,
        Some(found) => Some(pad_range(found)),
    };
    let volume = match peak {
        None => None,
        Some(found) => Some(pad_volume(found)),
    };
    (price, volume)
}

/// No range and no peak come out exactly when no primitive is visible: an empty
/// sequence, or a window that holds none of the positions.
pub proof fn lemma_empty_extent(real_datas: Seq<RealDataView>, window: AxisRange)
    ensures
        price_range(real_datas, window) is None <==> forall|i: int|
            0 <= i < real_datas.len() ==> !visible(#[trigger] real_datas[i], window),
        volume_peak(real_datas, window) is None <==> price_range(real_datas, window) is None,
    decreases real_datas.len(),
{
    if real_datas.len() > 0 {
        let before = real_datas.drop_last();
        lemma_empty_extent(before, window);
        assert forall|i: int| 0 <= i < before.len() implies before[i] == real_datas[i] by {}
        if price_range(real_datas, window) is None {
            assert(!visible(real_datas.last(), window));
            assert forall|i: int| 0 <= i < real_datas.len() implies !visible(
                #[trigger] real_datas[i],
                window,
            ) by {
                if i < before.len() {
                    assert(before[i] == real_datas[i]);
                }
            }
        } else {
            if visible(real_datas.last(), window) {
                assert(visible(real_datas[real_datas.len() - 1], window));
            } else {
                let i = choose|i: int| 0 <= i < before.len() && visible(#[trigger] before[i], window);
                assert(visible(real_datas[i], window));
            }
        }
    }
}

/// The price range covers the whiskers of every visible primitive, and each of
/// its bounds is the whisker of a visible primitive: it is the least range that
/// covers them.
pub proof fn lemma_price_range_is_least(real_datas: Seq<RealDataView>, window: AxisRange)
    requires
        price_range(real_datas, window) is Some,
    ensures
        forall|i: int|
            0 <= i < real_datas.len() && visible(#[trigger] real_datas[i], window) ==> {
                &&& price_range(real_datas, window)->Some_0.min
                    <= real_datas[i].box_elem.spread.lower_whisker
                &&& price_range(real_datas, window)->Some_0.max
                    >= real_datas[i].box_elem.spread.upper_whisker
            },
        exists|i: int|
            0 <= i < real_datas.len() && visible(#[trigger] real_datas[i], window)
                && real_datas[i].box_elem.spread.lower_whisker == price_range(
                real_datas,
                window,
            )->Some_0.min,
        exists|i: int|
            0 <= i < real_datas.len() && visible(#[trigger] real_datas[i], window)
                && real_datas[i].box_elem.spread.upper_whisker == price_range(
                real_datas,
                window,
            )->Some_0.max,
    decreases real_datas.len(),
{
    let before = real_datas.drop_last();
    let last = real_datas.last();
    let n = real_datas.len() - 1;
    let range = price_range(real_datas, window)->Some_0;
    assert forall|i: int| 0 <= i < before.len() implies before[i] == real_datas[i] by {}
    if price_range(before, window) is Some {
        lemma_price_range_is_least(before, window);
        let inner = price_range(before, window)->Some_0;
        let lo = choose|i: int|
            0 <= i < before.len() && visible(#[trigger] before[i], window)
                && before[i].box_elem.spread.lower_whisker == inner.min;
        let hi = choose|i: int|
            0 <= i < before.len() && visible(#[trigger] before[i], window)
                && before[i].box_elem.spread.upper_whisker == inner.max;
        assert(real_datas[lo] == before[lo] && real_datas[hi] == before[hi]);
        let lo_at = if range.min == inner.min { lo } else { n };
        let hi_at = if range.max == inner.max { hi } else { n };
        assert(visible(real_datas[lo_at], window)
            && real_datas[lo_at].box_elem.spread.lower_whisker == range.min);
        assert(visible(real_datas[hi_at], window)
            && real_datas[hi_at].box_elem.spread.upper_whisker == range.max);
        assert forall|i: int|
            0 <= i < real_datas.len() && visible(#[trigger] real_datas[i], window) implies range.min
            <= real_datas[i].box_elem.spread.lower_whisker && range.max
            >= real_datas[i].box_elem.spread.upper_whisker by {
            if i < n {
                assert(before[i] == real_datas[i]);
            }
        }
    } else {
        lemma_empty_extent(before, window);
        assert(visible(real_datas[n], window));
        assert forall|i: int|
            0 <= i < real_datas.len() && visible(#[trigger] real_datas[i], window) implies range.min
            <= real_datas[i].box_elem.spread.lower_whisker && range.max
            >= real_datas[i].box_elem.spread.upper_whisker by {
            if i < n {
                assert(before[i] == real_datas[i]);
            }
        }
    }
}

/// The volume peak is the volume of a visible primitive, and no visible
/// primitive has a greater one.
pub proof fn lemma_volume_peak_is_greatest(real_datas: Seq<RealDataView>, window: AxisRange)
    requires
        volume_peak(real_datas, window) is Some,
    ensures
        forall|i: int|
            0 <= i < real_datas.len() && visible(#[trigger] real_datas[i], window)
                ==> real_datas[i].bar.value <= volume_peak(real_datas, window)->Some_0,
        exists|i: int|
            0 <= i < real_datas.len() && visible(#[trigger] real_datas[i], window)
                && real_datas[i].bar.value == volume_peak(real_datas, window)->Some_0,
    decreases real_datas.len(),
{
    let before = real_datas.drop_last();
    let n = real_datas.len() - 1;
    let peak = volume_peak(real_datas, window)->Some_0;
    assert forall|i: int| 0 <= i < before.len() implies before[i] == real_datas[i] by {}
    if volume_peak(before, window) is Some {
        lemma_volume_peak_is_greatest(before, window);
        let inner = volume_peak(before, window)->Some_0;
        let at = choose|i: int|
            0 <= i < before.len() && visible(#[trigger] before[i], window) && before[i].bar.value
                == inner;
        assert(real_datas[at] == before[at]);
        let peak_at = if peak == inner { at } else { n };
        assert(visible(real_datas[peak_at], window) && real_datas[peak_at].bar.value == peak);
        assert forall|i: int|
            0 <= i < real_datas.len() && visible(
                #[trigger] real_datas[i],
                window,
            ) implies real_datas[i].bar.value <= peak by {
            if i < n {
                assert(before[i] == real_datas[i]);
            }
        }
    } else {
        lemma_empty_extent(before, window);
        assert(visible(real_datas[n], window));
        assert forall|i: int|
            0 <= i < real_datas.len() && visible(
                #[trigger] real_datas[i],
                window,
            ) implies real_datas[i].bar.value <= peak by {
            if i < n {
                assert(before[i] == real_datas[i]);
            }
        }
    }
}

/// Padding a range whose bounds are in order never shrinks it, and leaves a
/// range of height below ten units as it is.
pub proof fn lemma_padding_widens(range: AxisRange)
    requires
        range.min <= range.max,
    ensures
        padded(range).min <= range.min,
        padded(range).max >= range.max,
        range.max - range.min < 10 ==> padded(range) == range,
{
}

} // verus!
