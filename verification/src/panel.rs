//! What a panel reads from the pointer: the primitive under it, the text shown
//! for that primitive, the labels of the time axis, and the drag that moves
//! both panels.

use vstd::prelude::*;

use crate::fixed::{clamp, div_floor, saturate, SCALE};
use crate::range::views;
use crate::real_data::{built, CandleView, Color, RealData, RealDataView};

verus! {

/// One of the two stacked panels.
#[derive(Clone, Copy, Debug, PartialEq, Eq, Structural)]
pub enum Panel {
    /// The price boxes.
    Price,
    /// The volume bars.
    Volume,
}

/// A point in plot coordinates.
#[derive(Clone, Copy, Debug, PartialEq, Eq, Structural)]
pub struct PlotPoint {
    pub x: i64,
    pub y: i64,
}

/// What a panel is doing in one frame.
#[derive(Clone, Copy, Debug, PartialEq, Eq, Structural)]
pub enum PanelState {
    /// The pointer is elsewhere.
    Idle,
    /// The pointer is over the panel and no drag is under way.
    Hovering,
    /// The panel is being dragged with the primary button.
    Dragging,
}

/// What the host reports of one panel after drawing it.
#[derive(Clone, Copy, Debug, PartialEq, Eq, Structural)]
pub struct PanelResponse {
    /// Whether the panel is being dragged with the primary button.
    pub dragged: bool,
    /// The horizontal movement of that drag in this frame.
    pub drag_delta_x: i64,
}

/// The text shown for a primitive under the pointer.
#[derive(Clone, Debug, PartialEq, Eq)]
pub struct Tooltip {
    pub datetime: String,
    pub open: i64,
    pub high: i64,
    pub low: i64,
    pub close: i64,
    pub volume: i64,
}

/// The mathematical value of a [`Tooltip`].
pub struct TooltipView {
    pub datetime: Seq<char>,
    pub open: i64,
    pub high: i64,
    pub low: i64,
    pub close: i64,
    pub volume: i64,
}

impl View for Tooltip {
    type V = TooltipView;

    open spec fn view(&self) -> TooltipView {
        TooltipView {
            datetime: self.datetime@,
            open: self.open,
            high: self.high,
            low: self.low,
            close: self.close,
            volume: self.volume,
        }
    }
}

/// The sizes of the two stacked panels, in pixels.
#[derive(Clone, Copy, Debug, PartialEq, Eq, Structural)]
pub struct PanelSizes {
    /// The width of both panels.
    pub width: i64,
    /// The height of the price panel, the upper one.
    pub price_height: i64,
    /// The height of the volume panel, the lower one.
    pub volume_height: i64,
}

/// What the panels leave free of the region, in width and in height: sixteen
/// pixels.
pub const MARGIN: i64 = 16_000_000;

/// The sizes of the panels in a region of the given size: both as wide as the
/// region less the margin; of its height less the margin, the price panel takes
/// six tenths and the volume panel four, each rounded down. Every size is kept
/// inside the `i64` range.
pub open spec fn sizes_in(width: i64, height: i64) -> PanelSizes {
    PanelSizes {
        width: clamp(width - MARGIN) as i64,
        price_height: clamp((height - MARGIN) * 6 / 10) as i64,
        volume_height: clamp((height - MARGIN) * 4 / 10) as i64,
    }
}

/// The state of a panel: a drag takes precedence over the pointer resting on
/// it.
pub open spec fn state_of(pointer_inside: bool, dragging: bool) -> PanelState {
    if dragging {
        PanelState::Dragging
    } else if pointer_inside {
        PanelState::Hovering
    } else {
        PanelState::Idle
    }
}

/// The position by which `panel` finds a primitive: that of its own shape.
pub open spec fn position_in(real_data: RealDataView, panel: Panel) -> u64 {
    match panel {
        Panel::Price => real_data.box_elem.argument,
        Panel::Volume => real_data.bar.argument,
    }
}

/// Whether the position `argument` is less than `half_distance` away from the
/// horizontal coordinate `x`.
pub open spec fn near(x: i64, half_distance: i64, argument: u64) -> bool {
    x - half_distance < argument * SCALE && x + half_distance > argument * SCALE
}

/// Whether `index` is the first primitive of `real_datas` that is near `x`.
pub open spec fn first_near(
    real_datas: Seq<RealDataView>,
    panel: Panel,
    x: i64,
    half_distance: i64,
    index: int,
) -> bool {
    &&& 0 <= index < real_datas.len()
    &&& near(x, half_distance, position_in(real_datas[index], panel))
    &&& forall|j: int|
        0 <= j < index ==> !near(x, half_distance, position_in(#[trigger] real_datas[j], panel))
}

/// Whether no primitive of `real_datas` is near `x`.
pub open spec fn none_near(
    real_datas: Seq<RealDataView>,
    panel: Panel,
    x: i64,
    half_distance: i64,
) -> bool {
    forall|j: int|
        0 <= j < real_datas.len() ==> !near(
            x,
            half_distance,
            position_in(#[trigger] real_datas[j], panel),
        )
}

/// What the tooltip of a primitive says. The box keeps only the ordered ends of
/// its body: a bullish box opened at the lower end, any other at the upper.
pub open spec fn tooltip_of(real_data: RealDataView) -> TooltipView {
    let spread = real_data.box_elem.spread;
    let bullish = real_data.box_elem.color == Color::Bullish;
    TooltipView {
        datetime: real_data.datetime,
        open: if bullish {
            spread.quartile1
        } else {
            spread.quartile3
        },
        high: spread.upper_whisker,
        low: spread.lower_whisker,
        close: if bullish {
            spread.quartile3
        } else {
            spread.quartile1
        },
        volume: real_data.bar.value,
    }
}

/// The index of the label under the axis coordinate `x` when `len` primitives
/// are held: whole coordinates from one to `len` have one, all others none.
pub open spec fn label_index(x: i64, len: nat) -> Option<int> {
    if x % SCALE == 0 && SCALE <= x <= len * SCALE {
        Some(x / SCALE - 1)
    } else {
        None
    }
}

/// The pan that a drag of `delta` asks for: the window moves against the drag.
pub open spec fn opposite(delta: i64) -> i64 {
    clamp(-delta) as i64
}

/// The pan for the next frame: against the drag of the panel that is dragged,
/// the price panel first; none without a drag.
pub open spec fn pan_delta(candle: PanelResponse, volume: PanelResponse) -> i64 {
    if candle.dragged {
        opposite(candle.drag_delta_x)
    } else if volume.dragged {
        opposite(volume.drag_delta_x)
    } else {
        0
    }
}

/// Sizes the two panels for a region of the given size.
pub fn panel_sizes(width: i64, height: i64) -> (r: PanelSizes)
    ensures
        r == sizes_in(width, height),
{
    let free: i128 = height as i128 - MARGIN as i128;
    PanelSizes {
        width: saturate(width as i128 - MARGIN as i128),
        price_height: saturate(div_floor(free * 6, 10)),
        volume_height: saturate(div_floor(free * 4, 10)),
    }
}

/// The state of a panel in this frame.
pub fn panel_state(pointer_inside: bool, dragging: bool) -> (state: PanelState)
    ensures
        state == state_of(pointer_inside, dragging),
{
    if dragging {
        PanelState::Dragging
    } else if pointer_inside {
        PanelState::Hovering
    } else {
        PanelState::Idle
    }
}

/// Whether the position `argument` is near the horizontal coordinate `x`.
pub fn is_near(x: i64, half_distance: i64, argument: u64) -> (r: bool)
    ensures
        r == near(x, half_distance, argument),
{
    let at: i128 = argument as i128 * 1_000_000;
    assert(at == argument * SCALE) by (nonlinear_arith)
        requires
            at == argument * 1_000_000,
            SCALE == 1_000_000,
    ;
    x as i128 - (half_distance as i128) < at && x as i128 + half_distance as i128 > at
}

/// Finds the primitive under the horizontal coordinate `x`: the first one in
/// store order that is near, which need not be the nearest.
pub fn find_hovered(real_datas: &Vec<RealData>, panel: Panel, x: i64, half_distance: i64) -> (r:
    Option<usize>)
    ensures
        match r {
            Some(index) => first_near(views(real_datas@), panel, x, half_distance, index as int),
            None => none_near(views(real_datas@), panel, x, half_distance),
        },
{
    let mut i: usize = 0;
    while i < real_datas.len()
        invariant
            i <= real_datas.len(),
            forall|j: int|
                0 <= j < i ==> !near(
                    x,
                    half_distance,
                    position_in(#[trigger] views(real_datas@)[j], panel),
                ),
        decreases real_datas.len() - i,
    {
        let argument: u64 = match panel {
            Panel::Price => real_datas[i].box_elem.argument,
            Panel::Volume => real_datas[i].bar.argument,
        };
        assert(views(real_datas@)[i as int] == real_datas[i as int]@);
        if is_near(x, half_distance, argument) {
            return Some(i);
        }
        i += 1;
    }
    None
}

/// Makes the tooltip of a primitive.
pub fn tooltip(real_data: &RealData) -> (r: Tooltip)
    ensures
        r@ == tooltip_of(real_data@),
{
    let spread = real_data.box_elem.spread;
    let (open, close) = match real_data.box_elem.color {
        Color::Bullish => (spread.quartile1, spread.quartile3),
        Color::Bearish => (spread.quartile3, spread.quartile1),
        Color::Neutral => (spread.quartile3, spread.quartile1),
    };
    Tooltip {
        datetime: real_data.datetime.clone(),
        open,
        high: spread.upper_whisker,
        low: spread.lower_whisker,
        close,
        volume: real_data.bar.value,
    }
}

/// The label of the time axis at the coordinate `x`: the display time of the
/// primitive at that position, and the empty text between positions and beyond
/// the primitives held.
pub fn format_axis_label(x: i64, real_datas: &Vec<RealData>) -> (label: String)
    ensures
        label@ == match label_index(x, real_datas@.len()) {
            Some(index) => real_datas@[index].datetime@,
            None => Seq::<char>::empty(),
        },
{
    assert(SCALE == 1_000_000);
    if x < 1_000_000 {
        return String::new();
    }
    let len: i128 = real_datas.len() as i128;
    if x % 1_000_000 != 0 || x as i128 > len * 1_000_000 {
        return String::new();
    }
    let index: usize = (x / 1_000_000 - 1) as usize;
    real_datas[index].datetime.clone()
}

/// The pan that a drag of `delta` asks for.
pub fn negate(delta: i64) -> (r: i64)
    ensures
        r == opposite(delta),
{
    saturate(-(delta as i128))
}

/// Couples the drags of the two panels into the pan for the next frame.
pub fn couple(candle: PanelResponse, volume: PanelResponse) -> (r: i64)
    ensures
        r == pan_delta(candle, volume),
{
    if candle.dragged {
        negate(candle.drag_delta_x)
    } else if volume.dragged {
        negate(volume.drag_delta_x)
    } else {
        0
    }
}

/// The tooltip gives back the candle: for a primitive built from a candle, it
/// shows that candle's open, high, low, close and volume, and the display time
/// the primitive was built with.
pub proof fn lemma_tooltip_recovers_candle(candle: CandleView, count: u64, datetime: Seq<char>)
    requires
        i64::MIN <= candle.open <= i64::MAX,
        i64::MIN <= candle.close <= i64::MAX,
        i64::MIN <= candle.high <= i64::MAX,
        i64::MIN <= candle.low <= i64::MAX,
        i64::MIN <= candle.volume <= i64::MAX,
    ensures
        tooltip_of(built(candle, count, datetime)) == (TooltipView {
            datetime,
            open: candle.open as i64,
            high: candle.high as i64,
            low: candle.low as i64,
            close: candle.close as i64,
            volume: candle.volume as i64,
        }),
{
}

/// A drag to the right moves the window to the left by as much, and the other
/// way round; without a drag nothing moves.
pub proof fn lemma_pan_opposes_drag(candle: PanelResponse, volume: PanelResponse)
    ensures
        !candle.dragged && !volume.dragged ==> pan_delta(candle, volume) == 0,
        candle.dragged && candle.drag_delta_x > i64::MIN ==> pan_delta(candle, volume)
            == -candle.drag_delta_x,
        !candle.dragged && volume.dragged && volume.drag_delta_x > i64::MIN ==> pan_delta(
            candle,
            volume,
        ) == -volume.drag_delta_x,
{
}

/// In a region that is higher than the margin, the two panels together are
/// never higher than what the region leaves free, and fall short of it by less
/// than two units.
pub proof fn lemma_panels_fit(width: i64, height: i64)
    requires
        height >= MARGIN,
    ensures
        0 <= sizes_in(width, height).volume_height <= sizes_in(width, height).price_height,
        height - MARGIN - 2 < sizes_in(width, height).price_height + sizes_in(
            width,
            height,
        ).volume_height <= height - MARGIN,
{
}

} // verus!
