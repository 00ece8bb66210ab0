//! Candles as they arrive and the plot primitives made from them.

use vstd::prelude::*;

use crate::fixed::div_floor;
use crate::utils::{canonical, CustomError, DateTimeUtils};

verus! {

/// One candle as the data source delivers it. The prices and the volume are
/// fixed-point quantities. That `low <= open, close <= high` is the source's
/// business: nothing here relies on it.
#[derive(Clone, Debug, PartialEq, Eq)]
pub struct Candle {
    pub open: i64,
    pub close: i64,
    pub high: i64,
    pub low: i64,
    pub volume: i64,
    pub datetime: String,
}

/// The mathematical value of a [`Candle`].
pub struct CandleView {
    pub open: int,
    pub close: int,
    pub high: int,
    pub low: int,
    pub volume: int,
    pub datetime: Seq<char>,
}

impl View for Candle {
    type V = CandleView;

    open spec fn view(&self) -> CandleView {
        CandleView {
            open: self.open as int,
            close: self.close as int,
            high: self.high as int,
            low: self.low as int,
            volume: self.volume as int,
            datetime: self.datetime@,
        }
    }
}

/// The direction of a candle.
#[derive(Clone, Copy, Debug, PartialEq, Eq, Structural)]
pub enum Color {
    /// The close is above the open.
    Bullish,
    /// The close is below the open.
    Bearish,
    /// Open and close coincide.
    Neutral,
}

/// The five numbers of a box: the whiskers, the two ends of the body and the
/// middle of the body.
#[derive(Clone, Copy, Debug, PartialEq, Eq, Structural)]
pub struct BoxSpread {
    pub lower_whisker: i64,
    pub quartile1: i64,
    pub median: i64,
    pub quartile3: i64,
    pub upper_whisker: i64,
}

/// The price box of one candle. It is drawn without whisker caps, filled and
/// outlined in its colour.
#[derive(Clone, Copy, Debug, PartialEq, Eq, Structural)]
pub struct BoxElem {
    /// Position on the horizontal axis, in whole units.
    pub argument: u64,
    pub spread: BoxSpread,
    pub color: Color,
}

/// The volume bar of one candle.
#[derive(Clone, Copy, Debug, PartialEq, Eq, Structural)]
pub struct Bar {
    /// Position on the horizontal axis, in whole units.
    pub argument: u64,
    pub value: i64,
    /// Bullish or bearish, never neutral.
    pub color: Color,
    /// A transparent bar is drawn with neither fill nor outline, whatever its
    /// colour.
    pub transparent: bool,
}

/// What the chart keeps of one candle: its price box, its volume bar and its
/// time in display form.
#[derive(Clone, Debug, PartialEq, Eq)]
pub struct RealData {
    pub box_elem: BoxElem,
    pub bar: Bar,
    pub datetime: String,
}

/// The mathematical value of a [`RealData`].
pub struct RealDataView {
    pub box_elem: BoxElem,
    pub bar: Bar,
    pub datetime: Seq<char>,
}

impl View for RealData {
    type V = RealDataView;

    open spec fn view(&self) -> RealDataView {
        RealDataView { box_elem: self.box_elem, bar: self.bar, datetime: self.datetime@ }
    }
}

/// The colour of a price box: three-way.
pub open spec fn box_color(open: int, close: int) -> Color {
    if open > close {
        Color::Bearish
    } else if open < close {
        Color::Bullish
    } else {
        Color::Neutral
    }
}

/// The colour of a volume bar: two-way, so that a candle whose open and close
/// coincide has a neutral box above a bullish bar.
pub open spec fn bar_color(open: int, close: int) -> Color {
    if open > close {
        Color::Bearish
    } else {
        Color::Bullish
    }
}

/// The smaller of two integers.
pub open spec fn lesser(a: int, b: int) -> int {
    if a <= b {
        a
    } else {
        b
    }
}

/// The greater of two integers.
pub open spec fn greater(a: int, b: int) -> int {
    if a >= b {
        a
    } else {
        b
    }
}

/// The spread of a candle: the body runs from the lesser to the greater of open
/// and close, the median is their mean rounded down, the whiskers are low and
/// high.
pub open spec fn spread_of(candle: CandleView) -> BoxSpread {
    BoxSpread {
        lower_whisker: candle.low as i64,
        quartile1: lesser(candle.open, candle.close) as i64,
        median: ((candle.open + candle.close) / 2) as i64,
        quartile3: greater(candle.open, candle.close) as i64,
        upper_whisker: candle.high as i64,
    }
}

/// The primitive made from `candle` at position `count`, with `datetime` as its
/// display time.
pub open spec fn built(candle: CandleView, count: u64, datetime: Seq<char>) -> RealDataView {
    RealDataView {
        box_elem: BoxElem {
            argument: count,
            spread: spread_of(candle),
            color: box_color(candle.open, candle.close),
        },
        bar: Bar {
            argument: count,
            value: candle.volume as i64,
            color: bar_color(candle.open, candle.close),
            transparent: candle.volume <= 0,
        },
        datetime,
    }
}

impl RealData {
    /// Makes the primitive of `candle` at position `count`, given the candle's
    /// time in display form. The candle's own `datetime` is not read.
    pub fn build(candle: &Candle, count: u64, datetime: String) -> (r: RealData)
        ensures
            r@ == built(candle@, count, datetime@),
    {
        let (quartile1, quartile3, color, bar_color) = if candle.open > candle.close {
            (candle.close, candle.open, Color::Bearish, Color::Bearish)
        } else if candle.open < candle.close {
            (candle.open, candle.close, Color::Bullish, Color::Bullish)
        } else {
            (candle.open, candle.close, Color::Neutral, Color::Bullish)
        };
        let median: i64 = div_floor(quartile1 as i128 + quartile3 as i128, 2) as i64;
        let box_elem = BoxElem {
            argument: count,
            spread: BoxSpread {
                lower_whisker: candle.low,
                quartile1,
                median,
                quartile3,
                upper_whisker: candle.high,
            },
            color,
        };
        let bar = Bar {
            argument: count,
            value: candle.volume,
            color: bar_color,
            transparent: !(candle.volume > 0),
        };
        RealData { box_elem, bar, datetime }
    }

    /// Makes the primitive of `candle` at position `count`. The candle's
    /// timestamp is re-rendered for display; a candle whose timestamp cannot be
    /// read yields no primitive.
    pub fn new(candle: &Candle, count: u64) -> (r: Result<RealData, CustomError>)
        ensures
            r is Ok <==> canonical(candle@.datetime) is Some,
            r is Ok ==> r->Ok_0@ == built(candle@, count, canonical(candle@.datetime)->Some_0),
            r is Err ==> r->Err_0 == CustomError::Format,
    {
        match DateTimeUtils::format_datetime_string(candle.datetime.as_str()) {
            Ok(datetime) => Ok(RealData::build(candle, count, datetime)),
            Err(e) => Err(e),
        }
    }
}

/// The colour rule. A candle that closes below its open gives a bearish box, one
/// that closes above it a bullish box, one that closes at it a neutral box. The
/// bar is bearish with a bearish box and bullish otherwise.
pub proof fn lemma_color_rule(candle: CandleView, count: u64, datetime: Seq<char>)
    ensures
        candle.open > candle.close ==> built(candle, count, datetime).box_elem.color
            == Color::Bearish,
        candle.open < candle.close ==> built(candle, count, datetime).box_elem.color
            == Color::Bullish,
        candle.open == candle.close ==> built(candle, count, datetime).box_elem.color
            == Color::Neutral,
        candle.open > candle.close ==> built(candle, count, datetime).bar.color == Color::Bearish,
        candle.open <= candle.close ==> built(candle, count, datetime).bar.color == Color::Bullish,
{
}

/// A candle without volume gives a transparent bar, whatever its direction, and
/// a candle with volume gives a bar that is drawn.
pub proof fn lemma_no_volume_is_transparent(candle: CandleView, count: u64, datetime: Seq<char>)
    ensures
        candle.volume == 0 ==> built(candle, count, datetime).bar.transparent,
        candle.volume > 0 ==> !built(candle, count, datetime).bar.transparent,
{
}

/// The body of a box is in order and the median lies inside it, whatever the
/// candle; both shapes stand at the position that was given.
pub proof fn lemma_box_is_ordered(candle: CandleView, count: u64, datetime: Seq<char>)
    requires
        i64::MIN <= candle.open <= i64::MAX,
        i64::MIN <= candle.close <= i64::MAX,
    ensures
        built(candle, count, datetime).box_elem.spread.quartile1 <= built(
            candle,
            count,
            datetime,
        ).box_elem.spread.median <= built(candle, count, datetime).box_elem.spread.quartile3,
        built(candle, count, datetime).box_elem.argument == count,
        built(candle, count, datetime).bar.argument == count,
{
}

} // verus!
