//! The view controller: the state that lives from frame to frame and the steps
//! that each frame takes on it.
//!
//! The host draws and talks to the network; this module decides. In each frame
//! the host calls [`KLine::show`] with the fetch result, if one has arrived,
//! then [`KLine::price_bounds`] and [`KLine::hover`] while it draws the price
//! panel, [`KLine::volume_bounds`] and [`KLine::hover`] while it draws the
//! volume panel, and at last [`KLine::couple_drag`].

use vstd::prelude::*;
use vstd::string::StringExecFns;

use crate::panel::{
    couple, find_hovered, first_near, none_near, pan_delta, panel_sizes, panel_state, sizes_in,
    state_of, tooltip, tooltip_of, Panel, PanelResponse, PanelSizes, PanelState, PlotPoint,
    Tooltip,
};
use crate::range::{
    pad_range, pad_volume, padded_range, padded_volume, price_range, visible_extent, volume_peak,
    AxisRange,
};
use crate::real_data::{Candle, CandleView, RealDataView};
use crate::store::{
    candle_views, consecutive_from, convert, converted, lemma_converted_consecutive, SaveInfo,
};
use crate::utils::CustomError;

verus! {

/// The body of a response of the data source.
#[derive(Clone, Debug, PartialEq, Eq)]
pub struct CustomResponse {
    /// `"0"` for success, anything else for a failure that the source reports.
    pub code: String,
    pub message: String,
    pub data: Vec<Candle>,
}

/// How a fetch ended.
#[derive(Clone, Debug, PartialEq, Eq)]
pub enum FetchResult {
    /// The source answered with candles.
    Success(Vec<Candle>),
    /// The answer did not decode.
    ParseFailure,
    /// The request did not complete.
    TransportFailure,
    /// The source answered with a status other than success.
    ApplicationFailure,
}

/// The mathematical value of a [`FetchResult`].
pub enum FetchResultView {
    Success(Seq<CandleView>),
    ParseFailure,
    TransportFailure,
    ApplicationFailure,
}

impl View for FetchResult {
    type V = FetchResultView;

    open spec fn view(&self) -> FetchResultView {
        match self {
            FetchResult::Success(candles) => FetchResultView::Success(candle_views(candles@)),
            FetchResult::ParseFailure => FetchResultView::ParseFailure,
            FetchResult::TransportFailure => FetchResultView::TransportFailure,
            FetchResult::ApplicationFailure => FetchResultView::ApplicationFailure,
        }
    }
}

/// The error that a fetch result stands for, if it is a failure.
pub open spec fn failure_of(result: FetchResultView) -> Option<CustomError> {
    match result {
        FetchResultView::Success(_) => None,
        FetchResultView::ParseFailure => Some(CustomError::Parse),
        FetchResultView::TransportFailure => Some(CustomError::Http),
        FetchResultView::ApplicationFailure => Some(CustomError::Application),
    }
}

impl CustomResponse {
    /// Reads a decoded response: its candles where the code is `"0"`, an
    /// application failure for any other code.
    pub fn into_result(self) -> (r: FetchResult)
        ensures
            r@ == if self.code@ == "0"@ {
                FetchResultView::Success(candle_views(self.data@))
            } else {
                FetchResultView::ApplicationFailure
            },
    {
        let success = String::from_str("0");
        if self.code == success {
            FetchResult::Success(self.data)
        } else {
            FetchResult::ApplicationFailure
        }
    }
}

/// A request for candles: a GET on `endpoint` with the query parameters `code`
/// and `ktype`.
#[derive(Clone, Debug, PartialEq, Eq)]
pub struct FetchRequest {
    pub endpoint: String,
    /// The instrument.
    pub code: String,
    /// The bar interval.
    pub ktype: String,
}

/// The corners of a panel in plot coordinates.
#[derive(Clone, Copy, Debug, PartialEq, Eq, Structural)]
pub struct PlotBounds {
    pub min: PlotPoint,
    pub max: PlotPoint,
}

/// What a panel shows around the pointer in one frame.
#[derive(Clone, Debug, PartialEq, Eq)]
pub struct Crosshair {
    pub state: PanelState,
    /// Where the vertical line stands, in both panels alike.
    pub v_line: i64,
    /// Where the horizontal line stands, if the pointer is over this panel.
    pub h_line: Option<i64>,
    /// The text for the primitive under the pointer, if there is one.
    pub tooltip: Option<Tooltip>,
}

/// What the host has to do after [`KLine::show`].
#[derive(Clone, Debug, PartialEq, Eq)]
pub struct Frame {
    /// A fetch to start now.
    pub request: Option<FetchRequest>,
    /// Whether to draw again soon because a fetch is still under way.
    pub repaint: bool,
    /// The failure of the fetch that ended in this frame, to be logged.
    pub failure: Option<CustomError>,
    /// How many of the candles that arrived yielded no primitive.
    pub passed_over: usize,
}

/// The state of the view between frames.
#[derive(Debug)]
pub struct KLine {
    /// The width of the region that the view is laid out in, in pixels.
    width: i64,
    /// The height of that region.
    height: i64,
    /// Candles that have arrived and are not yet converted.
    candles: Vec<Candle>,
    /// The position that the next primitive gets.
    candles_count: u64,
    /// The horizontal window.
    x_range: AxisRange,
    /// The vertical range of the price panel; `None` while nothing is visible.
    y_range: Option<AxisRange>,
    /// The top of the volume panel; `None` while nothing is visible.
    y_volume_max: Option<i64>,
    /// The horizontal pan to apply to both panels in the next frame.
    drag_x_move: i64,
    /// How far from its position a primitive still counts as under the pointer.
    half_distance: i64,
    /// Where the vertical line of the crosshair stands.
    v_line_pos: i64,
    /// Whether the fetch of this session has been issued.
    is_http_execute: bool,
    /// Whether a fetch is under way.
    in_flight: bool,
    /// Every primitive made so far.
    saved: SaveInfo,
}

/// The mathematical value of a [`KLine`].
pub struct KLineView {
    pub width: i64,
    pub height: i64,
    pub candles: Seq<CandleView>,
    pub candles_count: u64,
    pub x_range: AxisRange,
    pub y_range: Option<AxisRange>,
    pub y_volume_max: Option<i64>,
    pub drag_x_move: i64,
    pub half_distance: i64,
    pub v_line_pos: i64,
    pub is_http_execute: bool,
    pub in_flight: bool,
    pub saved: Seq<RealDataView>,
}

/// What holds of every view state: the counter is one ahead of the store, the
/// store's positions run from one without a gap, and a fetch that is under way
/// has been issued.
pub open spec fn well_formed(v: KLineView) -> bool {
    &&& v.candles_count == v.saved.len() + 1
    &&& consecutive_from(v.saved, 1)
    &&& v.in_flight ==> v.is_http_execute
}

/// Where the horizontal window starts at the beginning of a session: half a
/// unit left of zero.
pub const INITIAL_WINDOW_MIN: i64 = -500_000;

/// How far from its position a primitive counts as under the pointer: three
/// tenths of a unit.
pub const HALF_DISTANCE: i64 = 300_000;

/// The state at the start of a session.
pub open spec fn initial() -> KLineView {
    KLineView {
        width: 0,
        height: 0,
        candles: Seq::empty(),
        candles_count: 1,
        x_range: AxisRange { min: INITIAL_WINDOW_MIN, max: 0 },
        y_range: None,
        y_volume_max: None,
        drag_x_move: 0,
        half_distance: HALF_DISTANCE,
        v_line_pos: 0,
        is_http_execute: false,
        in_flight: false,
        saved: Seq::empty(),
    }
}

/// Whether a fetch is due: none has been issued in this session, or the view
/// has been re-armed since.
pub open spec fn fetch_due(v: KLineView) -> bool {
    !v.is_http_execute
}

/// The state after the fetch that was due has been issued.
pub open spec fn issued(v: KLineView) -> KLineView {
    if fetch_due(v) {
        KLineView { is_http_execute: true, in_flight: true, ..v }
    } else {
        v
    }
}

/// The state after a fetch result has been taken: candles wait to be
/// converted, a failure changes nothing but that no fetch is under way any
/// more.
pub open spec fn delivered(v: KLineView, result: FetchResultView) -> KLineView {
    match result {
        FetchResultView::Success(candles) => KLineView { candles, in_flight: false, ..v },
        _ => KLineView { in_flight: false, ..v },
    }
}

/// The primitives that the waiting candles of `v` turn into.
pub open spec fn pending(v: KLineView) -> Seq<RealDataView> {
    converted(v.candles, v.candles_count as int)
}

/// The state after the waiting candles have been converted and added to the
/// store.
pub open spec fn merged(v: KLineView) -> KLineView {
    KLineView {
        candles: Seq::empty(),
        candles_count: (v.candles_count + pending(v).len()) as u64,
        saved: v.saved + pending(v),
        ..v
    }
}

/// The state with both vertical ranges emptied.
pub open spec fn cleared(v: KLineView) -> KLineView {
    KLineView { y_range: None, y_volume_max: None, ..v }
}

/// The state with both vertical ranges taken afresh from the store and the
/// horizontal window, without padding.
pub open spec fn ranged(v: KLineView) -> KLineView {
    KLineView {
        y_range: price_range(v.saved, v.x_range),
        y_volume_max: volume_peak(v.saved, v.x_range),
        ..v
    }
}

/// The state with both vertical ranges padded.
pub open spec fn spaced(v: KLineView) -> KLineView {
    KLineView {
        y_range: padded_range(v.y_range),
        y_volume_max: padded_volume(v.y_volume_max),
        ..v
    }
}

/// The state after the re-arming that was asked for: a new fetch becomes due
/// unless one is under way.
pub open spec fn rearmed(v: KLineView) -> KLineView {
    if v.in_flight {
        v
    } else {
        KLineView { is_http_execute: false, ..v }
    }
}

/// The value of what the host has polled.
pub open spec fn polled_view(polled: Option<FetchResult>) -> Option<FetchResultView> {
    match polled {
        Some(result) => Some(result@),
        None => None,
    }
}

/// The state after the fetch that was due has been issued and the result that
/// has arrived, if any, has been taken.
pub open spec fn received(v: KLineView, polled: Option<FetchResultView>) -> KLineView {
    match polled {
        Some(result) => delivered(issued(v), result),
        None => issued(v),
    }
}

/// The state after the first part of a frame, given the fetch result that has
/// arrived, if any.
pub open spec fn shown(v: KLineView, polled: Option<FetchResultView>) -> KLineView {
    ranged(merged(received(v, polled)))
}

/// The corners of the price panel.
pub open spec fn price_corners(v: KLineView) -> Option<PlotBounds> {
    match v.y_range {
        Some(y) => Some(
            PlotBounds {
                min: PlotPoint { x: v.x_range.min, y: y.min },
                max: PlotPoint { x: v.x_range.max, y: y.max },
            },
        ),
        None => None,
    }
}

/// The corners of the volume panel, which stands on zero.
pub open spec fn volume_corners(v: KLineView) -> Option<PlotBounds> {
    match v.y_volume_max {
        Some(top) => Some(
            PlotBounds {
                min: PlotPoint { x: v.x_range.min, y: 0 },
                max: PlotPoint { x: v.x_range.max, y: top },
            },
        ),
        None => None,
    }
}

/// The request that this view sends.
pub open spec fn request_sent(request: FetchRequest) -> bool {
    &&& request.endpoint@ == "http://localhost:8000/option/KlinePython/optquote/getKLineData"@
    &&& request.code@ == "CZCE.AP.AP401"@
    &&& request.ktype@ == "m1"@
}

impl View for KLine {
    type V = KLineView;

    closed spec fn view(&self) -> KLineView {
        KLineView {
            width: self.width,
            height: self.height,
            candles: candle_views(self.candles@),
            candles_count: self.candles_count,
            x_range: self.x_range,
            y_range: self.y_range,
            y_volume_max: self.y_volume_max,
            drag_x_move: self.drag_x_move,
            half_distance: self.half_distance,
            v_line_pos: self.v_line_pos,
            is_http_execute: self.is_http_execute,
            in_flight: self.in_flight,
            saved: self.saved@,
        }
    }
}

impl KLine {
    #[verifier::type_invariant]
    spec fn counter_holds(self) -> bool {
        &&& self.candles_count == self.saved@.len() + 1
        &&& self.in_flight ==> self.is_http_execute
    }

    /// The view at the start of a session: nothing fetched, nothing held, the
    /// window just left of the first position.
    pub fn new() -> (r: KLine)
        ensures
            r@ == initial(),
            well_formed(r@),
    {
        let r = KLine {
            width: 0,
            height: 0,
            candles: Vec::new(),
            candles_count: 1,
            x_range: AxisRange { min: INITIAL_WINDOW_MIN, max: 0 },
            y_range: None,
            y_volume_max: None,
            drag_x_move: 0,
            half_distance: HALF_DISTANCE,
            v_line_pos: 0,
            is_http_execute: false,
            in_flight: false,
            saved: SaveInfo::new(),
        };
        assert(r@.candles =~= Seq::<CandleView>::empty());
        r
    }

    /// Takes the size of the region that the view is laid out in and sizes the
    /// two panels for it.
    pub fn set_size(&mut self, width: i64, height: i64) -> (sizes: PanelSizes)
        ensures
            final(self)@ == (KLineView { width, height, ..old(self)@ }),
            sizes == sizes_in(width, height),
    {
        proof {
            use_type_invariant(&*self);
        }
        self.width = width;
        self.height = height;
        panel_sizes(width, height)
    }

    /// Issues the fetch of this session if it is due, and says what to request.
    /// At most one fetch is issued until the view is re-armed.
    pub fn http(&mut self) -> (request: Option<FetchRequest>)
        ensures
            final(self)@ == issued(old(self)@),
            request is Some <==> fetch_due(old(self)@),
            request is Some ==> request_sent(request->Some_0),
    {
        proof {
            use_type_invariant(&*self);
        }
        if self.is_http_execute {
            return None;
        }
        self.is_http_execute = true;
        self.in_flight = true;
        Some(
            FetchRequest {
                endpoint: String::from_str(
                    "http://localhost:8000/option/KlinePython/optquote/getKLineData",
                ),
                code: String::from_str("CZCE.AP.AP401"),
                ktype: String::from_str("m1"),
            },
        )
    }

    /// Takes the result of the fetch. Candles wait for [`KLine::set_candles`]; a
    /// failure is handed back to be logged and leaves everything as it was, but
    /// that no fetch is under way any more.
    pub fn deliver(&mut self, result: FetchResult) -> (failure: Option<CustomError>)
        ensures
            final(self)@ == delivered(old(self)@, result@),
            failure == failure_of(result@),
    {
        proof {
            use_type_invariant(&*self);
        }
        self.in_flight = false;
        match result {
            FetchResult::Success(candles) => {
                self.candles = candles;
                None
            },
            FetchResult::ParseFailure => Some(CustomError::Parse),
            FetchResult::TransportFailure => Some(CustomError::Http),
            FetchResult::ApplicationFailure => Some(CustomError::Application),
        }
    }

    /// Makes a new fetch due, unless one is under way.
    pub fn rearm(&mut self)
        ensures
            final(self)@ == rearmed(old(self)@),
    {
        proof {
            use_type_invariant(&*self);
        }
        if !self.in_flight {
            self.is_http_execute = false;
        }
    }

    /// Converts the waiting candles and adds their primitives to the store.
    /// Says how many candles yielded none.
    pub fn set_candles(&mut self) -> (passed_over: usize)
        ensures
            final(self)@ == merged(old(self)@),
            passed_over == old(self)@.candles.len() - pending(old(self)@).len(),
            well_formed(final(self)@),
    {
        proof {
            use_type_invariant(&*self);
            lemma_converted_consecutive(self@.candles, self.candles_count as int);
        }
        let real_datas = convert(&self.candles, self.candles_count);
        let arrived: usize = self.candles.len();
        let added: usize = real_datas.len();
        let mut taken = KLine::new();
        core::mem::swap(self, &mut taken);
        let KLine {
            width,
            height,
            candles: _,
            candles_count,
            x_range,
            y_range,
            y_volume_max,
            drag_x_move,
            half_distance,
            v_line_pos,
            is_http_execute,
            in_flight,
            saved,
        } = taken;
        let mut saved = saved;
        saved.append(real_datas);
        *self = KLine {
            width,
            height,
            candles: Vec::new(),
            candles_count: candles_count + added as u64,
            x_range,
            y_range,
            y_volume_max,
            drag_x_move,
            half_distance,
            v_line_pos,
            is_http_execute,
            in_flight,
            saved,
        };
        assert(self@.candles =~= Seq::<CandleView>::empty());
        arrived - added
    }

    /// Empties both vertical ranges.
    pub fn y_range_init(&mut self)
        ensures
            final(self)@ == cleared(old(self)@),
    {
        proof {
            use_type_invariant(&*self);
        }
        self.y_range = None;
        self.y_volume_max = None;
    }

    /// Takes both vertical ranges afresh from the primitives inside the
    /// horizontal window, without padding.
    pub fn set_y_range(&mut self)
        ensures
            final(self)@ == ranged(old(self)@),
    {
        proof {
            use_type_invariant(&*self);
        }
        self.y_range_init();
        let (range, peak) = visible_extent(self.saved.snapshot(), self.x_range);
        self.y_range = range;
        self.y_volume_max = peak;
    }

    /// Pads both vertical ranges, so that the shapes do not touch the edges of
    /// their panels. Empty ranges stay empty.
    pub fn add_space_y(&mut self)
        ensures
            final(self)@ == spaced(old(self)@),
    {
        proof {
            use_type_invariant(&*self);
        }
        match self.y_range {
            Some(range) => {
                self.y_range = Some(pad_range(range));
            },
            None => {},
        }
        match self.y_volume_max {
            Some(peak) => {
                self.y_volume_max = Some(pad_volume(peak));
            },
            None => {},
        }
    }

    /// The first part of a frame: issues the fetch if it is due, takes the
    /// result that has arrived, converts what waits and takes the vertical ranges
    /// afresh.
    pub fn show(&mut self, polled: Option<FetchResult>) -> (frame: Frame)
        ensures
            final(self)@ == shown(old(self)@, polled_view(polled)),
            well_formed(final(self)@),
            frame.request is Some <==> fetch_due(old(self)@),
            frame.request is Some ==> request_sent(frame.request->Some_0),
            frame.repaint == (polled is None && issued(old(self)@).in_flight),
            frame.failure == match polled {
                Some(result) => failure_of(result@),
                None => None,
            },
            frame.passed_over == received(old(self)@, polled_view(polled)).candles.len() - pending(
                received(old(self)@, polled_view(polled)),
            ).len(),
    {
        let request = self.http();
        let (failure, repaint) = match polled {
            Some(result) => (self.deliver(result), false),
            None => (None, self.in_flight),
        };
        let passed_over = self.set_candles();
        self.set_y_range();
        Frame { request, repaint, failure, passed_over }
    }

    /// Takes the horizontal window that the host has arrived at, pads the
    /// vertical ranges and gives the corners of the price panel; `None` while
    /// there is nothing to draw.
    pub fn price_bounds(&mut self, min_x: i64, max_x: i64) -> (bounds: Option<PlotBounds>)
        ensures
            final(self)@ == spaced(
                KLineView { x_range: AxisRange { min: min_x, max: max_x }, ..old(self)@ },
            ),
            bounds == price_corners(final(self)@),
    {
        proof {
            use_type_invariant(&*self);
        }
        self.x_range = AxisRange { min: min_x, max: max_x };
        self.add_space_y();
        match self.y_range {
            Some(y) => Some(
                PlotBounds {
                    min: PlotPoint { x: self.x_range.min, y: y.min },
                    max: PlotPoint { x: self.x_range.max, y: y.max },
                },
            ),
            None => None,
        }
    }

    /// The corners of the volume panel; `None` while there is nothing to draw.
    pub fn volume_bounds(&self) -> (bounds: Option<PlotBounds>)
        ensures
            bounds == volume_corners(self@),
    {
        match self.y_volume_max {
            Some(top) => Some(
                PlotBounds {
                    min: PlotPoint { x: self.x_range.min, y: 0 },
                    max: PlotPoint { x: self.x_range.max, y: top },
                },
            ),
            None => None,
        }
    }

    /// Reads the pointer over `panel`. The vertical line stands where the
    /// pointer last was, in this panel or the other; when the pointer is over
    /// this panel, the horizontal line follows it and the vertical line moves
    /// there for what is drawn next. The tooltip is that of the first primitive
    /// near the pointer, and there is none during a drag.
    pub fn hover(&mut self, panel: Panel, pointer: Option<PlotPoint>, dragging: bool) -> (r:
        Crosshair)
        ensures
            r.state == state_of(pointer is Some, dragging),
            r.v_line == old(self)@.v_line_pos,
            r.h_line == match pointer {
                Some(point) => Some(point.y),
                None => None,
            },
            final(self)@ == (KLineView {
                v_line_pos: match pointer {
                    Some(point) => point.x,
                    None => old(self)@.v_line_pos,
                },
                ..old(self)@
            }),
            match r.tooltip {
                Some(text) => r.state == PanelState::Hovering && exists|index: int|
                    first_near(
                        old(self)@.saved,
                        panel,
                        pointer->Some_0.x,
                        old(self)@.half_distance,
                        index,
                    ) && text@ == tooltip_of(#[trigger] old(self)@.saved[index]),
                None => r.state != PanelState::Hovering || none_near(
                    old(self)@.saved,
                    panel,
                    pointer->Some_0.x,
                    old(self)@.half_distance,
                ),
            },
    {
        proof {
            use_type_invariant(&*self);
        }
        let state = panel_state(pointer.is_some(), dragging);
        let v_line: i64 = self.v_line_pos;
        match pointer {
            Some(point) => {
                self.v_line_pos = point.x;
                let real_datas = self.saved.snapshot();
                let found = if dragging {
                    None
                } else {
                    find_hovered(real_datas, panel, point.x, self.half_distance)
                };
                let text = match found {
                    Some(index) => {
                        assert(real_datas@[index as int]@ == self@.saved[index as int]);
                        Some(tooltip(&real_datas[index]))
                    },
                    None => None,
                };
                Crosshair { state, v_line, h_line: Some(point.y), tooltip: text }
            },
            None => Crosshair { state, v_line, h_line: None, tooltip: None },
        }
    }

    /// The last part of a frame: couples the drags of the two panels into the
    /// pan that both get in the next frame.
    pub fn couple_drag(&mut self, candle: PanelResponse, volume: PanelResponse)
        ensures
            final(self)@ == (KLineView {
                drag_x_move: pan_delta(candle, volume),
                ..old(self)@
            }),
    {
        proof {
            use_type_invariant(&*self);
        }
        self.drag_x_move = couple(candle, volume);
    }
}

impl KLine {
    /// The size of the region that the view was last laid out in: width, then
    /// height.
    pub fn size(&self) -> (r: (i64, i64))
        ensures
            r == (self@.width, self@.height),
    {
        (self.width, self.height)
    }

    /// The position that the next primitive gets.
    pub fn candles_count(&self) -> (r: u64)
        ensures
            r == self@.candles_count,
            r == self@.saved.len() + 1,
    {
        proof {
            use_type_invariant(self);
        }
        self.candles_count
    }

    /// The horizontal window.
    pub fn x_range(&self) -> (r: AxisRange)
        ensures
            r == self@.x_range,
    {
        self.x_range
    }

    /// The vertical range of the price panel; `None` while nothing is visible.
    pub fn y_range(&self) -> (r: Option<AxisRange>)
        ensures
            r == self@.y_range,
    {
        self.y_range
    }

    /// The top of the volume panel; `None` while nothing is visible.
    pub fn y_volume_max(&self) -> (r: Option<i64>)
        ensures
            r == self@.y_volume_max,
    {
        self.y_volume_max
    }

    /// The horizontal pan to apply to both panels in this frame.
    pub fn drag_x_move(&self) -> (r: i64)
        ensures
            r == self@.drag_x_move,
    {
        self.drag_x_move
    }

    /// How far from its position a primitive counts as under the pointer.
    pub fn half_distance(&self) -> (r: i64)
        ensures
            r == self@.half_distance,
    {
        self.half_distance
    }

    /// Where the vertical line of the crosshair stands.
    pub fn v_line_pos(&self) -> (r: i64)
        ensures
            r == self@.v_line_pos,
    {
        self.v_line_pos
    }

    /// Whether the fetch of this session has been issued.
    pub fn is_http_execute(&self) -> (r: bool)
        ensures
            r == self@.is_http_execute,
    {
        self.is_http_execute
    }

    /// Whether a fetch is under way.
    pub fn in_flight(&self) -> (r: bool)
        ensures
            r == self@.in_flight,
    {
        self.in_flight
    }

    /// The candles that wait to be converted.
    pub fn candles(&self) -> (r: &Vec<Candle>)
        ensures
            candle_views(r@) == self@.candles,
    {
        &self.candles
    }

    /// The store.
    pub fn saved(&self) -> (r: &SaveInfo)
        ensures
            r@ == self@.saved,
            well_formed(self@),
    {
        proof {
            use_type_invariant(self);
        }
        // The snapshot is asked for what it says of the positions.
        let _ = self.saved.snapshot();
        &self.saved
    }
}

impl Default for KLine {
    fn default() -> (r: KLine)
        ensures
            r@ == initial(),
    {
        KLine::new()
    }
}

/// A fetch that failed changes nothing in the store, does not touch the mark
/// that a fetch was issued, and leaves no fetch under way: re-arming the view
/// then makes a new fetch due.
pub proof fn lemma_failure_keeps_store(v: KLineView, result: FetchResultView)
    requires
        failure_of(result) is Some,
    ensures
        delivered(v, result).saved == v.saved,
        delivered(v, result).candles == v.candles,
        delivered(v, result).candles_count == v.candles_count,
        delivered(v, result).is_http_execute == v.is_http_execute,
        !delivered(v, result).in_flight,
        fetch_due(rearmed(delivered(v, result))),
{
}

/// A frame in which a failure arrives, and in which no candles wait, leaves the
/// store as it was.
pub proof fn lemma_failed_frame_keeps_store(v: KLineView, result: FetchResultView)
    requires
        failure_of(result) is Some,
        v.candles.len() == 0,
    ensures
        shown(v, Some(result)).saved == v.saved,
        shown(v, Some(result)).candles_count == v.candles_count,
{
    let taken = received(v, Some(result));
    assert(taken.candles.len() == 0);
    assert(pending(taken) =~= Seq::<RealDataView>::empty());
    assert(v.saved + pending(taken) =~= v.saved);
}

/// A fetch is issued once: after it no fetch is due and a second asking changes
/// nothing. At most one fetch is under way: none is due while one is, and
/// issuing, taking a result and re-arming all keep it so.
pub proof fn lemma_fetch_issued_once(v: KLineView, result: FetchResultView)
    requires
        well_formed(v),
    ensures
        !fetch_due(issued(v)),
        issued(issued(v)) == issued(v),
        fetch_due(v) ==> !v.in_flight && issued(v).in_flight,
        issued(v).saved == v.saved,
        well_formed(issued(v)),
        well_formed(delivered(v, result)),
        well_formed(rearmed(v)),
{
}

/// A frame keeps a well-formed state well-formed, whatever has arrived, and the
/// store only grows at its end: what was held is still there, in its place.
pub proof fn lemma_frame_keeps_what_is_held(v: KLineView, polled: Option<FetchResultView>)
    requires
        well_formed(v),
    ensures
        well_formed(shown(v, polled)),
        shown(v, polled).saved.len() >= v.saved.len(),
        shown(v, polled).saved.subrange(0, v.saved.len() as int) == v.saved,
        shown(v, polled).candles.len() == 0,
{
    let taken = received(v, polled);
    lemma_merged_well_formed(taken);
}

/// Converting what waits keeps a well-formed state well-formed: the store grows
/// at its end by the new primitives, whose positions go on where the store
/// ended.
pub proof fn lemma_merged_well_formed(v: KLineView)
    requires
        well_formed(v),
    ensures
        well_formed(merged(v)),
        merged(v).saved.len() == v.saved.len() + pending(v).len(),
        merged(v).saved.subrange(0, v.saved.len() as int) == v.saved,
        consecutive_from(pending(v), v.candles_count as int),
{
    lemma_converted_consecutive(v.candles, v.candles_count as int);
    assert(merged(v).saved.subrange(0, v.saved.len() as int) =~= v.saved);
}

} // verus!
