//! The accumulation store: every primitive made so far, in the order in which
//! it was made.

use vstd::prelude::*;

use crate::range::views;
use crate::real_data::{built, Candle, CandleView, RealData, RealDataView};
use crate::utils::canonical;

verus! {

/// The last position that a primitive can have. The position after it is the
/// greatest value of the counter.
pub const LAST_POSITION: u64 = 0xffff_ffff_ffff_fffe;

/// The values of a sequence of candles.
pub open spec fn candle_views(candles: Seq<Candle>) -> Seq<CandleView> {
    candles.map_values(|candle: Candle| candle@)
}

/// Whether the positions of `real_datas` are `start`, `start + 1`, and so on,
/// box and bar alike: strictly increasing, without gaps or duplicates.
pub open spec fn consecutive_from(real_datas: Seq<RealDataView>, start: int) -> bool {
    forall|i: int|
        0 <= i < real_datas.len() ==> {
            &&& (#[trigger] real_datas[i]).box_elem.argument == start + i
            &&& real_datas[i].bar.argument == start + i
        }
}

/// Whether `candle`, arriving when the next free position is `position`, yields
/// a primitive: its timestamp can be read and the position exists.
pub open spec fn yields(candle: CandleView, position: int) -> bool {
    canonical(candle.datetime) is Some && position <= LAST_POSITION
}

/// The primitives made from `candles`, in their order, when the next free
/// position is `start`. A candle that yields none is passed over and uses up no
/// position.
pub open spec fn converted(candles: Seq<CandleView>, start: int) -> Seq<RealDataView>
    decreases candles.len(),
{
    if candles.len() == 0 {
        Seq::empty()
    } else {
        let before = converted(candles.drop_last(), start);
        let last = candles.last();
        let position = start + before.len();
        if yields(last, position) {
            before.push(built(last, position as u64, canonical(last.datetime)->Some_0))
        } else {
            before
        }
    }
}

/// Makes the primitives of `candles`, giving them the positions from `start`
/// on.
pub fn convert(candles: &Vec<Candle>, start: u64) -> (real_datas: Vec<RealData>)
    ensures
        views(real_datas@) == converted(candle_views(candles@), start as int),
{
    let mut real_datas: Vec<RealData> = Vec::new();
    let mut count: u64 = start;
    let mut i: usize = 0;
    while i < candles.len()
        invariant
            i <= candles.len(),
            views(real_datas@) == converted(candle_views(candles@).take(i as int), start as int),
            count == start + real_datas.len(),
        decreases candles.len() - i,
    {
        let candle = &candles[i];
        proof {
            let all = candle_views(candles@);
            assert(all.take(i + 1).drop_last() =~= all.take(i as int));
            assert(all.take(i + 1).last() == candle@);
        }
        if count <= LAST_POSITION {
            match RealData::new(candle, count) {
                Ok(real_data) => {
                    let ghost before = views(real_datas@);
                    real_datas.push(real_data);
                    assert(views(real_datas@) =~= before.push(real_data@));
                    count = count + 1;
                },
                Err(_) => {},
            }
        }
        i += 1;
    }
    proof {
        let all = candle_views(candles@);
        assert(all.take(i as int) =~= all);
    }
    real_datas
}

/// The primitives that a conversion makes have consecutive positions from its
/// start.
pub proof fn lemma_converted_consecutive(candles: Seq<CandleView>, start: int)
    requires
        0 <= start,
    ensures
        consecutive_from(converted(candles, start), start),
        converted(candles, start).len() <= candles.len(),
        converted(candles, start).len() > 0 ==> start + converted(candles, start).len()
            <= LAST_POSITION + 1,
    decreases candles.len(),
{
    if candles.len() > 0 {
        lemma_converted_consecutive(candles.drop_last(), start);
    }
}

/// Every primitive made so far, oldest first. The primitive at index `i` has
/// position `i + 1`. Nothing is ever removed or reordered.
#[derive(Debug)]
pub struct SaveInfo {
    real_datas: Vec<RealData>,
}

impl View for SaveInfo {
    type V = Seq<RealDataView>;

    closed spec fn view(&self) -> Seq<RealDataView> {
        views(self.real_datas@)
    }
}

impl SaveInfo {
    #[verifier::type_invariant]
    spec fn positions_hold(self) -> bool {
        consecutive_from(views(self.real_datas@), 1)
    }

    /// The empty store.
    pub fn new() -> (r: SaveInfo)
        ensures
            r@ == Seq::<RealDataView>::empty(),
    {
        let r = SaveInfo { real_datas: Vec::new() };
        assert(r@ =~= Seq::<RealDataView>::empty());
        r
    }

    /// The number of primitives held.
    pub fn len(&self) -> (n: usize)
        ensures
            n == self@.len(),
    {
        self.real_datas.len()
    }

    /// The primitives held, oldest first.
    pub fn snapshot(&self) -> (real_datas: &Vec<RealData>)
        ensures
            views(real_datas@) == self@,
            consecutive_from(self@, 1),
    {
        proof {
            use_type_invariant(self);
        }
        &self.real_datas
    }

    /// Adds `new` at the end, in its order. The caller sees to it that the
    /// positions of `new` go on where those of the store end.
    pub fn append(&mut self, new: Vec<RealData>)
        requires
            consecutive_from(views(new@), old(self)@.len() as int + 1),
        ensures
            final(self)@ == old(self)@ + views(new@),
            consecutive_from(final(self)@, 1),
    {
        proof {
            use_type_invariant(&*self);
        }
        let mut new = new;
        let mut held: Vec<RealData> = Vec::new();
        core::mem::swap(&mut self.real_datas, &mut held);
        let ghost before = views(held@);
        let ghost added = views(new@);
        held.append(&mut new);
        assert(views(held@) =~= before + added);
        self.real_datas = held;
    }
}

impl Default for SaveInfo {
    fn default() -> (r: SaveInfo)
        ensures
            r@ == Seq::<RealDataView>::empty(),
    {
        SaveInfo::new()
    }
}

/// Consecutive positions are strictly increasing: a primitive that was added
/// later has the greater position.
pub proof fn lemma_positions_increase(real_datas: Seq<RealDataView>, start: int)
    requires
        consecutive_from(real_datas, start),
    ensures
        forall|i: int, j: int|
            0 <= i < j < real_datas.len() ==> (#[trigger] real_datas[i]).box_elem.argument < (
            #[trigger] real_datas[j]).box_elem.argument,
{
}

/// Adding `first` and then `second` to `held` gives a sequence of the three
/// lengths together, in which everything stands where it stood: what was held,
/// then `first`, then `second`, each in its own order. Where each addition went
/// on at the next position, the positions of the whole are consecutive.
pub proof fn lemma_append_twice(
    held: Seq<RealDataView>,
    first: Seq<RealDataView>,
    second: Seq<RealDataView>,
)
    ensures
        (held + first + second).len() == held.len() + first.len() + second.len(),
        forall|i: int| 0 <= i < held.len() ==> (held + first + second)[i] == held[i],
        forall|i: int| 0 <= i < first.len() ==> (held + first + second)[held.len() + i] == first[i],
        forall|i: int|
            0 <= i < second.len() ==> (held + first + second)[held.len() + first.len() + i]
                == second[i],
        consecutive_from(held, 1) && consecutive_from(first, held.len() as int + 1)
            && consecutive_from(second, held.len() as int + first.len() as int + 1)
            ==> consecutive_from(held + first + second, 1),
{
}

} // verus!
