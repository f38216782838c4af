//! The candle case: four candles in a row, and a button between each
//! neighbouring pair that swaps them.
use vstd::prelude::*;
use crate::geometry::{hit, inside, Pos};

verus! {

/// `order[slot]` is the candle standing in that slot, from the left; the
/// candles are numbered `0` to `3`.
#[derive(Clone, Copy, Debug)]
pub struct Candles {
    pub order: [u8; 4],
}

/// What the case shows for an order of candles.
#[derive(Clone, Copy, Debug, PartialEq, Eq, Structural)]
pub enum CandleReading {
    Beaver,
    Cat,
    Incorrect,
}

/// Every candle stands in exactly one slot.
pub open spec fn is_arrangement(order: Seq<u8>) -> bool {
    &&& order.len() == 4
    &&& forall|i: int| 0 <= i < 4 ==> #[trigger] order[i] < 4
    &&& forall|i: int, j: int| 0 <= i < j < 4 ==> order[i] != order[j]
}

/// `order` with the candles in slots `i` and `i + 1` swapped.
pub open spec fn swapped(order: Seq<u8>, i: int) -> Seq<u8> {
    order.update(i, order[i + 1]).update(i + 1, order[i])
}

pub open spec fn candle_reading_of(order: Seq<u8>) -> CandleReading {
    if order == seq![2u8, 0, 3, 1] {
        CandleReading::Beaver
    } else if order == seq![0u8, 1, 2, 3] {
        CandleReading::Cat
    } else {
        CandleReading::Incorrect
    }
}

/// The swap button under a click: the one between slots `i` and `i + 1`.
pub open spec fn swap_at(p: Pos) -> Option<usize> {
    if inside(p, 157, 212, 198, 226) {
        Some(0)
    } else if inside(p, 296, 343, 202, 224) {
        Some(1)
    } else if inside(p, 415, 470, 193, 224) {
        Some(2)
    } else {
        None
    }
}

pub fn swap_under(p: Pos) -> (r: Option<usize>)
    ensures
        r == swap_at(p),
{
    if hit(p, 157, 212, 198, 226) {
        Some(0)
    } else if hit(p, 296, 343, 202, 224) {
        Some(1)
    } else if hit(p, 415, 470, 193, 224) {
        Some(2)
    } else {
        None
    }
}

impl Candles {
    /// The order the case starts in: the candles stand from `3` down to `0`.
    pub fn new() -> (r: Candles)
        ensures
            r.order@ == seq![3u8, 2, 1, 0],
    {
        let r = Candles { order: [3, 2, 1, 0] };
        assert(r.order@ =~= seq![3u8, 2, 1, 0]);
        r
    }

    /// Swaps the candles in slots `i` and `i + 1`.
    pub fn swap(&mut self, i: usize)
        requires
            i < 3,
        ensures
            final(self).order@ == swapped(old(self).order@, i as int),
    {
        let first = self.order[i];
        let second = self.order[i + 1];
        self.order[i] = second;
        self.order[i + 1] = first;
        assert(self.order@ =~= swapped(old(self).order@, i as int));
    }

    pub fn reading(&self) -> (r: CandleReading)
        ensures
            r == candle_reading_of(self.order@),
    {
        let o = self.order;
        if o[0] == 2 && o[1] == 0 && o[2] == 3 && o[3] == 1 {
            assert(self.order@ =~= seq![2u8, 0, 3, 1]);
            CandleReading::Beaver
        } else if o[0] == 0 && o[1] == 1 && o[2] == 2 && o[3] == 3 {
            assert(self.order@ =~= seq![0u8, 1, 2, 3]);
            CandleReading::Cat
        } else {
            CandleReading::Incorrect
        }
    }
}

impl CandleReading {
    /// The word shown under the case.
    pub fn text(self) -> (r: &'static str)
        ensures
            r@ == candle_text(self)@,
    {
        match self {
            CandleReading::Beaver => "BEAVER",
            CandleReading::Cat => "CAT",
            CandleReading::Incorrect => "Incorrect",
        }
    }
}

pub open spec fn candle_text(r: CandleReading) -> &'static str {
    match r {
        CandleReading::Beaver => "BEAVER",
        CandleReading::Cat => "CAT",
        CandleReading::Incorrect => "Incorrect",
    }
}

/// Swapping two neighbouring candles keeps every candle in exactly one
/// slot.
pub proof fn lemma_swap_keeps_arrangement(order: Seq<u8>, i: int)
    requires
        is_arrangement(order),
        0 <= i < 3,
    ensures
        is_arrangement(swapped(order, i)),
{
}

/// Pressing the same swap button twice puts the candles back.
pub proof fn lemma_swap_twice(order: Seq<u8>, i: int)
    requires
        order.len() == 4,
        0 <= i < 3,
    ensures
        swapped(swapped(order, i), i) == order,
{
    assert(swapped(swapped(order, i), i) =~= order);
}

/// The starting order is an arrangement, and so are both winning orders.
pub proof fn lemma_orders_are_arrangements()
    ensures
        is_arrangement(seq![3u8, 2, 1, 0]),
        is_arrangement(seq![2u8, 0, 3, 1]),
        is_arrangement(seq![0u8, 1, 2, 3]),
{
}

} // verus!
