use vstd::prelude::*;

use crate::errors::ErrorCode;
use crate::math::wrap_growth;
use crate::tick::{
    offset_in_array, Tick, TickArray, MAX_TICK_INDEX, MIN_TICK_INDEX, TICK_ARRAY_SIZE,
};
use crate::tick_manager::{next_liquidity_after_cross, next_tick_cross_update};
use crate::yevepool::{YevepoolRewardInfo, NUM_REWARDS};

verus! {

/// Where a search for the next initialized tick enters array `i` of `arrays`, when it
/// starts at `search_index` in array `first`: there the given point; in each later array,
/// just past the far end of the array before it (below its start going down, at its last
/// tick going up, as an upward search begins above the point it is given).
pub open spec fn entry_point(
    arrays: Seq<TickArray>,
    first: int,
    search_index: int,
    tick_spacing: int,
    a_to_b: bool,
    i: int,
) -> int {
    if i == first {
        search_index
    } else {
        let previous = arrays[i - 1].start_tick_index as int;
        if a_to_b {
            previous - 1
        } else {
            previous + TICK_ARRAY_SIZE * tick_spacing - 1
        }
    }
}

/// Whether `array` reaches the bound of the representable range in the search's
/// direction.
pub open spec fn reaches_bound(array: TickArray, tick_spacing: int, a_to_b: bool) -> bool {
    if a_to_b {
        array.start_tick_index <= MIN_TICK_INDEX
    } else {
        array.start_tick_index + TICK_ARRAY_SIZE * tick_spacing > MAX_TICK_INDEX
    }
}

/// The bound of the representable range in the search's direction.
pub open spec fn range_bound(a_to_b: bool) -> int {
    if a_to_b {
        MIN_TICK_INDEX as int
    } else {
        MAX_TICK_INDEX as int
    }
}

/// Whether array `i` covers the point where the search enters it.
pub open spec fn covers_entry(
    arrays: Seq<TickArray>,
    first: int,
    search_index: int,
    tick_spacing: int,
    a_to_b: bool,
    i: int,
) -> bool {
    crate::tick::in_search_range_spec(
        entry_point(arrays, first, search_index, tick_spacing, a_to_b, i),
        arrays[i].start_tick_index as int,
        tick_spacing,
        !a_to_b,
    )
}

/// Whether the search goes through array `i` without stopping: the array covers its entry
/// point, holds no initialized tick from there on in the search's direction, and does
/// not reach the range's bound.
pub open spec fn passes_through(
    arrays: Seq<TickArray>,
    first: int,
    search_index: int,
    tick_spacing: int,
    a_to_b: bool,
    i: int,
) -> bool {
    &&& covers_entry(arrays, first, search_index, tick_spacing, a_to_b, i)
    &&& arrays[i].next_init_tick(
        entry_point(arrays, first, search_index, tick_spacing, a_to_b, i),
        tick_spacing,
        a_to_b,
    ) is None
    &&& !reaches_bound(arrays[i], tick_spacing, a_to_b)
}

/// Whether the search stops in array `j` at tick `t`: the array covers its entry point,
/// and `t` is the first initialized tick from there in the search's direction, or, where
/// there is none, the array reaches the range's bound and `t` is that bound.
pub open spec fn stops_at(
    arrays: Seq<TickArray>,
    first: int,
    search_index: int,
    tick_spacing: int,
    a_to_b: bool,
    j: int,
    t: int,
) -> bool {
    &&& covers_entry(arrays, first, search_index, tick_spacing, a_to_b, j)
    &&& match arrays[j].next_init_tick(
        entry_point(arrays, first, search_index, tick_spacing, a_to_b, j),
        tick_spacing,
        a_to_b,
    ) {
        Some(found) => t == found,
        None => reaches_bound(arrays[j], tick_spacing, a_to_b) && t == range_bound(a_to_b),
    }
}

/// Whether a search from `search_index` in array `first` finds tick `t` in array `j`: it
/// passes through every array from `first` up to `j`, each one joining the last, and
/// stops in `j` at `t`. So `t` is initialized or a range bound, and no initialized tick
/// lies between the search's start and `t`.
pub open spec fn search_finds(
    arrays: Seq<TickArray>,
    first: int,
    search_index: int,
    tick_spacing: int,
    a_to_b: bool,
    j: int,
    t: int,
) -> bool {
    &&& 0 <= first <= j < arrays.len()
    &&& forall|i: int|
        first <= i < j ==> #[trigger] passes_through(
            arrays,
            first,
            search_index,
            tick_spacing,
            a_to_b,
            i,
        )
    &&& stops_at(arrays, first, search_index, tick_spacing, a_to_b, j, t)
}

/// The array given, if any, as a sequence.
pub open spec fn optional_array(a: Option<TickArray>) -> Seq<TickArray> {
    match a {
        Some(a) => seq![a],
        None => Seq::empty(),
    }
}

/// The tick arrays that one swap walks through, in the swap's direction.
pub struct SwapTickSequence {
    pub arrays: Vec<TickArray>,
}

impl SwapTickSequence {
    /// Every array holds `TICK_ARRAY_SIZE` ticks.
    pub open spec fn wf(&self) -> bool {
        forall|i: int| 0 <= i < self.arrays@.len() ==> (#[trigger] self.arrays@[i]).wf()
    }

    /// A sequence of the first array and those of the two others that are given.
    pub fn new(ta0: TickArray, ta1: Option<TickArray>, ta2: Option<TickArray>) -> (r: SwapTickSequence)
        requires
            ta0.wf(),
            ta1 matches Some(a) ==> a.wf(),
            ta2 matches Some(a) ==> a.wf(),
        ensures
            r.wf(),
            r.arrays@.len() >= 1,
            r.arrays@[0] == ta0,
            r.arrays@ == seq![ta0] + optional_array(ta1) + optional_array(ta2),
    {
        let ghost expected = seq![ta0] + optional_array(ta1) + optional_array(ta2);
        let mut arrays: Vec<TickArray> = Vec::new();
        arrays.push(ta0);
        match ta1 {
            Some(a) => arrays.push(a),
            None => {},
        }
        match ta2 {
            Some(a) => arrays.push(a),
            None => {},
        }
        assert(arrays@ =~= expected);
        SwapTickSequence { arrays }
    }

    /// The tick at `tick_index` of array `array_index`. Fails with
    /// `InvalidTickArraySequence` past the last array, and else as `TickArray::get_tick`
    /// does.
    pub fn get_tick(&self, array_index: usize, tick_index: i32, tick_spacing: u16) -> (r: Result<
        Tick,
        ErrorCode,
    >)
        requires
            self.wf(),
        ensures
            array_index >= self.arrays@.len() ==> r == Err::<Tick, ErrorCode>(
                ErrorCode::InvalidTickArraySequence,
            ),
            array_index < self.arrays@.len() ==> {
                let array = self.arrays@[array_index as int];
                &&& !array.holds_tick(tick_index as int, tick_spacing as int) ==> r == Err::<
                    Tick,
                    ErrorCode,
                >(ErrorCode::TickNotFound)
                &&& array.holds_tick(tick_index as int, tick_spacing as int) ==> r == Ok::<
                    Tick,
                    ErrorCode,
                >(
                    crate::settlement::tick_at(array, tick_index as int, tick_spacing as int),
                )
            },
    {
        if array_index >= self.arrays.len() {
            return Err(ErrorCode::InvalidTickArraySequence);
        }
        self.arrays[array_index].get_tick(tick_index, tick_spacing)
    }

    /// Replaces the tick at `tick_index` of array `array_index` with `tick`. Fails, changing
    /// nothing, with `InvalidTickArraySequence` past the last array, and else as
    /// `TickArray::update_tick` does.
    pub fn update_tick(&mut self, array_index: usize, tick_index: i32, tick_spacing: u16, tick: Tick) -> (r:
        Result<(), ErrorCode>)
        requires
            old(self).wf(),
        ensures
            final(self).wf(),
            final(self).arrays@.len() == old(self).arrays@.len(),
            array_index >= old(self).arrays@.len() ==> r == Err::<(), ErrorCode>(
                ErrorCode::InvalidTickArraySequence,
            ) && final(self).arrays@ == old(self).arrays@,
            array_index < old(self).arrays@.len() ==> {
                let array = old(self).arrays@[array_index as int];
                let updated = final(self).arrays@[array_index as int];
                &&& forall|i: int|
                    0 <= i < old(self).arrays@.len() && i != array_index
                        ==> #[trigger] final(self).arrays@[i] == old(self).arrays@[i]
                &&& updated.start_tick_index == array.start_tick_index
                &&& updated.yevepool == array.yevepool
                &&& !array.holds_tick(tick_index as int, tick_spacing as int) ==> r == Err::<
                    (),
                    ErrorCode,
                >(ErrorCode::TickNotFound) && updated.ticks@ == array.ticks@
                &&& array.holds_tick(tick_index as int, tick_spacing as int) ==> r == Ok::<
                    (),
                    ErrorCode,
                >(()) && updated.ticks@ == array.ticks@.update(
                    offset_in_array(
                        tick_index as int,
                        array.start_tick_index as int,
                        tick_spacing as int,
                    ),
                    tick,
                )
            },
    {
        if array_index >= self.arrays.len() {
            return Err(ErrorCode::InvalidTickArraySequence);
        }
        let mut array = self.arrays.remove(array_index);
        let r = array.update_tick(tick_index, tick_spacing, tick);
        self.arrays.insert(array_index, array);
        proof {
            assert forall|i: int|
                0 <= i < old(self).arrays@.len() && i != array_index implies #[trigger] self.arrays@[i]
                == old(self).arrays@[i] by {}
        }
        r
    }

    /// Moves the price across the tick at `tick_index` of array `array_index`: the pool's
    /// `liquidity` takes the tick's net liquidity (added going up, taken away going down,
    /// `a_to_b`), and the tick's growths outside are flipped against the global ones.
    /// Returns the new liquidity. Fails, changing nothing, where the tick cannot be read,
    /// and with `LiquidityUnderflow` or `LiquidityOverflow` where the liquidity leaves the
    /// range of `u128`.
    pub fn cross_tick(
        &mut self,
        array_index: usize,
        tick_index: i32,
        tick_spacing: u16,
        a_to_b: bool,
        liquidity: u128,
        fee_growth_global_a: u128,
        fee_growth_global_b: u128,
        reward_infos: &[YevepoolRewardInfo; NUM_REWARDS],
    ) -> (r: Result<u128, ErrorCode>)
        requires
            old(self).wf(),
        ensures
            final(self).wf(),
            array_index >= old(self).arrays@.len() ==> r == Err::<u128, ErrorCode>(
                ErrorCode::InvalidTickArraySequence,
            ),
            array_index < old(self).arrays@.len() && !old(self).arrays@[array_index as int].holds_tick(
                tick_index as int,
                tick_spacing as int,
            ) ==> r == Err::<u128, ErrorCode>(ErrorCode::TickNotFound),
            r is Err ==> final(self).arrays@ == old(self).arrays@,
            array_index < old(self).arrays@.len() && old(self).arrays@[array_index as int].holds_tick(
                tick_index as int,
                tick_spacing as int,
            ) ==> {
                let array = old(self).arrays@[array_index as int];
                let k = offset_in_array(
                    tick_index as int,
                    array.start_tick_index as int,
                    tick_spacing as int,
                );
                let tick = array.ticks@[k];
                let sum = if a_to_b {
                    liquidity - tick.liquidity_net
                } else {
                    liquidity + tick.liquidity_net
                };
                &&& sum < 0 ==> r == Err::<u128, ErrorCode>(ErrorCode::LiquidityUnderflow)
                &&& sum > u128::MAX ==> r == Err::<u128, ErrorCode>(ErrorCode::LiquidityOverflow)
                &&& 0 <= sum <= u128::MAX ==> {
                    let crossed = final(self).arrays@[array_index as int].ticks@[k];
                    &&& r == Ok::<u128, ErrorCode>(sum as u128)
                    &&& final(self).arrays@.len() == old(self).arrays@.len()
                    &&& forall|i: int|
                        0 <= i < old(self).arrays@.len() && i != array_index
                            ==> #[trigger] final(self).arrays@[i] == old(self).arrays@[i]
                    &&& final(self).arrays@[array_index as int].start_tick_index
                        == array.start_tick_index
                    &&& final(self).arrays@[array_index as int].ticks@ == array.ticks@.update(
                        k,
                        crossed,
                    )
                    &&& crossed.initialized == tick.initialized
                    &&& crossed.liquidity_net == tick.liquidity_net
                    &&& crossed.liquidity_gross == tick.liquidity_gross
                    &&& crossed.fee_growth_outside_a == wrap_growth(
                        fee_growth_global_a - tick.fee_growth_outside_a,
                    )
                    &&& crossed.fee_growth_outside_b == wrap_growth(
                        fee_growth_global_b - tick.fee_growth_outside_b,
                    )
                    &&& forall|i: int|
                        0 <= i < NUM_REWARDS ==> #[trigger] crossed.reward_growths_outside@[i]
                            == wrap_growth(
                            reward_infos@[i].growth_global_x64 - tick.reward_growths_outside@[i],
                        )
                }
            },
    {
        let tick = match self.get_tick(array_index, tick_index, tick_spacing) {
            Ok(t) => t,
            Err(e) => return Err(e),
        };
        proof {
            self.arrays@[array_index as int].lemma_held_offset(tick_index as int, tick_spacing as int);
        }
        let next_liquidity = match next_liquidity_after_cross(liquidity, tick.liquidity_net, a_to_b) {
            Ok(v) => v,
            Err(e) => return Err(e),
        };
        let crossed = next_tick_cross_update(&tick, fee_growth_global_a, fee_growth_global_b, reward_infos);
        match self.update_tick(array_index, tick_index, tick_spacing, crossed) {
            Ok(()) => {},
            Err(e) => return Err(e),
        }
        Ok(next_liquidity)
    }

    /// The next initialized tick from `tick_index` in the swap's direction, searching
    /// from array `start_array_index` on, with the index of the array that holds it, or
    /// the range's bound where the search reaches it first (see `search_finds`). Fails
    /// with `InvalidTickArraySequence` where the arrays run out, or stop joining one
    /// another, before either is found.
    pub fn get_next_initialized_tick_index(
        &self,
        tick_index: i32,
        tick_spacing: u16,
        a_to_b: bool,
        start_array_index: usize,
    ) -> (r: Result<(usize, i32), ErrorCode>)
        requires
            self.wf(),
        ensures
            r matches Ok((j, t)) ==> search_finds(
                self.arrays@,
                start_array_index as int,
                tick_index as int,
                tick_spacing as int,
                a_to_b,
                j as int,
                t as int,
            ),
            r is Err ==> r == Err::<(usize, i32), ErrorCode>(ErrorCode::InvalidTickArraySequence)
                && forall|j: int, t: int|
                !search_finds(
                    self.arrays@,
                    start_array_index as int,
                    tick_index as int,
                    tick_spacing as int,
                    a_to_b,
                    j,
                    t,
                ),
    {
        let ghost arrays = self.arrays@;
        let ghost first = start_array_index as int;
        let ghost spacing = tick_spacing as int;
        let mut search_index: i32 = tick_index;
        let mut array_index: usize = start_array_index;
        loop
            invariant
                self.wf(),
                arrays == self.arrays@,
                first == start_array_index,
                spacing == tick_spacing,
                start_array_index <= array_index,
                array_index > start_array_index ==> array_index <= self.arrays@.len(),
                search_index as int == entry_point(
                    arrays,
                    first,
                    tick_index as int,
                    spacing,
                    a_to_b,
                    array_index as int,
                ),
                forall|i: int|
                    first <= i < array_index ==> #[trigger] passes_through(
                        arrays,
                        first,
                        tick_index as int,
                        spacing,
                        a_to_b,
                        i,
                    ),
            decreases self.arrays@.len() - array_index,
        {
            if array_index >= self.arrays.len() {
                proof {
                    self.lemma_no_result_from(tick_index as int, spacing, a_to_b, first, array_index as int);
                }
                return Err(ErrorCode::InvalidTickArraySequence);
            }
            let next_array = &self.arrays[array_index];
            let next_index = match next_array.get_next_init_tick_index(
                search_index,
                tick_spacing,
                a_to_b,
            ) {
                Ok(v) => v,
                Err(e) => {
                    proof {
                        self.lemma_no_result_from(tick_index as int, spacing, a_to_b, first, array_index as int);
                    }
                    return Err(e);
                },
            };
            match next_index {
                Some(t) => {
                    return Ok((array_index, t));
                },
                None => {
                    if a_to_b && next_array.is_min_tick_array() {
                        return Ok((array_index, MIN_TICK_INDEX));
                    } else if !a_to_b && next_array.is_max_tick_array(tick_spacing) {
                        return Ok((array_index, MAX_TICK_INDEX));
                    }
                    let start = next_array.start_tick_index as i64;
                    let span = (TICK_ARRAY_SIZE as i64) * (tick_spacing as i64);
                    search_index = if a_to_b {
                        (start - 1) as i32
                    } else {
                        (start + span - 1) as i32
                    };
                    array_index = array_index + 1;
                },
            }
        }
    }

    /// Where the search passes through arrays `first..i` and cannot go on at array `i`
    /// (there is none, or it does not cover its entry point), it finds nothing.
    proof fn lemma_no_result_from(&self, search_index: int, tick_spacing: int, a_to_b: bool, first: int, i: int)
        requires
            first <= i,
            forall|k: int|
                first <= k < i ==> #[trigger] passes_through(
                    self.arrays@,
                    first,
                    search_index,
                    tick_spacing,
                    a_to_b,
                    k,
                ),
            i >= self.arrays@.len() || !covers_entry(
                self.arrays@,
                first,
                search_index,
                tick_spacing,
                a_to_b,
                i,
            ),
        ensures
            forall|j: int, t: int|
                !search_finds(self.arrays@, first, search_index, tick_spacing, a_to_b, j, t),
    {
        assert forall|j: int, t: int|
            !search_finds(self.arrays@, first, search_index, tick_spacing, a_to_b, j, t) by {
            if search_finds(self.arrays@, first, search_index, tick_spacing, a_to_b, j, t) {
                if j < i {
                    assert(passes_through(self.arrays@, first, search_index, tick_spacing, a_to_b, j));
                } else if j > i {
                    assert(passes_through(self.arrays@, first, search_index, tick_spacing, a_to_b, i));
                }
            }
        }
    }
}

} // verus!
