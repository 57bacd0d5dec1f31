use vstd::prelude::*;

use vstd::arithmetic::div_mod::{
    lemma_div_is_ordered, lemma_fundamental_div_mod, lemma_hoist_over_denominator,
    lemma_mod_multiples_basic,
};

use crate::errors::ErrorCode;
use crate::pubkey::Pubkey;
use crate::yevepool::NUM_REWARDS;

verus! {

/// Number of ticks held by one tick array.
pub const TICK_ARRAY_SIZE: i32 = 88;

/// `TICK_ARRAY_SIZE` as a length.
pub const TICK_ARRAY_SIZE_USIZE: usize = 88;

/// The greatest tick index whose price can be represented.
pub const MAX_TICK_INDEX: i32 = 443636;

/// The least tick index whose price can be represented.
pub const MIN_TICK_INDEX: i32 = -443636;

/// One point of the price axis: the liquidity that starts or ends there and the growth
/// recorded on the side of it away from the current price.
#[derive(Debug, Clone, Copy, PartialEq, Eq)]
pub struct Tick {
    /// Whether any position has a bound here.
    pub initialized: bool,
    /// Liquidity added to the pool when the price crosses this tick upward.
    pub liquidity_net: i128,
    /// Total liquidity of the positions with a bound here.
    pub liquidity_gross: u128,
    /// Fee growth of token A on the far side of this tick, Q64.64, modulo 2^128.
    pub fee_growth_outside_a: u128,
    /// Fee growth of token B on the far side of this tick, Q64.64, modulo 2^128.
    pub fee_growth_outside_b: u128,
    /// Reward growth of each slot on the far side of this tick, Q64.64, modulo 2^128.
    pub reward_growths_outside: [u128; NUM_REWARDS],
}

/// Whether a tick index lies outside the representable range.
pub open spec fn tick_out_of_bounds(tick_index: int) -> bool {
    tick_index > MAX_TICK_INDEX || tick_index < MIN_TICK_INDEX
}

/// Whether a position may have a bound at `tick_index`: in range and a multiple of the
/// spacing.
pub open spec fn usable_tick(tick_index: int, tick_spacing: int) -> bool {
    !tick_out_of_bounds(tick_index) && tick_spacing > 0 && tick_index % tick_spacing == 0
}

/// A number and its negation are divisible by the same positive numbers.
proof fn lemma_divisible_neg(x: int, s: int)
    requires
        s > 0,
    ensures
        (x % s == 0) == ((-x) % s == 0),
{
    lemma_fundamental_div_mod(x, s);
    lemma_fundamental_div_mod(-x, s);
    if x % s == 0 {
        lemma_mod_multiples_basic(-(x / s), s);
        assert(-x == (-(x / s)) * s) by (nonlinear_arith)
            requires x == s * (x / s) + 0;
    }
    if (-x) % s == 0 {
        lemma_mod_multiples_basic(-((-x) / s), s);
        assert(x == (-((-x) / s)) * s) by (nonlinear_arith)
            requires -x == s * ((-x) / s) + 0;
    }
}

impl Tick {
    /// A tick is in use exactly when some liquidity references it.
    pub open spec fn wf(&self) -> bool {
        self.initialized == (self.liquidity_gross > 0)
    }

    /// A tick that no position uses.
    pub open spec fn is_blank(&self) -> bool {
        &&& !self.initialized
        &&& self.liquidity_net == 0
        &&& self.liquidity_gross == 0
        &&& self.fee_growth_outside_a == 0
        &&& self.fee_growth_outside_b == 0
        &&& forall|i: int| 0 <= i < NUM_REWARDS ==> self.reward_growths_outside@[i] == 0
    }

    /// A tick that no position uses.
    pub fn new() -> (r: Tick)
        ensures
            r.is_blank(),
            r.wf(),
    {
        Tick {
            initialized: false,
            liquidity_net: 0,
            liquidity_gross: 0,
            fee_growth_outside_a: 0,
            fee_growth_outside_b: 0,
            reward_growths_outside: [0u128, 0u128, 0u128],
        }
    }

    /// Whether `tick_index` lies outside the representable range.
    pub fn check_is_out_of_bounds(tick_index: i32) -> (r: bool)
        ensures
            r == tick_out_of_bounds(tick_index as int),
    {
        tick_index > MAX_TICK_INDEX || tick_index < MIN_TICK_INDEX
    }

    /// Whether a position may have a bound at `tick_index` in a pool of `tick_spacing`.
    pub fn check_is_usable_tick(tick_index: i32, tick_spacing: u16) -> (r: bool)
        ensures
            r == usable_tick(tick_index as int, tick_spacing as int),
    {
        if Tick::check_is_out_of_bounds(tick_index) || tick_spacing == 0 {
            return false;
        }
        let spacing = tick_spacing as i32;
        let magnitude: i32 = if tick_index < 0 { -tick_index } else { tick_index };
        let r = magnitude % spacing == 0;
        proof {
            lemma_divisible_neg(tick_index as int, spacing as int);
        }
        r
    }
}

impl Default for Tick {
    fn default() -> (r: Tick)
        ensures
            r.is_blank(),
    {
        Tick::new()
    }
}

} // verus!

verus! {

/// Which slot of an array starting at `start` holds `tick_index`: the floor of
/// `(tick_index - start) / tick_spacing`.
pub open spec fn offset_in_array(tick_index: int, start: int, tick_spacing: int) -> int {
    (tick_index - start) / tick_spacing
}

/// Whether `tick_index` lies in the span of ticks that an array starting at `start` covers,
/// moved down by one spacing when `shifted`.
pub open spec fn in_search_range_spec(
    tick_index: int,
    start: int,
    tick_spacing: int,
    shifted: bool,
) -> bool {
    let lower = if shifted {
        start - tick_spacing
    } else {
        start
    };
    lower <= tick_index < lower + TICK_ARRAY_SIZE * tick_spacing
}

/// Floor division by a positive number, written for negative numerators through the
/// division of their magnitude.
proof fn lemma_floor_div_neg(x: int, s: int)
    requires
        x < 0,
        s > 0,
    ensures
        x / s == -((-x + s - 1) / s),
{
    lemma_fundamental_div_mod(x, s);
    lemma_fundamental_div_mod(-x + s - 1, s);
    let q1 = x / s;
    let q2 = (-x + s - 1) / s;
    let r1 = x % s;
    let r2 = (-x + s - 1) % s;
    assert(s * (q1 + q2) == s - 1 - r1 - r2) by (nonlinear_arith)
        requires x == s * q1 + r1, -x + s - 1 == s * q2 + r2;
    assert(q1 + q2 == 0) by (nonlinear_arith)
        requires s * (q1 + q2) == s - 1 - r1 - r2, 0 <= r1 < s, 0 <= r2 < s;
}

/// The width, in ticks, of an array at `tick_spacing`.
fn array_span(tick_spacing: u16) -> (r: i64)
    ensures
        r == TICK_ARRAY_SIZE * tick_spacing,
        0 <= r <= TICK_ARRAY_SIZE * 65535,
{
    proof {
        assert(0 <= TICK_ARRAY_SIZE * (tick_spacing as int) <= TICK_ARRAY_SIZE * 65535) by (nonlinear_arith)
            requires 0 <= tick_spacing <= 65535;
    }
    (TICK_ARRAY_SIZE as i64) * (tick_spacing as i64)
}

/// Whether an array of `tick_spacing` may start at `start`: a multiple of the array's
/// width, no higher than the greatest tick, and reaching above the least.
pub open spec fn valid_start_tick(start: int, tick_spacing: int) -> bool {
    &&& tick_spacing > 0
    &&& start % (TICK_ARRAY_SIZE * tick_spacing) == 0
    &&& start <= MAX_TICK_INDEX
    &&& start + TICK_ARRAY_SIZE * tick_spacing > MIN_TICK_INDEX
}

/// `TICK_ARRAY_SIZE` consecutive usable ticks of one pool, from `start_tick_index` up by
/// the pool's spacing.
#[derive(Debug, PartialEq, Eq)]
pub struct TickArray {
    /// Index of the first tick, a multiple of `TICK_ARRAY_SIZE` times the spacing.
    pub start_tick_index: i32,
    /// The ticks, in order.
    pub ticks: Vec<Tick>,
    /// The pool that the array belongs to.
    pub yevepool: Pubkey,
}

impl TickArray {
    /// The array holds exactly `TICK_ARRAY_SIZE` ticks, and starts no further from the
    /// representable range than one array of the widest spacing.
    pub open spec fn wf(&self) -> bool {
        &&& self.ticks@.len() == TICK_ARRAY_SIZE
        &&& MIN_TICK_INDEX - TICK_ARRAY_SIZE * 65535 <= self.start_tick_index <= MAX_TICK_INDEX
    }

    /// An array of blank ticks.
    pub fn new(start_tick_index: i32, yevepool: Pubkey) -> (r: TickArray)
        requires
            MIN_TICK_INDEX - TICK_ARRAY_SIZE * 65535 <= start_tick_index <= MAX_TICK_INDEX,
        ensures
            r.wf(),
            r.start_tick_index == start_tick_index,
            r.yevepool == yevepool,
            forall|i: int| 0 <= i < TICK_ARRAY_SIZE ==> (#[trigger] r.ticks@[i]).is_blank(),
    {
        let mut ticks: Vec<Tick> = Vec::new();
        let mut i: usize = 0;
        while i < TICK_ARRAY_SIZE_USIZE
            invariant
                0 <= i <= TICK_ARRAY_SIZE_USIZE,
                ticks@.len() == i,
                forall|j: int| 0 <= j < i ==> (#[trigger] ticks@[j]).is_blank(),
            decreases TICK_ARRAY_SIZE_USIZE - i,
        {
            ticks.push(Tick::new());
            i = i + 1;
        }
        TickArray { start_tick_index, ticks, yevepool }
    }

    /// An array of blank ticks for a pool of `tick_spacing`, starting at
    /// `start_tick_index`. Fails with `InvalidStartTick` unless the start is a multiple of
    /// the array's width and the array covers some representable tick.
    pub fn initialize(start_tick_index: i32, tick_spacing: u16, yevepool: Pubkey) -> (r: Result<
        TickArray,
        ErrorCode,
    >)
        ensures
            !valid_start_tick(start_tick_index as int, tick_spacing as int) ==> r == Err::<
                TickArray,
                ErrorCode,
            >(ErrorCode::InvalidStartTick),
            valid_start_tick(start_tick_index as int, tick_spacing as int) ==> (r matches Ok(a)
                && a.wf() && a.start_tick_index == start_tick_index && a.yevepool == yevepool
                && forall|i: int| 0 <= i < TICK_ARRAY_SIZE ==> (#[trigger] a.ticks@[i]).is_blank()),
    {
        if tick_spacing == 0 {
            return Err(ErrorCode::InvalidStartTick);
        }
        let span = array_span(tick_spacing);
        let start = start_tick_index as i64;
        if start > MAX_TICK_INDEX as i64 || start + span <= MIN_TICK_INDEX as i64 {
            return Err(ErrorCode::InvalidStartTick);
        }
        let magnitude: i64 = if start < 0 { -start } else { start };
        proof {
            lemma_divisible_neg(start as int, span as int);
        }
        if magnitude % span != 0 {
            return Err(ErrorCode::InvalidStartTick);
        }
        Ok(TickArray::new(start_tick_index, yevepool))
    }

    /// Whether `tick_index` lies in the span of ticks that this array covers.
    pub fn check_in_array_bounds(&self, tick_index: i32, tick_spacing: u16) -> (r: bool)
        ensures
            r == in_search_range_spec(
                tick_index as int,
                self.start_tick_index as int,
                tick_spacing as int,
                false,
            ),
    {
        self.in_search_range(tick_index, tick_spacing, false)
    }

    /// Whether this array reaches the least representable tick.
    pub fn is_min_tick_array(&self) -> (r: bool)
        ensures
            r == (self.start_tick_index <= MIN_TICK_INDEX),
    {
        self.start_tick_index <= MIN_TICK_INDEX
    }

    /// Whether this array reaches past the greatest representable tick.
    pub fn is_max_tick_array(&self, tick_spacing: u16) -> (r: bool)
        ensures
            r == (self.start_tick_index + TICK_ARRAY_SIZE * tick_spacing > MAX_TICK_INDEX),
    {
        (self.start_tick_index as i64) + array_span(tick_spacing) > MAX_TICK_INDEX as i64
    }

    /// Whether `tick_index` lies in the span covered, moved down by one spacing when
    /// `shifted`.
    pub fn in_search_range(&self, tick_index: i32, tick_spacing: u16, shifted: bool) -> (r: bool)
        ensures
            r == in_search_range_spec(
                tick_index as int,
                self.start_tick_index as int,
                tick_spacing as int,
                shifted,
            ),
    {
        let mut lower = self.start_tick_index as i64;
        if shifted {
            lower = lower - tick_spacing as i64;
        }
        let upper = lower + array_span(tick_spacing);
        (tick_index as i64) >= lower && (tick_index as i64) < upper
    }

    /// The first slot at which a search from `tick_index` begins: the slot holding the
    /// tick when searching down, the one after it when searching up.
    pub open spec fn search_start(&self, tick_index: int, tick_spacing: int, a_to_b: bool) -> int {
        offset_in_array(tick_index, self.start_tick_index as int, tick_spacing) + if a_to_b {
            0int
        } else {
            1int
        }
    }

    /// The greatest slot at or below `k` whose tick is initialized.
    pub open spec fn scan_down(&self, k: int) -> Option<int>
        decreases k + 1,
    {
        if k < 0 || k >= self.ticks@.len() {
            None
        } else if self.ticks@[k].initialized {
            Some(k)
        } else {
            self.scan_down(k - 1)
        }
    }

    /// The least slot at or above `k` whose tick is initialized.
    pub open spec fn scan_up(&self, k: int) -> Option<int>
        decreases self.ticks@.len() - k,
    {
        if k < 0 || k >= self.ticks@.len() {
            None
        } else if self.ticks@[k].initialized {
            Some(k)
        } else {
            self.scan_up(k + 1)
        }
    }

    /// The next initialized tick of this array from `tick_index` in the search's
    /// direction, as `get_next_init_tick_index` finds it.
    pub open spec fn next_init_tick(&self, tick_index: int, tick_spacing: int, a_to_b: bool) -> Option<int> {
        let o = self.search_start(tick_index, tick_spacing, a_to_b);
        let found = if a_to_b {
            self.scan_down(o)
        } else {
            self.scan_up(o)
        };
        match found {
            Some(k) => Some(self.start_tick_index + k * tick_spacing),
            None => None,
        }
    }

    /// Whether no tick in slots `lo..hi` is initialized.
    pub open spec fn none_initialized(&self, lo: int, hi: int) -> bool {
        forall|j: int| lo <= j < hi ==> !(#[trigger] self.ticks@[j]).initialized
    }

    /// The next initialized tick of this array from `tick_index`: at or below it when
    /// `a_to_b`, above it otherwise. `None` when there is none in this array. Fails with
    /// `InvalidTickArraySequence` when the array does not cover the search's start (for an
    /// upward search the span is moved down by one spacing, as the search starts above the
    /// tick).
    pub fn get_next_init_tick_index(&self, tick_index: i32, tick_spacing: u16, a_to_b: bool) -> (r:
        Result<Option<i32>, ErrorCode>)
        requires
            self.wf(),
        ensures
            !in_search_range_spec(
                tick_index as int,
                self.start_tick_index as int,
                tick_spacing as int,
                !a_to_b,
            ) ==> r == Err::<Option<i32>, ErrorCode>(ErrorCode::InvalidTickArraySequence),
            in_search_range_spec(
                tick_index as int,
                self.start_tick_index as int,
                tick_spacing as int,
                !a_to_b,
            ) ==> {
                let o = self.search_start(tick_index as int, tick_spacing as int, a_to_b);
                &&& 0 <= o < TICK_ARRAY_SIZE
                &&& r matches Ok(found)
                &&& found matches Some(t) ==> self.next_init_tick(
                    tick_index as int,
                    tick_spacing as int,
                    a_to_b,
                ) == Some(t as int)
                &&& found is None ==> self.next_init_tick(
                    tick_index as int,
                    tick_spacing as int,
                    a_to_b,
                ) is None
                &&& found matches Some(t) ==> {
                    let k = offset_in_array(
                        t as int,
                        self.start_tick_index as int,
                        tick_spacing as int,
                    );
                    &&& 0 <= k < TICK_ARRAY_SIZE
                    &&& t == self.start_tick_index + k * tick_spacing
                    &&& self.ticks@[k].initialized
                    &&& a_to_b ==> k <= o && self.none_initialized(k + 1, o + 1)
                    &&& !a_to_b ==> o <= k && self.none_initialized(o, k)
                }
                &&& found is None ==> (a_to_b ==> self.none_initialized(0, o + 1)) && (!a_to_b
                    ==> self.none_initialized(o, TICK_ARRAY_SIZE as int))
            },
    {
        if !self.in_search_range(tick_index, tick_spacing, !a_to_b) {
            return Err(ErrorCode::InvalidTickArraySequence);
        }
        let ghost spacing = tick_spacing as int;
        let ghost start = self.start_tick_index as int;
        proof {
            let lower = if a_to_b { start } else { start - spacing };
            lemma_div_is_ordered(0, tick_index - lower, spacing);
            lemma_div_is_ordered(tick_index - lower, TICK_ARRAY_SIZE * spacing - 1, spacing);
            lemma_hoist_over_denominator(tick_index - start, 1, spacing as nat);
            assert((TICK_ARRAY_SIZE * spacing - 1) / spacing < TICK_ARRAY_SIZE) by {
                lemma_fundamental_div_mod(TICK_ARRAY_SIZE * spacing - 1, spacing);
                let q = (TICK_ARRAY_SIZE * spacing - 1) / spacing;
                let m = (TICK_ARRAY_SIZE * spacing - 1) % spacing;
                assert(q < TICK_ARRAY_SIZE) by (nonlinear_arith)
                    requires TICK_ARRAY_SIZE * spacing - 1 == spacing * q + m, 0 <= m, spacing > 0;
            }
        }
        let offset = match self.tick_offset(tick_index, tick_spacing) {
            Ok(v) => v,
            Err(e) => return Err(e),
        };
        let mut curr: i64 = if a_to_b { offset } else { offset + 1 };
        let ghost o = curr as int;
        while 0 <= curr && curr < TICK_ARRAY_SIZE as i64
            invariant
                self.wf(),
                0 <= o < TICK_ARRAY_SIZE,
                o == self.search_start(tick_index as int, spacing, a_to_b),
                in_search_range_spec(tick_index as int, start, spacing, !a_to_b),
                spacing == tick_spacing,
                spacing > 0,
                start == self.start_tick_index,
                -1 <= curr <= TICK_ARRAY_SIZE,
                a_to_b ==> curr <= o && self.none_initialized(curr + 1, o + 1),
                !a_to_b ==> o <= curr && self.none_initialized(o, curr as int),
                a_to_b ==> self.scan_down(o) == self.scan_down(curr as int),
                !a_to_b ==> self.scan_up(o) == self.scan_up(curr as int),
            decreases if a_to_b { curr + 1 } else { TICK_ARRAY_SIZE - curr },
        {
            let idx = curr as usize;
            if self.ticks[idx].initialized {
                proof {
                    assert(0 <= curr * spacing <= TICK_ARRAY_SIZE * 65535) by (nonlinear_arith)
                        requires 0 <= curr < TICK_ARRAY_SIZE, 0 < spacing <= 65535;
                }
                let t = (curr * (tick_spacing as i64) + self.start_tick_index as i64) as i32;
                proof {
                    lemma_hoist_over_denominator(0, curr as int, spacing as nat);
                    assert(curr * spacing == spacing * curr) by (nonlinear_arith);
                }
                return Ok(Some(t));
            }
            curr = if a_to_b { curr - 1 } else { curr + 1 };
        }
        Ok(None)
    }

    /// Whether `tick_index` is a usable tick that this array holds.
    pub open spec fn holds_tick(&self, tick_index: int, tick_spacing: int) -> bool {
        in_search_range_spec(tick_index, self.start_tick_index as int, tick_spacing, false)
            && usable_tick(tick_index, tick_spacing)
    }

    /// The slot of a tick that the array holds lies inside the array.
    pub proof fn lemma_held_offset(&self, tick_index: int, tick_spacing: int)
        requires
            self.holds_tick(tick_index, tick_spacing),
        ensures
            0 <= offset_in_array(tick_index, self.start_tick_index as int, tick_spacing)
                < TICK_ARRAY_SIZE,
    {
        let d = tick_index - self.start_tick_index;
        lemma_div_is_ordered(0, d, tick_spacing);
        lemma_fundamental_div_mod(d, tick_spacing);
        let q = d / tick_spacing;
        let m = d % tick_spacing;
        assert(q < TICK_ARRAY_SIZE) by (nonlinear_arith)
            requires d == tick_spacing * q + m, 0 <= m, d < TICK_ARRAY_SIZE * tick_spacing, tick_spacing > 0;
    }

    /// The tick at `tick_index`. Fails with `TickNotFound` unless the array holds that
    /// tick and it is usable at `tick_spacing`.
    pub fn get_tick(&self, tick_index: i32, tick_spacing: u16) -> (r: Result<Tick, ErrorCode>)
        requires
            self.wf(),
        ensures
            !self.holds_tick(tick_index as int, tick_spacing as int) ==> r == Err::<
                Tick,
                ErrorCode,
            >(ErrorCode::TickNotFound),
            self.holds_tick(tick_index as int, tick_spacing as int) ==> r == Ok::<Tick, ErrorCode>(
                self.ticks@[offset_in_array(
                    tick_index as int,
                    self.start_tick_index as int,
                    tick_spacing as int,
                )],
            ),
    {
        if !self.check_in_array_bounds(tick_index, tick_spacing) || !Tick::check_is_usable_tick(
            tick_index,
            tick_spacing,
        ) {
            return Err(ErrorCode::TickNotFound);
        }
        proof {
            self.lemma_held_offset(tick_index as int, tick_spacing as int);
        }
        let offset = match self.tick_offset(tick_index, tick_spacing) {
            Ok(v) => v,
            Err(e) => return Err(e),
        };
        Ok(self.ticks[offset as usize])
    }

    /// Replaces the tick at `tick_index` with `tick`. Fails with `TickNotFound`, and
    /// changes nothing, unless the array holds that tick and it is usable at
    /// `tick_spacing`.
    pub fn update_tick(&mut self, tick_index: i32, tick_spacing: u16, tick: Tick) -> (r: Result<
        (),
        ErrorCode,
    >)
        requires
            old(self).wf(),
        ensures
            final(self).wf(),
            final(self).start_tick_index == old(self).start_tick_index,
            final(self).yevepool == old(self).yevepool,
            !old(self).holds_tick(tick_index as int, tick_spacing as int) ==> r == Err::<
                (),
                ErrorCode,
            >(ErrorCode::TickNotFound) && final(self).ticks@ == old(self).ticks@,
            old(self).holds_tick(tick_index as int, tick_spacing as int) ==> r == Ok::<(), ErrorCode>(())
                && final(self).ticks@ == old(self).ticks@.update(
                offset_in_array(
                    tick_index as int,
                    old(self).start_tick_index as int,
                    tick_spacing as int,
                ),
                tick,
            ),
    {
        if !self.check_in_array_bounds(tick_index, tick_spacing) || !Tick::check_is_usable_tick(
            tick_index,
            tick_spacing,
        ) {
            return Err(ErrorCode::TickNotFound);
        }
        proof {
            self.lemma_held_offset(tick_index as int, tick_spacing as int);
        }
        let offset = match self.tick_offset(tick_index, tick_spacing) {
            Ok(v) => v,
            Err(e) => return Err(e),
        };
        self.ticks.set(offset as usize, tick);
        Ok(())
    }

    /// The slot that holds `tick_index`, counted from the array's start in spacings and
    /// rounded down. Fails with `InvalidTickSpacing` for a zero spacing.
    pub fn tick_offset(&self, tick_index: i32, tick_spacing: u16) -> (r: Result<i64, ErrorCode>)
        ensures
            tick_spacing == 0 ==> r == Err::<i64, ErrorCode>(ErrorCode::InvalidTickSpacing),
            tick_spacing != 0 ==> r == Ok::<i64, ErrorCode>(
                offset_in_array(
                    tick_index as int,
                    self.start_tick_index as int,
                    tick_spacing as int,
                ) as i64,
            ),
    {
        if tick_spacing == 0 {
            return Err(ErrorCode::InvalidTickSpacing);
        }
        let lhs = (tick_index as i64) - (self.start_tick_index as i64);
        let rhs = tick_spacing as i64;
        if lhs >= 0 {
            Ok(lhs / rhs)
        } else {
            let magnitude = -lhs + rhs - 1;
            proof {
                lemma_floor_div_neg(lhs as int, rhs as int);
                lemma_div_is_ordered(0, magnitude as int, rhs as int);
                lemma_div_is_ordered(magnitude as int, 0x2_0000_0000int, rhs as int);
                assert(0x2_0000_0000int / (rhs as int) <= 0x2_0000_0000int) by (nonlinear_arith)
                    requires rhs >= 1;
            }
            Ok(-(magnitude / rhs))
        }
    }
}

} // verus!
