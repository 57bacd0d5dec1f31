use vstd::prelude::*;

use vstd::arithmetic::power2::{
    lemma2_to64, lemma_pow2_strictly_increases, lemma_pow2_unfold, pow2,
};

use crate::math::q64;
use crate::tick::{MAX_TICK_INDEX, MIN_TICK_INDEX};

verus! {

/// Number of bits of a tick index's magnitude.
pub const TICK_INDEX_BITS: u32 = 19;

/// The square-root price of `MIN_TICK_INDEX`, Q64.64.
pub const MIN_SQRT_PRICE_X64: u128 = 4295048016;

/// The square-root price of `MAX_TICK_INDEX`, Q64.64.
pub const MAX_SQRT_PRICE_X64: u128 = 79226673521066979257578248091;

/// `2^64 / sqrt(1.0001)^(2^k)` rounded down: the Q64.64 factor by which bit `k` of a
/// tick's magnitude moves the square-root price down.
pub open spec fn tick_factor(k: int) -> int {
    if k == 0 {
        0xfffcb933bd6fad37
    } else if k == 1 {
        0xfff97272373d4132
    } else if k == 2 {
        0xfff2e50f5f656932
    } else if k == 3 {
        0xffe5caca7e10e4e6
    } else if k == 4 {
        0xffcb9843d60f6159
    } else if k == 5 {
        0xff973b41fa98c081
    } else if k == 6 {
        0xff2ea16466c96a38
    } else if k == 7 {
        0xfe5dee046a99a2a8
    } else if k == 8 {
        0xfcbe86c7900a88ae
    } else if k == 9 {
        0xf987a7253ac41317
    } else if k == 10 {
        0xf3392b0822b70005
    } else if k == 11 {
        0xe7159475a2c29b74
    } else if k == 12 {
        0xd097f3bdfd2022b8
    } else if k == 13 {
        0xa9f746462d870fdf
    } else if k == 14 {
        0x70d869a156d2a1b8
    } else if k == 15 {
        0x31be135f97d08fd9
    } else if k == 16 {
        0x9aa508b5b7a84e1
    } else if k == 17 {
        0x5d6af8dedb8119
    } else if k == 18 {
        0x2216e584f5fa
    } else {
        0
    }
}

/// The Q64.64 factor `sqrt(1.0001)^(-m)` built from bits `0..k` of `m`, each step rounded
/// down.
pub open spec fn tick_ratio(m: int, k: nat) -> int
    decreases k,
{
    if k == 0 {
        q64()
    } else {
        let r = tick_ratio(m, (k - 1) as nat);
        if (m / pow2((k - 1) as nat) as int) % 2 == 1 {
            r * tick_factor(k - 1) / q64()
        } else {
            r
        }
    }
}

/// The square-root price of a tick, Q64.64: `sqrt(1.0001)^tick` scaled by 2^64. Negative
/// ticks take the product of the factors of their magnitude's bits; positive ones its
/// reciprocal, `(2^128 - 1) / ratio`.
pub open spec fn sqrt_price_at_tick(tick: int) -> int {
    let m = if tick < 0 {
        -tick
    } else {
        tick
    };
    let r = tick_ratio(m, TICK_INDEX_BITS as nat);
    if tick > 0 {
        if r == 0 {
            u128::MAX as int
        } else {
            (u128::MAX as int) / r
        }
    } else {
        r
    }
}

/// `MIN_SQRT_PRICE_X64` and `MAX_SQRT_PRICE_X64` are the prices of the bounding ticks.
pub proof fn lemma_sqrt_price_bounds()
    ensures
        sqrt_price_at_tick(MIN_TICK_INDEX as int) == MIN_SQRT_PRICE_X64,
        sqrt_price_at_tick(MAX_TICK_INDEX as int) == MAX_SQRT_PRICE_X64,
{
    lemma2_to64();
    assert(tick_ratio(443636, 0) == q64());
    assert(tick_ratio(443636, 1) == 18446744073709551616) by {
        assert((443636int / pow2(0) as int) % 2 == 0);
    }
    assert(tick_ratio(443636, 2) == 18446744073709551616) by {
        assert((443636int / pow2(1) as int) % 2 == 0);
    }
    assert(tick_ratio(443636, 3) == 18443055278223354162) by {
        assert((443636int / pow2(2) as int) % 2 == 1);
    }
    assert(tick_ratio(443636, 4) == 18443055278223354162) by {
        assert((443636int / pow2(3) as int) % 2 == 0);
    }
    assert(tick_ratio(443636, 5) == 18428307471288117479) by {
        assert((443636int / pow2(4) as int) % 2 == 1);
    }
    assert(tick_ratio(443636, 6) == 18398847226801858501) by {
        assert((443636int / pow2(5) as int) % 2 == 1);
    }
    assert(tick_ratio(443636, 7) == 18340067951587015306) by {
        assert((443636int / pow2(6) as int) % 2 == 1);
    }
    assert(tick_ratio(443636, 8) == 18223072152272561885) by {
        assert((443636int / pow2(7) as int) % 2 == 1);
    }
    assert(tick_ratio(443636, 9) == 18223072152272561885) by {
        assert((443636int / pow2(8) as int) % 2 == 0);
    }
    assert(tick_ratio(443636, 10) == 18223072152272561885) by {
        assert((443636int / pow2(9) as int) % 2 == 0);
    }
    assert(tick_ratio(443636, 11) == 17313578044587773368) by {
        assert((443636int / pow2(10) as int) % 2 == 1);
    }
    assert(tick_ratio(443636, 12) == 17313578044587773368) by {
        assert((443636int / pow2(11) as int) % 2 == 0);
    }
    assert(tick_ratio(443636, 13) == 17313578044587773368) by {
        assert((443636int / pow2(12) as int) % 2 == 0);
    }
    assert(tick_ratio(443636, 14) == 17313578044587773368) by {
        assert((443636int / pow2(13) as int) % 2 == 0);
    }
    assert(tick_ratio(443636, 15) == 7631863196526440527) by {
        assert((443636int / pow2(14) as int) % 2 == 1);
    }
    assert(tick_ratio(443636, 16) == 1482921196045045371) by {
        assert((443636int / pow2(15) as int) % 2 == 1);
    }
    assert(tick_ratio(443636, 17) == 1482921196045045371) by {
        assert((443636int / pow2(16) as int) % 2 == 0);
    }
    assert(tick_ratio(443636, 18) == 2113820261052536) by {
        assert((443636int / pow2(17) as int) % 2 == 1);
    }
    assert(tick_ratio(443636, 19) == 4295048016) by {
        assert((443636int / pow2(18) as int) % 2 == 1);
    }
}

fn tick_factor_exec(k: u32) -> (r: u128)
    requires
        k < TICK_INDEX_BITS,
    ensures
        r == tick_factor(k as int),
        r < q64(),
{
    match k {
        0 => 0xfffcb933bd6fad37,
        1 => 0xfff97272373d4132,
        2 => 0xfff2e50f5f656932,
        3 => 0xffe5caca7e10e4e6,
        4 => 0xffcb9843d60f6159,
        5 => 0xff973b41fa98c081,
        6 => 0xff2ea16466c96a38,
        7 => 0xfe5dee046a99a2a8,
        8 => 0xfcbe86c7900a88ae,
        9 => 0xf987a7253ac41317,
        10 => 0xf3392b0822b70005,
        11 => 0xe7159475a2c29b74,
        12 => 0xd097f3bdfd2022b8,
        13 => 0xa9f746462d870fdf,
        14 => 0x70d869a156d2a1b8,
        15 => 0x31be135f97d08fd9,
        16 => 0x9aa508b5b7a84e1,
        17 => 0x5d6af8dedb8119,
        18 => 0x2216e584f5fa,
        _ => 0,
    }
}

/// The square-root price of `tick`, Q64.64.
pub fn sqrt_price_from_tick_index(tick: i32) -> (r: u128)
    requires
        MIN_TICK_INDEX <= tick <= MAX_TICK_INDEX,
    ensures
        r == sqrt_price_at_tick(tick as int),
{
    let m: u32 = if tick < 0 {
        (-tick) as u32
    } else {
        tick as u32
    };
    let mut ratio: u128 = 0x1_0000_0000_0000_0000;
    let mut bit: u32 = 1;
    let mut k: u32 = 0;
    proof {
        lemma2_to64();
    }
    while k < TICK_INDEX_BITS
        invariant
            k <= TICK_INDEX_BITS,
            m as int == if tick < 0 { -tick } else { tick as int },
            bit as int == pow2(k as nat),
            ratio == tick_ratio(m as int, k as nat),
            ratio <= q64(),
            bit > 0,
        decreases TICK_INDEX_BITS - k,
    {
        let factor = tick_factor_exec(k);
        if (m / bit) % 2 == 1 {
            proof {
                assert(ratio * factor <= q64() * q64()) by (nonlinear_arith)
                    requires ratio <= q64(), factor < q64(), 0 <= ratio, 0 <= factor;
                assert(ratio * factor / q64() <= ratio) by (nonlinear_arith)
                    requires factor < q64(), 0 <= ratio, 0 <= factor;
            }
            ratio = ratio * factor / 0x1_0000_0000_0000_0000;
        }
        proof {
            lemma_pow2_unfold((k + 1) as nat);
            lemma_pow2_strictly_increases(k as nat, TICK_INDEX_BITS as nat);
            lemma2_to64();
        }
        bit = bit * 2;
        k = k + 1;
    }
    if tick > 0 {
        if ratio == 0 {
            u128::MAX
        } else {
            u128::MAX / ratio
        }
    } else {
        ratio
    }
}

/// The tick of a square-root price: the greatest tick whose price is at most
/// `sqrt_price`, so that going back to a price lands at or below it and within one tick.
pub fn tick_index_from_sqrt_price(sqrt_price: u128) -> (r: i32)
    requires
        MIN_SQRT_PRICE_X64 <= sqrt_price <= MAX_SQRT_PRICE_X64,
    ensures
        MIN_TICK_INDEX <= r <= MAX_TICK_INDEX,
        sqrt_price_at_tick(r as int) <= sqrt_price,
        r < MAX_TICK_INDEX ==> sqrt_price < sqrt_price_at_tick(r + 1),
{
    proof {
        lemma_sqrt_price_bounds();
    }
    if sqrt_price_from_tick_index(MAX_TICK_INDEX) <= sqrt_price {
        return MAX_TICK_INDEX;
    }
    let mut lo: i32 = MIN_TICK_INDEX;
    let mut hi: i32 = MAX_TICK_INDEX;
    while hi - lo > 1
        invariant
            MIN_TICK_INDEX <= lo < hi <= MAX_TICK_INDEX,
            sqrt_price_at_tick(lo as int) <= sqrt_price,
            sqrt_price < sqrt_price_at_tick(hi as int),
        decreases hi - lo,
    {
        let mid = lo + (hi - lo) / 2;
        if sqrt_price_from_tick_index(mid) <= sqrt_price {
            lo = mid;
        } else {
            hi = mid;
        }
    }
    lo
}

} // verus!
