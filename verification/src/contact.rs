//! The arithmetic of first contact between two edges that move uniformly
//! over one step.
//!
//! A mover's leading edge starts `gap` units short of an obstacle's edge and
//! closes on it by `closing` units over the step, while the obstacle's edge
//! itself travels `velocity` units. Contact happens after the fraction
//! `gap / closing` of the step, when the obstacle's edge has travelled
//! `velocity * gap / closing`. On the grid that quotient is rounded toward
//! zero, so that mirrored situations give mirrored answers.

use vstd::prelude::*;

verus! {

/// `velocity * gap / closing`, rounded toward zero.
pub open spec fn contact_offset(velocity: int, gap: int, closing: int) -> int
    recommends
        0 <= gap <= closing,
        0 < closing,
{
    if velocity >= 0 {
        (velocity * gap) / closing
    } else {
        -(((-velocity) * gap) / closing)
    }
}

/// Largest closing distance that can arise from three `i64` quantities.
pub open spec fn closing_limit() -> int {
    3 * 0x8000_0000_0000_0000int
}

/// For a non-negative dividend and a positive divisor, the quotient is the
/// count of whole divisors that fit in the dividend.
proof fn lemma_quotient_brackets(x: int, d: int)
    requires
        0 <= x,
        0 < d,
    ensures
        0 <= x / d,
        (x / d) * d <= x,
        x < (x / d + 1) * d,
{
    vstd::arithmetic::div_mod::lemma_fundamental_div_mod(x, d);
    vstd::arithmetic::div_mod::lemma_mod_bound(x, d);
    vstd::arithmetic::div_mod::lemma_div_pos_is_pos(x, d);
    assert((x / d) * d == d * (x / d)) by (nonlinear_arith);
    assert((x / d + 1) * d == d * (x / d) + d) by (nonlinear_arith);
}

/// `lemma_quotient_brackets` for a product of non-negative factors.
proof fn lemma_quotient_brackets_of_product(a: int, gap: int, d: int)
    requires
        0 <= a,
        0 <= gap,
        0 < d,
    ensures
        0 <= (a * gap) / d,
        ((a * gap) / d) * d <= a * gap,
        a * gap < ((a * gap) / d + 1) * d,
{
    assert(0 <= a * gap) by (nonlinear_arith)
        requires
            0 <= a,
            0 <= gap,
    ;
    lemma_quotient_brackets(a * gap, d);
}

/// Cancelling a positive factor keeps a weak inequality.
proof fn lemma_cancel_le(p: int, q: int, d: int)
    by (nonlinear_arith)
    requires
        0 < d,
        p * d <= q * d,
    ensures
        p <= q,
{
}

/// Cancelling a positive factor keeps a strict inequality.
proof fn lemma_cancel_lt(p: int, q: int, d: int)
    by (nonlinear_arith)
    requires
        0 < d,
        p * d < q * d,
    ensures
        p < q,
{
}

/// The obstacle's edge never travels further before contact than it does
/// over the whole step, and never backwards.
pub proof fn lemma_contact_offset_within_velocity(velocity: int, gap: int, closing: int)
    requires
        0 <= gap <= closing,
        0 < closing,
    ensures
        velocity >= 0 ==> 0 <= contact_offset(velocity, gap, closing) <= velocity,
        velocity < 0 ==> velocity <= contact_offset(velocity, gap, closing) <= 0,
{
    let a = if velocity >= 0 { velocity } else { -velocity };
    assert(0 <= a * gap <= a * closing) by (nonlinear_arith)
        requires
            0 <= a,
            0 <= gap <= closing,
    ;
    lemma_quotient_brackets(a * gap, closing);
    lemma_cancel_le((a * gap) / closing, a, closing);
}

/// Seen from the mover, contact lies on the way from where it started to
/// where it wants to go: with `travel` the mover's own displacement, so that
/// `closing == travel - velocity`, the mover has covered
/// `gap + contact_offset` at contact, which lies between 0 and `travel`.
pub proof fn lemma_contact_within_travel(velocity: int, gap: int, closing: int, travel: int)
    requires
        0 <= gap <= closing,
        0 < closing,
        closing == travel - velocity,
    ensures
        travel >= 0 ==> 0 <= gap + contact_offset(velocity, gap, closing) <= travel,
        travel < 0 ==> travel <= gap + contact_offset(velocity, gap, closing) <= 0,
{
    lemma_contact_offset_within_velocity(velocity, gap, closing);
    if velocity < 0 {
        let a = -velocity;
        let q = (a * gap) / closing;
        lemma_quotient_brackets_of_product(a, gap, closing);
        if travel >= 0 {
            // a <= closing, so q <= gap; and (gap - travel) * closing <= a * gap.
            assert(a * gap <= gap * closing) by (nonlinear_arith)
                requires
                    0 <= a <= closing,
                    0 <= gap,
            ;
            lemma_cancel_le(q, gap, closing);
            assert((gap - travel) * closing <= a * gap) by (nonlinear_arith)
                requires
                    closing == travel + a,
                    travel >= 0,
                    0 <= gap <= closing,
            ;
            lemma_cancel_lt(gap - travel, q + 1, closing);
        } else {
            // a > closing, so q >= gap; and a * gap <= (gap - travel) * closing.
            assert(gap * closing <= a * gap) by (nonlinear_arith)
                requires
                    0 < closing <= a,
                    0 <= gap,
            ;
            lemma_cancel_lt(gap, q + 1, closing);
            assert(a * gap <= (gap - travel) * closing) by (nonlinear_arith)
                requires
                    closing == travel + a,
                    travel < 0,
                    0 <= gap <= closing,
            ;
            lemma_cancel_le(q, gap - travel, closing);
        }
    }
}

/// Reversing the obstacle's motion reverses the offset.
pub proof fn lemma_contact_offset_odd(velocity: int, gap: int, closing: int)
    requires
        0 <= gap <= closing,
        0 < closing,
    ensures
        contact_offset(-velocity, gap, closing) == -contact_offset(velocity, gap, closing),
{
    if velocity == 0 {
        assert(velocity * gap == 0) by (nonlinear_arith)
            requires
                velocity == 0,
        ;
        assert((-velocity) * gap == 0) by (nonlinear_arith)
            requires
                velocity == 0,
        ;
        assert(0int / closing == 0) by (nonlinear_arith)
            requires
                0 < closing,
        ;
    }
}

/// Computes `contact_offset` for machine integers.
pub fn offset_at_contact(velocity: i64, gap: u128, closing: u128) -> (offset: i64)
    requires
        gap <= closing,
        0 < closing <= closing_limit(),
    ensures
        offset == contact_offset(velocity as int, gap as int, closing as int),
{
    let speed: u128 = if velocity >= 0 {
        velocity as u128
    } else {
        (-(velocity as i128)) as u128
    };
    proof {
        assert(speed * gap <= 0x8000_0000_0000_0000 * (3 * 0x8000_0000_0000_0000))
            by (nonlinear_arith)
            requires
                0 <= speed <= 0x8000_0000_0000_0000,
                0 <= gap <= 3 * 0x8000_0000_0000_0000,
        ;
        lemma_contact_offset_within_velocity(velocity as int, gap as int, closing as int);
    }
    let covered: u128 = (speed * gap) / closing;
    if velocity >= 0 {
        covered as i64
    } else {
        (-(covered as i128)) as i64
    }
}

} // verus!
