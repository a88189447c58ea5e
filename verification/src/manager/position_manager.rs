//! Position update engine: folds newly accrued fees and rewards into a
//! position's owed amounts, moves its growth checkpoints, and applies a
//! liquidity delta.

use vstd::prelude::*;
use crate::errors::ErrorCode;
use crate::math::{add_liquidity_delta, checked_mul_shift_right, pow2_64, Q64};
use crate::state::pool::NUM_REWARDS;
use crate::state::position::{Position, PositionRewardInfo, PositionUpdate};

verus! {

/// The amount newly owed to a position for one tracked quantity: its
/// liquidity times the growth accrued inside its range since the last
/// checkpoint, brought down from Q64.64 to token units.
pub open spec fn spec_accrued_delta(liquidity: u128, growth_inside: u128, checkpoint: u128) -> int {
    (liquidity * growth_inside.wrapping_sub(checkpoint)) / (Q64 as int)
}

/// Whether computing an accrued delta overflows the 128-bit product of
/// liquidity and growth delta.
pub open spec fn spec_accrual_overflows(
    liquidity: u128,
    growth_inside: u128,
    checkpoint: u128,
) -> bool {
    liquidity * growth_inside.wrapping_sub(checkpoint) > u128::MAX
}

/// An owed amount advanced by one sync: the accrued delta is wrapping-added
/// to it.
pub open spec fn spec_next_amount_owed(
    amount_owed: u64,
    liquidity: u128,
    growth_inside: u128,
    checkpoint: u128,
) -> u64
    recommends
        !spec_accrual_overflows(liquidity, growth_inside, checkpoint),
{
    amount_owed.wrapping_add(spec_accrued_delta(liquidity, growth_inside, checkpoint) as u64)
}

/// Whether any of a position's accrued-amount products overflows for the
/// given inside-growth values.
pub open spec fn spec_any_accrual_overflow(
    position: Position,
    fee_growth_inside_a: u128,
    fee_growth_inside_b: u128,
    reward_growths_inside: [u128; NUM_REWARDS],
) -> bool {
    ||| spec_accrual_overflows(
        position.liquidity,
        fee_growth_inside_a,
        position.fee_growth_checkpoint_a,
    )
    ||| spec_accrual_overflows(
        position.liquidity,
        fee_growth_inside_b,
        position.fee_growth_checkpoint_b,
    )
    ||| exists|i: int|
        0 <= i < NUM_REWARDS && spec_accrual_overflows(
            position.liquidity,
            reward_growths_inside[i],
            #[trigger] position.reward_infos[i].growth_inside_checkpoint,
        )
}

/// Computes a position's update record for a liquidity change or a pure
/// sync.
///
/// Each owed amount absorbs the growth accrued inside the range since its
/// checkpoint, scaled by the position's liquidity, and the checkpoint moves
/// to the given inside growth. The position's liquidity absorbs the delta.
/// Overflow of a liquidity-times-growth product fails with
/// `ArithmeticOverflow`; a delta pushing liquidity below zero or above its
/// maximum fails with `LiquidityUnderflow` / `LiquidityOverflow`.
pub fn next_position_modify_liquidity_update(
    position: &Position,
    liquidity_delta: i128,
    fee_growth_inside_a: u128,
    fee_growth_inside_b: u128,
    reward_growths_inside: &[u128; NUM_REWARDS],
) -> (r: Result<PositionUpdate, ErrorCode>)
    ensures
        r is Err <==> spec_any_accrual_overflow(
            *position,
            fee_growth_inside_a,
            fee_growth_inside_b,
            *reward_growths_inside,
        ) || !(0 <= position.liquidity + liquidity_delta <= u128::MAX),
        spec_any_accrual_overflow(
            *position,
            fee_growth_inside_a,
            fee_growth_inside_b,
            *reward_growths_inside,
        ) ==> r == Err::<PositionUpdate, ErrorCode>(ErrorCode::ArithmeticOverflow),
        !spec_any_accrual_overflow(
            *position,
            fee_growth_inside_a,
            fee_growth_inside_b,
            *reward_growths_inside,
        ) && position.liquidity + liquidity_delta < 0 ==> r == Err::<PositionUpdate, ErrorCode>(
            ErrorCode::LiquidityUnderflow,
        ),
        !spec_any_accrual_overflow(
            *position,
            fee_growth_inside_a,
            fee_growth_inside_b,
            *reward_growths_inside,
        ) && position.liquidity + liquidity_delta > u128::MAX ==> r == Err::<
            PositionUpdate,
            ErrorCode,
        >(ErrorCode::LiquidityOverflow),
        r matches Ok(u) ==> {
            &&& u.liquidity == position.liquidity + liquidity_delta
            &&& u.fee_growth_checkpoint_a == fee_growth_inside_a
            &&& u.fee_owed_a == spec_next_amount_owed(
                position.fee_owed_a,
                position.liquidity,
                fee_growth_inside_a,
                position.fee_growth_checkpoint_a,
            )
            &&& u.fee_growth_checkpoint_b == fee_growth_inside_b
            &&& u.fee_owed_b == spec_next_amount_owed(
                position.fee_owed_b,
                position.liquidity,
                fee_growth_inside_b,
                position.fee_growth_checkpoint_b,
            )
            &&& forall|i: int|
                0 <= i < NUM_REWARDS ==> #[trigger] u.reward_infos[i] == (PositionRewardInfo {
                    growth_inside_checkpoint: reward_growths_inside[i],
                    amount_owed: spec_next_amount_owed(
                        position.reward_infos[i].amount_owed,
                        position.liquidity,
                        reward_growths_inside[i],
                        position.reward_infos[i].growth_inside_checkpoint,
                    ),
                })
        },
{
    let growth_delta_a = fee_growth_inside_a.wrapping_sub(position.fee_growth_checkpoint_a);
    let fee_delta_a = match checked_mul_shift_right(position.liquidity, growth_delta_a) {
        Ok(d) => d,
        Err(e) => {
            return Err(e);
        }
    };
    let growth_delta_b = fee_growth_inside_b.wrapping_sub(position.fee_growth_checkpoint_b);
    let fee_delta_b = match checked_mul_shift_right(position.liquidity, growth_delta_b) {
        Ok(d) => d,
        Err(e) => {
            return Err(e);
        }
    };
    let mut reward_infos: [PositionRewardInfo; NUM_REWARDS] = position.reward_infos;
    let mut i: usize = 0;
    while i < NUM_REWARDS
        invariant
            0 <= i <= NUM_REWARDS,
            forall|j: int|
                0 <= j < i ==> !spec_accrual_overflows(
                    position.liquidity,
                    reward_growths_inside[j],
                    #[trigger] position.reward_infos[j].growth_inside_checkpoint,
                ),
            forall|j: int|
                0 <= j < i ==> #[trigger] reward_infos[j] == (PositionRewardInfo {
                    growth_inside_checkpoint: reward_growths_inside[j],
                    amount_owed: spec_next_amount_owed(
                        position.reward_infos[j].amount_owed,
                        position.liquidity,
                        reward_growths_inside[j],
                        position.reward_infos[j].growth_inside_checkpoint,
                    ),
                }),
            forall|j: int|
                i <= j < NUM_REWARDS ==> #[trigger] reward_infos[j] == position.reward_infos[j],
        decreases NUM_REWARDS - i,
    {
        let curr_reward_info = position.reward_infos[i];
        let reward_growth_delta = reward_growths_inside[i].wrapping_sub(
            curr_reward_info.growth_inside_checkpoint,
        );
        let amount_owed_delta = match checked_mul_shift_right(
            position.liquidity,
            reward_growth_delta,
        ) {
            Ok(d) => d,
            Err(e) => {
                return Err(e);
            }
        };
        reward_infos[i] = PositionRewardInfo {
            growth_inside_checkpoint: reward_growths_inside[i],
            amount_owed: curr_reward_info.amount_owed.wrapping_add(amount_owed_delta),
        };
        i = i + 1;
    }
    let liquidity = match add_liquidity_delta(position.liquidity, liquidity_delta) {
        Ok(l) => l,
        Err(e) => {
            return Err(e);
        }
    };
    Ok(
        PositionUpdate {
            liquidity,
            fee_growth_checkpoint_a: fee_growth_inside_a,
            fee_owed_a: position.fee_owed_a.wrapping_add(fee_delta_a),
            fee_growth_checkpoint_b: fee_growth_inside_b,
            fee_owed_b: position.fee_owed_b.wrapping_add(fee_delta_b),
            reward_infos,
        },
    )
}

/// Conservation of owed amounts: over consecutive syncs the owed amount
/// accumulates exactly the wrapping sum of the per-step accrued deltas,
/// each computed with that step's liquidity. After a step that checkpoints
/// at `g1` and a second step that checkpoints at `g2`, the owed amount
/// equals the starting amount plus both step deltas, reduced modulo `2^64`
/// — independent of how the steps were split.
pub proof fn lemma_owed_accumulates_deltas(
    amount_owed: u64,
    liquidity1: u128,
    checkpoint0: u128,
    g1: u128,
    liquidity2: u128,
    g2: u128,
)
    requires
        !spec_accrual_overflows(liquidity1, g1, checkpoint0),
        !spec_accrual_overflows(liquidity2, g2, g1),
    ensures
        spec_next_amount_owed(
            spec_next_amount_owed(amount_owed, liquidity1, g1, checkpoint0),
            liquidity2,
            g2,
            g1,
        ) == ((amount_owed + spec_accrued_delta(liquidity1, g1, checkpoint0) + spec_accrued_delta(
            liquidity2,
            g2,
            g1,
        )) % pow2_64()) as u64,
{
    let d1 = spec_accrued_delta(liquidity1, g1, checkpoint0);
    let d2 = spec_accrued_delta(liquidity2, g2, g1);
    assert(0 <= d1 < pow2_64() && 0 <= d2 < pow2_64()) by {
        lemma_accrued_delta_fits(liquidity1, g1, checkpoint0);
        lemma_accrued_delta_fits(liquidity2, g2, g1);
    }
}

/// Conservation at the position level: an add step followed by a remove
/// step of the same magnitude — both related to their snapshots exactly as
/// `next_position_modify_liquidity_update` relates them — restores the
/// starting liquidity, and leaves the owed amount equal to the starting
/// amount plus both steps' accrued deltas, reduced modulo `2^64`.
pub proof fn lemma_position_conservation(
    p0: Position,
    u1: PositionUpdate,
    p1: Position,
    u2: PositionUpdate,
    liquidity_delta: i128,
    g1: u128,
    g2: u128,
)
    requires
        0 <= p0.liquidity + liquidity_delta <= u128::MAX,
        !spec_accrual_overflows(p0.liquidity, g1, p0.fee_growth_checkpoint_a),
        u1.liquidity == p0.liquidity + liquidity_delta,
        u1.fee_growth_checkpoint_a == g1,
        u1.fee_owed_a == spec_next_amount_owed(
            p0.fee_owed_a,
            p0.liquidity,
            g1,
            p0.fee_growth_checkpoint_a,
        ),
        p1.liquidity == u1.liquidity,
        p1.fee_growth_checkpoint_a == u1.fee_growth_checkpoint_a,
        p1.fee_owed_a == u1.fee_owed_a,
        !spec_accrual_overflows(p1.liquidity, g2, p1.fee_growth_checkpoint_a),
        u2.liquidity == p1.liquidity - liquidity_delta,
        u2.fee_growth_checkpoint_a == g2,
        u2.fee_owed_a == spec_next_amount_owed(
            p1.fee_owed_a,
            p1.liquidity,
            g2,
            p1.fee_growth_checkpoint_a,
        ),
    ensures
        u2.liquidity == p0.liquidity,
        u2.fee_owed_a == ((p0.fee_owed_a + spec_accrued_delta(
            p0.liquidity,
            g1,
            p0.fee_growth_checkpoint_a,
        ) + spec_accrued_delta(p1.liquidity, g2, g1)) % pow2_64()) as u64,
{
    lemma_owed_accumulates_deltas(
        p0.fee_owed_a,
        p0.liquidity,
        p0.fee_growth_checkpoint_a,
        g1,
        p1.liquidity,
        g2,
    );
}

/// An owed amount after absorbing a whole sequence of per-step accrued
/// deltas, one wrapping addition per step.
pub open spec fn spec_owed_after_deltas(amount_owed: u64, deltas: Seq<u64>) -> u64
    decreases deltas.len(),
{
    if deltas.len() == 0 {
        amount_owed
    } else {
        spec_owed_after_deltas(amount_owed.wrapping_add(deltas[0]), deltas.drop_first())
    }
}

/// The plain (unbounded) sum of a sequence of deltas.
pub open spec fn spec_delta_sum(deltas: Seq<u64>) -> int
    decreases deltas.len(),
{
    if deltas.len() == 0 {
        0
    } else {
        deltas[0] + spec_delta_sum(deltas.drop_first())
    }
}

/// Conservation over any sequence of steps: absorbing per-step accrued
/// deltas one wrapping addition at a time leaves the owed amount equal to
/// the starting amount plus the exact sum of all deltas, reduced modulo
/// `2^64` — however the total was split into steps.
pub proof fn lemma_owed_accumulates_delta_sequence(amount_owed: u64, deltas: Seq<u64>)
    ensures
        spec_owed_after_deltas(amount_owed, deltas) == ((amount_owed + spec_delta_sum(deltas))
            % pow2_64()) as u64,
    decreases deltas.len(),
{
    if deltas.len() == 0 {
        vstd::arithmetic::div_mod::lemma_small_mod(amount_owed as nat, pow2_64() as nat);
    } else {
        let first = deltas[0];
        let rest = deltas.drop_first();
        lemma_owed_accumulates_delta_sequence(amount_owed.wrapping_add(first), rest);
        // fold the wrapped head back under one modulus:
        // ((x % m) + s) % m == (x + s) % m
        vstd::arithmetic::div_mod::lemma_mod_twice(amount_owed + first, pow2_64());
        vstd::arithmetic::div_mod::lemma_add_mod_noop(
            (amount_owed + first) % pow2_64(),
            spec_delta_sum(rest),
            pow2_64(),
        );
        vstd::arithmetic::div_mod::lemma_add_mod_noop(
            amount_owed + first,
            spec_delta_sum(rest),
            pow2_64(),
        );
    }
}

/// An accrued delta that does not overflow its 128-bit product fits the
/// 64-bit owed-amount width.
pub proof fn lemma_accrued_delta_fits(liquidity: u128, growth_inside: u128, checkpoint: u128)
    requires
        !spec_accrual_overflows(liquidity, growth_inside, checkpoint),
    ensures
        0 <= spec_accrued_delta(liquidity, growth_inside, checkpoint) < pow2_64(),
{
    let p = liquidity * growth_inside.wrapping_sub(checkpoint);
    assert(p / (Q64 as int) < pow2_64()) by (nonlinear_arith)
        requires 0 <= p <= u128::MAX, Q64 == 0x1_0000_0000_0000_0000u128;
}

/// A liquidity delta and its negation cancel exactly: removing what an
/// earlier modification added restores the starting liquidity.
pub proof fn lemma_liquidity_delta_cancels(liquidity: u128, delta: i128)
    requires
        0 <= liquidity + delta <= u128::MAX,
    ensures
        ((liquidity + delta) as u128) + (-delta) == liquidity,
{
}

} // verus!
