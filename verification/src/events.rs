//! The checkpoint ledger: time buckets that gather the positions opened in
//! them, and the solvency requirement summed over the buckets still in term.
//!
//! A checkpoint is minted when the clock first moves past the current one and
//! is never removed; afterwards only its aggregates change.

use crate::decimal::{
    div_units, fits, fits_rounded, lemma_view_properties, mul_units, scale, Decimal,
};
use crate::error::PoolError;
use crate::helpers::{
    calculate_current_checkpoint, calculate_effective_share_reserves, calculate_spot_rate,
    checkpoint_of, should_update_checkpoint, spot_rate_fits, spot_rate_units,
};
use crate::types::{ledger_view, Checkpoint, CheckpointView, PoolState};
use std::collections::HashMap;
use vstd::prelude::*;

verus! {

broadcast use vstd::std_specs::hash::group_hash_axioms;

/// A checkpoint as it is minted: its share price recorded, nothing open.
pub open spec fn fresh_checkpoint(id: u64, share_price: int) -> CheckpointView {
    CheckpointView {
        start_time: id,
        share_price,
        long_positions: 0,
        short_positions: 0,
        avg_long_maturity: 0,
        avg_short_maturity: 0,
        is_minted: true,
    }
}

/// The current checkpoint once the clock reads `now`: the bucket of `now`
/// where that is later than `current`, else `current`.
pub open spec fn checkpoint_after(current: u64, now: u64, checkpoint_duration: u64) -> u64 {
    if checkpoint_of(now, checkpoint_duration) > current {
        checkpoint_of(now, checkpoint_duration)
    } else {
        current
    }
}

/// The ledger once the clock reads `now`: a fresh checkpoint is minted for
/// the bucket of `now` where that is later than `current`.
pub open spec fn ledger_after(
    ledger: Map<u64, CheckpointView>,
    current: u64,
    now: u64,
    checkpoint_duration: u64,
    share_price: int,
) -> Map<u64, CheckpointView> {
    if checkpoint_of(now, checkpoint_duration) > current {
        ledger.insert(
            checkpoint_of(now, checkpoint_duration),
            fresh_checkpoint(checkpoint_of(now, checkpoint_duration), share_price),
        )
    } else {
        ledger
    }
}

/// Average maturity after a position of face value `fv` maturing at
/// `maturity` joins `total` of average `avg`:
/// `(avg * total + maturity * fv) / (total + fv)`, and `avg` unchanged where
/// the new total is not positive.
pub open spec fn opened_average_units(avg: int, total: int, fv: int, maturity: u64) -> int {
    if total + fv > 0 {
        div_units(mul_units(avg, total) + mul_units(maturity * scale(), fv), total + fv)
    } else {
        avg
    }
}

/// Whether the new total and each step of the new average stay in range.
pub open spec fn opened_fits(avg: int, total: int, fv: int, maturity: u64) -> bool {
    &&& fits(total + fv)
    &&& total + fv > 0 ==> {
        &&& fits_rounded(mul_units(avg, total))
        &&& fits_rounded(mul_units(maturity * scale(), fv))
        &&& fits(mul_units(avg, total) + mul_units(maturity * scale(), fv))
        &&& fits_rounded(opened_average_units(avg, total, fv, maturity))
    }
}

/// Average maturity after a position of face value `fv` with `tr` of its term
/// left leaves `total`: the leaving position's `tr` while anything stays
/// open, else zero. This is not the weighted average of what stays.
pub open spec fn closed_average_units(total: int, fv: int, tr: int) -> int {
    if total - fv > 0 {
        tr
    } else {
        0
    }
}

/// The checkpoint after a long of `fv` maturing at `maturity` joins it.
pub open spec fn long_opened(cp: CheckpointView, fv: int, maturity: u64) -> CheckpointView {
    CheckpointView {
        long_positions: cp.long_positions + fv,
        avg_long_maturity: opened_average_units(
            cp.avg_long_maturity,
            cp.long_positions,
            fv,
            maturity,
        ),
        ..cp
    }
}

/// Whether registering a long stays in range.
pub open spec fn long_opened_fits(cp: CheckpointView, fv: int, maturity: u64) -> bool {
    opened_fits(cp.avg_long_maturity, cp.long_positions, fv, maturity)
}

/// The checkpoint after a short of `fv` maturing at `maturity` joins it.
pub open spec fn short_opened(cp: CheckpointView, fv: int, maturity: u64) -> CheckpointView {
    CheckpointView {
        short_positions: cp.short_positions + fv,
        avg_short_maturity: opened_average_units(
            cp.avg_short_maturity,
            cp.short_positions,
            fv,
            maturity,
        ),
        ..cp
    }
}

/// Whether registering a short stays in range.
pub open spec fn short_opened_fits(cp: CheckpointView, fv: int, maturity: u64) -> bool {
    opened_fits(cp.avg_short_maturity, cp.short_positions, fv, maturity)
}

/// The checkpoint after a long of `fv` with `tr` of its term left leaves it.
pub open spec fn long_closed(cp: CheckpointView, fv: int, tr: int) -> CheckpointView {
    CheckpointView {
        long_positions: cp.long_positions - fv,
        avg_long_maturity: closed_average_units(cp.long_positions, fv, tr),
        ..cp
    }
}

/// The checkpoint after a short of `fv` with `tr` of its term left leaves it.
pub open spec fn short_closed(cp: CheckpointView, fv: int, tr: int) -> CheckpointView {
    CheckpointView {
        short_positions: cp.short_positions - fv,
        avg_short_maturity: closed_average_units(cp.short_positions, fv, tr),
        ..cp
    }
}

/// The ledger with the checkpoint `id`, where it has one, replaced by `cp`.
pub open spec fn ledger_replaced(
    ledger: Map<u64, CheckpointView>,
    id: u64,
    cp: CheckpointView,
) -> Map<u64, CheckpointView> {
    if ledger.contains_key(id) {
        ledger.insert(id, cp)
    } else {
        ledger
    }
}

/// Whether the `i`-th step back from `current` is a checkpoint at all: a step
/// that would fall before time zero names none.
pub open spec fn step_in_window(current: u64, checkpoint_duration: u64, i: int) -> bool {
    i * checkpoint_duration <= current
}

/// The checkpoint that is `i` steps back from `current`, for a step of the
/// window.
pub open spec fn window_checkpoint(current: u64, checkpoint_duration: u64, i: int) -> u64 {
    (current - i * checkpoint_duration) as u64
}

/// What one checkpoint adds to the solvency requirement: its longs less its
/// shorts where that is positive; nothing where the ledger has no such
/// checkpoint.
pub open spec fn checkpoint_requirement(ledger: Map<u64, CheckpointView>, id: u64) -> int {
    if ledger.contains_key(id) && ledger[id].long_positions - ledger[id].short_positions > 0 {
        ledger[id].long_positions - ledger[id].short_positions
    } else {
        0
    }
}

/// What the `i`-th step back from `current` adds to the solvency requirement:
/// the requirement of its checkpoint, and nothing where the step would fall
/// before time zero.
pub open spec fn step_requirement(
    ledger: Map<u64, CheckpointView>,
    current: u64,
    checkpoint_duration: u64,
    i: int,
) -> int {
    if step_in_window(current, checkpoint_duration, i) {
        checkpoint_requirement(ledger, window_checkpoint(current, checkpoint_duration, i))
    } else {
        0
    }
}

/// The solvency requirement: the sum of the checkpoints' requirements over the
/// first `steps` steps back from `current`, each checkpoint counted once.
pub open spec fn solvency_units(
    ledger: Map<u64, CheckpointView>,
    current: u64,
    checkpoint_duration: u64,
    steps: nat,
) -> int
    decreases steps,
{
    if steps == 0 {
        0
    } else {
        solvency_units(ledger, current, checkpoint_duration, (steps - 1) as nat)
            + step_requirement(ledger, current, checkpoint_duration, steps - 1)
    }
}

/// Whether the solvency requirement over `steps` steps is computed inside the
/// decimal range: each checkpoint's longs less shorts, and each partial sum.
pub open spec fn solvency_fits(
    ledger: Map<u64, CheckpointView>,
    current: u64,
    checkpoint_duration: u64,
    steps: nat,
) -> bool
    decreases steps,
{
    steps == 0 || {
        let id = window_checkpoint(current, checkpoint_duration, steps - 1);
        &&& solvency_fits(ledger, current, checkpoint_duration, (steps - 1) as nat)
        &&& step_in_window(current, checkpoint_duration, steps - 1) && ledger.contains_key(id)
            ==> fits(ledger[id].long_positions - ledger[id].short_positions)
        &&& fits(solvency_units(ledger, current, checkpoint_duration, steps))
    }
}

/// Zombie interest `c * zombie_shares - zombie_base`.
pub open spec fn zombie_interest_units(zombie_shares: int, zombie_base: int, c: int) -> int {
    mul_units(c, zombie_shares) - zombie_base
}

/// Whether each step of splitting the zombie interest stays in range.
pub open spec fn zombie_interest_fits(
    zombie_shares: int,
    zombie_base: int,
    c: int,
    governance_fee: int,
) -> bool {
    let interest = zombie_interest_units(zombie_shares, zombie_base, c);
    &&& fits_rounded(mul_units(c, zombie_shares))
    &&& fits(interest)
    &&& interest > 0 ==> {
        &&& fits_rounded(mul_units(interest, governance_fee))
        &&& fits(interest - mul_units(interest, governance_fee))
        &&& c != 0
        &&& fits_rounded(div_units(zombie_base, c))
    }
}

impl Checkpoint {
    /// A checkpoint as it is minted.
    pub fn minted(start_time: u64, share_price: Decimal) -> (r: Checkpoint)
        ensures
            r@ == fresh_checkpoint(start_time, share_price@),
    {
        let zero = Decimal::zero();
        Checkpoint {
            start_time,
            share_price,
            long_positions: zero,
            short_positions: zero,
            avg_long_maturity: zero,
            avg_short_maturity: zero,
            is_minted: true,
        }
    }

    /// The checkpoint after a long of `face_value` maturing at
    /// `maturity_time` has been opened under it.
    pub fn with_long_opened(self, face_value: Decimal, maturity_time: u64) -> (r: Result<
        Checkpoint,
        PoolError,
    >)
        ensures
            r is Ok <==> long_opened_fits(self@, face_value@, maturity_time),
            r matches Ok(cp) ==> cp@ == long_opened(self@, face_value@, maturity_time),
            r matches Err(e) ==> e == PoolError::ArithmeticOverflow,
    {
        let (total, average) = opened_totals(
            self.long_positions,
            self.avg_long_maturity,
            face_value,
            maturity_time,
        )?;
        Ok(Checkpoint { long_positions: total, avg_long_maturity: average, ..self })
    }

    /// The checkpoint after a short of `face_value` maturing at
    /// `maturity_time` has been opened under it.
    pub fn with_short_opened(self, face_value: Decimal, maturity_time: u64) -> (r: Result<
        Checkpoint,
        PoolError,
    >)
        ensures
            r is Ok <==> short_opened_fits(self@, face_value@, maturity_time),
            r matches Ok(cp) ==> cp@ == short_opened(self@, face_value@, maturity_time),
            r matches Err(e) ==> e == PoolError::ArithmeticOverflow,
    {
        let (total, average) = opened_totals(
            self.short_positions,
            self.avg_short_maturity,
            face_value,
            maturity_time,
        )?;
        Ok(Checkpoint { short_positions: total, avg_short_maturity: average, ..self })
    }

    /// The checkpoint after a long of `face_value` with `time_remaining` of
    /// its term left has been closed.
    pub fn with_long_closed(self, face_value: Decimal, time_remaining: Decimal) -> (r: Result<
        Checkpoint,
        PoolError,
    >)
        ensures
            r is Ok <==> fits(self@.long_positions - face_value@),
            r matches Ok(cp) ==> cp@ == long_closed(self@, face_value@, time_remaining@),
            r matches Err(e) ==> e == PoolError::ArithmeticOverflow,
    {
        let total = self.long_positions.try_sub(face_value)?;
        let average = if total.gt(Decimal::zero()) {
            time_remaining
        } else {
            Decimal::zero()
        };
        Ok(Checkpoint { long_positions: total, avg_long_maturity: average, ..self })
    }

    /// The checkpoint after a short of `face_value` with `time_remaining` of
    /// its term left has been closed.
    pub fn with_short_closed(self, face_value: Decimal, time_remaining: Decimal) -> (r: Result<
        Checkpoint,
        PoolError,
    >)
        ensures
            r is Ok <==> fits(self@.short_positions - face_value@),
            r matches Ok(cp) ==> cp@ == short_closed(self@, face_value@, time_remaining@),
            r matches Err(e) ==> e == PoolError::ArithmeticOverflow,
    {
        let total = self.short_positions.try_sub(face_value)?;
        let average = if total.gt(Decimal::zero()) {
            time_remaining
        } else {
            Decimal::zero()
        };
        Ok(Checkpoint { short_positions: total, avg_short_maturity: average, ..self })
    }
}

/// New total and new average maturity of one side of a checkpoint after a
/// position joins it.
fn opened_totals(total: Decimal, average: Decimal, face_value: Decimal, maturity_time: u64) -> (r:
    Result<(Decimal, Decimal), PoolError>)
    ensures
        r is Ok <==> opened_fits(average@, total@, face_value@, maturity_time),
        r matches Ok(t) ==> t.0@ == total@ + face_value@ && t.1@ == opened_average_units(
            average@,
            total@,
            face_value@,
            maturity_time,
        ),
        r matches Err(e) ==> e == PoolError::ArithmeticOverflow,
{
    let new_total = total.try_add(face_value)?;
    if new_total.gt(Decimal::zero()) {
        let old_weighted = average.try_mul(total)?;
        let new_weighted = Decimal::from_u64(maturity_time).try_mul(face_value)?;
        let weighted = old_weighted.try_add(new_weighted)?;
        let new_average = weighted.try_div(new_total)?;
        Ok((new_total, new_average))
    } else {
        Ok((new_total, average))
    }
}

/// Mints the checkpoint of `current_time` where the clock has moved past
/// `current_checkpoint`, recording `share_price`; returns the checkpoint that
/// is current afterwards.
pub fn update_checkpoint_if_needed(
    checkpoints: &mut HashMap<u64, Checkpoint>,
    current_checkpoint: u64,
    checkpoint_duration: u64,
    share_price: Decimal,
    current_time: u64,
) -> (r: u64)
    requires
        checkpoint_duration > 0,
    ensures
        r == checkpoint_after(current_checkpoint, current_time, checkpoint_duration),
        ledger_view(final(checkpoints)@) == ledger_after(
            ledger_view(old(checkpoints)@),
            current_checkpoint,
            current_time,
            checkpoint_duration,
            share_price@,
        ),
        r == current_checkpoint ==> final(checkpoints)@ == old(checkpoints)@,
{
    let calculated_checkpoint = calculate_current_checkpoint(current_time, checkpoint_duration);
    if should_update_checkpoint(current_checkpoint, calculated_checkpoint) {
        checkpoints.insert(
            calculated_checkpoint,
            Checkpoint::minted(calculated_checkpoint, share_price),
        );
        assert(ledger_view(checkpoints@) =~= ledger_view(old(checkpoints)@).insert(
            calculated_checkpoint,
            fresh_checkpoint(calculated_checkpoint, share_price@),
        ));
        calculated_checkpoint
    } else {
        current_checkpoint
    }
}

/// The checkpoint `target` as the ledger will hold it once the clock reads
/// `current_time`, without changing the ledger.
pub fn checkpoint_at(
    checkpoints: &HashMap<u64, Checkpoint>,
    current_checkpoint: u64,
    checkpoint_duration: u64,
    share_price: Decimal,
    current_time: u64,
    target: u64,
) -> (r: Option<Checkpoint>)
    requires
        checkpoint_duration > 0,
    ensures
        ({
            let ledger = ledger_after(
                ledger_view(checkpoints@),
                current_checkpoint,
                current_time,
                checkpoint_duration,
                share_price@,
            );
            &&& r is Some <==> ledger.contains_key(target)
            &&& r matches Some(cp) ==> cp@ == ledger[target]
        }),
{
    let calculated_checkpoint = calculate_current_checkpoint(current_time, checkpoint_duration);
    if should_update_checkpoint(current_checkpoint, calculated_checkpoint) && target
        == calculated_checkpoint {
        Some(Checkpoint::minted(calculated_checkpoint, share_price))
    } else {
        match checkpoints.get(&target) {
            Some(cp) => Some(*cp),
            None => None,
        }
    }
}

/// Moves the ledger to `current_time` and puts `replacement` in the place of
/// the checkpoint `target`; returns the checkpoint that is current afterwards.
pub fn advance_and_replace(
    checkpoints: &mut HashMap<u64, Checkpoint>,
    current_checkpoint: u64,
    checkpoint_duration: u64,
    share_price: Decimal,
    current_time: u64,
    target: u64,
    replacement: Option<Checkpoint>,
) -> (r: u64)
    requires
        checkpoint_duration > 0,
        replacement is Some <==> ledger_after(
            ledger_view(old(checkpoints)@),
            current_checkpoint,
            current_time,
            checkpoint_duration,
            share_price@,
        ).contains_key(target),
    ensures
        r == checkpoint_after(current_checkpoint, current_time, checkpoint_duration),
        ledger_view(final(checkpoints)@) == ({
            let ledger = ledger_after(
                ledger_view(old(checkpoints)@),
                current_checkpoint,
                current_time,
                checkpoint_duration,
                share_price@,
            );
            match replacement {
                Some(cp) => ledger.insert(target, cp@),
                None => ledger,
            }
        }),
{
    let current = update_checkpoint_if_needed(
        checkpoints,
        current_checkpoint,
        checkpoint_duration,
        share_price,
        current_time,
    );
    let ghost moved = checkpoints@;
    match replacement {
        Some(cp) => {
            checkpoints.insert(target, cp);
            assert(ledger_view(checkpoints@) =~= ledger_view(moved).insert(target, cp@));
        },
        None => {},
    }
    current
}

/// Registers a long of `face_value` maturing at `maturity_time` under the
/// checkpoint `checkpoint_id`; a ledger without that checkpoint stays as it
/// is.
pub fn update_checkpoint_long_opened(
    checkpoints: &mut HashMap<u64, Checkpoint>,
    checkpoint_id: u64,
    face_value: Decimal,
    maturity_time: u64,
) -> (r: Result<(), PoolError>)
    ensures
        r is Ok <==> (old(checkpoints)@.contains_key(checkpoint_id) ==> long_opened_fits(
            old(checkpoints)@[checkpoint_id]@,
            face_value@,
            maturity_time,
        )),
        r is Ok ==> ledger_view(final(checkpoints)@) == ledger_replaced(
            ledger_view(old(checkpoints)@),
            checkpoint_id,
            long_opened(ledger_view(old(checkpoints)@)[checkpoint_id], face_value@, maturity_time),
        ),
        r matches Err(e) ==> e == PoolError::ArithmeticOverflow && final(checkpoints)@ == old(
            checkpoints,
        )@,
{
    let entry = match checkpoints.get(&checkpoint_id) {
        Some(cp) => *cp,
        None => {
            return Ok(());
        },
    };
    let updated = entry.with_long_opened(face_value, maturity_time)?;
    checkpoints.insert(checkpoint_id, updated);
    assert(ledger_view(checkpoints@) =~= ledger_view(old(checkpoints)@).insert(
        checkpoint_id,
        updated@,
    ));
    Ok(())
}

/// Takes a long of `face_value` out of the checkpoint `checkpoint_id`; a
/// ledger without that checkpoint stays as it is.
pub fn update_checkpoint_long_closed(
    checkpoints: &mut HashMap<u64, Checkpoint>,
    checkpoint_id: u64,
    face_value: Decimal,
    time_remaining: Decimal,
) -> (r: Result<(), PoolError>)
    ensures
        r is Ok <==> (old(checkpoints)@.contains_key(checkpoint_id) ==> fits(
            old(checkpoints)@[checkpoint_id]@.long_positions - face_value@,
        )),
        r is Ok ==> ledger_view(final(checkpoints)@) == ledger_replaced(
            ledger_view(old(checkpoints)@),
            checkpoint_id,
            long_closed(
                ledger_view(old(checkpoints)@)[checkpoint_id],
                face_value@,
                time_remaining@,
            ),
        ),
        r matches Err(e) ==> e == PoolError::ArithmeticOverflow && final(checkpoints)@ == old(
            checkpoints,
        )@,
{
    let entry = match checkpoints.get(&checkpoint_id) {
        Some(cp) => *cp,
        None => {
            return Ok(());
        },
    };
    let updated = entry.with_long_closed(face_value, time_remaining)?;
    checkpoints.insert(checkpoint_id, updated);
    assert(ledger_view(checkpoints@) =~= ledger_view(old(checkpoints)@).insert(
        checkpoint_id,
        updated@,
    ));
    Ok(())
}

/// Registers a short of `face_value` maturing at `maturity_time` under the
/// checkpoint `checkpoint_id`; a ledger without that checkpoint stays as it
/// is.
pub fn update_checkpoint_short_opened(
    checkpoints: &mut HashMap<u64, Checkpoint>,
    checkpoint_id: u64,
    face_value: Decimal,
    maturity_time: u64,
) -> (r: Result<(), PoolError>)
    ensures
        r is Ok <==> (old(checkpoints)@.contains_key(checkpoint_id) ==> short_opened_fits(
            old(checkpoints)@[checkpoint_id]@,
            face_value@,
            maturity_time,
        )),
        r is Ok ==> ledger_view(final(checkpoints)@) == ledger_replaced(
            ledger_view(old(checkpoints)@),
            checkpoint_id,
            short_opened(ledger_view(old(checkpoints)@)[checkpoint_id], face_value@, maturity_time),
        ),
        r matches Err(e) ==> e == PoolError::ArithmeticOverflow && final(checkpoints)@ == old(
            checkpoints,
        )@,
{
    let entry = match checkpoints.get(&checkpoint_id) {
        Some(cp) => *cp,
        None => {
            return Ok(());
        },
    };
    let updated = entry.with_short_opened(face_value, maturity_time)?;
    checkpoints.insert(checkpoint_id, updated);
    assert(ledger_view(checkpoints@) =~= ledger_view(old(checkpoints)@).insert(
        checkpoint_id,
        updated@,
    ));
    Ok(())
}

/// Takes a short of `face_value` out of the checkpoint `checkpoint_id`; a
/// ledger without that checkpoint stays as it is.
pub fn update_checkpoint_short_closed(
    checkpoints: &mut HashMap<u64, Checkpoint>,
    checkpoint_id: u64,
    face_value: Decimal,
    time_remaining: Decimal,
) -> (r: Result<(), PoolError>)
    ensures
        r is Ok <==> (old(checkpoints)@.contains_key(checkpoint_id) ==> fits(
            old(checkpoints)@[checkpoint_id]@.short_positions - face_value@,
        )),
        r is Ok ==> ledger_view(final(checkpoints)@) == ledger_replaced(
            ledger_view(old(checkpoints)@),
            checkpoint_id,
            short_closed(
                ledger_view(old(checkpoints)@)[checkpoint_id],
                face_value@,
                time_remaining@,
            ),
        ),
        r matches Err(e) ==> e == PoolError::ArithmeticOverflow && final(checkpoints)@ == old(
            checkpoints,
        )@,
{
    let entry = match checkpoints.get(&checkpoint_id) {
        Some(cp) => *cp,
        None => {
            return Ok(());
        },
    };
    let updated = entry.with_short_closed(face_value, time_remaining)?;
    checkpoints.insert(checkpoint_id, updated);
    assert(ledger_view(checkpoints@) =~= ledger_view(old(checkpoints)@).insert(
        checkpoint_id,
        updated@,
    ));
    Ok(())
}

/// Splits the interest that the zombie reserves have earned. Returns
/// `(interest, governance part, liquidity providers' part, new zombie share
/// reserves)`; where no interest has been earned, the three amounts are zero
/// and the zombie share reserves stay.
pub fn collect_zombie_interest(
    zombie_share_reserves: Decimal,
    zombie_base_reserves: Decimal,
    share_price: Decimal,
    zombie_governance_fee: Decimal,
) -> (r: Result<(Decimal, Decimal, Decimal, Decimal), PoolError>)
    ensures
        r is Ok <==> zombie_interest_fits(
            zombie_share_reserves@,
            zombie_base_reserves@,
            share_price@,
            zombie_governance_fee@,
        ),
        r matches Ok(t) ==> {
            let interest = zombie_interest_units(
                zombie_share_reserves@,
                zombie_base_reserves@,
                share_price@,
            );
            if interest <= 0 {
                t.0@ == 0 && t.1@ == 0 && t.2@ == 0 && t.3@ == zombie_share_reserves@
            } else {
                &&& t.0@ == interest
                &&& t.1@ == mul_units(interest, zombie_governance_fee@)
                &&& t.2@ == interest - mul_units(interest, zombie_governance_fee@)
                &&& t.3@ == div_units(zombie_base_reserves@, share_price@)
            }
        },
        r matches Err(e) ==> e == PoolError::ArithmeticOverflow,
{
    let zero = Decimal::zero();
    let value = share_price.try_mul(zombie_share_reserves)?;
    let zombie_interest = value.try_sub(zombie_base_reserves)?;
    if zombie_interest.le(zero) {
        return Ok((zero, zero, zero, zombie_share_reserves));
    }
    let governance_portion = zombie_interest.try_mul(zombie_governance_fee)?;
    let lp_portion = zombie_interest.try_sub(governance_portion)?;
    let new_zombie_share_reserves = zombie_base_reserves.try_div(share_price)?;
    Ok((zombie_interest, governance_portion, lp_portion, new_zombie_share_reserves))
}

/// The face value that the pool must be able to cover: over each checkpoint
/// of the term that ends at `current_checkpoint`, the longs less the shorts
/// where that is positive. A term that reaches back before time zero has
/// fewer checkpoints, and each is counted once.
pub fn calculate_solvency_requirement(
    checkpoints: &HashMap<u64, Checkpoint>,
    current_checkpoint: u64,
    checkpoint_duration: u64,
    position_duration: u64,
) -> (r: Result<Decimal, PoolError>)
    ensures
        checkpoint_duration == 0 ==> r == Err::<Decimal, PoolError>(PoolError::InvalidParameter),
        checkpoint_duration > 0 ==> {
            let steps = (position_duration / checkpoint_duration) as nat;
            let ledger = ledger_view(checkpoints@);
            &&& r is Ok <==> solvency_fits(ledger, current_checkpoint, checkpoint_duration, steps)
            &&& r matches Ok(v) ==> v@ == solvency_units(
                ledger,
                current_checkpoint,
                checkpoint_duration,
                steps,
            ) && v@ >= 0
            &&& r matches Err(e) ==> e == PoolError::ArithmeticOverflow
        },
{
    if checkpoint_duration == 0 {
        return Err(PoolError::InvalidParameter);
    }
    let zero = Decimal::zero();
    let steps = position_duration / checkpoint_duration;
    let ghost ledger = ledger_view(checkpoints@);
    let mut requirement = zero;
    let mut i: u64 = 0;
    while i < steps
        invariant
            i <= steps,
            checkpoint_duration > 0,
            steps == position_duration / checkpoint_duration,
            ledger == ledger_view(checkpoints@),
            zero@ == 0,
            solvency_fits(ledger, current_checkpoint, checkpoint_duration, i as nat),
            requirement@ == solvency_units(
                ledger,
                current_checkpoint,
                checkpoint_duration,
                i as nat,
            ),
            requirement@ >= 0,
        decreases steps - i,
    {
        assert(i * checkpoint_duration <= position_duration) by (nonlinear_arith)
            requires
                i < position_duration / checkpoint_duration,
                checkpoint_duration > 0,
        ;
        let offset = i * checkpoint_duration;
        proof {
            lemma_view_properties(requirement, requirement);
            if solvency_fits(ledger, current_checkpoint, checkpoint_duration, steps as nat) {
                lemma_solvency_fits_earlier(
                    ledger,
                    current_checkpoint,
                    checkpoint_duration,
                    (i + 1) as nat,
                    steps as nat,
                );
            }
        }
        if offset <= current_checkpoint {
            let checkpoint_id = current_checkpoint - offset;
            assert(checkpoint_id == window_checkpoint(
                current_checkpoint,
                checkpoint_duration,
                i as int,
            ));
            match checkpoints.get(&checkpoint_id) {
                Some(checkpoint) => {
                    let net = checkpoint.long_positions.try_sub(checkpoint.short_positions)?;
                    requirement = requirement.try_add(net.max(zero))?;
                },
                None => {},
            }
        }
        i += 1;
    }
    Ok(requirement)
}

/// Seeds the ledger of a new pool with the checkpoint of `current_time`,
/// recording the pool's first share price; returns that checkpoint's id.
pub fn initialize_first_checkpoint(
    checkpoints: &mut HashMap<u64, Checkpoint>,
    checkpoint_duration: u64,
    initial_share_price: Decimal,
    current_time: u64,
) -> (r: u64)
    requires
        checkpoint_duration > 0,
    ensures
        r == checkpoint_of(current_time, checkpoint_duration),
        ledger_view(final(checkpoints)@) == ledger_view(old(checkpoints)@).insert(
            r,
            fresh_checkpoint(r, initial_share_price@),
        ),
{
    let current_checkpoint = calculate_current_checkpoint(current_time, checkpoint_duration);
    checkpoints.insert(
        current_checkpoint,
        Checkpoint::minted(current_checkpoint, initial_share_price),
    );
    assert(ledger_view(checkpoints@) =~= ledger_view(old(checkpoints)@).insert(
        current_checkpoint,
        fresh_checkpoint(current_checkpoint, initial_share_price@),
    ));
    current_checkpoint
}

/// The pool's state for an outside query: the given amounts, with the
/// effective share reserves and the spot rate derived from them.
pub fn get_pool_state(
    share_reserves: Decimal,
    bond_reserves: Decimal,
    zeta_adjustment: Decimal,
    share_price: Decimal,
    active_lp_shares: Decimal,
    withdrawal_shares: Decimal,
    ready_withdrawal_shares: Decimal,
    zombie_share_reserves: Decimal,
    zombie_base_reserves: Decimal,
    current_checkpoint: u64,
) -> (r: Result<PoolState, PoolError>)
    ensures
        r is Ok <==> fits(share_reserves@ - zeta_adjustment@) && spot_rate_fits(
            share_reserves@ - zeta_adjustment@,
            bond_reserves@,
            share_price@,
        ),
        r matches Ok(state) ==> {
            &&& state.share_reserves == share_reserves
            &&& state.bond_reserves == bond_reserves
            &&& state.zeta_adjustment == zeta_adjustment
            &&& state.effective_share_reserves@ == share_reserves@ - zeta_adjustment@
            &&& state.share_price == share_price
            &&& state.spot_rate@ == spot_rate_units(
                share_reserves@ - zeta_adjustment@,
                bond_reserves@,
                share_price@,
            )
            &&& state.active_lp_shares_address == active_lp_shares
            &&& state.withdrawal_shares_address == withdrawal_shares
            &&& state.ready_withdrawal_shares_address == ready_withdrawal_shares
            &&& state.zombie_share_reserves == zombie_share_reserves
            &&& state.zombie_base_reserves == zombie_base_reserves
            &&& state.current_checkpoint == current_checkpoint
        },
        r matches Err(e) ==> e == PoolError::ArithmeticOverflow,
{
    let effective_share_reserves = calculate_effective_share_reserves(
        share_reserves,
        zeta_adjustment,
    )?;
    let spot_rate = calculate_spot_rate(effective_share_reserves, bond_reserves, share_price)?;
    Ok(
        PoolState {
            share_reserves,
            bond_reserves,
            zeta_adjustment,
            effective_share_reserves,
            share_price,
            spot_rate,
            active_lp_shares_address: active_lp_shares,
            withdrawal_shares_address: withdrawal_shares,
            ready_withdrawal_shares_address: ready_withdrawal_shares,
            zombie_share_reserves,
            zombie_base_reserves,
            current_checkpoint,
        },
    )
}

/// A requirement that is computed in range over some steps is computed in
/// range over any fewer.
pub proof fn lemma_solvency_fits_earlier(
    ledger: Map<u64, CheckpointView>,
    current: u64,
    checkpoint_duration: u64,
    fewer: nat,
    steps: nat,
)
    requires
        fewer <= steps,
        solvency_fits(ledger, current, checkpoint_duration, steps),
    ensures
        solvency_fits(ledger, current, checkpoint_duration, fewer),
    decreases steps,
{
    if fewer < steps {
        lemma_solvency_fits_earlier(
            ledger,
            current,
            checkpoint_duration,
            fewer,
            (steps - 1) as nat,
        );
    }
}

/// The solvency requirement over a fixed window does not fall when longs grow
/// and does not rise when shorts grow: of two ledgers that hold the same
/// checkpoints of the window, the one with at least the longs and at most the
/// shorts in each has at least the requirement.
pub proof fn lemma_solvency_monotone(
    less: Map<u64, CheckpointView>,
    more: Map<u64, CheckpointView>,
    current: u64,
    checkpoint_duration: u64,
    steps: nat,
)
    requires
        forall|i: int|
            0 <= i < steps && step_in_window(current, checkpoint_duration, i) ==> {
                let id = #[trigger] window_checkpoint(current, checkpoint_duration, i);
                &&& less.contains_key(id) == more.contains_key(id)
                &&& less.contains_key(id) ==> {
                    &&& less[id].long_positions <= more[id].long_positions
                    &&& less[id].short_positions >= more[id].short_positions
                }
            },
    ensures
        solvency_units(less, current, checkpoint_duration, steps) <= solvency_units(
            more,
            current,
            checkpoint_duration,
            steps,
        ),
    decreases steps,
{
    if steps > 0 {
        lemma_solvency_monotone(less, more, current, checkpoint_duration, (steps - 1) as nat);
        if step_in_window(current, checkpoint_duration, steps - 1) {
            let id = window_checkpoint(current, checkpoint_duration, steps - 1);
            assert(checkpoint_requirement(less, id) <= checkpoint_requirement(more, id));
        }
    }
}

} // verus!
