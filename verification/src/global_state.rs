//! Operations on the deployment-wide aggregate counters. All counters are
//! monotonically non-decreasing; the high watermark always equals the maximum
//! the total volume has reached.

use vstd::prelude::*;

use crate::error::TrustPayError;
use crate::state::GlobalState;

verus! {

/// The high watermark has caught up with the total volume.
pub open spec fn high_watermark_ok(gs: GlobalState) -> bool {
    gs.total_volume <= gs.high_watermark_volume
}

/// A fresh aggregate state: the caller becomes the permanent resolver
/// authority and every counter starts at zero.
pub fn initialize_global_state(authority: u64, mint_decimals: u8, now: i64) -> (r: GlobalState)
    ensures
        r == (GlobalState {
            authority,
            token_decimals: mint_decimals,
            last_volume_update: now,
            ..GlobalState::uninitialized()
        }),
{
    GlobalState {
        authority,
        total_trust_pay_created: 0,
        total_trust_pay_closed: 0,
        total_confirmations: 0,
        fee_percentage: 0,
        fee_destination: 0,
        total_fees_collected: 0,
        total_disputes: 0,
        total_volume: 0,
        token_decimals: mint_decimals,
        high_watermark_volume: 0,
        last_volume_update: now,
    }
}

/// Whether the aggregate state still awaits its first initialization: no
/// contract has ever been counted against it.
pub open spec fn is_uninitialized(gs: GlobalState) -> bool {
    gs.total_trust_pay_created == 0 && gs.total_trust_pay_closed == 0 && gs.total_confirmations
        == 0
}

/// Lazily initializes the aggregate state on the first contract-creation call
/// system-wide: the creating actor at that moment becomes the permanent
/// authority. A later call changes nothing.
pub fn initialize_global_state_if_needed(
    gs: &mut GlobalState,
    creator: u64,
    mint_decimals: u8,
    now: i64,
)
    ensures
        is_uninitialized(*old(gs)) ==> *final(gs) == (GlobalState {
            authority: creator,
            token_decimals: mint_decimals,
            last_volume_update: now,
            fee_percentage: old(gs).fee_percentage,
            fee_destination: old(gs).fee_destination,
            total_fees_collected: old(gs).total_fees_collected,
            ..GlobalState::uninitialized()
        }),
        !is_uninitialized(*old(gs)) ==> *final(gs) == *old(gs),
{
    if gs.total_trust_pay_created == 0 && gs.total_trust_pay_closed == 0
        && gs.total_confirmations == 0 {
        gs.authority = creator;
        gs.total_trust_pay_created = 0;
        gs.total_trust_pay_closed = 0;
        gs.total_confirmations = 0;
        gs.total_volume = 0;
        gs.high_watermark_volume = 0;
        gs.last_volume_update = now;
        gs.token_decimals = mint_decimals;
        gs.total_disputes = 0;
    }
}

/// Raises the high watermark to `volume` if that is higher. Only the resolver
/// authority may call this; nothing moves otherwise.
pub fn update_volume_metrics(gs: &mut GlobalState, caller: u64, volume: u64, now: i64) -> (r:
    Result<(), TrustPayError>)
    ensures
        match r {
            Ok(()) => caller == old(gs).authority && *final(gs) == (GlobalState {
                high_watermark_volume: if volume > old(gs).high_watermark_volume {
                    volume
                } else {
                    old(gs).high_watermark_volume
                },
                last_volume_update: now,
                ..*old(gs)
            }),
            Err(e) => caller != old(gs).authority && e == TrustPayError::Unauthorized
                && *final(gs) == *old(gs),
        },
{
    if caller != gs.authority {
        return Err(TrustPayError::Unauthorized);
    }
    if volume > gs.high_watermark_volume {
        gs.high_watermark_volume = volume;
    }
    gs.last_volume_update = now;
    Ok(())
}

/// Counts one approved payment: one more confirmation, `token_amount` more
/// volume, the high watermark raised to the new volume if that is higher.
/// Fails on counter overflow with no change.
pub fn update_on_payment_approval(gs: &mut GlobalState, token_amount: u64, now: i64) -> (r: Result<
    (),
    TrustPayError,
>)
    ensures
        match r {
            Ok(()) => old(gs).total_confirmations + 1 <= u64::MAX && old(gs).total_volume
                + token_amount <= u64::MAX && *final(gs) == (GlobalState {
                total_confirmations: (old(gs).total_confirmations + 1) as u64,
                total_volume: (old(gs).total_volume + token_amount) as u64,
                high_watermark_volume: if old(gs).total_volume + token_amount > old(
                    gs,
                ).high_watermark_volume {
                    (old(gs).total_volume + token_amount) as u64
                } else {
                    old(gs).high_watermark_volume
                },
                last_volume_update: now,
                ..*old(gs)
            }),
            Err(e) => (old(gs).total_confirmations + 1 > u64::MAX || old(gs).total_volume
                + token_amount > u64::MAX) && e == TrustPayError::CalculationError && *final(gs) == *old(
                gs,
            ),
        },
        r is Ok ==> high_watermark_ok(*final(gs)),
        old(gs).high_watermark_volume <= final(gs).high_watermark_volume,
{
    let confirmations = match gs.total_confirmations.checked_add(1) {
        Some(v) => v,
        None => {
            return Err(TrustPayError::CalculationError);
        },
    };
    let volume = match gs.total_volume.checked_add(token_amount) {
        Some(v) => v,
        None => {
            return Err(TrustPayError::CalculationError);
        },
    };
    gs.total_confirmations = confirmations;
    gs.total_volume = volume;
    if gs.total_volume > gs.high_watermark_volume {
        gs.high_watermark_volume = gs.total_volume;
    }
    gs.last_volume_update = now;
    Ok(())
}

/// Counts one closed contract. Fails on counter overflow with no change.
pub fn update_on_trust_pay_close(gs: &mut GlobalState, now: i64) -> (r: Result<(), TrustPayError>)
    ensures
        match r {
            Ok(()) => old(gs).total_trust_pay_closed + 1 <= u64::MAX && *final(gs) == (GlobalState {
                total_trust_pay_closed: (old(gs).total_trust_pay_closed + 1) as u64,
                last_volume_update: now,
                ..*old(gs)
            }),
            Err(e) => old(gs).total_trust_pay_closed == u64::MAX && e
                == TrustPayError::CalculationError && *final(gs) == *old(gs),
        },
{
    let closed = match gs.total_trust_pay_closed.checked_add(1) {
        Some(v) => v,
        None => {
            return Err(TrustPayError::CalculationError);
        },
    };
    gs.total_trust_pay_closed = closed;
    gs.last_volume_update = now;
    Ok(())
}

/// Counts collected fees. Fails on counter overflow with no change.
pub fn update_on_fee_collection(gs: &mut GlobalState, fee_amount: u64) -> (r: Result<
    (),
    TrustPayError,
>)
    ensures
        match r {
            Ok(()) => old(gs).total_fees_collected + fee_amount <= u64::MAX && *final(gs) == (GlobalState {
                total_fees_collected: (old(gs).total_fees_collected + fee_amount) as u64,
                ..*old(gs)
            }),
            Err(e) => old(gs).total_fees_collected + fee_amount > u64::MAX && e
                == TrustPayError::CalculationError && *final(gs) == *old(gs),
        },
{
    let collected = match gs.total_fees_collected.checked_add(fee_amount) {
        Some(v) => v,
        None => {
            return Err(TrustPayError::CalculationError);
        },
    };
    gs.total_fees_collected = collected;
    Ok(())
}

/// A refunded contract counts as closed.
pub fn handle_trust_pay_refund(gs: &mut GlobalState, now: i64) -> (r: Result<(), TrustPayError>)
    ensures
        match r {
            Ok(()) => old(gs).total_trust_pay_closed + 1 <= u64::MAX && *final(gs) == (GlobalState {
                total_trust_pay_closed: (old(gs).total_trust_pay_closed + 1) as u64,
                last_volume_update: now,
                ..*old(gs)
            }),
            Err(e) => old(gs).total_trust_pay_closed == u64::MAX && e
                == TrustPayError::CalculationError && *final(gs) == *old(gs),
        },
{
    update_on_trust_pay_close(gs, now)
}

/// Touches the bookkeeping timestamp; the counters stay as they are.
pub fn ensure_high_watermark_preserved(gs: &mut GlobalState, now: i64) -> (r: Result<
    (),
    TrustPayError,
>)
    ensures
        r is Ok && *final(gs) == (GlobalState { last_volume_update: now, ..*old(gs) }),
{
    gs.last_volume_update = now;
    Ok(())
}

} // verus!
