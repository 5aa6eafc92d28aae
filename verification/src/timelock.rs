//! The time lock: when a scheduled transaction may be executed.

use vstd::prelude::*;
use crate::state::{SmartWallet, Transaction};

verus! {

/// What the time lock says of a transaction at some moment.
#[derive(Clone, Copy, Debug, PartialEq, Eq, Structural)]
pub enum Outcome {
    /// The transaction may be executed now.
    Ready,
    /// The transaction is scheduled for a later time.
    NotYetDue,
    /// The grace period after the scheduled time has passed.
    Stale,
}

/// What the time lock says at `now` of a transaction scheduled for `eta`, if
/// it is scheduled, under the given grace period.
///
/// A transaction without a schedule is always ready. A scheduled one is ready
/// from its time on, until the grace period after it has run out.
pub open spec fn timelock(now: i64, eta: Option<i64>, grace_period: i64) -> Outcome {
    match eta {
        None => Outcome::Ready,
        Some(at) => if now < at {
            Outcome::NotYetDue
        } else if now > at + grace_period {
            Outcome::Stale
        } else {
            Outcome::Ready
        },
    }
}

/// Tells whether the time lock lets the transaction be executed at `now`.
///
/// The answer depends on `now`, the transaction's schedule and the wallet's
/// grace period, and on nothing else: not on the votes, nor on whether the
/// transaction has been executed.
pub fn is_executable(now: i64, tx: &Transaction, wallet: &SmartWallet) -> (outcome: Outcome)
    ensures
        outcome == timelock(now, tx.eta, wallet.grace_period),
{
    match tx.eta {
        None => Outcome::Ready,
        Some(at) => {
            if now < at {
                Outcome::NotYetDue
            } else if now as i128 > at as i128 + wallet.grace_period as i128 {
                Outcome::Stale
            } else {
                Outcome::Ready
            }
        },
    }
}

} // verus!
