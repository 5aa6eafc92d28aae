//! What is asked of a transaction before it is executed.

use vstd::prelude::*;
use crate::error::ErrorCode;
use crate::pubkey::Pubkey;
use crate::state::{SmartWallet, SmartWalletView, Transaction, TransactionView};
use crate::timelock::{is_executable, timelock, Outcome};

verus! {

/// Whether `caller` may execute the transaction at `now`, and if not, why.
///
/// The questions are asked in this order, and the first that fails answers:
/// is the caller an owner of the wallet that the transaction belongs to; is
/// the transaction still to be executed; was it made under the wallet's
/// present owner set and threshold; have enough owners approved; does the
/// time lock allow it.
pub open spec fn executable(
    tx: TransactionView,
    wallet: SmartWalletView,
    caller: Pubkey,
    now: i64,
) -> Result<(), ErrorCode> {
    if tx.smart_wallet != wallet.key || !wallet.is_owner(caller) {
        Err(ErrorCode::InvalidOwner)
    } else if tx.is_executed() {
        Err(ErrorCode::AlreadyExecuted)
    } else if tx.owner_set_seqno != wallet.owner_set_seqno {
        Err(ErrorCode::OwnerSetChanged)
    } else if tx.tally() < wallet.threshold {
        Err(ErrorCode::NotEnoughSigners)
    } else {
        match timelock(now, tx.eta, wallet.grace_period) {
            Outcome::NotYetDue => Err(ErrorCode::TransactionNotReady),
            Outcome::Stale => Err(ErrorCode::TransactionIsStale),
            Outcome::Ready => Ok(()),
        }
    }
}

/// Checks that `caller` may execute the transaction at `now`.
pub fn check_executable(tx: &Transaction, wallet: &SmartWallet, caller: Pubkey, now: i64) -> (r:
    Result<(), ErrorCode>)
    ensures
        r == executable(tx@, wallet@, caller, now),
{
    if tx.smart_wallet != wallet.key {
        return Err(ErrorCode::InvalidOwner);
    }
    if wallet.owner_index(caller).is_err() {
        return Err(ErrorCode::InvalidOwner);
    }
    if tx.executed_at.is_some() {
        return Err(ErrorCode::AlreadyExecuted);
    }
    if tx.owner_set_seqno != wallet.owner_set_seqno {
        return Err(ErrorCode::OwnerSetChanged);
    }
    if (tx.tally() as u64) < wallet.threshold {
        return Err(ErrorCode::NotEnoughSigners);
    }
    match is_executable(now, tx, wallet) {
        Outcome::NotYetDue => Err(ErrorCode::TransactionNotReady),
        Outcome::Stale => Err(ErrorCode::TransactionIsStale),
        Outcome::Ready => Ok(()),
    }
}

/// A transaction with fewer approvals than the threshold is not executable,
/// whoever asks and whenever.
pub proof fn lemma_threshold_enforced(
    tx: TransactionView,
    wallet: SmartWalletView,
    caller: Pubkey,
    now: i64,
)
    requires
        tx.tally() < wallet.threshold,
    ensures
        executable(tx, wallet, caller, now) is Err,
{
}

/// An executed transaction is not executable again.
pub proof fn lemma_executed_is_final(
    tx: TransactionView,
    wallet: SmartWalletView,
    caller: Pubkey,
    now: i64,
)
    requires
        tx.is_executed(),
    ensures
        executable(tx, wallet, caller, now) is Err,
{
}

/// A transaction made under another owner set or threshold is not executable,
/// whatever its votes and the time. An owner who tries it on a transaction
/// that is still to be executed is told that the owner set has changed.
pub proof fn lemma_owner_set_changed(
    tx: TransactionView,
    wallet: SmartWalletView,
    caller: Pubkey,
    now: i64,
)
    requires
        tx.owner_set_seqno != wallet.owner_set_seqno,
    ensures
        executable(tx, wallet, caller, now) is Err,
        tx.smart_wallet == wallet.key && wallet.is_owner(caller) && !tx.is_executed() ==> executable(
            tx,
            wallet,
            caller,
            now,
        ) == Err::<(), ErrorCode>(ErrorCode::OwnerSetChanged),
{
}

} // verus!
