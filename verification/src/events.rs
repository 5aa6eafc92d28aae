//! Events: what an observer is told of each change.

use vstd::prelude::*;
use crate::pubkey::Pubkey;
use crate::state::{
    instruction_views, SmartWallet, TXAccountMeta, TXInstruction, Transaction,
};

verus! {

/// Emitted when a [`SmartWallet`] is created.
#[derive(Clone, Debug, PartialEq)]
pub struct WalletCreateEvent {
    pub smart_wallet: Pubkey,
    pub owners: Vec<Pubkey>,
    pub threshold: u64,
    pub minimum_delay: i64,
    pub timestamp: i64,
}

/// Emitted when a stake is created.
#[derive(Clone, Copy, Debug, PartialEq)]
pub struct CreateStakeEvent {
    pub smart_wallet: Pubkey,
    pub stake: Pubkey,
}

/// Emitted when the entities of a rollup are claimed.
#[derive(Clone, Debug, PartialEq)]
pub struct ClaimEntitiesEvent {
    pub smart_wallet: Pubkey,
    pub duration: Vec<u8>,
    pub last_epoch: Vec<u8>,
    pub reset_epoch: Vec<u8>,
    pub mints: u32,
    pub rollup: Pubkey,
    pub stake: Pubkey,
    pub owner: Pubkey,
}

/// What a [`ClaimEntitiesEvent`] holds, as mathematics.
pub struct ClaimEntitiesEventView {
    pub smart_wallet: Pubkey,
    pub duration: Seq<u8>,
    pub last_epoch: Seq<u8>,
    pub reset_epoch: Seq<u8>,
    pub mints: u32,
    pub rollup: Pubkey,
    pub stake: Pubkey,
    pub owner: Pubkey,
}

impl View for ClaimEntitiesEvent {
    type V = ClaimEntitiesEventView;

    open spec fn view(&self) -> ClaimEntitiesEventView {
        ClaimEntitiesEventView {
            smart_wallet: self.smart_wallet,
            duration: self.duration@,
            last_epoch: self.last_epoch@,
            reset_epoch: self.reset_epoch@,
            mints: self.mints,
            rollup: self.rollup,
            stake: self.stake,
            owner: self.owner,
        }
    }
}

/// Emitted when one entity is claimed.
#[derive(Clone, Debug, PartialEq)]
pub struct ClaimEntityEvent {
    pub smart_wallet: Pubkey,
    pub duration: Vec<u8>,
    pub mint: Pubkey,
    pub ticket: Pubkey,
    pub stake: Pubkey,
    pub owner: Pubkey,
}

/// Emitted when an entity is withdrawn.
#[derive(Clone, Copy, Debug, PartialEq)]
pub struct WithdrawEntityEvent {
    pub smart_wallet: Pubkey,
    pub mint: Pubkey,
    pub ticket: Pubkey,
    pub stake: Pubkey,
    pub owner: Pubkey,
}

/// Emitted when the owners of a [`SmartWallet`] are changed.
#[derive(Clone, Debug, PartialEq)]
pub struct WalletSetOwnersEvent {
    pub smart_wallet: Pubkey,
    pub owners: Vec<Pubkey>,
    pub timestamp: i64,
}

/// Emitted when the threshold of a [`SmartWallet`] is changed.
#[derive(Clone, Copy, Debug, PartialEq)]
pub struct WalletChangeThresholdEvent {
    pub smart_wallet: Pubkey,
    pub threshold: u64,
    pub timestamp: i64,
}

/// Emitted when a [`Transaction`] is proposed.
#[derive(Clone, Debug, PartialEq)]
pub struct TransactionCreateEvent {
    pub smart_wallet: Pubkey,
    pub transaction: Pubkey,
    pub proposer: Pubkey,
    /// Instructions associated with the [`Transaction`].
    pub instructions: Vec<TXInstruction>,
    pub eta: Option<i64>,
    pub timestamp: i64,
}

/// Emitted when a [`Transaction`] is approved.
#[derive(Clone, Copy, Debug, PartialEq)]
pub struct TransactionApproveEvent {
    pub smart_wallet: Pubkey,
    pub transaction: Pubkey,
    pub owner: Pubkey,
    pub timestamp: i64,
}

/// Emitted when a [`Transaction`] is unapproved.
#[derive(Clone, Copy, Debug, PartialEq)]
pub struct TransactionUnapproveEvent {
    pub smart_wallet: Pubkey,
    pub transaction: Pubkey,
    pub owner: Pubkey,
    pub timestamp: i64,
}

/// Emitted when a [`Transaction`] is executed.
#[derive(Clone, Copy, Debug, PartialEq)]
pub struct TransactionExecuteEvent {
    pub smart_wallet: Pubkey,
    pub transaction: Pubkey,
    pub executor: Pubkey,
    pub timestamp: i64,
}

/// A vector with the elements of `items`, in the same order.
pub fn copy_of<T: Copy>(items: &Vec<T>) -> (copy: Vec<T>)
    ensures
        copy@ == items@,
{
    let n = items.len();
    let mut copy: Vec<T> = Vec::new();
    let mut i: usize = 0;
    while i < n
        invariant
            n == items@.len(),
            i <= n,
            copy@ == items@.take(i as int),
        decreases n - i,
    {
        copy.push(items[i]);
        i += 1;
    }
    copy
}

/// An instruction that holds what `instruction` holds.
pub fn copy_of_instruction(instruction: &TXInstruction) -> (copy: TXInstruction)
    ensures
        copy@ == instruction@,
{
    TXInstruction {
        program_id: instruction.program_id,
        keys: copy_of(&instruction.keys),
        data: copy_of(&instruction.data),
    }
}

/// Instructions that hold what `instructions` hold, in the same order.
pub fn copy_of_instructions(instructions: &Vec<TXInstruction>) -> (copy: Vec<TXInstruction>)
    ensures
        instruction_views(copy@) == instruction_views(instructions@),
{
    let n = instructions.len();
    let mut copy: Vec<TXInstruction> = Vec::new();
    let mut i: usize = 0;
    while i < n
        invariant
            n == instructions@.len(),
            i <= n,
            copy@.len() == i,
            forall|j: int| 0 <= j < i ==> copy@[j]@ == instructions@[j]@,
        decreases n - i,
    {
        copy.push(copy_of_instruction(&instructions[i]));
        i += 1;
    }
    copy
}

impl WalletCreateEvent {
    /// The event of the creation of `wallet` at `timestamp`.
    pub fn of(wallet: &SmartWallet, timestamp: i64) -> (event: WalletCreateEvent)
        ensures
            event.smart_wallet == wallet.key,
            event.owners@ == wallet.owners@,
            event.threshold == wallet.threshold,
            event.minimum_delay == wallet.minimum_delay,
            event.timestamp == timestamp,
    {
        WalletCreateEvent {
            smart_wallet: wallet.key,
            owners: copy_of(&wallet.owners),
            threshold: wallet.threshold,
            minimum_delay: wallet.minimum_delay,
            timestamp,
        }
    }
}

impl WalletSetOwnersEvent {
    /// The event of `wallet` having been given its present owners at `timestamp`.
    pub fn of(wallet: &SmartWallet, timestamp: i64) -> (event: WalletSetOwnersEvent)
        ensures
            event.smart_wallet == wallet.key,
            event.owners@ == wallet.owners@,
            event.timestamp == timestamp,
    {
        WalletSetOwnersEvent {
            smart_wallet: wallet.key,
            owners: copy_of(&wallet.owners),
            timestamp,
        }
    }
}

impl WalletChangeThresholdEvent {
    /// The event of `wallet` having been given its present threshold at `timestamp`.
    pub fn of(wallet: &SmartWallet, timestamp: i64) -> (event: WalletChangeThresholdEvent)
        ensures
            event == (WalletChangeThresholdEvent {
                smart_wallet: wallet.key,
                threshold: wallet.threshold,
                timestamp,
            }),
    {
        WalletChangeThresholdEvent { smart_wallet: wallet.key, threshold: wallet.threshold, timestamp }
    }
}

impl TransactionCreateEvent {
    /// The event of `tx`, stored at the address `transaction`, having been
    /// proposed at `timestamp`.
    pub fn of(tx: &Transaction, transaction: Pubkey, timestamp: i64) -> (event:
        TransactionCreateEvent)
        ensures
            event.smart_wallet == tx.smart_wallet,
            event.transaction == transaction,
            event.proposer == tx.proposer,
            instruction_views(event.instructions@) == tx@.instructions,
            event.eta == tx.eta,
            event.timestamp == timestamp,
    {
        TransactionCreateEvent {
            smart_wallet: tx.smart_wallet,
            transaction,
            proposer: tx.proposer,
            instructions: copy_of_instructions(&tx.instructions),
            eta: tx.eta,
            timestamp,
        }
    }
}

impl TransactionApproveEvent {
    /// The event of `owner` having approved `tx`, stored at the address
    /// `transaction`, at `timestamp`.
    pub fn of(tx: &Transaction, transaction: Pubkey, owner: Pubkey, timestamp: i64) -> (event:
        TransactionApproveEvent)
        ensures
            event == (TransactionApproveEvent {
                smart_wallet: tx.smart_wallet,
                transaction,
                owner,
                timestamp,
            }),
    {
        TransactionApproveEvent { smart_wallet: tx.smart_wallet, transaction, owner, timestamp }
    }
}

impl TransactionUnapproveEvent {
    /// The event of `owner` having withdrawn the approval of `tx`, stored at
    /// the address `transaction`, at `timestamp`.
    pub fn of(tx: &Transaction, transaction: Pubkey, owner: Pubkey, timestamp: i64) -> (event:
        TransactionUnapproveEvent)
        ensures
            event == (TransactionUnapproveEvent {
                smart_wallet: tx.smart_wallet,
                transaction,
                owner,
                timestamp,
            }),
    {
        TransactionUnapproveEvent { smart_wallet: tx.smart_wallet, transaction, owner, timestamp }
    }
}

impl TransactionExecuteEvent {
    /// The event of the execution of `tx`, stored at the address
    /// `transaction`: there is one exactly when `tx` is executed, and it names
    /// who executed it and when.
    pub fn of(tx: &Transaction, transaction: Pubkey) -> (event: Option<TransactionExecuteEvent>)
        ensures
            event == match (tx.executor, tx.executed_at) {
                (Some(executor), Some(timestamp)) => Some(
                    TransactionExecuteEvent {
                        smart_wallet: tx.smart_wallet,
                        transaction,
                        executor,
                        timestamp,
                    },
                ),
                _ => None,
            },
    {
        match (tx.executor, tx.executed_at) {
            (Some(executor), Some(timestamp)) => Some(
                TransactionExecuteEvent {
                    smart_wallet: tx.smart_wallet,
                    transaction,
                    executor,
                    timestamp,
                },
            ),
            _ => None,
        }
    }
}

} // verus!
