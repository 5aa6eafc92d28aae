//! Multisig wallet with timelock capabilities.
//!
//! A [`SmartWallet`] names a set of owners and a threshold. An owner proposes a
//! [`Transaction`]; owners approve it; once enough of them have, and the time
//! lock allows it, an owner may execute it. A transaction that was made before
//! the owners or the threshold of its wallet changed is never executed.
//!
//! The library decides and keeps the books; it touches nothing outside the
//! values it is handed. Its caller reads the clock, stores the records, and
//! invokes the instructions of a transaction when [`execution`] says so.
//!
//! - [`wallet`]: creating a wallet, finding an owner, changing owners and threshold.
//! - [`transaction`]: proposing a transaction, approving it, counting the approvals.
//! - [`timelock`]: when a scheduled transaction may be executed.
//! - [`validators`]: what is asked of a transaction before it is executed.
//! - [`execution`]: executing a transaction, instruction by instruction.
//! - [`entity`]: stakes, and the entities enrolled in them.
//! - [`events`]: what an observer is told of each change.
//! - [`state`], [`pubkey`], [`error`]: the records, their keys, and the failure kinds.

use vstd::prelude::*;

pub mod entity;
pub mod error;
pub mod events;
pub mod execution;
pub mod pubkey;
pub mod state;
pub mod timelock;
pub mod transaction;
pub mod validators;
pub mod wallet;

pub use entity::{
    claim_entities, create_stake, register_entity, renew_enrollment, rollup_entity,
    try_claim_entities, try_update_entity, update_entity, update_entity_by_owner,
    withdraw_entity, withdraw_entity_by_program,
};
pub use error::ErrorCode;
pub use events::{
    ClaimEntitiesEvent, ClaimEntitiesEventView, ClaimEntityEvent, CreateStakeEvent, TransactionApproveEvent,
    TransactionCreateEvent, TransactionExecuteEvent, TransactionUnapproveEvent,
    WalletChangeThresholdEvent, WalletCreateEvent, WalletSetOwnersEvent, WithdrawEntityEvent,
};
pub use execution::{
    execute_ixs, execute_transaction, resume, Authority, Dispatch, Progress, ProgressView,
};
pub use pubkey::Pubkey;
pub use timelock::{is_executable, Outcome};
pub use transaction::{append_transaction, approve, propose, unapprove};
pub use validators::check_executable;
pub use wallet::create_smart_wallet;
pub use state::{
    time_from_stored, time_to_stored, Rollup, RollupView, SmartWallet, SmartWalletView, Stake, StakeData, StakeView,
    SubaccountInfo, SubaccountType, TXAccountMeta, TXInstruction, TXInstructionView, Ticket,
    TicketView, Transaction, TransactionView, NO_ETA,
};

verus! {

/// Number of seconds in a day.
pub const SECONDS_PER_DAY: i64 = 86_400;

/// Maximum timelock delay.
pub const MAX_DELAY_SECONDS: i64 = 365 * SECONDS_PER_DAY;

/// Default number of seconds until a transaction expires.
pub const DEFAULT_GRACE_PERIOD: i64 = 14 * SECONDS_PER_DAY;

} // verus!
