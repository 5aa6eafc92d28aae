//! State structs and their mathematical views.

use vstd::prelude::*;
use crate::pubkey::Pubkey;

verus! {

/// A multisig wallet: who owns it, how many of them must agree, and how long
/// an approved transaction has to wait.
#[derive(Clone, Debug, PartialEq)]
pub struct SmartWallet {
    /// Address of the wallet. Fixed when the wallet is created.
    pub key: Pubkey,
    /// Base used to derive.
    pub base: Pubkey,
    /// Bump seed for deriving PDA seeds.
    pub bump: u8,
    /// Number of owners the wallet has room for. Fixed when the wallet is created.
    pub max_owners: u8,
    /// Minimum number of owner approvals needed to sign a transaction.
    pub threshold: u64,
    /// Minimum delay between approval and execution.
    pub minimum_delay: i64,
    /// Time after the ETA until a transaction expires.
    pub grace_period: i64,
    /// Sequence of the ownership set.
    pub owner_set_seqno: u32,
    /// Total number of [`Transaction`]s on this [`SmartWallet`].
    pub num_transactions: u64,
    /// Owners of the [`SmartWallet`].
    pub owners: Vec<Pubkey>,
}

/// What a [`SmartWallet`] holds, as mathematics.
pub struct SmartWalletView {
    pub key: Pubkey,
    pub base: Pubkey,
    pub bump: u8,
    pub max_owners: u8,
    pub threshold: u64,
    pub minimum_delay: i64,
    pub grace_period: i64,
    pub owner_set_seqno: u32,
    pub num_transactions: u64,
    pub owners: Seq<Pubkey>,
}

impl View for SmartWallet {
    type V = SmartWalletView;

    open spec fn view(&self) -> SmartWalletView {
        SmartWalletView {
            key: self.key,
            base: self.base,
            bump: self.bump,
            max_owners: self.max_owners,
            threshold: self.threshold,
            minimum_delay: self.minimum_delay,
            grace_period: self.grace_period,
            owner_set_seqno: self.owner_set_seqno,
            num_transactions: self.num_transactions,
            owners: self.owners@,
        }
    }
}

/// Account metadata used to define [`TXInstruction`]s.
#[derive(Clone, Copy, Debug, PartialEq)]
pub struct TXAccountMeta {
    /// An account's public key.
    pub pubkey: Pubkey,
    /// True if an instruction requires a transaction signature matching `pubkey`.
    pub is_signer: bool,
    /// True if the `pubkey` can be loaded as a read-write account.
    pub is_writable: bool,
}

/// Instruction.
#[derive(Clone, Debug, PartialEq)]
pub struct TXInstruction {
    /// Pubkey of the instruction processor that executes this instruction.
    pub program_id: Pubkey,
    /// Metadata for what accounts should be passed to the instruction processor.
    pub keys: Vec<TXAccountMeta>,
    /// Opaque data passed to the instruction processor.
    pub data: Vec<u8>,
}

/// What a [`TXInstruction`] holds, as mathematics.
pub struct TXInstructionView {
    pub program_id: Pubkey,
    pub keys: Seq<TXAccountMeta>,
    pub data: Seq<u8>,
}

impl View for TXInstruction {
    type V = TXInstructionView;

    open spec fn view(&self) -> TXInstructionView {
        TXInstructionView { program_id: self.program_id, keys: self.keys@, data: self.data@ }
    }
}

/// The views of the instructions of `instructions`, in the same order.
pub open spec fn instruction_views(instructions: Seq<TXInstruction>) -> Seq<TXInstructionView> {
    Seq::new(instructions.len(), |i: int| instructions[i]@)
}

/// A transaction proposed to a [`SmartWallet`], with the owners' votes on it.
#[derive(Clone, Debug, PartialEq)]
pub struct Transaction {
    /// The [`SmartWallet`] account this transaction belongs to.
    pub smart_wallet: Pubkey,
    /// The auto-incremented integer index of the transaction.
    /// All transactions on the [`SmartWallet`] can be looked up via this index,
    /// allowing for easier browsing of a wallet's historical transactions.
    pub index: u64,
    /// The proposer of the [`Transaction`].
    pub proposer: Pubkey,
    /// The instructions, in the order in which they are executed.
    pub instructions: Vec<TXInstruction>,
    /// `signers[index]` is true iff `[SmartWallet]::owners[index]` signed the transaction.
    pub signers: Vec<bool>,
    /// Owner set sequence number.
    pub owner_set_seqno: u32,
    /// Estimated time the transaction will be executed, if it is scheduled.
    pub eta: Option<i64>,
    /// The account that executed the [`Transaction`], once it is executed.
    pub executor: Option<Pubkey>,
    /// When the transaction was executed. `None` if not executed.
    pub executed_at: Option<i64>,
}

/// What a [`Transaction`] holds, as mathematics.
pub struct TransactionView {
    pub smart_wallet: Pubkey,
    pub index: u64,
    pub proposer: Pubkey,
    pub instructions: Seq<TXInstructionView>,
    pub signers: Seq<bool>,
    pub owner_set_seqno: u32,
    pub eta: Option<i64>,
    pub executor: Option<Pubkey>,
    pub executed_at: Option<i64>,
}

impl View for Transaction {
    type V = TransactionView;

    open spec fn view(&self) -> TransactionView {
        TransactionView {
            smart_wallet: self.smart_wallet,
            index: self.index,
            proposer: self.proposer,
            instructions: instruction_views(self.instructions@),
            signers: self.signers@,
            owner_set_seqno: self.owner_set_seqno,
            eta: self.eta,
            executor: self.executor,
            executed_at: self.executed_at,
        }
    }
}

/// What stands for "no time" where a time is stored as a plain number: for a
/// transaction without an ETA, and for one that is not executed.
pub const NO_ETA: i64 = -1;

/// The time that the stored number `raw` stands for, if it stands for one.
pub open spec fn stored_time(raw: i64) -> Option<i64> {
    if raw == NO_ETA {
        None
    } else {
        Some(raw)
    }
}

/// The time that the stored number `raw` stands for, if it stands for one.
pub fn time_from_stored(raw: i64) -> (time: Option<i64>)
    ensures
        time == stored_time(raw),
{
    if raw == NO_ETA {
        None
    } else {
        Some(raw)
    }
}

/// The number that is stored for `time`.
///
/// Every time but [`NO_ETA`] itself is read back from its number by
/// [`time_from_stored`].
pub fn time_to_stored(time: Option<i64>) -> (raw: i64)
    ensures
        raw == match time {
            Some(at) => at,
            None => NO_ETA,
        },
        time != Some(NO_ETA) ==> stored_time(raw) == time,
{
    match time {
        Some(at) => at,
        None => NO_ETA,
    }
}

/// Type of Subaccount.
#[derive(Clone, Copy, Debug, PartialEq, Eq, Structural)]
pub enum SubaccountType {
    /// Address derived from the wallet's address and an index.
    Derived,
    /// Address that an owner may invoke instructions with.
    OwnerInvoker,
}

impl Default for SubaccountType {
    fn default() -> (kind: SubaccountType)
        ensures
            kind == SubaccountType::Derived,
    {
        SubaccountType::Derived
    }
}

/// What is recorded of a sub-account of a wallet.
#[derive(Clone, Copy, Debug, PartialEq)]
pub struct SubaccountInfo {
    /// Smart wallet of the sub-account.
    pub smart_wallet: Pubkey,
    /// Type of sub-account.
    pub subaccount_type: SubaccountType,
    /// Index of the sub-account.
    pub index: u64,
}

/// What a stake is created with.
#[derive(Clone, Debug, PartialEq)]
pub struct StakeData {
    pub duration: i32,
    pub genesis_epoch: Vec<u8>,
    pub name: Vec<u8>,
    pub reward_pot: i64,
    pub protected_gids: Vec<u16>,
    pub uuid: Vec<u8>,
}

/// A stake: a reward pot that entities of the groups it does not protect may
/// claim from and withdraw from.
#[derive(Clone, Debug, PartialEq)]
pub struct Stake {
    pub bump: u8,
    pub duration: i32,
    pub genesis_epoch: Vec<u8>,
    pub name: Vec<u8>,
    pub reward_pot: i64,
    pub protected_gids: Vec<u16>,
    pub uuid: Vec<u8>,
}

/// What a [`Stake`] holds, as mathematics.
pub struct StakeView {
    pub bump: u8,
    pub duration: i32,
    pub genesis_epoch: Seq<u8>,
    pub name: Seq<u8>,
    pub reward_pot: i64,
    pub protected_gids: Seq<u16>,
    pub uuid: Seq<u8>,
}

impl View for Stake {
    type V = StakeView;

    open spec fn view(&self) -> StakeView {
        StakeView {
            bump: self.bump,
            duration: self.duration,
            genesis_epoch: self.genesis_epoch@,
            name: self.name@,
            reward_pot: self.reward_pot,
            protected_gids: self.protected_gids@,
            uuid: self.uuid@,
        }
    }
}

/// The enrollment of one mint in a group.
#[derive(Clone, Debug, PartialEq)]
pub struct Ticket {
    /// Time of enrollment: eight bytes, little-endian.
    pub enrollment_epoch: Vec<u8>,
    pub bump: u8,
    pub gid: u16,
    pub mint: Pubkey,
    pub owner: Pubkey,
}

/// What a [`Ticket`] holds, as mathematics.
pub struct TicketView {
    pub enrollment_epoch: Seq<u8>,
    pub bump: u8,
    pub gid: u16,
    pub mint: Pubkey,
    pub owner: Pubkey,
}

impl View for Ticket {
    type V = TicketView;

    open spec fn view(&self) -> TicketView {
        TicketView {
            enrollment_epoch: self.enrollment_epoch@,
            bump: self.bump,
            gid: self.gid,
            mint: self.mint,
            owner: self.owner,
        }
    }
}

/// The mints that one owner has enrolled in one group.
#[derive(Clone, Debug, PartialEq)]
pub struct Rollup {
    pub bump: u8,
    /// Time of the last claim: eight bytes, little-endian.
    pub timestamp: Vec<u8>,
    pub gid: u16,
    /// Number of mints enrolled.
    pub mints: u32,
}

/// What a [`Rollup`] holds, as mathematics.
pub struct RollupView {
    pub bump: u8,
    pub timestamp: Seq<u8>,
    pub gid: u16,
    pub mints: u32,
}

impl View for Rollup {
    type V = RollupView;

    open spec fn view(&self) -> RollupView {
        RollupView { bump: self.bump, timestamp: self.timestamp@, gid: self.gid, mints: self.mints }
    }
}

impl Stake {
    /// Number of bytes that a stake protecting `protected_gids` groups takes
    /// when it is stored.
    pub fn space(protected_gids: usize) -> (bytes: usize)
        requires
            113 + 2 * protected_gids <= usize::MAX,
        ensures
            bytes == 113 + 2 * protected_gids,
    {
        8 + 1  // bump
         + 4  // duration
         + 4 + 8  // genesis epoch
         + 4 + 32  // name
         + 8  // reward pot
         + 4 + (protected_gids * 2)  // protected gids
         + 4 + 36  // uuid
    }
}

impl Ticket {
    /// Number of bytes that a ticket takes when it is stored.
    pub fn space() -> (bytes: usize)
        ensures
            bytes == 95,
    {
        8 + 4 + 8  // enrollment epoch
         + 1  // bump
         + 2  // gid
         + 4 + 32  // mint
         + 4 + 32  // owner
    }
}

impl Rollup {
    /// Number of bytes that a rollup takes when it is stored.
    pub fn space() -> (bytes: usize)
        ensures
            bytes == 27,
    {
        8 + 1  // bump
         + 4 + 8  // timestamp
         + 2  // gid
         + 4  // mints
    }
}

} // verus!
