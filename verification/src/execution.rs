//! Executing a transaction: one instruction after the other, all or nothing.
//!
//! The instructions are invoked by the caller of this module, not by it. An
//! attempt starts with [`execute_transaction`] or [`execute_ixs`]. While the
//! answer is [`Progress::Invoke`], the caller invokes the instruction that it
//! names, under the signer seeds that it gives, and tells [`resume`] whether
//! the instruction was applied.

use vstd::prelude::*;
use vstd::bytes::{spec_u64_to_le_bytes, u64_to_le_bytes};
use crate::error::ErrorCode;
use crate::pubkey::Pubkey;
use crate::state::{SmartWallet, SmartWalletView, Transaction, TransactionView};
use crate::validators::{check_executable, executable};

verus! {

/// The authority under which the instructions of a transaction are invoked.
#[derive(Clone, Copy, Debug, PartialEq, Eq, Structural)]
pub enum Authority {
    /// The wallet itself.
    Wallet,
    /// The sub-account of the wallet with the given index.
    Derived { index: u64, bump: u8 },
}

/// An attempt to execute a transaction that has instructions left to invoke.
#[derive(Clone, Copy, Debug, PartialEq)]
pub struct Dispatch {
    /// Position of the instruction that is to be invoked next.
    pub next: usize,
    /// The owner who started the attempt.
    pub caller: Pubkey,
    /// The time at which the attempt was started.
    pub now: i64,
    /// The authority under which the instructions are invoked.
    pub authority: Authority,
}

/// How far an attempt to execute a transaction has come.
#[derive(Clone, Debug, PartialEq)]
pub enum Progress {
    /// The instruction at `dispatch.next` is to be invoked, signed for by the
    /// address that `seeds` derive.
    Invoke { dispatch: Dispatch, seeds: Vec<Vec<u8>> },
    /// Every instruction was applied, and the transaction is marked executed.
    Executed,
    /// The attempt has failed, and the transaction is as it was before it.
    Failed(ErrorCode),
}

/// What a [`Progress`] holds, as mathematics.
pub enum ProgressView {
    Invoke { dispatch: Dispatch, seeds: Seq<Seq<u8>> },
    Executed,
    Failed(ErrorCode),
}

/// The bytes of each seed of `seeds`, in the same order.
pub open spec fn seeds_view(seeds: Seq<Vec<u8>>) -> Seq<Seq<u8>> {
    Seq::new(seeds.len(), |i: int| seeds[i]@)
}

impl View for Progress {
    type V = ProgressView;

    open spec fn view(&self) -> ProgressView {
        match *self {
            Progress::Invoke { dispatch, seeds } => ProgressView::Invoke {
                dispatch,
                seeds: seeds_view(seeds@),
            },
            Progress::Executed => ProgressView::Executed,
            Progress::Failed(e) => ProgressView::Failed(e),
        }
    }
}

/// The text `GokiSmartWallet`, the first seed of a wallet's own address.
pub open spec fn wallet_seed() -> Seq<u8> {
    seq![
        71u8, 111u8, 107u8, 105u8, 83u8, 109u8, 97u8, 114u8, 116u8, 87u8, 97u8, 108u8, 108u8,
        101u8, 116u8,
    ]
}

/// The text `GokiSmartWalletDerived`, the first seed of a sub-account's address.
pub open spec fn derived_seed() -> Seq<u8> {
    wallet_seed() + seq![68u8, 101u8, 114u8, 105u8, 118u8, 101u8, 100u8]
}

/// The seeds of the address that signs for the wallet under `authority`.
///
/// The wallet's own address comes of its base key and bump; the address of a
/// sub-account comes of the wallet's address, the sub-account's index in
/// little-endian bytes, and its bump.
pub open spec fn signer_seeds(wallet: SmartWalletView, authority: Authority) -> Seq<Seq<u8>> {
    match authority {
        Authority::Wallet => seq![wallet_seed(), wallet.base@, seq![wallet.bump]],
        Authority::Derived { index, bump } => seq![
            derived_seed(),
            wallet.key@,
            spec_u64_to_le_bytes(index),
            seq![bump],
        ],
    }
}

/// Where an attempt stands once the instructions before `next` are applied.
///
/// The transaction must be executable at that moment too. If it is, the
/// instruction at `next` is invoked; if there is none left, the transaction is
/// marked executed.
pub open spec fn advance(
    tx: TransactionView,
    wallet: SmartWalletView,
    next: int,
    caller: Pubkey,
    now: i64,
    authority: Authority,
) -> (TransactionView, ProgressView) {
    match executable(tx, wallet, caller, now) {
        Err(e) => (tx, ProgressView::Failed(e)),
        Ok(_) => if 0 <= next < tx.instructions.len() {
            (
                tx,
                ProgressView::Invoke {
                    dispatch: Dispatch { next: next as usize, caller, now, authority },
                    seeds: signer_seeds(wallet, authority),
                },
            )
        } else {
            (
                TransactionView { executor: Some(caller), executed_at: Some(now), ..tx },
                ProgressView::Executed,
            )
        },
    }
}

/// Where an attempt stands once its caller has told whether the instruction
/// that `dispatch` names was applied: one that was not ends the attempt.
pub open spec fn resumed(
    tx: TransactionView,
    wallet: SmartWalletView,
    dispatch: Dispatch,
    applied: bool,
) -> (TransactionView, ProgressView) {
    if applied {
        advance(tx, wallet, dispatch.next + 1, dispatch.caller, dispatch.now, dispatch.authority)
    } else {
        (tx, ProgressView::Failed(ErrorCode::ExecutionFailure))
    }
}

/// The bytes of `key`.
fn key_bytes(key: &Pubkey) -> (bytes: Vec<u8>)
    ensures
        bytes@ == key@,
{
    let mut bytes: Vec<u8> = Vec::new();
    let mut i: usize = 0;
    while i < 32
        invariant
            i <= 32,
            bytes@ == key@.take(i as int),
        decreases 32 - i,
    {
        bytes.push(key.bytes[i]);
        i += 1;
    }
    bytes
}

/// The text `GokiSmartWallet`.
fn wallet_seed_bytes() -> (bytes: Vec<u8>)
    ensures
        bytes@ == wallet_seed(),
{
    vec![71, 111, 107, 105, 83, 109, 97, 114, 116, 87, 97, 108, 108, 101, 116]
}

/// The text `GokiSmartWalletDerived`.
fn derived_seed_bytes() -> (bytes: Vec<u8>)
    ensures
        bytes@ == derived_seed(),
{
    let mut bytes = wallet_seed_bytes();
    let mut tail: Vec<u8> = vec![68, 101, 114, 105, 118, 101, 100];
    bytes.append(&mut tail);
    bytes
}

/// The seeds of the address that signs for the wallet under `authority`.
pub fn derive_signer_seeds(wallet: &SmartWallet, authority: Authority) -> (seeds: Vec<Vec<u8>>)
    ensures
        seeds_view(seeds@) == signer_seeds(wallet@, authority),
{
    let mut seeds: Vec<Vec<u8>> = Vec::new();
    match authority {
        Authority::Wallet => {
            let bump_seed: Vec<u8> = vec![wallet.bump];
            assert(bump_seed@ =~= seq![wallet.bump]);
            seeds.push(wallet_seed_bytes());
            seeds.push(key_bytes(&wallet.base));
            seeds.push(bump_seed);
        },
        Authority::Derived { index, bump } => {
            let bump_seed: Vec<u8> = vec![bump];
            assert(bump_seed@ =~= seq![bump]);
            seeds.push(derived_seed_bytes());
            seeds.push(key_bytes(&wallet.key));
            seeds.push(u64_to_le_bytes(index));
            seeds.push(bump_seed);
        },
    }
    seeds
}

/// Takes the attempt on from the point where the instructions before `next`
/// are applied.
fn advance_to(
    tx: &mut Transaction,
    wallet: &SmartWallet,
    next: usize,
    caller: Pubkey,
    now: i64,
    authority: Authority,
) -> (progress: Progress)
    ensures
        (final(tx)@, progress@) == advance(old(tx)@, wallet@, next as int, caller, now, authority),
        !(progress is Executed) ==> *final(tx) == *old(tx),
{
    match check_executable(tx, wallet, caller, now) {
        Err(e) => Progress::Failed(e),
        Ok(_) => {
            if next < tx.instructions.len() {
                Progress::Invoke {
                    dispatch: Dispatch { next, caller, now, authority },
                    seeds: derive_signer_seeds(wallet, authority),
                }
            } else {
                tx.executor = Some(caller);
                tx.executed_at = Some(now);
                Progress::Executed
            }
        },
    }
}

/// Starts an attempt by `caller` to execute the transaction at `now`, with
/// the wallet itself signing for its instructions.
///
/// The attempt fails at once unless the transaction is executable. A
/// transaction without instructions is executed by this call.
pub fn execute_transaction(
    tx: &mut Transaction,
    wallet: &SmartWallet,
    caller: Pubkey,
    now: i64,
) -> (progress: Progress)
    ensures
        (final(tx)@, progress@) == advance(old(tx)@, wallet@, 0, caller, now, Authority::Wallet),
        !(progress is Executed) ==> *final(tx) == *old(tx),
        progress is Executed ==> old(tx)@.tally() >= wallet.threshold,
        progress is Executed ==> !old(tx)@.is_executed() && final(tx)@.is_executed(),
{
    advance_to(tx, wallet, 0, caller, now, Authority::Wallet)
}

/// Starts an attempt by `caller` to execute the transaction at `now`, with
/// the wallet's sub-account of the given index signing for its instructions.
///
/// What is asked of the transaction is what [`execute_transaction`] asks.
pub fn execute_ixs(
    tx: &mut Transaction,
    wallet: &SmartWallet,
    caller: Pubkey,
    now: i64,
    index: u64,
    bump: u8,
) -> (progress: Progress)
    ensures
        (final(tx)@, progress@) == advance(
            old(tx)@,
            wallet@,
            0,
            caller,
            now,
            Authority::Derived { index, bump },
        ),
        !(progress is Executed) ==> *final(tx) == *old(tx),
        progress is Executed ==> old(tx)@.tally() >= wallet.threshold,
        progress is Executed ==> !old(tx)@.is_executed() && final(tx)@.is_executed(),
{
    advance_to(tx, wallet, 0, caller, now, Authority::Derived { index, bump })
}

/// Takes up an attempt after the instruction that `dispatch` names was
/// invoked: `applied` tells whether it was applied.
///
/// If it was not, the attempt has failed and the transaction stays to be
/// executed. If it was, the transaction must still be executable; then the
/// next instruction is invoked, or, after the last one, the transaction is
/// marked executed by `dispatch.caller` at `dispatch.now`.
pub fn resume(
    tx: &mut Transaction,
    wallet: &SmartWallet,
    dispatch: Dispatch,
    applied: bool,
) -> (progress: Progress)
    ensures
        (final(tx)@, progress@) == resumed(old(tx)@, wallet@, dispatch, applied),
        !(progress is Executed) ==> *final(tx) == *old(tx),
        progress is Executed ==> old(tx)@.tally() >= wallet.threshold,
        progress is Executed ==> !old(tx)@.is_executed() && final(tx)@.is_executed(),
{
    if !applied {
        return Progress::Failed(ErrorCode::ExecutionFailure);
    }
    if dispatch.next < tx.instructions.len() {
        advance_to(tx, wallet, dispatch.next + 1, dispatch.caller, dispatch.now, dispatch.authority)
    } else {
        let end = tx.instructions.len();
        advance_to(tx, wallet, end, dispatch.caller, dispatch.now, dispatch.authority)
    }
}

/// Where an attempt ends that stands before the instruction at `next`, when
/// the instruction at each position `i` is applied exactly if `outcomes[i]`,
/// and nothing else touches the transaction or the wallet meanwhile.
pub open spec fn run(
    tx: TransactionView,
    wallet: SmartWalletView,
    next: nat,
    caller: Pubkey,
    now: i64,
    authority: Authority,
    outcomes: Seq<bool>,
) -> (TransactionView, ProgressView)
    decreases tx.instructions.len() - next,
{
    let step = advance(tx, wallet, next as int, caller, now, authority);
    match step.1 {
        ProgressView::Invoke { dispatch, .. } => if next < tx.instructions.len() {
            if applied_at(outcomes, next as int) {
                run(tx, wallet, next + 1, caller, now, authority, outcomes)
            } else {
                resumed(tx, wallet, dispatch, false)
            }
        } else {
            step
        },
        _ => step,
    }
}

/// Whether `outcomes` tells of the instruction at `i` that it is applied.
pub open spec fn applied_at(outcomes: Seq<bool>, i: int) -> bool {
    0 <= i < outcomes.len() && outcomes[i]
}

/// Whether `outcomes` tells of each instruction from `next` up to `end` that
/// it is applied.
pub open spec fn all_applied(outcomes: Seq<bool>, next: nat, end: nat) -> bool {
    forall|i: int| next <= i < end ==> #[trigger] applied_at(outcomes, i)
}

/// An attempt is all or nothing. One on a transaction that is not executable
/// fails for the reason why it is not. One on a transaction that is goes
/// through the instructions in order: if each is applied, the transaction is
/// marked executed, by the caller and at the time of the attempt; if one is
/// not, the attempt fails there and the transaction is as it was.
pub proof fn lemma_run(
    tx: TransactionView,
    wallet: SmartWalletView,
    next: nat,
    caller: Pubkey,
    now: i64,
    authority: Authority,
    outcomes: Seq<bool>,
)
    ensures
        run(tx, wallet, next, caller, now, authority, outcomes) == match executable(
            tx,
            wallet,
            caller,
            now,
        ) {
            Err(e) => (tx, ProgressView::Failed(e)),
            Ok(_) => if all_applied(outcomes, next, tx.instructions.len()) {
                (
                    TransactionView { executor: Some(caller), executed_at: Some(now), ..tx },
                    ProgressView::Executed,
                )
            } else {
                (tx, ProgressView::Failed(ErrorCode::ExecutionFailure))
            },
        },
    decreases tx.instructions.len() - next,
{
    if executable(tx, wallet, caller, now) is Ok && next < tx.instructions.len() {
        if applied_at(outcomes, next as int) {
            lemma_run(tx, wallet, next + 1, caller, now, authority, outcomes);
        }
    }
}

/// No step of an attempt marks a transaction executed that has fewer
/// approvals than the threshold at that step: the step fails, and the
/// transaction stays as it is.
pub proof fn lemma_no_execution_below_threshold(
    tx: TransactionView,
    wallet: SmartWalletView,
    next: int,
    caller: Pubkey,
    now: i64,
    authority: Authority,
)
    requires
        tx.tally() < wallet.threshold,
    ensures
        advance(tx, wallet, next, caller, now, authority).1 is Failed,
        advance(tx, wallet, next, caller, now, authority).0 == tx,
{
}

/// A transaction is executed at most once: a step marks it executed only if
/// it was not, and every step on one that is fails and leaves it as it is.
pub proof fn lemma_executed_once(
    tx: TransactionView,
    wallet: SmartWalletView,
    next: int,
    caller: Pubkey,
    now: i64,
    authority: Authority,
)
    ensures
        advance(tx, wallet, next, caller, now, authority).1 is Executed ==> !tx.is_executed()
            && advance(tx, wallet, next, caller, now, authority).0.is_executed(),
        tx.is_executed() ==> advance(tx, wallet, next, caller, now, authority).1 is Failed
            && advance(tx, wallet, next, caller, now, authority).0 == tx,
        tx.is_executed() && tx.smart_wallet == wallet.key && wallet.is_owner(caller) ==> advance(
            tx,
            wallet,
            next,
            caller,
            now,
            authority,
        ).1 == ProgressView::Failed(ErrorCode::AlreadyExecuted),
        tx.wf() ==> advance(tx, wallet, next, caller, now, authority).0.wf(),
        tx.parallel_to(wallet) ==> advance(tx, wallet, next, caller, now, authority).0.parallel_to(
            wallet,
        ),
{
}

/// Execution does not succeed twice: after a step that marks a transaction
/// executed, every step on it fails, whoever takes it, whenever, and under
/// whatever wallet.
pub proof fn lemma_no_second_execution(
    tx: TransactionView,
    wallet: SmartWalletView,
    next: int,
    caller: Pubkey,
    now: i64,
    authority: Authority,
    later: (SmartWalletView, int, Pubkey, i64, Authority),
)
    requires
        advance(tx, wallet, next, caller, now, authority).1 is Executed,
    ensures
        ({
            let executed = advance(tx, wallet, next, caller, now, authority).0;
            let again = advance(executed, later.0, later.1, later.2, later.3, later.4);
            again.1 is Failed && again.0 == executed && executed.executed_at == Some(now)
                && executed.executor == Some(caller)
        }),
{
}

/// Once the owners or the threshold of the wallet have changed, no step
/// executes a transaction that was made before, whatever its votes and the
/// time: the step fails and the transaction stays as it is. An owner who
/// tries it on a transaction that is still to be executed is told that the
/// owner set has changed.
pub proof fn lemma_no_execution_after_change(
    tx: TransactionView,
    wallet: SmartWalletView,
    next: int,
    caller: Pubkey,
    now: i64,
    authority: Authority,
)
    requires
        tx.owner_set_seqno != wallet.owner_set_seqno,
    ensures
        advance(tx, wallet, next, caller, now, authority).1 is Failed,
        advance(tx, wallet, next, caller, now, authority).0 == tx,
        tx.smart_wallet == wallet.key && wallet.is_owner(caller) && !tx.is_executed() ==> advance(
            tx,
            wallet,
            next,
            caller,
            now,
            authority,
        ).1 == ProgressView::Failed(ErrorCode::OwnerSetChanged),
{
}

/// A step changes nothing of a transaction but who executed it and when, and
/// those only when it marks the transaction executed: by the caller, at the
/// time of the attempt. An attempt of which an instruction was not applied
/// fails and leaves the transaction to be executed.
pub proof fn lemma_all_or_nothing(
    tx: TransactionView,
    wallet: SmartWalletView,
    dispatch: Dispatch,
    applied: bool,
)
    ensures
        match resumed(tx, wallet, dispatch, applied).1 {
            ProgressView::Executed => applied && resumed(tx, wallet, dispatch, applied).0 == (
                TransactionView {
                    executor: Some(dispatch.caller),
                    executed_at: Some(dispatch.now),
                    ..tx
                }
            ),
            _ => resumed(tx, wallet, dispatch, applied).0 == tx,
        },
        !applied ==> resumed(tx, wallet, dispatch, applied).1 == ProgressView::Failed(
            ErrorCode::ExecutionFailure,
        ),
{
}

} // verus!
