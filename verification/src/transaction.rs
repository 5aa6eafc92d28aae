//! Proposing a transaction and voting on it.

use vstd::prelude::*;
use crate::error::ErrorCode;
use crate::pubkey::Pubkey;
use crate::state::{
    instruction_views, SmartWallet, SmartWalletView, TXInstruction, TXInstructionView,
    Transaction, TransactionView,
};
use crate::MAX_DELAY_SECONDS;

verus! {

/// The number of approvals among `signers`.
pub open spec fn tally(signers: Seq<bool>) -> nat
    decreases signers.len(),
{
    if signers.len() == 0 {
        0
    } else {
        tally(signers.drop_last()) + if signers.last() {
            1nat
        } else {
            0nat
        }
    }
}

/// Changing one ballot changes the tally by that ballot alone.
pub proof fn lemma_tally_update(signers: Seq<bool>, i: int, ballot: bool)
    requires
        0 <= i < signers.len(),
    ensures
        tally(signers.update(i, ballot)) + (if signers[i] {
            1nat
        } else {
            0nat
        }) == tally(signers) + (if ballot {
            1nat
        } else {
            0nat
        }),
    decreases signers.len(),
{
    let after = signers.update(i, ballot);
    if i == signers.len() - 1 {
        assert(after.drop_last() =~= signers.drop_last());
    } else {
        assert(after.drop_last() =~= signers.drop_last().update(i, ballot));
        lemma_tally_update(signers.drop_last(), i, ballot);
    }
}

/// Ballots of which only the one at `slot` is an approval hold one approval.
pub proof fn lemma_tally_single(len: nat, slot: int)
    requires
        0 <= slot < len,
    ensures
        tally(Seq::new(len, |i: int| i == slot)) == 1,
    decreases len,
{
    let one = Seq::new(len, |i: int| i == slot);
    if slot == len - 1 {
        assert(one.drop_last() =~= Seq::new((len - 1) as nat, |i: int| false));
        lemma_tally_none((len - 1) as nat);
    } else {
        assert(one.drop_last() =~= Seq::new((len - 1) as nat, |i: int| i == slot));
        lemma_tally_single((len - 1) as nat, slot);
    }
}

/// Ballots without an approval hold none.
pub proof fn lemma_tally_none(len: nat)
    ensures
        tally(Seq::new(len, |i: int| false)) == 0,
    decreases len,
{
    if len > 0 {
        let none = Seq::new(len, |i: int| false);
        assert(none.drop_last() =~= Seq::new((len - 1) as nat, |i: int| false));
        lemma_tally_none((len - 1) as nat);
    }
}

/// Whether a wallet with the given minimum delay accepts, at time `now`, a
/// transaction to be executed at `eta`.
///
/// A scheduled transaction must wait at least the minimum delay and at most
/// the maximum delay. One without a schedule is accepted only by a wallet
/// without a minimum delay.
pub open spec fn eta_allowed(minimum_delay: i64, eta: Option<i64>, now: i64) -> bool {
    match eta {
        None => minimum_delay == 0,
        Some(at) => now + minimum_delay <= at <= now + MAX_DELAY_SECONDS,
    }
}

/// The transaction that [`propose`] makes and the wallet that it leaves, or
/// the reason why it makes none.
pub open spec fn proposed(
    wallet: SmartWalletView,
    proposer: Pubkey,
    instructions: Seq<TXInstructionView>,
    eta: Option<i64>,
    now: i64,
) -> Result<(TransactionView, SmartWalletView), ErrorCode> {
    if !wallet.is_owner(proposer) {
        Err(ErrorCode::InvalidOwner)
    } else if !eta_allowed(wallet.minimum_delay, eta, now) {
        Err(ErrorCode::InvalidETA)
    } else if wallet.num_transactions == u64::MAX {
        Err(ErrorCode::IntegerOverflow)
    } else {
        Ok(
            (
                TransactionView {
                    smart_wallet: wallet.key,
                    index: wallet.num_transactions,
                    proposer,
                    instructions,
                    signers: Seq::new(
                        wallet.owners.len(),
                        |i: int| wallet.owner_slot(proposer) == Some(i),
                    ),
                    owner_set_seqno: wallet.owner_set_seqno,
                    eta,
                    executor: None,
                    executed_at: None,
                },
                SmartWalletView { num_transactions: (wallet.num_transactions + 1) as u64, ..wallet },
            ),
        )
    }
}

impl TransactionView {
    /// The number of owners who approve of the transaction.
    pub open spec fn tally(self) -> nat {
        tally(self.signers)
    }

    /// Whether the transaction has been executed.
    pub open spec fn is_executed(self) -> bool {
        self.executed_at is Some
    }

    /// The transaction names who executed it exactly when it names when.
    pub open spec fn wf(self) -> bool {
        self.executor is Some <==> self.executed_at is Some
    }

    /// The transaction belongs to `wallet` and was made under its present
    /// owners and threshold or under earlier ones; as long as they are the
    /// present ones, it holds one ballot for each owner.
    pub open spec fn parallel_to(self, wallet: SmartWalletView) -> bool {
        &&& self.smart_wallet == wallet.key
        &&& self.owner_set_seqno <= wallet.owner_set_seqno
        &&& self.owner_set_seqno == wallet.owner_set_seqno ==> self.signers.len()
            == wallet.owners.len()
    }

    /// Whether the ballot of `owner`, an owner of `wallet`, is an approval.
    pub open spec fn approved_by(self, wallet: SmartWalletView, owner: Pubkey) -> bool {
        wallet.owner_slot(owner) matches Some(slot) && slot < self.signers.len()
            && self.signers[slot]
    }

    /// By how much the tally moves when `owner` casts `ballot`: by one if the
    /// transaction is to be executed and the owner's ballot was the other one,
    /// and else not at all.
    pub open spec fn ballot_weight(self, wallet: SmartWalletView, owner: Pubkey, ballot: bool)
        -> nat {
        if !self.is_executed() && self.approved_by(wallet, owner) != ballot {
            1
        } else {
            0
        }
    }

    /// The transaction after `owner` has cast `ballot` on it, or the reason why
    /// the ballot is refused.
    ///
    /// Only an owner of the wallet that the transaction belongs to has a
    /// ballot, and it is the one at the owner's slot. An executed transaction
    /// takes the ballot and stays as it is. An owner whose slot lies beyond
    /// the ballots joined the wallet after the transaction was made, and is
    /// told that the owner set has changed.
    pub open spec fn with_ballot(self, wallet: SmartWalletView, owner: Pubkey, ballot: bool)
        -> Result<TransactionView, ErrorCode> {
        if self.smart_wallet != wallet.key || !wallet.is_owner(owner) {
            Err(ErrorCode::InvalidOwner)
        } else if self.is_executed() {
            Ok(self)
        } else {
            match wallet.owner_slot(owner) {
                Some(slot) if slot < self.signers.len() => Ok(
                    TransactionView { signers: self.signers.update(slot, ballot), ..self },
                ),
                _ => Err(ErrorCode::OwnerSetChanged),
            }
        }
    }

    /// The transaction after `owner` has written `instruction` to the slot
    /// `index` of its instructions, or the reason why that is refused.
    pub open spec fn with_instruction(
        self,
        wallet: SmartWalletView,
        owner: Pubkey,
        index: int,
        instruction: TXInstructionView,
    ) -> Result<TransactionView, ErrorCode> {
        if self.smart_wallet != wallet.key || !wallet.is_owner(owner) {
            Err(ErrorCode::InvalidOwner)
        } else if self.is_executed() {
            Err(ErrorCode::AlreadyExecuted)
        } else if !(0 <= index < self.instructions.len()) {
            Err(ErrorCode::CapacityExceeded)
        } else {
            Ok(
                TransactionView {
                    instructions: self.instructions.update(index, instruction),
                    ..self
                },
            )
        }
    }
}

/// Whether `eta` is allowed at `now` by a wallet with the given minimum delay.
fn check_eta(minimum_delay: i64, eta: Option<i64>, now: i64) -> (r: bool)
    ensures
        r == eta_allowed(minimum_delay, eta, now),
{
    match eta {
        None => minimum_delay == 0,
        Some(at) => {
            let earliest: i128 = now as i128 + minimum_delay as i128;
            let latest: i128 = now as i128 + MAX_DELAY_SECONDS as i128;
            earliest <= at as i128 && at as i128 <= latest
        },
    }
}

/// Ballots for `len` owners of which only the one at `slot` is an approval.
fn initial_ballots(len: usize, slot: usize) -> (signers: Vec<bool>)
    ensures
        signers@ == Seq::new(len as nat, |i: int| i == slot),
{
    let mut signers: Vec<bool> = Vec::new();
    let mut i: usize = 0;
    while i < len
        invariant
            i <= len,
            signers@ == Seq::new(i as nat, |k: int| k == slot),
        decreases len - i,
    {
        signers.push(i == slot);
        i += 1;
    }
    signers
}

/// Proposes a transaction to the wallet, at time `now`.
///
/// The proposer must be an owner, and approves of the transaction by
/// proposing it. The transaction takes the wallet's next index and remembers
/// the owner-set sequence number under which it was made.
pub fn propose(
    wallet: &mut SmartWallet,
    proposer: Pubkey,
    instructions: Vec<TXInstruction>,
    eta: Option<i64>,
    now: i64,
) -> (r: Result<Transaction, ErrorCode>)
    ensures
        match proposed(old(wallet)@, proposer, instruction_views(instructions@), eta, now) {
            Ok((tx, after)) => r matches Ok(made) && made@ == tx && final(wallet)@ == after,
            Err(e) => r matches Err(f) && f == e && *final(wallet) == *old(wallet),
        },
        r matches Ok(made) ==> made@.tally() == 1,
{
    let slot = match wallet.owner_index(proposer) {
        Ok(slot) => slot,
        Err(_) => {
            return Err(ErrorCode::InvalidOwner);
        },
    };
    if !check_eta(wallet.minimum_delay, eta, now) {
        return Err(ErrorCode::InvalidETA);
    }
    let num_transactions = match wallet.num_transactions.checked_add(1) {
        Some(count) => count,
        None => {
            return Err(ErrorCode::IntegerOverflow);
        },
    };
    let signers = initial_ballots(wallet.owners.len(), slot);
    proof {
        lemma_tally_single(wallet.owners@.len(), slot as int);
        assert(signers@ =~= Seq::new(
            wallet.owners@.len(),
            |i: int| wallet@.owner_slot(proposer) == Some(i),
        ));
    }
    let tx = Transaction {
        smart_wallet: wallet.key,
        index: wallet.num_transactions,
        proposer,
        instructions,
        signers,
        owner_set_seqno: wallet.owner_set_seqno,
        eta,
        executor: None,
        executed_at: None,
    };
    wallet.num_transactions = num_transactions;
    Ok(tx)
}

/// Casts `ballot` for `owner` on the transaction.
fn cast_ballot(tx: &mut Transaction, wallet: &SmartWallet, owner: Pubkey, ballot: bool) -> (r:
    Result<(), ErrorCode>)
    ensures
        match old(tx)@.with_ballot(wallet@, owner, ballot) {
            Ok(after) => r is Ok && final(tx)@ == after,
            Err(e) => r == Err::<(), ErrorCode>(e) && *final(tx) == *old(tx),
        },
{
    if tx.smart_wallet != wallet.key {
        return Err(ErrorCode::InvalidOwner);
    }
    let slot = match wallet.owner_index(owner) {
        Ok(slot) => slot,
        Err(_) => {
            return Err(ErrorCode::InvalidOwner);
        },
    };
    if tx.executed_at.is_some() {
        return Ok(());
    }
    if slot >= tx.signers.len() {
        return Err(ErrorCode::OwnerSetChanged);
    }
    tx.signers.set(slot, ballot);
    Ok(())
}

/// Approves the transaction in the name of `owner`.
///
/// Fails with `InvalidOwner` unless `owner` is an owner of the wallet that the
/// transaction belongs to. Approving twice is approving once.
pub fn approve(tx: &mut Transaction, wallet: &SmartWallet, owner: Pubkey) -> (r: Result<
    (),
    ErrorCode,
>)
    ensures
        match old(tx)@.with_ballot(wallet@, owner, true) {
            Ok(after) => r is Ok && final(tx)@ == after,
            Err(e) => r == Err::<(), ErrorCode>(e) && *final(tx) == *old(tx),
        },
        old(tx)@.tally() <= final(tx)@.tally() <= old(tx)@.tally() + 1,
        r is Ok ==> final(tx)@.tally() == old(tx)@.tally() + old(tx)@.ballot_weight(
            wallet@,
            owner,
            true,
        ),
{
    let r = cast_ballot(tx, wallet, owner, true);
    proof {
        lemma_ballot_moves_tally(old(tx)@, wallet@, owner, true);
    }
    r
}

/// Withdraws the approval of `owner` from the transaction.
///
/// Fails with `InvalidOwner` unless `owner` is an owner of the wallet that the
/// transaction belongs to. Withdrawing twice is withdrawing once.
pub fn unapprove(tx: &mut Transaction, wallet: &SmartWallet, owner: Pubkey) -> (r: Result<
    (),
    ErrorCode,
>)
    ensures
        match old(tx)@.with_ballot(wallet@, owner, false) {
            Ok(after) => r is Ok && final(tx)@ == after,
            Err(e) => r == Err::<(), ErrorCode>(e) && *final(tx) == *old(tx),
        },
        final(tx)@.tally() <= old(tx)@.tally() <= final(tx)@.tally() + 1,
        r is Ok ==> old(tx)@.tally() == final(tx)@.tally() + old(tx)@.ballot_weight(
            wallet@,
            owner,
            false,
        ),
{
    let r = cast_ballot(tx, wallet, owner, false);
    proof {
        lemma_ballot_moves_tally(old(tx)@, wallet@, owner, false);
    }
    r
}

/// A ballot that is taken moves the tally by at most one, and never against
/// itself: an approval raises it by its weight, a withdrawal lowers it by its
/// weight. After it, the owner's ballot is the one that was cast, unless the
/// transaction is executed.
pub proof fn lemma_ballot_moves_tally(
    tx: TransactionView,
    wallet: SmartWalletView,
    owner: Pubkey,
    ballot: bool,
)
    ensures
        tx.with_ballot(wallet, owner, ballot) matches Ok(after) ==> {
            &&& tx.ballot_weight(wallet, owner, ballot) <= 1
            &&& ballot ==> after.tally() == tx.tally() + tx.ballot_weight(wallet, owner, ballot)
            &&& !ballot ==> tx.tally() == after.tally() + tx.ballot_weight(wallet, owner, ballot)
            &&& !tx.is_executed() ==> after.approved_by(wallet, owner) == ballot
        },
{
    if let Ok(after) = tx.with_ballot(wallet, owner, ballot) {
        if !tx.is_executed() {
            let slot = wallet.owner_slot(owner).unwrap();
            lemma_tally_update(tx.signers, slot, ballot);
        }
    }
}

/// Casting the same ballot again changes nothing.
pub proof fn lemma_ballot_idempotent(
    tx: TransactionView,
    wallet: SmartWalletView,
    owner: Pubkey,
    ballot: bool,
)
    ensures
        tx.with_ballot(wallet, owner, ballot) matches Ok(after) ==> after.with_ballot(
            wallet,
            owner,
            ballot,
        ) == Ok::<TransactionView, ErrorCode>(after),
{
    if let Ok(after) = tx.with_ballot(wallet, owner, ballot) {
        if !tx.is_executed() {
            let slot = wallet.owner_slot(owner).unwrap();
            assert(after.signers.update(slot, ballot) =~= after.signers);
        }
    }
}

/// A new transaction holds one ballot for each owner, and of them only the
/// proposer's is an approval.
pub proof fn lemma_proposed(
    wallet: SmartWalletView,
    proposer: Pubkey,
    instructions: Seq<TXInstructionView>,
    eta: Option<i64>,
    now: i64,
)
    ensures
        proposed(wallet, proposer, instructions, eta, now) matches Ok((tx, after)) ==> {
            &&& tx.wf()
            &&& tx.parallel_to(after)
            &&& !tx.is_executed()
            &&& tx.tally() == 1
            &&& wallet.owner_slot(proposer) matches Some(slot) && tx.signers[slot]
            &&& tx.index == wallet.num_transactions < after.num_transactions
            &&& after.owners == wallet.owners && after.threshold == wallet.threshold
            &&& wallet.wf() ==> after.wf()
        },
{
    if let Ok((tx, after)) = proposed(wallet, proposer, instructions, eta, now) {
        crate::wallet::lemma_owner_slot(wallet, proposer);
        let slot = wallet.owner_slot(proposer).unwrap();
        lemma_tally_single(wallet.owners.len(), slot);
        assert(tx.signers =~= Seq::new(wallet.owners.len(), |i: int| i == slot));
    }
}

/// On a transaction that holds one ballot for each owner of its wallet, a
/// ballot is refused only if it is not an owner's, and a ballot that is taken
/// leaves the transaction with one ballot for each owner.
pub proof fn lemma_ballot_of_owner(
    tx: TransactionView,
    wallet: SmartWalletView,
    owner: Pubkey,
    ballot: bool,
)
    requires
        tx.parallel_to(wallet),
        tx.owner_set_seqno == wallet.owner_set_seqno,
    ensures
        match tx.with_ballot(wallet, owner, ballot) {
            Ok(after) => wallet.is_owner(owner) && after.parallel_to(wallet) && (tx.wf()
                ==> after.wf()),
            Err(e) => e == ErrorCode::InvalidOwner && !wallet.is_owner(owner),
        },
{
    crate::wallet::lemma_owner_slot(wallet, owner);
}

/// Whatever is done to a transaction or to its wallet, the transaction
/// stays parallel to the wallet: a ballot and a write to an instruction slot
/// keep its ballots in their places, another proposal leaves the owners as
/// they are, and a change of the owners or of the threshold leaves the
/// transaction behind. A ballot and a write keep it well-formed too.
pub proof fn lemma_stays_parallel(
    tx: TransactionView,
    wallet: SmartWalletView,
    owner: Pubkey,
    ballot: bool,
    index: int,
    instruction: TXInstructionView,
    owners: Seq<Pubkey>,
    threshold: u64,
    other: (Pubkey, Seq<TXInstructionView>, Option<i64>, i64),
)
    requires
        tx.parallel_to(wallet),
    ensures
        tx.with_ballot(wallet, owner, ballot) matches Ok(after) ==> after.parallel_to(wallet) && (
        tx.wf() ==> after.wf()),
        tx.with_instruction(wallet, owner, index, instruction) matches Ok(after)
            ==> after.parallel_to(wallet) && (tx.wf() ==> after.wf()),
        wallet.with_owners(owners) matches Ok(after) ==> tx.parallel_to(after),
        wallet.with_threshold(threshold) matches Ok(after) ==> tx.parallel_to(after),
        proposed(wallet, other.0, other.1, other.2, other.3) matches Ok((made, after))
            ==> tx.parallel_to(after),
{
}

/// No ballot and no write to an instruction slot changes a transaction that
/// has been executed.
pub proof fn lemma_executed_is_sealed(
    tx: TransactionView,
    wallet: SmartWalletView,
    owner: Pubkey,
    ballot: bool,
    index: int,
    instruction: TXInstructionView,
)
    requires
        tx.is_executed(),
    ensures
        tx.with_ballot(wallet, owner, ballot) matches Ok(after) ==> after == tx,
        tx.with_instruction(wallet, owner, index, instruction) is Err,
{
}

/// Writes `instruction` to the slot `index` of the transaction's instructions.
///
/// A transaction with many instructions is proposed with room for them and
/// filled slot by slot. The slots are to be filled before any owner but the
/// proposer has voted: nothing here holds a later writer to that, and the
/// owners vote on what the slots hold when they vote.
pub fn append_transaction(
    tx: &mut Transaction,
    wallet: &SmartWallet,
    owner: Pubkey,
    index: usize,
    instruction: TXInstruction,
) -> (r: Result<(), ErrorCode>)
    ensures
        match old(tx)@.with_instruction(wallet@, owner, index as int, instruction@) {
            Ok(after) => r is Ok && final(tx)@ == after,
            Err(e) => r == Err::<(), ErrorCode>(e) && *final(tx) == *old(tx),
        },
{
    if tx.smart_wallet != wallet.key {
        return Err(ErrorCode::InvalidOwner);
    }
    if wallet.owner_index(owner).is_err() {
        return Err(ErrorCode::InvalidOwner);
    }
    if tx.executed_at.is_some() {
        return Err(ErrorCode::AlreadyExecuted);
    }
    if index >= tx.instructions.len() {
        return Err(ErrorCode::CapacityExceeded);
    }
    tx.instructions.set(index, instruction);
    assert(instruction_views(tx.instructions@) =~= instruction_views(
        old(tx).instructions@,
    ).update(index as int, instruction@));
    Ok(())
}

impl Transaction {
    /// Number of owners who approve of the transaction.
    pub fn tally(&self) -> (count: usize)
        ensures
            count == self@.tally(),
    {
        let n = self.signers.len();
        let mut count: usize = 0;
        let mut i: usize = 0;
        while i < n
            invariant
                n == self.signers@.len(),
                i <= n,
                count == tally(self.signers@.take(i as int)),
                count <= i,
            decreases n - i,
        {
            proof {
                assert(self.signers@.take(i + 1).drop_last() =~= self.signers@.take(i as int));
            }
            if self.signers[i] {
                count += 1;
            }
            i += 1;
        }
        assert(self.signers@.take(n as int) =~= self.signers@);
        count
    }
}

} // verus!
