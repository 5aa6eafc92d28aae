//! The wallet's configuration: its owners, its threshold, its delay.

use vstd::prelude::*;
use crate::error::ErrorCode;
use crate::pubkey::Pubkey;
use crate::state::{SmartWallet, SmartWalletView};
use crate::{DEFAULT_GRACE_PERIOD, MAX_DELAY_SECONDS};

verus! {

/// `i` is the first position of `owners` that holds `key`.
#[verifier::inline]
pub open spec fn is_slot_of(owners: Seq<Pubkey>, key: Pubkey, i: int) -> bool {
    &&& 0 <= i < owners.len()
    &&& owners[i] == key
    &&& forall|j: int| 0 <= j < i ==> owners[j] != key
}

/// What a new configuration is refused for, if it is refused.
///
/// The delay is judged first, then the number of owners against the room for
/// them, then the threshold, and last whether an owner is listed twice.
pub open spec fn check_configuration(
    max_owners: u8,
    owners: Seq<Pubkey>,
    threshold: u64,
    minimum_delay: i64,
) -> Result<(), ErrorCode> {
    if minimum_delay < 0 || minimum_delay >= MAX_DELAY_SECONDS {
        Err(ErrorCode::InvalidDelay)
    } else if owners.len() > max_owners {
        Err(ErrorCode::CapacityExceeded)
    } else if threshold < 1 || threshold > owners.len() {
        Err(ErrorCode::InvalidThreshold)
    } else if !owners.no_duplicates() {
        Err(ErrorCode::DuplicateOwner)
    } else {
        Ok(())
    }
}

/// The wallet that [`create_smart_wallet`] makes of its arguments, or the
/// reason why it makes none.
pub open spec fn created(
    key: Pubkey,
    base: Pubkey,
    bump: u8,
    max_owners: u8,
    owners: Seq<Pubkey>,
    threshold: u64,
    minimum_delay: i64,
) -> Result<SmartWalletView, ErrorCode> {
    match check_configuration(max_owners, owners, threshold, minimum_delay) {
        Err(e) => Err(e),
        Ok(_) => Ok(
            SmartWalletView {
                key,
                base,
                bump,
                max_owners,
                threshold,
                minimum_delay,
                grace_period: DEFAULT_GRACE_PERIOD,
                owner_set_seqno: 0,
                num_transactions: 0,
                owners,
            },
        ),
    }
}

impl SmartWalletView {
    /// The configuration is one that [`create_smart_wallet`] accepts.
    pub open spec fn wf(self) -> bool {
        &&& 1 <= self.threshold <= self.owners.len()
        &&& self.owners.len() <= self.max_owners
        &&& self.owners.no_duplicates()
        &&& 0 <= self.minimum_delay < MAX_DELAY_SECONDS
    }

    /// Whether `key` is one of the owners.
    pub open spec fn is_owner(self, key: Pubkey) -> bool {
        self.owners.contains(key)
    }

    /// The slot of `key`: the first position among the owners that holds it.
    pub open spec fn owner_slot(self, key: Pubkey) -> Option<int> {
        if exists|i: int| is_slot_of(self.owners, key, i) {
            Some(choose|i: int| is_slot_of(self.owners, key, i))
        } else {
            None
        }
    }

    /// The wallet after its owners are replaced by `owners`, or the reason why
    /// they cannot be.
    pub open spec fn with_owners(self, owners: Seq<Pubkey>) -> Result<SmartWalletView, ErrorCode> {
        if owners.len() > self.max_owners {
            Err(ErrorCode::CapacityExceeded)
        } else if self.threshold < 1 || self.threshold > owners.len() {
            Err(ErrorCode::InvalidThreshold)
        } else if !owners.no_duplicates() {
            Err(ErrorCode::DuplicateOwner)
        } else if self.owner_set_seqno == u32::MAX {
            Err(ErrorCode::IntegerOverflow)
        } else {
            Ok(
                SmartWalletView {
                    owners,
                    owner_set_seqno: (self.owner_set_seqno + 1) as u32,
                    ..self
                },
            )
        }
    }

    /// The wallet after its threshold is replaced by `threshold`, or the reason
    /// why it cannot be.
    pub open spec fn with_threshold(self, threshold: u64) -> Result<SmartWalletView, ErrorCode> {
        if threshold < 1 || threshold > self.owners.len() {
            Err(ErrorCode::InvalidThreshold)
        } else if self.owner_set_seqno == u32::MAX {
            Err(ErrorCode::IntegerOverflow)
        } else {
            Ok(
                SmartWalletView {
                    threshold,
                    owner_set_seqno: (self.owner_set_seqno + 1) as u32,
                    ..self
                },
            )
        }
    }
}

/// A key has a slot exactly when it is an owner, and then the slot is the
/// first position that holds it.
pub proof fn lemma_owner_slot(wallet: SmartWalletView, key: Pubkey)
    ensures
        wallet.owner_slot(key) is Some <==> wallet.is_owner(key),
        wallet.owner_slot(key) matches Some(i) ==> is_slot_of(wallet.owners, key, i),
{
    if wallet.is_owner(key) {
        let k = choose|k: int| 0 <= k < wallet.owners.len() && wallet.owners[k] == key;
        lemma_first_slot_exists(wallet.owners, key, k);
    }
}

/// The first position that holds a key is its slot.
pub proof fn lemma_slot_at(wallet: SmartWalletView, key: Pubkey, i: int)
    requires
        is_slot_of(wallet.owners, key, i),
    ensures
        wallet.owner_slot(key) == Some(i),
        wallet.is_owner(key),
{
}

/// If `key` stands at position `k`, some position at or before `k` is its slot.
proof fn lemma_first_slot_exists(owners: Seq<Pubkey>, key: Pubkey, k: int)
    requires
        0 <= k < owners.len(),
        owners[k] == key,
    ensures
        exists|i: int| is_slot_of(owners, key, i),
    decreases k,
{
    if exists|j: int| 0 <= j < k && owners[j] == key {
        let j = choose|j: int| 0 <= j < k && owners[j] == key;
        lemma_first_slot_exists(owners, key, j);
    }
}

/// A wallet that is created is valid: its threshold is at least one and at
/// most the number of its owners, its owners fit the room for them and are
/// distinct, and its delay is within bounds.
pub proof fn lemma_created_is_valid(
    key: Pubkey,
    base: Pubkey,
    bump: u8,
    max_owners: u8,
    owners: Seq<Pubkey>,
    threshold: u64,
    minimum_delay: i64,
)
    ensures
        created(key, base, bump, max_owners, owners, threshold, minimum_delay) matches Ok(wallet)
            ==> wallet.wf() && 1 <= wallet.threshold <= wallet.owners.len(),
{
}

/// After each change of the owners or of the threshold, the threshold is at
/// least one and at most the number of owners, and a wallet that was valid is
/// valid still.
pub proof fn lemma_change_keeps_valid(wallet: SmartWalletView, owners: Seq<Pubkey>, threshold: u64)
    ensures
        wallet.with_owners(owners) matches Ok(after) ==> 1 <= after.threshold
            <= after.owners.len() && (wallet.wf() ==> after.wf()),
        wallet.with_threshold(threshold) matches Ok(after) ==> 1 <= after.threshold
            <= after.owners.len() && (wallet.wf() ==> after.wf()),
{
}

/// Each change of the owners or of the threshold raises the owner-set
/// sequence number by exactly one, and changes nothing but what it is asked
/// to change.
pub proof fn lemma_change_bumps_seqno(wallet: SmartWalletView, owners: Seq<Pubkey>, threshold: u64)
    ensures
        wallet.with_owners(owners) matches Ok(after) ==> after.owner_set_seqno
            == wallet.owner_set_seqno + 1 && after == (SmartWalletView {
            owners,
            owner_set_seqno: after.owner_set_seqno,
            ..wallet
        }),
        wallet.with_threshold(threshold) matches Ok(after) ==> after.owner_set_seqno
            == wallet.owner_set_seqno + 1 && after == (SmartWalletView {
            threshold,
            owner_set_seqno: after.owner_set_seqno,
            ..wallet
        }),
{
}

/// Whether no key occurs twice in `owners`.
fn all_distinct(owners: &Vec<Pubkey>) -> (r: bool)
    ensures
        r == owners@.no_duplicates(),
{
    let n = owners.len();
    let mut i: usize = 0;
    while i < n
        invariant
            n == owners@.len(),
            i <= n,
            forall|a: int, b: int| 0 <= a < i && a < b < n ==> owners@[a] != owners@[b],
        decreases n - i,
    {
        let mut j: usize = i + 1;
        while j < n
            invariant
                n == owners@.len(),
                i < n,
                i < j <= n,
                forall|b: int| i < b < j ==> owners@[i as int] != owners@[b],
            decreases n - j,
        {
            if owners[i] == owners[j] {
                return false;
            }
            j += 1;
        }
        i += 1;
    }
    true
}

/// Creates a wallet with the given owners, threshold and minimum delay.
///
/// The wallet starts with no transactions, at owner-set sequence number zero
/// and with the default grace period.
pub fn create_smart_wallet(
    key: Pubkey,
    base: Pubkey,
    bump: u8,
    max_owners: u8,
    owners: Vec<Pubkey>,
    threshold: u64,
    minimum_delay: i64,
) -> (r: Result<SmartWallet, ErrorCode>)
    ensures
        match created(key, base, bump, max_owners, owners@, threshold, minimum_delay) {
            Ok(wallet) => r matches Ok(made) && made@ == wallet,
            Err(e) => r matches Err(f) && f == e,
        },
        r matches Ok(made) ==> made@.wf(),
{
    if minimum_delay < 0 || minimum_delay >= MAX_DELAY_SECONDS {
        return Err(ErrorCode::InvalidDelay);
    }
    if owners.len() > max_owners as usize {
        return Err(ErrorCode::CapacityExceeded);
    }
    if threshold < 1 || threshold > owners.len() as u64 {
        return Err(ErrorCode::InvalidThreshold);
    }
    if !all_distinct(&owners) {
        return Err(ErrorCode::DuplicateOwner);
    }
    Ok(
        SmartWallet {
            key,
            base,
            bump,
            max_owners,
            threshold,
            minimum_delay,
            grace_period: DEFAULT_GRACE_PERIOD,
            owner_set_seqno: 0,
            num_transactions: 0,
            owners,
        },
    )
}

impl SmartWallet {
    /// Gets the index of the key in the owners list.
    ///
    /// Every action that only an owner may take asks here whether its caller
    /// is one.
    pub fn owner_index(&self, key: Pubkey) -> (r: Result<usize, ErrorCode>)
        ensures
            match self@.owner_slot(key) {
                Some(slot) => r == Ok::<usize, ErrorCode>(slot as usize),
                None => r == Err::<usize, ErrorCode>(ErrorCode::InvalidOwner),
            },
            r is Ok <==> self@.is_owner(key),
            r matches Ok(slot) ==> is_slot_of(self.owners@, key, slot as int),
    {
        let n = self.owners.len();
        let mut i: usize = 0;
        while i < n
            invariant
                n == self.owners@.len(),
                i <= n,
                forall|j: int| 0 <= j < i ==> self.owners@[j] != key,
            decreases n - i,
        {
            if self.owners[i] == key {
                proof {
                    lemma_slot_at(self@, key, i as int);
                }
                return Ok(i);
            }
            i += 1;
        }
        proof {
            lemma_owner_slot(self@, key);
        }
        Err(ErrorCode::InvalidOwner)
    }

    /// Replaces the owners of the wallet.
    ///
    /// The new owners are judged as the owners of a new wallet are; the
    /// threshold stays, so there must be at least that many of them. The
    /// owner-set sequence number goes up by one.
    pub fn set_owners(&mut self, owners: Vec<Pubkey>) -> (r: Result<(), ErrorCode>)
        ensures
            match old(self)@.with_owners(owners@) {
                Ok(after) => r is Ok && final(self)@ == after,
                Err(e) => r == Err::<(), ErrorCode>(e) && *final(self) == *old(self),
            },
            r is Ok ==> 1 <= final(self).threshold <= final(self).owners@.len(),
            r is Ok && old(self)@.wf() ==> final(self)@.wf(),
    {
        if owners.len() > self.max_owners as usize {
            return Err(ErrorCode::CapacityExceeded);
        }
        if self.threshold < 1 || self.threshold > owners.len() as u64 {
            return Err(ErrorCode::InvalidThreshold);
        }
        if !all_distinct(&owners) {
            return Err(ErrorCode::DuplicateOwner);
        }
        match self.owner_set_seqno.checked_add(1) {
            Some(seqno) => {
                self.owners = owners;
                self.owner_set_seqno = seqno;
                Ok(())
            },
            None => Err(ErrorCode::IntegerOverflow),
        }
    }

    /// Changes the threshold of the wallet.
    ///
    /// The owner-set sequence number goes up by one.
    pub fn change_threshold(&mut self, threshold: u64) -> (r: Result<(), ErrorCode>)
        ensures
            match old(self)@.with_threshold(threshold) {
                Ok(after) => r is Ok && final(self)@ == after,
                Err(e) => r == Err::<(), ErrorCode>(e) && *final(self) == *old(self),
            },
            r is Ok ==> 1 <= final(self).threshold <= final(self).owners@.len(),
            r is Ok && old(self)@.wf() ==> final(self)@.wf(),
    {
        if threshold < 1 || threshold > self.owners.len() as u64 {
            return Err(ErrorCode::InvalidThreshold);
        }
        match self.owner_set_seqno.checked_add(1) {
            Some(seqno) => {
                self.threshold = threshold;
                self.owner_set_seqno = seqno;
                Ok(())
            },
            None => Err(ErrorCode::IntegerOverflow),
        }
    }
}

} // verus!
