//! Stakes, and the entities enrolled in them: a rollup counts the mints that
//! an owner has enrolled in a group, a ticket records one of them.

use vstd::prelude::*;
use vstd::bytes::{
    lemma_auto_spec_u64_to_from_le_bytes, spec_u64_from_le_bytes, spec_u64_to_le_bytes,
    u64_from_le_bytes, u64_to_le_bytes,
};
use crate::error::ErrorCode;
use crate::events::{
    copy_of, ClaimEntitiesEvent, ClaimEntitiesEventView, CreateStakeEvent, WithdrawEntityEvent,
};
use crate::pubkey::Pubkey;
use crate::state::{
    Rollup, RollupView, SmartWallet, SmartWalletView, Stake, StakeData, StakeView, Ticket,
    TicketView,
};

verus! {

/// The eight bytes that stand for the time `at`: little-endian, two's complement.
pub open spec fn epoch_bytes(at: i64) -> Seq<u8> {
    spec_u64_to_le_bytes(at as u64)
}

/// The time that the eight bytes `bytes` stand for.
pub open spec fn epoch_of(bytes: Seq<u8>) -> i64 {
    spec_u64_from_le_bytes(bytes) as i64
}

/// The address of the token account that the associated token account program
/// derives for the wallet address `wallet` and the token mint `mint`.
pub uninterp spec fn associated_token_address(wallet: Seq<u8>, mint: Seq<u8>) -> Seq<u8>;

/// Calls `anchor_spl::associated_token::get_associated_token_address`.
///
/// That function derives the address from the two keys and from nothing
/// else; the contract gives the address a name and says no more of it. It
/// searches the bump seeds from 255 down for one that gives an address off the
/// curve and panics if none of them does, which is not known of any two keys.
#[verifier::external_body]
fn get_associated_token_address(wallet: &Pubkey, mint: &Pubkey) -> (address: Pubkey)
    ensures
        address@ == associated_token_address(wallet@, mint@),
{
    let wallet = anchor_lang::prelude::Pubkey::new_from_array(wallet.bytes);
    let mint = anchor_lang::prelude::Pubkey::new_from_array(mint.bytes);
    let address = anchor_spl::associated_token::get_associated_token_address(&wallet, &mint);
    Pubkey { bytes: address.to_bytes() }
}

/// The eight bytes that stand for the time `at`.
pub fn epoch_to_bytes(at: i64) -> (bytes: Vec<u8>)
    ensures
        bytes@ == epoch_bytes(at),
        bytes@.len() == 8,
{
    u64_to_le_bytes(at as u64)
}

/// The time that the eight bytes `bytes` stand for.
pub fn epoch_from_bytes(bytes: &Vec<u8>) -> (at: i64)
    requires
        bytes@.len() == 8,
    ensures
        at == epoch_of(bytes@),
{
    u64_from_le_bytes(bytes.as_slice()) as i64
}

/// Whether `gid` is among `gids`.
fn contains_gid(gids: &Vec<u16>, gid: u16) -> (r: bool)
    ensures
        r == gids@.contains(gid),
{
    let n = gids.len();
    let mut i: usize = 0;
    while i < n
        invariant
            n == gids@.len(),
            i <= n,
            forall|j: int| 0 <= j < i ==> gids@[j] != gid,
        decreases n - i,
    {
        if gids[i] == gid {
            return true;
        }
        i += 1;
    }
    false
}

/// Creates the stake of a wallet from `stake_data`.
pub fn create_stake(smart_wallet: Pubkey, stake: Pubkey, bump: u8, stake_data: StakeData) -> (r: (
    Stake,
    CreateStakeEvent,
))
    ensures
        r.0@ == (StakeView {
            bump,
            duration: stake_data.duration,
            genesis_epoch: stake_data.genesis_epoch@,
            name: stake_data.name@,
            reward_pot: stake_data.reward_pot,
            protected_gids: stake_data.protected_gids@,
            uuid: stake_data.uuid@,
        }),
        r.1 == (CreateStakeEvent { smart_wallet, stake }),
{
    (
        Stake {
            bump,
            duration: stake_data.duration,
            genesis_epoch: stake_data.genesis_epoch,
            name: stake_data.name,
            reward_pot: stake_data.reward_pot,
            protected_gids: stake_data.protected_gids,
            uuid: stake_data.uuid,
        },
        CreateStakeEvent { smart_wallet, stake },
    )
}

/// Starts the rollup of the group `gid` at `now`, with no mints enrolled.
pub fn rollup_entity(bump: u8, gid: u16, now: i64) -> (rollup: Rollup)
    ensures
        rollup@ == (RollupView { bump, timestamp: epoch_bytes(now), gid, mints: 0 }),
{
    Rollup { bump, timestamp: epoch_to_bytes(now), gid, mints: 0 }
}

/// The ticket that [`register_entity`] makes and the rollup that it leaves,
/// or the reason why it makes none.
pub open spec fn registered(
    rollup: RollupView,
    bump: u8,
    gid: u16,
    mint: Pubkey,
    owner: Pubkey,
    now: i64,
) -> Result<(TicketView, RollupView), ErrorCode> {
    if rollup.gid != gid {
        Err(ErrorCode::NoGIDJack)
    } else if rollup.mints == u32::MAX {
        Err(ErrorCode::IntegerOverflow)
    } else {
        Ok(
            (
                TicketView { enrollment_epoch: epoch_bytes(now), bump, gid, mint, owner },
                RollupView { mints: (rollup.mints + 1) as u32, ..rollup },
            ),
        )
    }
}

/// Enrolls `mint` of `owner` in the group `gid` at `now`, and counts it in
/// the rollup of that group.
pub fn register_entity(
    rollup: &mut Rollup,
    bump: u8,
    gid: u16,
    mint: Pubkey,
    owner: Pubkey,
    now: i64,
) -> (r: Result<Ticket, ErrorCode>)
    ensures
        match registered(old(rollup)@, bump, gid, mint, owner, now) {
            Ok((ticket, after)) => r matches Ok(made) && made@ == ticket && final(rollup)@ == after,
            Err(e) => r matches Err(f) && f == e && *final(rollup) == *old(rollup),
        },
{
    if rollup.gid != gid {
        return Err(ErrorCode::NoGIDJack);
    }
    match rollup.mints.checked_add(1) {
        Some(mints) => {
            rollup.mints = mints;
            Ok(Ticket { enrollment_epoch: epoch_to_bytes(now), bump, gid, mint, owner })
        },
        None => Err(ErrorCode::IntegerOverflow),
    }
}

/// Why the entities of `rollup` cannot be claimed from `stake`, if they cannot.
pub open spec fn claim_refused(rollup: RollupView, stake: StakeView, bump: u8) -> Option<
    ErrorCode,
> {
    if rollup.bump != bump {
        Some(ErrorCode::InvalidBump)
    } else if stake.protected_gids.contains(rollup.gid) {
        Some(ErrorCode::ProtectedGid)
    } else {
        None
    }
}

/// Whether a claim at `now` has an answer: it has one if it is refused, and
/// else if the rollup holds eight bytes of time and the time between it and
/// `now` is one that sixty-four bits can hold.
pub open spec fn claim_defined(rollup: RollupView, stake: StakeView, bump: u8, now: i64) -> bool {
    claim_refused(rollup, stake, bump) is None ==> rollup.timestamp.len() == 8 && i64::MIN <= now
        - epoch_of(rollup.timestamp) <= i64::MAX
}

/// The event of a claim at `now` for the entities of `rollup`, or the reason
/// why the claim is refused.
pub open spec fn claimed(
    smart_wallet: Pubkey,
    rollup_key: Pubkey,
    stake_key: Pubkey,
    owner: Pubkey,
    rollup: RollupView,
    stake: StakeView,
    bump: u8,
    now: i64,
) -> Result<ClaimEntitiesEventView, ErrorCode> {
    match claim_refused(rollup, stake, bump) {
        Some(e) => Err(e),
        None => Ok(
            ClaimEntitiesEventView {
                smart_wallet,
                duration: epoch_bytes((now - epoch_of(rollup.timestamp)) as i64),
                last_epoch: rollup.timestamp,
                reset_epoch: epoch_bytes(now),
                mints: rollup.mints,
                rollup: rollup_key,
                stake: stake_key,
                owner,
            },
        ),
    }
}

/// Claims at `now` for the entities of `rollup`, from a stake that does not
/// protect their group.
///
/// The event tells how long it has been since the time that the rollup holds.
/// Nothing is changed: the rollup keeps its time.
pub fn claim_entities(
    smart_wallet: Pubkey,
    rollup_key: Pubkey,
    stake_key: Pubkey,
    owner: Pubkey,
    rollup: &Rollup,
    stake: &Stake,
    bump: u8,
    now: i64,
) -> (r: Result<ClaimEntitiesEvent, ErrorCode>)
    requires
        claim_defined(rollup@, stake@, bump, now),
    ensures
        match claimed(smart_wallet, rollup_key, stake_key, owner, rollup@, stake@, bump, now) {
            Ok(event) => r matches Ok(made) && made@ == event,
            Err(e) => r matches Err(f) && f == e,
        },
{
    if rollup.bump != bump {
        return Err(ErrorCode::InvalidBump);
    }
    if contains_gid(&stake.protected_gids, rollup.gid) {
        return Err(ErrorCode::ProtectedGid);
    }
    let duration: i64 = now - epoch_from_bytes(&rollup.timestamp);
    Ok(
        ClaimEntitiesEvent {
            smart_wallet,
            duration: epoch_to_bytes(duration),
            last_epoch: copy_of(&rollup.timestamp),
            reset_epoch: epoch_to_bytes(now),
            mints: rollup.mints,
            rollup: rollup_key,
            stake: stake_key,
            owner,
        },
    )
}

/// Claims as [`claim_entities`] does where the claim has an answer, and tells
/// where it has none.
pub fn try_claim_entities(
    smart_wallet: Pubkey,
    rollup_key: Pubkey,
    stake_key: Pubkey,
    owner: Pubkey,
    rollup: &Rollup,
    stake: &Stake,
    bump: u8,
    now: i64,
) -> (r: Option<Result<ClaimEntitiesEvent, ErrorCode>>)
    ensures
        r is Some <==> claim_defined(rollup@, stake@, bump, now),
        r matches Some(answer) ==> match claimed(
            smart_wallet,
            rollup_key,
            stake_key,
            owner,
            rollup@,
            stake@,
            bump,
            now,
        ) {
            Ok(event) => answer matches Ok(made) && made@ == event,
            Err(e) => answer matches Err(f) && f == e,
        },
{
    if rollup.bump == bump && !contains_gid(&stake.protected_gids, rollup.gid) {
        if rollup.timestamp.len() != 8 {
            return None;
        }
        if now.checked_sub(epoch_from_bytes(&rollup.timestamp)).is_none() {
            return None;
        }
    }
    Some(claim_entities(smart_wallet, rollup_key, stake_key, owner, rollup, stake, bump, now))
}

/// The rollup and the ticket after the enrollment that the ticket records is
/// renewed at `now`, or the reason why it is not renewed.
///
/// `ata` is the address of the associated token account of the owner for the
/// mint, `mint_ata` the address of the account that was handed in as such.
pub open spec fn enrollment_renewed(
    rollup: RollupView,
    ticket: TicketView,
    bump: u8,
    ata: Seq<u8>,
    mint_ata: Seq<u8>,
    now: i64,
) -> Result<(RollupView, TicketView), ErrorCode> {
    if ata != mint_ata {
        Err(ErrorCode::InvalidATA)
    } else if ticket.bump != bump {
        Err(ErrorCode::InvalidBump)
    } else if rollup.mints == u32::MAX {
        Err(ErrorCode::IntegerOverflow)
    } else {
        Ok(
            (
                RollupView { mints: (rollup.mints + 1) as u32, ..rollup },
                TicketView { enrollment_epoch: epoch_bytes(now), ..ticket },
            ),
        )
    }
}

/// Renews at `now` the enrollment that `ticket` records, given the address
/// `ata` of the associated token account of the owner for the mint.
pub fn renew_enrollment(
    rollup: &mut Rollup,
    ticket: &mut Ticket,
    bump: u8,
    ata: Pubkey,
    mint_ata: Pubkey,
    now: i64,
) -> (r: Result<(), ErrorCode>)
    ensures
        match enrollment_renewed(old(rollup)@, old(ticket)@, bump, ata@, mint_ata@, now) {
            Ok((rollup_after, ticket_after)) => r is Ok && final(rollup)@ == rollup_after
                && final(ticket)@ == ticket_after,
            Err(e) => r == Err::<(), ErrorCode>(e) && *final(rollup) == *old(rollup) && *final(ticket) == *old(ticket),
        },
{
    proof {
        Pubkey::lemma_view_injective(ata, mint_ata);
    }
    if ata != mint_ata {
        return Err(ErrorCode::InvalidATA);
    }
    if ticket.bump != bump {
        return Err(ErrorCode::InvalidBump);
    }
    match rollup.mints.checked_add(1) {
        Some(mints) => {
            rollup.mints = mints;
            ticket.enrollment_epoch = epoch_to_bytes(now);
            Ok(())
        },
        None => Err(ErrorCode::IntegerOverflow),
    }
}

/// Renews at `now` the enrollment that `ticket` records, for the `owner` who
/// hands in `mint_ata` as the associated token account for `mint`.
pub fn update_entity_by_owner(
    rollup: &mut Rollup,
    ticket: &mut Ticket,
    bump: u8,
    owner: Pubkey,
    mint: Pubkey,
    mint_ata: Pubkey,
    now: i64,
) -> (r: Result<(), ErrorCode>)
    ensures
        match enrollment_renewed(
            old(rollup)@,
            old(ticket)@,
            bump,
            associated_token_address(owner@, mint@),
            mint_ata@,
            now,
        ) {
            Ok((rollup_after, ticket_after)) => r is Ok && final(rollup)@ == rollup_after
                && final(ticket)@ == ticket_after,
            Err(e) => r == Err::<(), ErrorCode>(e) && *final(rollup) == *old(rollup) && *final(ticket) == *old(ticket),
        },
{
    let ata = get_associated_token_address(&owner, &mint);
    renew_enrollment(rollup, ticket, bump, ata, mint_ata, now)
}

/// The ticket and the rollup after an owner of the wallet has set their times
/// to `timestamp`, or the reason why they are not set.
pub open spec fn entity_updated(
    wallet: SmartWalletView,
    smart_wallet_owner: Pubkey,
    ticket: TicketView,
    rollup: RollupView,
    bump: u8,
    timestamp: Seq<u8>,
) -> Result<(TicketView, RollupView), ErrorCode> {
    if !wallet.is_owner(smart_wallet_owner) {
        Err(ErrorCode::InvalidOwner)
    } else if ticket.bump != bump {
        Err(ErrorCode::InvalidBump)
    } else {
        Ok(
            (
                TicketView { enrollment_epoch: timestamp, ..ticket },
                RollupView { timestamp, ..rollup },
            ),
        )
    }
}

/// Whether an update with `timestamp` has an answer: it has one if it is
/// refused because it is not an owner's, and else if `timestamp` is a time of
/// eight bytes.
pub open spec fn update_defined(
    wallet: SmartWalletView,
    smart_wallet_owner: Pubkey,
    timestamp: Seq<u8>,
) -> bool {
    wallet.is_owner(smart_wallet_owner) ==> timestamp.len() == 8
}

/// Sets the time of enrollment of `ticket` and the time of `rollup` to
/// `timestamp`, in the name of an owner of the wallet.
pub fn update_entity(
    wallet: &SmartWallet,
    smart_wallet_owner: Pubkey,
    ticket: &mut Ticket,
    rollup: &mut Rollup,
    bump: u8,
    timestamp: Vec<u8>,
) -> (r: Result<(), ErrorCode>)
    requires
        update_defined(wallet@, smart_wallet_owner, timestamp@),
    ensures
        match entity_updated(
            wallet@,
            smart_wallet_owner,
            old(ticket)@,
            old(rollup)@,
            bump,
            timestamp@,
        ) {
            Ok((ticket_after, rollup_after)) => r is Ok && final(ticket)@ == ticket_after
                && final(rollup)@ == rollup_after,
            Err(e) => r == Err::<(), ErrorCode>(e) && *final(rollup) == *old(rollup) && *final(ticket) == *old(ticket),
        },
{
    if wallet.owner_index(smart_wallet_owner).is_err() {
        return Err(ErrorCode::InvalidOwner);
    }
    let at = epoch_from_bytes(&timestamp);
    if ticket.bump != bump {
        return Err(ErrorCode::InvalidBump);
    }
    proof {
        lemma_epoch_round_trip(timestamp@);
    }
    ticket.enrollment_epoch = epoch_to_bytes(at);
    rollup.timestamp = epoch_to_bytes(at);
    Ok(())
}

/// Updates as [`update_entity`] does where the update has an answer, and
/// tells where it has none.
pub fn try_update_entity(
    wallet: &SmartWallet,
    smart_wallet_owner: Pubkey,
    ticket: &mut Ticket,
    rollup: &mut Rollup,
    bump: u8,
    timestamp: Vec<u8>,
) -> (r: Option<Result<(), ErrorCode>>)
    ensures
        r is Some <==> update_defined(wallet@, smart_wallet_owner, timestamp@),
        r is None ==> *final(rollup) == *old(rollup) && *final(ticket) == *old(ticket),
        r matches Some(answer) ==> match entity_updated(
            wallet@,
            smart_wallet_owner,
            old(ticket)@,
            old(rollup)@,
            bump,
            timestamp@,
        ) {
            Ok((ticket_after, rollup_after)) => answer is Ok && final(ticket)@ == ticket_after
                && final(rollup)@ == rollup_after,
            Err(e) => answer == Err::<(), ErrorCode>(e) && *final(rollup) == *old(rollup)
                && *final(ticket) == *old(ticket),
        },
{
    if timestamp.len() != 8 && wallet.owner_index(smart_wallet_owner).is_ok() {
        return None;
    }
    Some(update_entity(wallet, smart_wallet_owner, ticket, rollup, bump, timestamp))
}

/// Eight bytes stand for a time that stands for them.
pub proof fn lemma_epoch_round_trip(bytes: Seq<u8>)
    requires
        bytes.len() == 8,
    ensures
        epoch_bytes(epoch_of(bytes)) == bytes,
{
    lemma_auto_spec_u64_to_from_le_bytes();
    let word = spec_u64_from_le_bytes(bytes);
    assert((word as i64) as u64 == word) by (bit_vector);
}

/// The ticket after `mint` is withdrawn from it, with `epoch` as the time
/// that marks it withdrawn, or the reason why it is not withdrawn.
pub open spec fn withdrawn(ticket: TicketView, bump: u8, mint: Pubkey, epoch: i64) -> Result<
    TicketView,
    ErrorCode,
> {
    if ticket.bump != bump {
        Err(ErrorCode::InvalidBump)
    } else if ticket.mint != mint {
        Err(ErrorCode::InvalidMint)
    } else {
        Ok(TicketView { enrollment_epoch: epoch_bytes(epoch), ..ticket })
    }
}

/// The ticket after an owner of the wallet has withdrawn `mint` from it, or
/// the reason why it is not withdrawn.
pub open spec fn withdrawn_by_program(
    wallet: SmartWalletView,
    smart_wallet_owner: Pubkey,
    ticket: TicketView,
    bump: u8,
    mint: Pubkey,
) -> Result<TicketView, ErrorCode> {
    if !wallet.is_owner(smart_wallet_owner) {
        Err(ErrorCode::InvalidOwner)
    } else {
        withdrawn(ticket, bump, mint, -1i64)
    }
}

/// Withdraws `mint` from its ticket in the name of an owner of the wallet.
///
/// The ticket's time of enrollment becomes the time -1. The rollup keeps its
/// count.
pub fn withdraw_entity_by_program(
    wallet: &SmartWallet,
    smart_wallet_owner: Pubkey,
    ticket: &mut Ticket,
    bump: u8,
    mint: Pubkey,
    ticket_key: Pubkey,
    stake_key: Pubkey,
    owner: Pubkey,
) -> (r: Result<WithdrawEntityEvent, ErrorCode>)
    ensures
        match withdrawn_by_program(wallet@, smart_wallet_owner, old(ticket)@, bump, mint) {
            Ok(after) => final(ticket)@ == after && r == Ok::<WithdrawEntityEvent, ErrorCode>(
                WithdrawEntityEvent {
                    smart_wallet: wallet.key,
                    mint,
                    ticket: ticket_key,
                    stake: stake_key,
                    owner,
                },
            ),
            Err(e) => r == Err::<WithdrawEntityEvent, ErrorCode>(e) && *final(ticket) == *old(ticket),
        },
{
    if wallet.owner_index(smart_wallet_owner).is_err() {
        return Err(ErrorCode::InvalidOwner);
    }
    if ticket.bump != bump {
        return Err(ErrorCode::InvalidBump);
    }
    if ticket.mint != mint {
        return Err(ErrorCode::InvalidMint);
    }
    ticket.enrollment_epoch = epoch_to_bytes(-1);
    Ok(
        WithdrawEntityEvent {
            smart_wallet: wallet.key,
            mint,
            ticket: ticket_key,
            stake: stake_key,
            owner,
        },
    )
}

/// The rollup and the ticket after the owner of an entity has withdrawn
/// `mint`, or the reason why it is not withdrawn.
pub open spec fn withdrawn_by_owner(
    rollup: RollupView,
    ticket: TicketView,
    stake: StakeView,
    bump: u8,
    mint: Pubkey,
) -> Result<(RollupView, TicketView), ErrorCode> {
    match withdrawn(ticket, bump, mint, 0i64) {
        Err(e) => Err(e),
        Ok(after) => if stake.protected_gids.contains(ticket.gid) {
            Err(ErrorCode::ProtectedGid)
        } else if rollup.mints == 0 {
            Err(ErrorCode::IntegerOverflow)
        } else {
            Ok((RollupView { mints: (rollup.mints - 1) as u32, ..rollup }, after))
        },
    }
}

/// Withdraws `mint` from its ticket and from the count of its rollup, unless
/// the stake protects its group.
///
/// The ticket's time of enrollment becomes the time 0.
pub fn withdraw_entity(
    smart_wallet: Pubkey,
    rollup: &mut Rollup,
    ticket: &mut Ticket,
    stake: &Stake,
    bump: u8,
    mint: Pubkey,
    ticket_key: Pubkey,
    stake_key: Pubkey,
    owner: Pubkey,
) -> (r: Result<WithdrawEntityEvent, ErrorCode>)
    ensures
        match withdrawn_by_owner(old(rollup)@, old(ticket)@, stake@, bump, mint) {
            Ok((rollup_after, ticket_after)) => final(rollup)@ == rollup_after && final(ticket)@
                == ticket_after && r == Ok::<WithdrawEntityEvent, ErrorCode>(
                WithdrawEntityEvent {
                    smart_wallet,
                    mint,
                    ticket: ticket_key,
                    stake: stake_key,
                    owner,
                },
            ),
            Err(e) => r == Err::<WithdrawEntityEvent, ErrorCode>(e) && *final(rollup) == *old(rollup) && *final(ticket) == *old(ticket),
        },
{
    if ticket.bump != bump {
        return Err(ErrorCode::InvalidBump);
    }
    if ticket.mint != mint {
        return Err(ErrorCode::InvalidMint);
    }
    if contains_gid(&stake.protected_gids, ticket.gid) {
        return Err(ErrorCode::ProtectedGid);
    }
    match rollup.mints.checked_sub(1) {
        Some(mints) => {
            rollup.mints = mints;
            ticket.enrollment_epoch = epoch_to_bytes(0);
            Ok(
                WithdrawEntityEvent {
                    smart_wallet,
                    mint,
                    ticket: ticket_key,
                    stake: stake_key,
                    owner,
                },
            )
        },
        None => Err(ErrorCode::IntegerOverflow),
    }
}

} // verus!
