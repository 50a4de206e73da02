use crate::address::Address;
use crate::error::ErrorCode;
use crate::payout::{compute_payout, payout_error, payout_per_winner_of};
use vstd::prelude::*;
use vstd::utf8::encode_utf8;

verus! {

/// One market: its configuration and its aggregate accounting.
#[derive(Clone, Debug)]
pub struct Lobby {
    /// The identity that created the lobby.
    pub authority: Address,
    /// What the players commit to do.
    pub task_description: String,
    /// The stake of each player, in the smallest currency unit.
    pub entry_fee: u64,
    /// Where the charity's share goes.
    pub charity_wallet: Address,
    /// The time from which no player may join and claims may be made.
    pub market_close: i64,
    /// The sum of all deposits.
    pub total_pot: u64,
    /// The number of players who joined.
    pub total_players: u64,
    /// The number of players who were verified.
    pub verified_count: u64,
    /// Whether the close has been acknowledged.
    pub is_resolved: bool,
    /// The seed that completes the lobby's derived address.
    pub bump: u8,
}

/// One player's progress in one lobby.
#[derive(Clone, Copy, Debug)]
pub struct PlayerStatus {
    pub player: Address,
    pub lobby: Address,
    pub has_deposited: bool,
    pub is_verified: bool,
    pub has_claimed: bool,
}

/// Where a lobby stands in its life.
#[derive(Clone, Copy, Debug, PartialEq, Eq, Structural)]
pub enum MarketPhase {
    /// Players may join.
    Open,
    /// The close has passed and has not been acknowledged.
    Closed,
    /// The close has passed and has been acknowledged.
    Resolved,
}

impl Lobby {
    /// The fee is positive and the pot holds exactly one fee per player.
    pub open spec fn wf(&self) -> bool {
        &&& self.entry_fee > 0
        &&& self.total_pot == self.entry_fee * self.total_players
    }
}

impl PlayerStatus {
    /// A record that has not been written yet: no flag is set.
    pub fn empty(player: Address, lobby: Address) -> (r: PlayerStatus)
        ensures
            r.player == player,
            r.lobby == lobby,
            !r.has_deposited,
            !r.is_verified,
            !r.has_claimed,
    {
        PlayerStatus { player, lobby, has_deposited: false, is_verified: false, has_claimed: false }
    }

    /// The flags are set in order: deposit, then verification, then claim.
    pub open spec fn wf(&self) -> bool {
        &&& self.is_verified ==> self.has_deposited
        &&& self.has_claimed ==> self.is_verified
    }
}

/// The most bytes that a lobby's task description may take.
pub const MAX_DESCRIPTION_LEN: usize = 196;

/// The length in bytes of a text, as UTF-8.
pub open spec fn byte_len(text: Seq<char>) -> nat {
    encode_utf8(text).len()
}

/// The error, if any, with which a lobby is refused.
pub open spec fn create_error(task_description: Seq<char>, entry_fee: u64, market_close: i64, now: i64) -> Option<
    ErrorCode,
> {
    if entry_fee == 0 {
        Some(ErrorCode::InvalidEntryFee)
    } else if market_close <= now {
        Some(ErrorCode::InvalidMarketClose)
    } else if byte_len(task_description) > MAX_DESCRIPTION_LEN {
        Some(ErrorCode::DescriptionTooLong)
    } else {
        None
    }
}

/// Opens a lobby at time `now`: empty pot, no player, no verification.
pub fn create_lobby(
    authority: Address,
    charity_wallet: Address,
    task_description: String,
    entry_fee: u64,
    market_close: i64,
    now: i64,
    bump: u8,
) -> (r: Result<Lobby, ErrorCode>)
    ensures
        match create_error(task_description@, entry_fee, market_close, now) {
            Some(e) => r == Err::<Lobby, ErrorCode>(e),
            None => r matches Ok(l) && {
                &&& l.authority == authority
                &&& l.task_description == task_description
                &&& l.entry_fee == entry_fee
                &&& l.charity_wallet == charity_wallet
                &&& l.market_close == market_close
                &&& l.total_pot == 0
                &&& l.total_players == 0
                &&& l.verified_count == 0
                &&& !l.is_resolved
                &&& l.bump == bump
                &&& l.wf()
            },
        },
{
    if entry_fee == 0 {
        return Err(ErrorCode::InvalidEntryFee);
    }
    if market_close <= now {
        return Err(ErrorCode::InvalidMarketClose);
    }
    if task_description.as_str().as_bytes().len() > MAX_DESCRIPTION_LEN {
        return Err(ErrorCode::DescriptionTooLong);
    }
    Ok(
        Lobby {
            authority,
            task_description,
            entry_fee,
            charity_wallet,
            market_close,
            total_pot: 0,
            total_players: 0,
            verified_count: 0,
            is_resolved: false,
            bump,
        },
    )
}

/// The phase of `lobby` at time `now`.
pub fn market_phase(lobby: &Lobby, now: i64) -> (r: MarketPhase)
    ensures
        r == (if now < lobby.market_close {
            MarketPhase::Open
        } else if !lobby.is_resolved {
            MarketPhase::Closed
        } else {
            MarketPhase::Resolved
        }),
{
    if now < lobby.market_close {
        MarketPhase::Open
    } else if !lobby.is_resolved {
        MarketPhase::Closed
    } else {
        MarketPhase::Resolved
    }
}

/// The error, if any, with which a join is refused.
pub open spec fn join_error(lobby: Lobby, status: PlayerStatus, now: i64) -> Option<ErrorCode> {
    if now >= lobby.market_close {
        Some(ErrorCode::MarketClosed)
    } else if status.has_deposited {
        Some(ErrorCode::AlreadyJoined)
    } else if lobby.total_pot + lobby.entry_fee > u64::MAX {
        Some(ErrorCode::ArithmeticOverflow)
    } else {
        None
    }
}

/// The lobby after one more player has paid the fee.
pub open spec fn lobby_after_join(lobby: Lobby) -> Lobby {
    Lobby {
        total_pot: (lobby.total_pot + lobby.entry_fee) as u64,
        total_players: (lobby.total_players + 1) as u64,
        ..lobby
    }
}

/// The status record of a player who has just joined.
pub open spec fn joined_status(player: Address, lobby_key: Address) -> PlayerStatus {
    PlayerStatus {
        player,
        lobby: lobby_key,
        has_deposited: true,
        is_verified: false,
        has_claimed: false,
    }
}

proof fn lemma_join_counts_fit(lobby: Lobby)
    requires
        lobby.wf(),
        lobby.total_pot + lobby.entry_fee <= u64::MAX,
    ensures
        lobby.total_players + 1 <= u64::MAX,
        lobby_after_join(lobby).wf(),
{
    let f = lobby.entry_fee as int;
    let n = lobby.total_players as int;
    assert(n + 1 <= f * (n + 1)) by (nonlinear_arith)
        requires
            f >= 1,
            n >= 0,
    ;
    assert(f * (n + 1) == f * n + f) by (nonlinear_arith);
}

/// Lets `player` join at time `now`, writing their status record. On success
/// the result is the fee that the player must deposit into the vault.
pub fn join_lobby(
    lobby: &mut Lobby,
    status: &mut PlayerStatus,
    lobby_key: Address,
    player: Address,
    now: i64,
) -> (r: Result<u64, ErrorCode>)
    requires
        old(lobby).wf(),
    ensures
        final(lobby).wf(),
        match join_error(*old(lobby), *old(status), now) {
            Some(e) => {
                &&& r == Err::<u64, ErrorCode>(e)
                &&& *final(lobby) == *old(lobby)
                &&& *final(status) == *old(status)
            },
            None => {
                &&& r == Ok::<u64, ErrorCode>(old(lobby).entry_fee)
                &&& final(lobby).total_pot == old(lobby).total_pot + old(lobby).entry_fee
                &&& final(lobby).total_players == old(lobby).total_players + 1
                &&& *final(lobby) == lobby_after_join(*old(lobby))
                &&& *final(status) == joined_status(player, lobby_key)
            },
        },
{
    if now >= lobby.market_close {
        return Err(ErrorCode::MarketClosed);
    }
    if status.has_deposited {
        return Err(ErrorCode::AlreadyJoined);
    }
    let new_pot = match lobby.total_pot.checked_add(lobby.entry_fee) {
        Some(p) => p,
        None => {
            return Err(ErrorCode::ArithmeticOverflow);
        },
    };
    proof {
        lemma_join_counts_fit(*lobby);
    }
    lobby.total_pot = new_pot;
    lobby.total_players = lobby.total_players + 1;
    *status = PlayerStatus {
        player,
        lobby: lobby_key,
        has_deposited: true,
        is_verified: false,
        has_claimed: false,
    };
    Ok(lobby.entry_fee)
}

/// The error, if any, with which a verification is refused.
pub open spec fn verify_error(lobby: Lobby, status: PlayerStatus, verifier_authorized: bool) -> Option<
    ErrorCode,
> {
    if !verifier_authorized {
        Some(ErrorCode::Unauthorized)
    } else if !status.has_deposited {
        Some(ErrorCode::NotJoined)
    } else if status.is_verified {
        Some(ErrorCode::AlreadyVerified)
    } else if lobby.verified_count == u64::MAX {
        Some(ErrorCode::ArithmeticOverflow)
    } else {
        None
    }
}

/// The trust root for attestations: the lobby's authority is its verifier.
pub fn is_authorized_verifier(lobby: &Lobby, identity: &Address) -> (r: bool)
    ensures
        r == (identity@ == lobby.authority@),
{
    identity.same_as(&lobby.authority)
}

/// A joined, unverified player is verified by the first attestation of an
/// authorized verifier, and every later attestation of them is refused.
pub proof fn lemma_verify_succeeds_once(lobby: Lobby, status: PlayerStatus)
    requires
        status.has_deposited,
        !status.is_verified,
        lobby.verified_count < u64::MAX,
    ensures
        verify_error(lobby, status, true) is None,
        verify_error(
            Lobby { verified_count: (lobby.verified_count + 1) as u64, ..lobby },
            PlayerStatus { is_verified: true, ..status },
            true,
        ) == Some(ErrorCode::AlreadyVerified),
{
}

/// A player who has not joined cannot be verified.
pub proof fn lemma_verify_requires_join(lobby: Lobby, status: PlayerStatus, verifier_authorized: bool)
    requires
        !status.has_deposited,
    ensures
        verify_error(lobby, status, verifier_authorized) is Some,
        verifier_authorized ==> verify_error(lobby, status, verifier_authorized) == Some(
            ErrorCode::NotJoined,
        ),
{
}

/// Marks a joined player as having completed the task, and counts them.
/// `verifier_authorized` is whether the signer is a trusted verifier.
pub fn verify_task(lobby: &mut Lobby, status: &mut PlayerStatus, verifier_authorized: bool) -> (r:
    Result<(), ErrorCode>)
    ensures
        old(lobby).wf() ==> final(lobby).wf(),
        match verify_error(*old(lobby), *old(status), verifier_authorized) {
            Some(e) => {
                &&& r == Err::<(), ErrorCode>(e)
                &&& *final(lobby) == *old(lobby)
                &&& *final(status) == *old(status)
            },
            None => {
                &&& r is Ok
                &&& *final(lobby) == (Lobby {
                    verified_count: (old(lobby).verified_count + 1) as u64,
                    ..*old(lobby)
                })
                &&& *final(status) == (PlayerStatus { is_verified: true, ..*old(status) })
            },
        },
{
    if !verifier_authorized {
        return Err(ErrorCode::Unauthorized);
    }
    if !status.has_deposited {
        return Err(ErrorCode::NotJoined);
    }
    if status.is_verified {
        return Err(ErrorCode::AlreadyVerified);
    }
    if lobby.verified_count == u64::MAX {
        return Err(ErrorCode::ArithmeticOverflow);
    }
    lobby.verified_count = lobby.verified_count + 1;
    status.is_verified = true;
    Ok(())
}

/// Acknowledges that the market has closed.
pub fn resolve_market(lobby: &mut Lobby, now: i64) -> (r: Result<(), ErrorCode>)
    ensures
        old(lobby).wf() ==> final(lobby).wf(),
        if now < old(lobby).market_close {
            &&& r == Err::<(), ErrorCode>(ErrorCode::MarketNotClosed)
            &&& *final(lobby) == *old(lobby)
        } else {
            &&& r is Ok
            &&& *final(lobby) == (Lobby { is_resolved: true, ..*old(lobby) })
        },
{
    if now < lobby.market_close {
        return Err(ErrorCode::MarketNotClosed);
    }
    lobby.is_resolved = true;
    Ok(())
}

/// The error, if any, with which a claim is refused.
pub open spec fn claim_error(lobby: Lobby, status: PlayerStatus, signer: Address, now: i64) -> Option<
    ErrorCode,
> {
    if signer@ != status.player@ {
        Some(ErrorCode::Unauthorized)
    } else if now < lobby.market_close {
        Some(ErrorCode::MarketNotClosed)
    } else if !status.is_verified {
        Some(ErrorCode::NotVerified)
    } else if status.has_claimed {
        Some(ErrorCode::AlreadyClaimed)
    } else {
        payout_error(
            lobby.entry_fee as int,
            lobby.total_players as int,
            lobby.verified_count as int,
        )
    }
}

/// Before the close every claim fails, whatever the player's flags; signed
/// by the player themself, it fails as too early.
pub proof fn lemma_no_claim_before_close(lobby: Lobby, status: PlayerStatus, signer: Address, now: i64)
    requires
        now < lobby.market_close,
    ensures
        claim_error(lobby, status, signer, now) is Some,
        signer@ == status.player@ ==> claim_error(lobby, status, signer, now) == Some(
            ErrorCode::MarketNotClosed,
        ),
{
}

/// What each verified player of `lobby` is owed.
pub open spec fn payout_of(lobby: Lobby) -> int {
    payout_per_winner_of(
        lobby.entry_fee as int,
        lobby.total_players as int,
        lobby.verified_count as int,
    )
}

/// Settles the claim of the verified player who signs as `signer`. On success
/// the result is the amount that the vault must pay out to them.
pub fn claim_winnings(lobby: &Lobby, status: &mut PlayerStatus, signer: &Address, now: i64) -> (r:
    Result<u64, ErrorCode>)
    ensures
        match claim_error(*lobby, *old(status), *signer, now) {
            Some(e) => {
                &&& r == Err::<u64, ErrorCode>(e)
                &&& *final(status) == *old(status)
            },
            None => {
                &&& r matches Ok(amount) && amount == payout_of(*lobby)
                &&& *final(status) == (PlayerStatus { has_claimed: true, ..*old(status) })
            },
        },
{
    if !signer.same_as(&status.player) {
        return Err(ErrorCode::Unauthorized);
    }
    if now < lobby.market_close {
        return Err(ErrorCode::MarketNotClosed);
    }
    if !status.is_verified {
        return Err(ErrorCode::NotVerified);
    }
    if status.has_claimed {
        return Err(ErrorCode::AlreadyClaimed);
    }
    let payout = match compute_payout(lobby.entry_fee, lobby.total_players, lobby.verified_count) {
        Ok(p) => p,
        Err(e) => {
            return Err(e);
        },
    };
    status.has_claimed = true;
    Ok(payout.payout_per_winner)
}

} // verus!
