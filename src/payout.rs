use crate::error::ErrorCode;
use vstd::prelude::*;

verus! {

/// The split of a resolved lobby's pot, as owed to each verified player and
/// to the charity.
#[derive(Clone, Copy, Debug, PartialEq, Eq, Structural)]
pub struct Payout {
    /// Players who joined and were not verified.
    pub losers: u64,
    /// The stakes of the losers.
    pub forfeited: u64,
    /// The half of the forfeited stakes (rounded down) that goes to charity.
    pub charity_amount: u64,
    /// What remains of the forfeited stakes for the verified players.
    pub reward_pool: u64,
    /// Each verified player's stake plus an even share of the reward pool,
    /// rounded down.
    pub payout_per_winner: u64,
}

/// Stakes forfeited by the players who were not verified.
pub open spec fn forfeited_of(entry_fee: int, total_players: int, verified_count: int) -> int {
    (total_players - verified_count) * entry_fee
}

/// The charity's half of the forfeited stakes, rounded down.
pub open spec fn charity_of(entry_fee: int, total_players: int, verified_count: int) -> int {
    forfeited_of(entry_fee, total_players, verified_count) / 2
}

/// The forfeited stakes that the verified players share.
pub open spec fn reward_pool_of(entry_fee: int, total_players: int, verified_count: int) -> int {
    forfeited_of(entry_fee, total_players, verified_count) - charity_of(
        entry_fee,
        total_players,
        verified_count,
    )
}

/// What each verified player receives: the stake back plus an even share of
/// the reward pool, rounded down.
pub open spec fn payout_per_winner_of(entry_fee: int, total_players: int, verified_count: int) -> int {
    entry_fee + reward_pool_of(entry_fee, total_players, verified_count) / verified_count
}

/// The inputs on which a payout is defined and every amount of it fits in
/// a `u64`.
pub open spec fn payout_computable(entry_fee: int, total_players: int, verified_count: int) -> bool {
    &&& 0 < verified_count <= total_players
    &&& forfeited_of(entry_fee, total_players, verified_count) <= u64::MAX
    &&& payout_per_winner_of(entry_fee, total_players, verified_count) <= u64::MAX
}

impl Payout {
    /// This payout is the one that the formula gives for these inputs.
    pub open spec fn computed_from(self, entry_fee: int, total_players: int, verified_count: int) -> bool {
        &&& self.losers == total_players - verified_count
        &&& self.forfeited == forfeited_of(entry_fee, total_players, verified_count)
        &&& self.charity_amount == charity_of(entry_fee, total_players, verified_count)
        &&& self.reward_pool == reward_pool_of(entry_fee, total_players, verified_count)
        &&& self.payout_per_winner == payout_per_winner_of(entry_fee, total_players, verified_count)
    }
}

/// The error, if any, with which the payout for these inputs is refused.
pub open spec fn payout_error(entry_fee: int, total_players: int, verified_count: int) -> Option<ErrorCode> {
    if verified_count > total_players {
        Some(ErrorCode::InvalidWinnerCount)
    } else if verified_count == 0 {
        Some(ErrorCode::NoWinners)
    } else if !payout_computable(entry_fee, total_players, verified_count) {
        Some(ErrorCode::ArithmeticOverflow)
    } else {
        None
    }
}

/// Paying every verified player and the charity never takes more than the
/// pot of `total_players` stakes: what stays behind is the remainder of the
/// reward pool's even split, at most `verified_count - 1` units.
pub proof fn lemma_payouts_within_pot(entry_fee: int, total_players: int, verified_count: int)
    requires
        0 <= entry_fee,
        0 < verified_count <= total_players,
    ensures
        0 <= charity_of(entry_fee, total_players, verified_count),
        0 <= reward_pool_of(entry_fee, total_players, verified_count),
        entry_fee <= payout_per_winner_of(entry_fee, total_players, verified_count),
        verified_count * payout_per_winner_of(entry_fee, total_players, verified_count)
            + charity_of(entry_fee, total_players, verified_count) <= total_players * entry_fee,
        total_players * entry_fee - (verified_count * payout_per_winner_of(
            entry_fee,
            total_players,
            verified_count,
        ) + charity_of(entry_fee, total_players, verified_count)) == reward_pool_of(
            entry_fee,
            total_players,
            verified_count,
        ) % verified_count,
        reward_pool_of(entry_fee, total_players, verified_count) % verified_count
            <= verified_count - 1,
{
    let f = forfeited_of(entry_fee, total_players, verified_count);
    let c = charity_of(entry_fee, total_players, verified_count);
    let r = reward_pool_of(entry_fee, total_players, verified_count);
    let v = verified_count;
    let q = r / v;
    assert(f == total_players * entry_fee - v * entry_fee) by (nonlinear_arith)
        requires
            f == (total_players - v) * entry_fee,
    ;
    assert(0 <= f) by (nonlinear_arith)
        requires
            f == (total_players - v) * entry_fee,
            v <= total_players,
            0 <= entry_fee,
    ;
    assert(r == v * q + r % v && 0 <= r % v < v) by (nonlinear_arith)
        requires
            0 < v,
            q == r / v,
    ;
    assert(v * (entry_fee + q) == v * entry_fee + v * q) by (nonlinear_arith);
}

/// Splits the stakes of a lobby with `total_players` players, of whom
/// `verified_count` were verified, each having paid `entry_fee`.
pub fn compute_payout(entry_fee: u64, total_players: u64, verified_count: u64) -> (r: Result<
    Payout,
    ErrorCode,
>)
    ensures
        match payout_error(entry_fee as int, total_players as int, verified_count as int) {
            Some(e) => r == Err::<Payout, ErrorCode>(e),
            None => r matches Ok(p) && p.computed_from(
                entry_fee as int,
                total_players as int,
                verified_count as int,
            ),
        },
{
    if verified_count > total_players {
        return Err(ErrorCode::InvalidWinnerCount);
    }
    if verified_count == 0 {
        return Err(ErrorCode::NoWinners);
    }
    let losers = total_players - verified_count;
    let forfeited = match losers.checked_mul(entry_fee) {
        Some(f) => f,
        None => {
            return Err(ErrorCode::ArithmeticOverflow);
        },
    };
    let charity_amount = forfeited / 2;
    let reward_pool = forfeited - charity_amount;
    let share = reward_pool / verified_count;
    let payout_per_winner = match entry_fee.checked_add(share) {
        Some(p) => p,
        None => {
            return Err(ErrorCode::ArithmeticOverflow);
        },
    };
    Ok(Payout { losers, forfeited, charity_amount, reward_pool, payout_per_winner })
}

} // verus!
