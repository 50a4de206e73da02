use crate::address::Address;
use crate::error::ErrorCode;
use crate::lobby::{
    claim_winnings, join_lobby, joined_status, lobby_after_join, payout_of, resolve_market,
    verify_task, Lobby, PlayerStatus,
};
use crate::payout::{lemma_payouts_within_pot, payout_computable};
use vstd::prelude::*;

verus! {

/// A lobby together with the status records of all its players: the part
/// of the host ledger that one market touches.
pub struct Market {
    /// The lobby's own address.
    pub lobby_key: Address,
    pub lobby: Lobby,
    /// One record per player who joined, in the order in which they joined.
    pub players: Vec<PlayerStatus>,
}

/// The number of verified records in `s`.
pub open spec fn verified_in(s: Seq<PlayerStatus>) -> nat
    decreases s.len(),
{
    if s.len() == 0 {
        0
    } else {
        verified_in(s.drop_last()) + if s.last().is_verified {
            1nat
        } else {
            0nat
        }
    }
}

proof fn lemma_verified_in_update(s: Seq<PlayerStatus>, i: int, x: PlayerStatus)
    requires
        0 <= i < s.len(),
    ensures
        verified_in(s.update(i, x)) + (if s[i].is_verified {
            1int
        } else {
            0int
        }) == verified_in(s) + (if x.is_verified {
            1int
        } else {
            0int
        }),
    decreases s.len(),
{
    if i < s.len() - 1 {
        lemma_verified_in_update(s.drop_last(), i, x);
        assert(s.update(i, x).drop_last() =~= s.drop_last().update(i, x));
    } else {
        assert(s.update(i, x).drop_last() =~= s.drop_last());
    }
}

proof fn lemma_verified_in_bounded(s: Seq<PlayerStatus>)
    ensures
        verified_in(s) <= s.len(),
    decreases s.len(),
{
    if s.len() > 0 {
        lemma_verified_in_bounded(s.drop_last());
    }
}

proof fn lemma_verified_in_push(s: Seq<PlayerStatus>, x: PlayerStatus)
    requires
        !x.is_verified,
    ensures
        verified_in(s.push(x)) == verified_in(s),
{
    assert(s.push(x).drop_last() =~= s);
}

/// The sum of `entry_fee` over the records in `s` that hold a deposit.
pub open spec fn deposits(s: Seq<PlayerStatus>, entry_fee: int) -> int
    decreases s.len(),
{
    if s.len() == 0 {
        0
    } else {
        deposits(s.drop_last(), entry_fee) + if s.last().has_deposited {
            entry_fee
        } else {
            0
        }
    }
}

proof fn lemma_deposits_all_paid(s: Seq<PlayerStatus>, entry_fee: int)
    requires
        forall|i: int| 0 <= i < s.len() ==> #[trigger] s[i].has_deposited,
    ensures
        deposits(s, entry_fee) == entry_fee * s.len(),
    decreases s.len(),
{
    if s.len() > 0 {
        let t = s.drop_last();
        assert forall|i: int| 0 <= i < t.len() implies #[trigger] t[i].has_deposited by {
            assert(t[i] == s[i]);
        }
        lemma_deposits_all_paid(t, entry_fee);
        assert(s.last().has_deposited);
        assert(entry_fee * t.len() + entry_fee == entry_fee * s.len()) by (nonlinear_arith)
            requires
                t.len() + 1 == s.len(),
        ;
    }
}

/// In every well-formed market, and so after any sequence of joins, the pot
/// is the sum of the entry fee over all players who joined and paid.
pub proof fn lemma_pot_is_sum_of_deposits(m: Market)
    requires
        m.wf(),
    ensures
        m.lobby.total_pot == deposits(m.records(), m.lobby.entry_fee as int),
{
    lemma_deposits_all_paid(m.records(), m.lobby.entry_fee as int);
}

impl Market {
    /// The records that the market holds.
    pub open spec fn records(&self) -> Seq<PlayerStatus> {
        self.players@
    }

    /// The lobby's counts agree with its records: one record per player,
    /// every one of them paid, no player twice, and the verified count is
    /// the number of verified records.
    pub open spec fn wf(&self) -> bool {
        &&& self.lobby.wf()
        &&& self.lobby.total_players == self.records().len()
        &&& self.lobby.verified_count == verified_in(self.records())
        &&& forall|i: int|
            0 <= i < self.records().len() ==> {
                &&& #[trigger] self.records()[i].has_deposited
                &&& self.records()[i].wf()
                &&& self.records()[i].lobby@ == self.lobby_key@
            }
        &&& forall|i: int, j: int|
            0 <= i < j < self.records().len() ==> #[trigger] self.records()[i].player@
                != #[trigger] self.records()[j].player@
    }

    /// The record of `player` is at `i`.
    pub open spec fn record_at(&self, player: Address, i: int) -> bool {
        0 <= i < self.records().len() && self.records()[i].player@ == player@
    }

    /// `player` has joined.
    pub open spec fn has_player(&self, player: Address) -> bool {
        exists|i: int| self.record_at(player, i)
    }

    /// `player` has joined and been verified.
    pub open spec fn is_verified_player(&self, player: Address) -> bool {
        exists|i: int| self.record_at(player, i) && self.records()[i].is_verified
    }

    /// `player` has joined and claimed.
    pub open spec fn has_claimed_player(&self, player: Address) -> bool {
        exists|i: int| self.record_at(player, i) && self.records()[i].has_claimed
    }

    /// What each verified player is owed at the close.
    pub open spec fn payout(&self) -> int {
        payout_of(self.lobby)
    }

    /// A market with no player yet, on a lobby fresh from `create_lobby`.
    pub fn new(lobby_key: Address, lobby: Lobby) -> (r: Market)
        requires
            lobby.wf(),
            lobby.total_players == 0,
            lobby.verified_count == 0,
        ensures
            r.wf(),
            r.lobby_key == lobby_key,
            r.lobby == lobby,
            r.records().len() == 0,
    {
        Market { lobby_key, lobby, players: Vec::new() }
    }

    /// The position of `player`'s record, if they joined.
    pub fn find(&self, player: &Address) -> (r: Option<usize>)
        ensures
            match r {
                Some(i) => self.record_at(*player, i as int),
                None => !self.has_player(*player),
            },
    {
        let mut i: usize = 0;
        while i < self.players.len()
            invariant
                i <= self.players@.len(),
                forall|j: int| 0 <= j < i ==> !self.record_at(*player, j),
            decreases self.players@.len() - i,
        {
            if self.players[i].player.same_as(player) {
                return Some(i);
            }
            i = i + 1;
        }
        None
    }

    /// Lets `player` join at time `now`. On success the result is the fee
    /// that the player must deposit into the vault.
    pub fn join(&mut self, player: Address, now: i64) -> (r: Result<u64, ErrorCode>)
        requires
            old(self).wf(),
        ensures
            final(self).wf(),
            now >= old(self).lobby.market_close ==> r == Err::<u64, ErrorCode>(
                ErrorCode::MarketClosed,
            ),
            now < old(self).lobby.market_close && old(self).has_player(player) ==> r == Err::<
                u64,
                ErrorCode,
            >(ErrorCode::AlreadyJoined),
            now < old(self).lobby.market_close && !old(self).has_player(player) && old(
                self,
            ).lobby.total_pot + old(self).lobby.entry_fee > u64::MAX ==> r == Err::<u64, ErrorCode>(
                ErrorCode::ArithmeticOverflow,
            ),
            now < old(self).lobby.market_close && !old(self).has_player(player) && old(
                self,
            ).lobby.total_pot + old(self).lobby.entry_fee <= u64::MAX ==> r == Ok::<u64, ErrorCode>(
                old(self).lobby.entry_fee,
            ),
            r is Err ==> *final(self) == *old(self),
            r is Ok ==> {
                &&& now < old(self).lobby.market_close
                &&& !old(self).has_player(player)
                &&& r == Ok::<u64, ErrorCode>(old(self).lobby.entry_fee)
                &&& final(self).lobby == lobby_after_join(old(self).lobby)
                &&& final(self).lobby_key == old(self).lobby_key
                &&& final(self).records() == old(self).records().push(
                    joined_status(player, old(self).lobby_key),
                )
                &&& final(self).has_player(player)
            },
    {
        if now >= self.lobby.market_close {
            return Err(ErrorCode::MarketClosed);
        }
        if self.find(&player).is_some() {
            return Err(ErrorCode::AlreadyJoined);
        }
        let mut status = PlayerStatus::empty(player, self.lobby_key);
        let ghost before = self.records();
        let res = join_lobby(&mut self.lobby, &mut status, self.lobby_key, player, now);
        if res.is_ok() {
            self.players.push(status);
            proof {
                assert(self.record_at(player, before.len() as int));
                lemma_verified_in_push(before, status);
                assert forall|i: int| 0 <= i < self.records().len() implies {
                    &&& #[trigger] self.records()[i].has_deposited
                    &&& self.records()[i].wf()
                    &&& self.records()[i].lobby@ == self.lobby_key@
                } by {
                    if i < before.len() {
                        assert(self.records()[i] == before[i]);
                        assert(before[i].has_deposited);
                    }
                }
                assert forall|i: int, j: int|
                    0 <= i < j < self.records().len() implies #[trigger] self.records()[i].player@
                    != #[trigger] self.records()[j].player@ by {
                    if j == before.len() {
                        assert(!old(self).record_at(player, i));
                    }
                }
            }
        }
        res
    }

    /// Marks `player` as having completed the task. `verifier_authorized` is
    /// whether the signer is a trusted verifier.
    pub fn verify(&mut self, player: &Address, verifier_authorized: bool) -> (r: Result<
        (),
        ErrorCode,
    >)
        requires
            old(self).wf(),
        ensures
            final(self).wf(),
            !verifier_authorized ==> r == Err::<(), ErrorCode>(ErrorCode::Unauthorized),
            verifier_authorized && !old(self).has_player(*player) ==> r == Err::<(), ErrorCode>(
                ErrorCode::NotJoined,
            ),
            verifier_authorized && old(self).is_verified_player(*player) ==> r == Err::<
                (),
                ErrorCode,
            >(ErrorCode::AlreadyVerified),
            verifier_authorized && old(self).has_player(*player) && !old(self).is_verified_player(
                *player,
            ) ==> r is Ok,
            r is Err ==> *final(self) == *old(self),
            r is Ok ==> {
                &&& final(self).lobby == (Lobby {
                    verified_count: (old(self).lobby.verified_count + 1) as u64,
                    ..old(self).lobby
                })
                &&& final(self).lobby_key == old(self).lobby_key
                &&& final(self).records().len() == old(self).records().len()
                &&& forall|i: int|
                    0 <= i < old(self).records().len() ==> #[trigger] final(self).records()[i] == (
                    if old(self).records()[i].player@ == player@ {
                        PlayerStatus { is_verified: true, ..old(self).records()[i] }
                    } else {
                        old(self).records()[i]
                    })
                &&& final(self).is_verified_player(*player)
            },
    {
        if !verifier_authorized {
            return Err(ErrorCode::Unauthorized);
        }
        let i = match self.find(player) {
            Some(i) => i,
            None => {
                return Err(ErrorCode::NotJoined);
            },
        };
        let mut status = self.players[i];
        if status.is_verified {
            return Err(ErrorCode::AlreadyVerified);
        }
        proof {
            lemma_verified_in_update(self.records(), i as int, status);
            lemma_verified_in_bounded(self.records());
            assert(verified_in(self.records()) < self.records().len()) by {
                let s = self.records();
                let x = PlayerStatus { is_verified: true, ..s[i as int] };
                lemma_verified_in_update(s, i as int, x);
                lemma_verified_in_bounded(s.update(i as int, x));
            }
        }
        let ghost before = self.records();
        let res = verify_task(&mut self.lobby, &mut status, verifier_authorized);
        self.players.set(i, status);
        proof {
            lemma_verified_in_update(before, i as int, status);
            assert forall|k: int| 0 <= k < before.len() implies #[trigger] self.records()[k] == (
            if before[k].player@ == player@ {
                PlayerStatus { is_verified: true, ..before[k] }
            } else {
                before[k]
            }) by {
                if k != i && before[k].player@ == player@ {
                    if k < i {
                        assert(before[k].player@ != before[i as int].player@);
                    } else {
                        assert(before[i as int].player@ != before[k].player@);
                    }
                }
            }
            assert(self.record_at(*player, i as int));
        }
        res
    }

    /// Acknowledges that the market has closed.
    pub fn resolve(&mut self, now: i64) -> (r: Result<(), ErrorCode>)
        requires
            old(self).wf(),
        ensures
            final(self).wf(),
            now < old(self).lobby.market_close ==> r == Err::<(), ErrorCode>(
                ErrorCode::MarketNotClosed,
            ) && *final(self) == *old(self),
            now >= old(self).lobby.market_close ==> r is Ok && final(self).lobby == (Lobby {
                is_resolved: true,
                ..old(self).lobby
            }) && final(self).records() == old(self).records() && final(self).lobby_key == old(
                self,
            ).lobby_key,
    {
        resolve_market(&mut self.lobby, now)
    }

    /// Settles the claim of the player who signs as `signer`. On success the
    /// result is the amount that the vault must pay out to them.
    pub fn claim(&mut self, signer: &Address, now: i64) -> (r: Result<u64, ErrorCode>)
        requires
            old(self).wf(),
        ensures
            final(self).wf(),
            now < old(self).lobby.market_close ==> r == Err::<u64, ErrorCode>(
                ErrorCode::MarketNotClosed,
            ),
            now >= old(self).lobby.market_close && !old(self).has_player(*signer) ==> r == Err::<
                u64,
                ErrorCode,
            >(ErrorCode::NotJoined),
            now >= old(self).lobby.market_close && old(self).has_player(*signer) && !old(
                self,
            ).is_verified_player(*signer) ==> r == Err::<u64, ErrorCode>(ErrorCode::NotVerified),
            now >= old(self).lobby.market_close && old(self).has_claimed_player(*signer) ==> r
                == Err::<u64, ErrorCode>(ErrorCode::AlreadyClaimed),
            now >= old(self).lobby.market_close && old(self).is_verified_player(*signer) && !old(
                self,
            ).has_claimed_player(*signer) ==> r is Ok,
            r is Err ==> *final(self) == *old(self),
            r is Ok ==> {
                &&& r == Ok::<u64, ErrorCode>(old(self).payout() as u64)
                &&& final(self).lobby == old(self).lobby
                &&& final(self).lobby_key == old(self).lobby_key
                &&& final(self).records().len() == old(self).records().len()
                &&& forall|i: int|
                    0 <= i < old(self).records().len() ==> #[trigger] final(self).records()[i] == (
                    if old(self).records()[i].player@ == signer@ {
                        PlayerStatus { has_claimed: true, ..old(self).records()[i] }
                    } else {
                        old(self).records()[i]
                    })
                &&& final(self).has_claimed_player(*signer)
            },
    {
        if now < self.lobby.market_close {
            return Err(ErrorCode::MarketNotClosed);
        }
        let i = match self.find(signer) {
            Some(i) => i,
            None => {
                return Err(ErrorCode::NotJoined);
            },
        };
        let mut status = self.players[i];
        proof {
            let s = self.records();
            let l = self.lobby;
            if status.is_verified {
                let x = PlayerStatus { is_verified: false, ..status };
                lemma_verified_in_update(s, i as int, x);
                lemma_verified_in_bounded(s);
                lemma_payouts_within_pot(
                    l.entry_fee as int,
                    l.total_players as int,
                    l.verified_count as int,
                );
                let v = l.verified_count as int;
                let p = self.payout();
                assert(p <= v * p) by (nonlinear_arith)
                    requires
                        v >= 1,
                        p >= 0,
                ;
                assert((l.total_players - l.verified_count) * l.entry_fee <= l.total_pot as int)
                    by (nonlinear_arith)
                    requires
                        l.total_pot == l.entry_fee * l.total_players,
                        l.verified_count >= 0,
                        l.entry_fee >= 0,
                ;
                assert(0 < v <= l.total_players);
                assert(l.total_players * l.entry_fee == l.total_pot) by (nonlinear_arith)
                    requires
                        l.total_pot == l.entry_fee * l.total_players,
                ;
                assert(p <= u64::MAX);
                assert(payout_computable(l.entry_fee as int, l.total_players as int, v));
            }
            if self.is_verified_player(*signer) {
                let j = choose|j: int| self.record_at(*signer, j) && s[j].is_verified;
                if j < i {
                    assert(s[j].player@ != s[i as int].player@);
                } else if j > i {
                    assert(s[i as int].player@ != s[j].player@);
                }
            }
            if self.has_claimed_player(*signer) {
                let j = choose|j: int| self.record_at(*signer, j) && s[j].has_claimed;
                if j < i {
                    assert(s[j].player@ != s[i as int].player@);
                } else if j > i {
                    assert(s[i as int].player@ != s[j].player@);
                }
            }
        }
        let ghost before = self.records();
        let res = claim_winnings(&self.lobby, &mut status, signer, now);
        if res.is_ok() {
            self.players.set(i, status);
            proof {
                lemma_verified_in_update(before, i as int, status);
                assert forall|k: int| 0 <= k < before.len() implies #[trigger] self.records()[k]
                    == (if before[k].player@ == signer@ {
                    PlayerStatus { has_claimed: true, ..before[k] }
                } else {
                    before[k]
                }) by {
                    if k != i && before[k].player@ == signer@ {
                        if k < i {
                            assert(before[k].player@ != before[i as int].player@);
                        } else {
                            assert(before[i as int].player@ != before[k].player@);
                        }
                    }
                }
                assert(self.record_at(*signer, i as int));
            }
        }
        res
    }
}

} // verus!
