use skeptic::{
    claim_winnings, create_lobby, is_authorized_verifier, join_lobby, market_phase, resolve_market, verify_task, Address,
    ErrorCode, Lobby, MarketPhase, PlayerStatus,
};

fn addr(b: u8) -> Address {
    Address::new([b; 32])
}

fn lobby(fee: u64, close: i64) -> Lobby {
    create_lobby(addr(1), addr(2), String::from("Gym"), fee, close, 0, 254).unwrap()
}

#[test]
fn create_lobby_starts_empty() {
    let l = lobby(10, 100);
    assert_eq!(l.entry_fee, 10);
    assert_eq!(l.market_close, 100);
    assert_eq!(l.total_pot, 0);
    assert_eq!(l.total_players, 0);
    assert_eq!(l.verified_count, 0);
    assert!(!l.is_resolved);
    assert_eq!(l.task_description, "Gym");
    assert_eq!(l.bump, 254);
    assert!(l.authority.same_as(&addr(1)));
    assert!(l.charity_wallet.same_as(&addr(2)));
}

#[test]
fn create_lobby_rejects_zero_fee() {
    let r = create_lobby(addr(1), addr(2), String::from("x"), 0, 100, 0, 0);
    assert_eq!(r.unwrap_err(), ErrorCode::InvalidEntryFee);
}

#[test]
fn create_lobby_rejects_past_close() {
    let r = create_lobby(addr(1), addr(2), String::from("x"), 5, 100, 100, 0);
    assert_eq!(r.unwrap_err(), ErrorCode::InvalidMarketClose);
}

#[test]
fn join_writes_status_and_grows_pot() {
    let mut l = lobby(10, 100);
    let mut s = PlayerStatus::empty(addr(7), addr(9));
    assert_eq!(join_lobby(&mut l, &mut s, addr(9), addr(7), 50), Ok(10));
    assert_eq!(l.total_pot, 10);
    assert_eq!(l.total_players, 1);
    assert!(s.has_deposited && !s.is_verified && !s.has_claimed);
    assert!(s.player.same_as(&addr(7)));
    assert!(s.lobby.same_as(&addr(9)));
}

#[test]
fn join_twice_fails_without_pot_change() {
    let mut l = lobby(10, 100);
    let mut s = PlayerStatus::empty(addr(7), addr(9));
    join_lobby(&mut l, &mut s, addr(9), addr(7), 50).unwrap();
    assert_eq!(join_lobby(&mut l, &mut s, addr(9), addr(7), 51), Err(ErrorCode::AlreadyJoined));
    assert_eq!(l.total_pot, 10);
    assert_eq!(l.total_players, 1);
}

#[test]
fn join_at_close_fails() {
    let mut l = lobby(10, 100);
    let mut s = PlayerStatus::empty(addr(7), addr(9));
    assert_eq!(join_lobby(&mut l, &mut s, addr(9), addr(7), 100), Err(ErrorCode::MarketClosed));
    assert_eq!(l.total_pot, 0);
    assert!(!s.has_deposited);
}

#[test]
fn join_rejects_pot_overflow() {
    let mut l = lobby(u64::MAX, 100);
    let mut a = PlayerStatus::empty(addr(7), addr(9));
    let mut b = PlayerStatus::empty(addr(8), addr(9));
    assert_eq!(join_lobby(&mut l, &mut a, addr(9), addr(7), 1), Ok(u64::MAX));
    assert_eq!(join_lobby(&mut l, &mut b, addr(9), addr(8), 1), Err(ErrorCode::ArithmeticOverflow));
    assert_eq!(l.total_players, 1);
}

#[test]
fn verify_once_then_rejects() {
    let mut l = lobby(10, 100);
    let mut s = PlayerStatus::empty(addr(7), addr(9));
    assert_eq!(verify_task(&mut l, &mut s, true), Err(ErrorCode::NotJoined));
    join_lobby(&mut l, &mut s, addr(9), addr(7), 1).unwrap();
    assert_eq!(verify_task(&mut l, &mut s, false), Err(ErrorCode::Unauthorized));
    assert_eq!(verify_task(&mut l, &mut s, true), Ok(()));
    assert!(s.is_verified);
    assert_eq!(l.verified_count, 1);
    assert_eq!(verify_task(&mut l, &mut s, true), Err(ErrorCode::AlreadyVerified));
    assert_eq!(l.verified_count, 1);
}

#[test]
fn resolve_only_after_close() {
    let mut l = lobby(10, 100);
    assert_eq!(market_phase(&l, 99), MarketPhase::Open);
    assert_eq!(resolve_market(&mut l, 99), Err(ErrorCode::MarketNotClosed));
    assert!(!l.is_resolved);
    assert_eq!(market_phase(&l, 100), MarketPhase::Closed);
    assert_eq!(resolve_market(&mut l, 100), Ok(()));
    assert!(l.is_resolved);
    assert_eq!(market_phase(&l, 150), MarketPhase::Resolved);
}

#[test]
fn claim_flow_on_records() {
    let mut l = lobby(10, 100);
    let mut st: Vec<PlayerStatus> = Vec::new();
    for b in 10u8..15 {
        let mut s = PlayerStatus::empty(addr(b), addr(9));
        join_lobby(&mut l, &mut s, addr(9), addr(b), 5).unwrap();
        st.push(s);
    }
    verify_task(&mut l, &mut st[0], true).unwrap();
    verify_task(&mut l, &mut st[1], true).unwrap();
    assert_eq!(l.total_pot, 50);
    // before the close, verified or not
    assert_eq!(claim_winnings(&l, &mut st[0], &addr(10), 99), Err(ErrorCode::MarketNotClosed));
    assert_eq!(claim_winnings(&l, &mut st[2], &addr(12), 99), Err(ErrorCode::MarketNotClosed));
    // someone else signing
    assert_eq!(claim_winnings(&l, &mut st[0], &addr(11), 100), Err(ErrorCode::Unauthorized));
    assert_eq!(claim_winnings(&l, &mut st[2], &addr(12), 100), Err(ErrorCode::NotVerified));
    assert_eq!(claim_winnings(&l, &mut st[0], &addr(10), 100), Ok(17));
    assert!(st[0].has_claimed);
    assert_eq!(claim_winnings(&l, &mut st[0], &addr(10), 101), Err(ErrorCode::AlreadyClaimed));
    assert_eq!(claim_winnings(&l, &mut st[1], &addr(11), 200), Ok(17));
}

#[test]
fn address_comparison() {
    let mut b = [3u8; 32];
    assert!(Address::new(b).same_as(&Address::new(b)));
    b[31] = 4;
    assert!(!Address::new(b).same_as(&addr(3)));
}

#[test]
fn create_lobby_bounds_description_in_bytes() {
    let fits = "a".repeat(196);
    assert!(create_lobby(addr(1), addr(2), fits, 5, 100, 0, 0).is_ok());
    let long = "a".repeat(197);
    let r = create_lobby(addr(1), addr(2), long, 5, 100, 0, 0);
    assert_eq!(r.unwrap_err(), ErrorCode::DescriptionTooLong);
    // 98 two-byte characters take 196 bytes; 99 take 198
    assert!(create_lobby(addr(1), addr(2), "é".repeat(98), 5, 100, 0, 0).is_ok());
    let r = create_lobby(addr(1), addr(2), "é".repeat(99), 5, 100, 0, 0);
    assert_eq!(r.unwrap_err(), ErrorCode::DescriptionTooLong);
}

#[test]
fn verifier_is_lobby_authority() {
    let l = lobby(10, 100);
    assert!(is_authorized_verifier(&l, &addr(1)));
    assert!(!is_authorized_verifier(&l, &addr(2)));
}
