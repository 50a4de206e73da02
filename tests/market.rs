use skeptic::{create_lobby, Address, ErrorCode, Market};

fn addr(b: u8) -> Address {
    Address::new([b; 32])
}

fn market(fee: u64, close: i64) -> Market {
    let l = create_lobby(addr(1), addr(2), String::from("Study"), fee, close, 0, 1).unwrap();
    Market::new(addr(9), l)
}

#[test]
fn market_pot_is_fee_per_player() {
    let mut m = market(10, 100);
    for b in 10u8..17 {
        assert_eq!(m.join(addr(b), 20), Ok(10));
    }
    assert_eq!(m.lobby.total_pot, 70);
    assert_eq!(m.lobby.total_players, 7);
    assert_eq!(m.players.len(), 7);
    assert!(m.players.iter().all(|s| s.has_deposited && s.lobby.same_as(&addr(9))));
    assert_eq!(m.join(addr(30), 100), Err(ErrorCode::MarketClosed));
    assert_eq!(m.lobby.total_pot, 70);
}

#[test]
fn market_join_twice_fails() {
    let mut m = market(10, 100);
    assert_eq!(m.join(addr(10), 1), Ok(10));
    assert_eq!(m.join(addr(10), 2), Err(ErrorCode::AlreadyJoined));
    assert_eq!(m.lobby.total_pot, 10);
    assert_eq!(m.players.len(), 1);
    assert_eq!(m.find(&addr(10)), Some(0));
    assert_eq!(m.find(&addr(11)), None);
}

#[test]
fn market_verify_exactly_once() {
    let mut m = market(10, 100);
    m.join(addr(10), 1).unwrap();
    m.join(addr(11), 1).unwrap();
    assert_eq!(m.verify(&addr(12), true), Err(ErrorCode::NotJoined));
    assert_eq!(m.verify(&addr(11), false), Err(ErrorCode::Unauthorized));
    assert_eq!(m.verify(&addr(11), true), Ok(()));
    assert_eq!(m.verify(&addr(11), true), Err(ErrorCode::AlreadyVerified));
    assert_eq!(m.lobby.verified_count, 1);
    assert!(m.players[1].is_verified);
    assert!(!m.players[0].is_verified);
}

#[test]
fn market_claim_before_close_fails() {
    let mut m = market(10, 100);
    m.join(addr(10), 1).unwrap();
    m.join(addr(11), 1).unwrap();
    m.verify(&addr(10), true).unwrap();
    assert_eq!(m.claim(&addr(10), 99), Err(ErrorCode::MarketNotClosed));
    assert_eq!(m.claim(&addr(11), 99), Err(ErrorCode::MarketNotClosed));
    assert!(!m.players[0].has_claimed);
}

#[test]
fn market_claim_once() {
    let mut m = market(10, 100);
    for b in 10u8..15 {
        m.join(addr(b), 1).unwrap();
    }
    m.verify(&addr(10), true).unwrap();
    m.verify(&addr(13), true).unwrap();
    assert_eq!(m.resolve(50), Err(ErrorCode::MarketNotClosed));
    assert_eq!(m.resolve(100), Ok(()));
    assert_eq!(m.claim(&addr(20), 100), Err(ErrorCode::NotJoined));
    assert_eq!(m.claim(&addr(11), 100), Err(ErrorCode::NotVerified));
    assert_eq!(m.claim(&addr(13), 100), Ok(17));
    assert_eq!(m.claim(&addr(13), 101), Err(ErrorCode::AlreadyClaimed));
    assert_eq!(m.claim(&addr(10), 102), Ok(17));
    assert!(m.players[0].has_claimed && m.players[3].has_claimed);
    let paid = 2 * 17 + 15;
    assert!(paid <= m.lobby.total_pot);
    assert_eq!(m.lobby.total_pot - paid, 1);
}

#[test]
fn market_everyone_verified_gets_stake_back() {
    let mut m = market(8, 100);
    for b in 10u8..13 {
        m.join(addr(b), 1).unwrap();
        m.verify(&addr(b), true).unwrap();
    }
    for b in 10u8..13 {
        assert_eq!(m.claim(&addr(b), 100), Ok(8));
    }
}
