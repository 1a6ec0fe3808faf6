use solzers_faucet::{close, create, deposit, update, withdraw};
use solzers_faucet::{Close, Create, Deposit, ErrorCode, Faucet, Pubkey, TokenAccount, Update, Withdraw};

fn key(n: u8) -> Pubkey {
    Pubkey { bytes: [n; 32] }
}

fn live_faucet() -> Faucet {
    Faucet {
        price: 10,
        amount: 100,
        interval: 60,
        max_quantity: 5,
        authority: key(1),
        beneficiary: key(2),
        token_mint: key(3),
        token_bump: 250,
    }
}

fn account(mint: u8, owner: u8, amount: u64) -> TokenAccount {
    TokenAccount { mint: key(mint), owner: key(owner), amount, lamports: 7 }
}

#[test]
fn create_makes_a_closed_faucet() {
    let (f, custody) = create(&Create { authority: key(1), token_account: key(6), token_mint: key(3) }, 253);
    assert_eq!(f.price, 0);
    assert_eq!(f.amount, 0);
    assert_eq!(f.interval, 0);
    assert_eq!(f.max_quantity, 0);
    assert!(f.authority == key(1));
    assert!(f.beneficiary == key(1));
    assert!(f.token_mint == key(3));
    assert_eq!(f.token_bump, 253);
    assert_eq!(custody, TokenAccount { mint: key(3), owner: key(6), amount: 0, lamports: 0 });
}

#[test]
fn update_replaces_only_given_fields() {
    let mut u = Update { faucet: live_faucet(), authority: key(1) };
    let r = update(&mut u, Some(20), None, None, Some(9), None, Some(key(5)), None, None);
    assert_eq!(r, Ok(()));
    let mut expected = live_faucet();
    expected.price = 20;
    expected.max_quantity = 9;
    expected.beneficiary = key(5);
    assert_eq!(u.faucet, expected);
}

#[test]
fn update_can_hand_authority_away() {
    let mut u = Update { faucet: live_faucet(), authority: key(1) };
    assert_eq!(update(&mut u, None, None, None, None, Some(key(4)), None, None, None), Ok(()));
    assert!(u.faucet.authority == key(4));
    assert_eq!(
        update(&mut u, Some(1), None, None, None, None, None, None, None),
        Err(ErrorCode::Unauthorized)
    );
}

#[test]
fn authority_gating_refuses_strangers() {
    let mut u = Update { faucet: live_faucet(), authority: key(9) };
    let before = u;
    assert_eq!(
        update(&mut u, Some(0), Some(0), Some(0), Some(0), Some(key(9)), Some(key(9)), None, None),
        Err(ErrorCode::Unauthorized)
    );
    assert_eq!(u, before);

    let mut c = Close {
        faucet: live_faucet(),
        authority: key(9),
        authority_lamports: 0,
        from_token_account: account(3, 6, 500),
        to_token_account: account(3, 9, 0),
    };
    let before = c;
    assert_eq!(close(&mut c), Err(ErrorCode::Unauthorized));
    assert_eq!(c, before);
}

#[test]
fn withdraw_by_stranger_is_refused() {
    let mut w = Withdraw {
        faucet: live_faucet(),
        authority: key(9),
        from_token_account: account(3, 6, 500),
        to_token_account: account(3, 9, 0),
    };
    assert_eq!(withdraw(&mut w, 100), Err(ErrorCode::Unauthorized));
    assert_eq!(w.from_token_account.amount, 500);
    assert_eq!(w.to_token_account.amount, 0);
}

#[test]
fn withdraw_by_authority_moves_tokens() {
    let mut w = Withdraw {
        faucet: live_faucet(),
        authority: key(1),
        from_token_account: account(3, 6, 500),
        to_token_account: account(3, 1, 10),
    };
    assert_eq!(withdraw(&mut w, 100), Ok(()));
    assert_eq!(w.from_token_account.amount, 400);
    assert_eq!(w.to_token_account.amount, 110);
    assert_eq!(withdraw(&mut w, 401), Err(ErrorCode::InsufficientFunds));
    assert_eq!(w.from_token_account.amount, 400);
}

#[test]
fn deposit_from_anyone_who_owns_the_source() {
    let mut d = Deposit {
        faucet: live_faucet(),
        authority: key(8),
        from_token_account: account(3, 8, 50),
        to_token_account: account(3, 6, 500),
    };
    assert_eq!(deposit(&mut d, 50), Ok(()));
    assert_eq!(d.from_token_account.amount, 0);
    assert_eq!(d.to_token_account.amount, 550);
    assert_eq!(deposit(&mut d, 1), Err(ErrorCode::InsufficientFunds));
}

#[test]
fn deposit_errors() {
    let mut d = Deposit {
        faucet: live_faucet(),
        authority: key(7),
        from_token_account: account(3, 8, 50),
        to_token_account: account(3, 6, 500),
    };
    assert_eq!(deposit(&mut d, 5), Err(ErrorCode::OwnerMismatch));
    d.authority = key(8);
    d.from_token_account.mint = key(4);
    assert_eq!(deposit(&mut d, 5), Err(ErrorCode::MintMismatch));
    d.from_token_account.mint = key(3);
    d.to_token_account.amount = u64::MAX;
    let before = d;
    assert_eq!(deposit(&mut d, 5), Err(ErrorCode::Overflow));
    assert_eq!(d, before);
}

#[test]
fn close_empties_custody_and_returns_reserve() {
    let mut c = Close {
        faucet: live_faucet(),
        authority: key(1),
        authority_lamports: 1_000,
        from_token_account: account(3, 6, 500),
        to_token_account: account(3, 1, 20),
    };
    assert_eq!(close(&mut c), Ok(()));
    assert_eq!(c.from_token_account.amount, 0);
    assert_eq!(c.from_token_account.lamports, 0);
    assert_eq!(c.to_token_account.amount, 520);
    assert_eq!(c.authority_lamports, 1_007);
    assert_eq!(c.faucet, live_faucet());
}

#[test]
fn close_into_another_token_type_is_refused() {
    let mut c = Close {
        faucet: live_faucet(),
        authority: key(1),
        authority_lamports: 0,
        from_token_account: account(3, 6, 500),
        to_token_account: account(4, 1, 0),
    };
    let before = c;
    assert_eq!(close(&mut c), Err(ErrorCode::MintMismatch));
    assert_eq!(c, before);
}

#[test]
fn keys_compare_by_every_byte() {
    let a = key(1);
    let mut b = key(1);
    assert!(a == b);
    b.bytes[31] = 2;
    assert!(a != b);
}
