use anchor_lang::solana_program::pubkey::Pubkey;
use tokensale::{
    add_to_whitelist, buy_token, change_limit, change_price, complete_deposit, complete_purchase,
    currency_cost, deposit, derive_address, initialize, initialize_derived, remove_from_whitelist,
    scaled_cost, signer_seeds, withdraw, AddToWhitelist, Address, BuyToken, ChangeLimit, ChangePrice,
    Deployment, Deposit, Initialize, RemoveFromWhitelist, SaleError, UserAccount, Withdraw,
    CURRENCY_BASE_UNIT,
};

fn addr(n: u8) -> Address {
    Address::new([n; 32])
}

const PROGRAM: u8 = 7;
const ADMIN: u8 = 1;
const BUYER: u8 = 2;
const STRANGER: u8 = 3;
const MINT: u8 = 9;

/// An initialized deployment with `vault` tokens on sale, and BUYER on the
/// allow-list.
fn deployment(price: u64, limit: u64, vault: u64) -> Deployment {
    let mut d = Deployment::new(addr(PROGRAM));
    let accounts = Initialize { signer: addr(ADMIN), token_mint: addr(MINT) };
    assert_eq!(initialize(&mut d, &accounts, price, limit, addr(ADMIN)), Ok(()));
    let admin = AddToWhitelist { signer: addr(ADMIN) };
    assert_eq!(add_to_whitelist(&mut d, &admin, addr(BUYER)), Ok(()));
    if vault > 0 {
        let dep = Deposit { signer: addr(ADMIN) };
        assert_eq!(deposit(&d, &dep, vault), Ok(()));
        assert_eq!(complete_deposit(&mut d, &dep, vault, Ok(())), Ok(()));
    }
    d
}

fn buy(d: &mut Deployment, buyer: u8, amount: u64) -> Result<(u64, u64), SaleError> {
    let p = buy_token(d, &BuyToken { signer: addr(buyer) }, amount)?;
    complete_purchase(d, &p, Ok(()))?;
    Ok((p.units, p.cost))
}

fn purchased(d: &Deployment, who: u8) -> u64 {
    d.user_account(&addr(who)).unwrap().amount_purchased
}

#[test]
fn initialize_derives_the_escrow_addresses() {
    let d = deployment(5, 10, 0);
    let program = Pubkey::new_from_array([PROGRAM; 32]);
    let (authority, bump) = Pubkey::find_program_address(&[b"token_account_owner_pda"], &program);
    let (vault, _) = Pubkey::find_program_address(&[b"PROGRAM_TOKEN_ACCOUNT"], &program);
    let (_, config_bump) = Pubkey::find_program_address(&[b"CONFIG_ACCOUNT"], &program);
    let escrow = d.escrow.unwrap();
    assert_eq!(escrow.authority.bytes, authority.to_bytes());
    assert_eq!(escrow.bump, bump);
    assert_eq!(escrow.vault.bytes, vault.to_bytes());
    assert_ne!(escrow.authority.bytes, [PROGRAM; 32]);
    assert_eq!(escrow.vault_tokens, 0);
    assert_eq!(escrow.lamports, 0);
    let config = d.config.unwrap();
    assert_eq!(config.bump, config_bump);
    assert_eq!(config.admin_pubkey, addr(ADMIN));
    assert_eq!(config.token_price, 5);
    assert_eq!(config.purchase_limit, 10);
    assert_eq!(config.token_mint, addr(MINT));
}

#[test]
fn derive_address_matches_the_host_derivation() {
    let program = Pubkey::new_from_array([4; 32]);
    let (expected, bump) = Pubkey::find_program_address(&[b"seed"], &program);
    let got = derive_address(b"seed".to_vec(), &addr(4)).unwrap();
    assert_eq!(got.0.bytes, expected.to_bytes());
    assert_eq!(got.1, bump);
}

#[test]
fn derive_address_refuses_an_overlong_seed() {
    assert_eq!(derive_address(vec![0u8; 33], &addr(4)), None);
}

#[test]
fn signer_seeds_are_the_authority_seed_and_bump() {
    assert_eq!(signer_seeds(254), vec![b"token_account_owner_pda".to_vec(), vec![254u8]]);
}

#[test]
fn initialize_twice_is_refused() {
    let mut d = deployment(5, 10, 0);
    let before = (d.config, d.escrow);
    let accounts = Initialize { signer: addr(STRANGER), token_mint: addr(8) };
    assert_eq!(
        initialize(&mut d, &accounts, 1, 2, addr(STRANGER)),
        Err(SaleError::AlreadyInitialized)
    );
    assert_eq!((d.config, d.escrow), before);
}

#[test]
fn initialize_without_derived_addresses_fails() {
    let mut d = Deployment::new(addr(PROGRAM));
    let accounts = Initialize { signer: addr(ADMIN), token_mint: addr(MINT) };
    let some = Some((addr(5), 255u8));
    assert_eq!(
        initialize_derived(&mut d, &accounts, 1, 2, addr(ADMIN), some, None, some),
        Err(SaleError::AddressDerivationFailed)
    );
    assert!(d.config.is_none());
    assert!(d.escrow.is_none());
}

#[test]
fn admin_changes_price_and_limit() {
    let mut d = deployment(5, 10, 0);
    assert_eq!(change_price(&mut d, &ChangePrice { signer: addr(ADMIN) }, 0), Ok(()));
    assert_eq!(change_limit(&mut d, &ChangeLimit { signer: addr(ADMIN) }, 77), Ok(()));
    let config = d.config.unwrap();
    assert_eq!(config.token_price, 0);
    assert_eq!(config.purchase_limit, 77);
}

#[test]
fn non_admin_is_unauthorized_everywhere() {
    let mut d = deployment(5, 10, 100);
    let s = addr(STRANGER);
    assert_eq!(change_price(&mut d, &ChangePrice { signer: s }, 1), Err(SaleError::Unauthorized));
    assert_eq!(change_limit(&mut d, &ChangeLimit { signer: s }, 1), Err(SaleError::Unauthorized));
    assert_eq!(add_to_whitelist(&mut d, &AddToWhitelist { signer: s }, s), Err(SaleError::Unauthorized));
    assert_eq!(
        remove_from_whitelist(&mut d, &RemoveFromWhitelist { signer: s }, addr(BUYER)),
        Err(SaleError::Unauthorized)
    );
    assert_eq!(deposit(&d, &Deposit { signer: s }, 1), Err(SaleError::Unauthorized));
    assert_eq!(
        complete_deposit(&mut d, &Deposit { signer: s }, 1, Ok(())),
        Err(SaleError::Unauthorized)
    );
    let mut lamports: u64 = 0;
    assert_eq!(withdraw(&mut d, &Withdraw { signer: s }, 0, &mut lamports), Err(SaleError::Unauthorized));
    let config = d.config.unwrap();
    assert_eq!(config.token_price, 5);
    assert_eq!(config.purchase_limit, 10);
    assert_eq!(d.escrow.unwrap().vault_tokens, 100);
    assert_eq!(d.users.len(), 1);
    assert!(d.user_account(&addr(BUYER)).unwrap().whitelisted);
}

#[test]
fn operations_before_initialize_find_no_record() {
    let mut d = Deployment::new(addr(PROGRAM));
    assert_eq!(
        change_price(&mut d, &ChangePrice { signer: addr(ADMIN) }, 1),
        Err(SaleError::RecordNotFound)
    );
    assert_eq!(buy_token(&d, &BuyToken { signer: addr(BUYER) }, 1), Err(SaleError::RecordNotFound));
}

#[test]
fn purchase_clamps_to_what_is_left() {
    let mut d = deployment(0, 100, 1000);
    assert_eq!(buy(&mut d, BUYER, 90), Ok((90, 0)));
    assert_eq!(purchased(&d, BUYER), 90);
    assert_eq!(buy(&mut d, BUYER, 50), Ok((10, 0)));
    assert_eq!(purchased(&d, BUYER), 100);
    assert_eq!(d.escrow.unwrap().vault_tokens, 900);
}

#[test]
fn purchase_at_the_limit_is_refused_even_for_nothing() {
    let mut d = deployment(0, 5, 10);
    assert_eq!(buy(&mut d, BUYER, 5), Ok((5, 0)));
    assert_eq!(buy(&mut d, BUYER, 0), Err(SaleError::LimitReached));
    assert_eq!(buy(&mut d, BUYER, 1), Err(SaleError::LimitReached));
}

#[test]
fn zero_limit_blocks_all_purchases() {
    let mut d = deployment(5, 0, 10);
    assert_eq!(buy(&mut d, BUYER, 1), Err(SaleError::LimitReached));
}

#[test]
fn purchase_of_nothing_changes_nothing() {
    let mut d = deployment(3 * CURRENCY_BASE_UNIT, 10, 10);
    let p = buy_token(&d, &BuyToken { signer: addr(BUYER) }, 0).unwrap();
    assert_eq!((p.units, p.cost), (0, 0));
    assert_eq!(complete_purchase(&mut d, &p, Ok(())), Ok(()));
    assert_eq!(purchased(&d, BUYER), 0);
    assert_eq!(d.escrow.unwrap().lamports, 0);
    assert_eq!(d.escrow.unwrap().vault_tokens, 10);
}

#[test]
fn cost_rounds_down() {
    assert_eq!(scaled_cost(7, 3, 10), Some(2));
    assert_eq!(scaled_cost(7, 3, 7), Some(3));
    assert_eq!(currency_cost(7, 3 * CURRENCY_BASE_UNIT), Some(21));
    assert_eq!(currency_cost(3, 500_000_000), Some(1));
    assert_eq!(currency_cost(1, 999_999_999), Some(0));
    assert_eq!(currency_cost(u64::MAX, u64::MAX), None);
}

#[test]
fn purchase_pays_the_rounded_down_price() {
    let mut d = deployment(1_500_000_000, 100, 100);
    assert_eq!(buy(&mut d, BUYER, 3), Ok((3, 4)));
    let escrow = d.escrow.unwrap();
    assert_eq!(escrow.lamports, 4);
    assert_eq!(escrow.vault_tokens, 97);
    assert_eq!(purchased(&d, BUYER), 3);
}

#[test]
fn purchase_whose_cost_overflows_is_refused() {
    let mut d = deployment(u64::MAX, u64::MAX, u64::MAX);
    assert_eq!(buy(&mut d, BUYER, u64::MAX), Err(SaleError::ArithmeticOverflow));
    assert_eq!(purchased(&d, BUYER), 0);
}

#[test]
fn purchase_beyond_the_vault_is_refused() {
    let mut d = deployment(0, 100, 5);
    assert_eq!(buy(&mut d, BUYER, 6), Err(SaleError::InsufficientFunds));
    assert_eq!(buy(&mut d, BUYER, 5), Ok((5, 0)));
}

#[test]
fn removed_buyer_cannot_buy_even_nothing() {
    let mut d = deployment(0, 100, 100);
    let admin = RemoveFromWhitelist { signer: addr(ADMIN) };
    assert_eq!(remove_from_whitelist(&mut d, &admin, addr(BUYER)), Ok(()));
    assert_eq!(buy(&mut d, BUYER, 0), Err(SaleError::NotWhitelisted));
    assert_eq!(buy(&mut d, BUYER, 5), Err(SaleError::NotWhitelisted));
}

#[test]
fn unknown_buyer_cannot_buy() {
    let mut d = deployment(0, 100, 100);
    assert_eq!(buy(&mut d, STRANGER, 1), Err(SaleError::NotWhitelisted));
}

#[test]
fn removing_an_unknown_buyer_finds_no_record() {
    let mut d = deployment(0, 100, 100);
    let admin = RemoveFromWhitelist { signer: addr(ADMIN) };
    assert_eq!(remove_from_whitelist(&mut d, &admin, addr(STRANGER)), Err(SaleError::RecordNotFound));
}

#[test]
fn rewhitelisting_keeps_the_purchased_amount() {
    let mut d = deployment(0, 100, 100);
    assert_eq!(buy(&mut d, BUYER, 40), Ok((40, 0)));
    let remove = RemoveFromWhitelist { signer: addr(ADMIN) };
    assert_eq!(remove_from_whitelist(&mut d, &remove, addr(BUYER)), Ok(()));
    assert_eq!(
        d.user_account(&addr(BUYER)),
        Some(UserAccount { whitelisted: false, amount_purchased: 40 })
    );
    let add = AddToWhitelist { signer: addr(ADMIN) };
    assert_eq!(add_to_whitelist(&mut d, &add, addr(BUYER)), Ok(()));
    assert_eq!(
        d.user_account(&addr(BUYER)),
        Some(UserAccount { whitelisted: true, amount_purchased: 40 })
    );
    assert_eq!(d.users.len(), 1);
    assert_eq!(buy(&mut d, BUYER, 100), Ok((60, 0)));
}

#[test]
fn failed_transfer_changes_nothing() {
    let mut d = deployment(CURRENCY_BASE_UNIT, 100, 100);
    let p = buy_token(&d, &BuyToken { signer: addr(BUYER) }, 10).unwrap();
    assert_eq!(complete_purchase(&mut d, &p, Err(SaleError::Gateway(1))), Err(SaleError::Gateway(1)));
    assert_eq!(
        complete_purchase(&mut d, &p, Err(SaleError::InsufficientFunds)),
        Err(SaleError::InsufficientFunds)
    );
    assert_eq!(purchased(&d, BUYER), 0);
    assert_eq!(d.escrow.unwrap().vault_tokens, 100);
    assert_eq!(d.escrow.unwrap().lamports, 0);
}

#[test]
fn stale_purchase_is_refused() {
    let mut d = deployment(CURRENCY_BASE_UNIT, 100, 100);
    let p = buy_token(&d, &BuyToken { signer: addr(BUYER) }, 10).unwrap();
    assert_eq!(change_price(&mut d, &ChangePrice { signer: addr(ADMIN) }, 2 * CURRENCY_BASE_UNIT), Ok(()));
    assert_eq!(complete_purchase(&mut d, &p, Ok(())), Err(SaleError::StalePurchase));
    assert_eq!(purchased(&d, BUYER), 0);
}

#[test]
fn deposit_fills_the_vault_and_failed_deposit_does_not() {
    let mut d = deployment(0, 100, 0);
    let dep = Deposit { signer: addr(ADMIN) };
    assert_eq!(complete_deposit(&mut d, &dep, 30, Err(SaleError::InsufficientFunds)), Err(SaleError::InsufficientFunds));
    assert_eq!(d.escrow.unwrap().vault_tokens, 0);
    assert_eq!(complete_deposit(&mut d, &dep, 30, Ok(())), Ok(()));
    assert_eq!(complete_deposit(&mut d, &dep, 12, Ok(())), Ok(()));
    assert_eq!(d.escrow.unwrap().vault_tokens, 42);
    assert_eq!(deposit(&d, &dep, u64::MAX), Err(SaleError::ArithmeticOverflow));
}

#[test]
fn withdraw_moves_the_escrow_currency_to_the_admin() {
    let mut d = deployment(CURRENCY_BASE_UNIT, 100, 100);
    assert_eq!(buy(&mut d, BUYER, 10), Ok((10, 10)));
    let mut admin_lamports: u64 = 5;
    let w = Withdraw { signer: addr(ADMIN) };
    assert_eq!(withdraw(&mut d, &w, 4, &mut admin_lamports), Ok(()));
    assert_eq!(admin_lamports, 9);
    assert_eq!(d.escrow.unwrap().lamports, 6);
}

#[test]
fn withdraw_beyond_the_escrow_balance_is_refused() {
    let mut d = deployment(CURRENCY_BASE_UNIT, 100, 100);
    assert_eq!(buy(&mut d, BUYER, 10), Ok((10, 10)));
    let mut admin_lamports: u64 = 5;
    let w = Withdraw { signer: addr(ADMIN) };
    assert_eq!(withdraw(&mut d, &w, 11, &mut admin_lamports), Err(SaleError::InsufficientFunds));
    assert_eq!(admin_lamports, 5);
    assert_eq!(d.escrow.unwrap().lamports, 10);
}

#[test]
fn withdraw_overflowing_the_admin_balance_is_refused() {
    let mut d = deployment(CURRENCY_BASE_UNIT, 100, 100);
    assert_eq!(buy(&mut d, BUYER, 10), Ok((10, 10)));
    let mut admin_lamports: u64 = u64::MAX;
    let w = Withdraw { signer: addr(ADMIN) };
    assert_eq!(withdraw(&mut d, &w, 1, &mut admin_lamports), Err(SaleError::ArithmeticOverflow));
    assert_eq!(d.escrow.unwrap().lamports, 10);
}

#[test]
fn limit_holds_over_many_purchases() {
    let mut d = deployment(0, 25, 1000);
    let mut total: u64 = 0;
    for amount in [7u64, 0, 9, 11, 3] {
        if let Ok((units, _)) = buy(&mut d, BUYER, amount) {
            total += units;
        }
        assert!(purchased(&d, BUYER) <= 25);
    }
    assert_eq!(total, 25);
    assert_eq!(purchased(&d, BUYER), 25);
}
