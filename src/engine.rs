use vstd::prelude::*;
use crate::address::Address;
use crate::authority::{
    authority_seed, authority_seed_bytes, config_seed, config_seed_bytes, derive_address, program_address_of,
    vault_seed, vault_seed_bytes,
};
use crate::sale::{
    add_to_whitelist_step, admin_gate, apply_purchase, change_limit_step, change_price_step, clamp,
    complete_purchase_step, deposit_check, deposit_step, initialize_step, plan_purchase,
    remove_from_whitelist_step, scaled_cost_spec, stepped, with_flag, withdraw_step, AddToWhitelist, BuyToken,
    ChangeLimit, ChangePrice, Deposit, Initialize, Purchase, RemoveFromWhitelist, SaleError, Withdraw,
    CURRENCY_BASE_UNIT,
};
use crate::state::{owners_unique, ConfigurationAccount, Deployment, Escrow, SaleState, UserAccount, UserRecord};

verus! {

/// `units` tokens at `price` per whole token, where a whole token costs
/// `base_unit` smallest units per unit of price; rounded down, and `None`
/// where the cost does not fit in 64 bits.
pub fn scaled_cost(units: u64, price: u64, base_unit: u64) -> (r: Option<u64>)
    requires
        base_unit > 0,
    ensures
        r is None <==> scaled_cost_spec(units, price, base_unit) > u64::MAX,
        r matches Some(c) ==> c == scaled_cost_spec(units, price, base_unit),
{
    proof {
        assert((units as int) * (price as int) <= (u64::MAX as int) * (u64::MAX as int)) by (nonlinear_arith)
            requires
                units as int <= u64::MAX as int,
                price as int <= u64::MAX as int,
                0 <= units as int,
                0 <= price as int,
        ;
        assert((u64::MAX as int) * (u64::MAX as int) < u128::MAX as int) by (nonlinear_arith);
    }
    let product: u128 = (units as u128) * (price as u128);
    let cost: u128 = product / (base_unit as u128);
    if cost > u64::MAX as u128 {
        None
    } else {
        Some(cost as u64)
    }
}

/// The cost in smallest currency units of `units` tokens at `price` per
/// whole token, rounded down.
pub fn currency_cost(units: u64, price: u64) -> (r: Option<u64>)
    ensures
        r is None <==> scaled_cost_spec(units, price, CURRENCY_BASE_UNIT) > u64::MAX,
        r matches Some(c) ==> c == scaled_cost_spec(units, price, CURRENCY_BASE_UNIT),
{
    scaled_cost(units, price, CURRENCY_BASE_UNIT)
}

/// The configuration, where `signer` is its admin.
fn admin_config(deployment: &Deployment, signer: &Address) -> (r: Result<ConfigurationAccount, SaleError>)
    ensures
        r == admin_gate(deployment@, signer@),
{
    match deployment.config {
        None => Err(SaleError::RecordNotFound),
        Some(c) => if c.admin_pubkey.same_as(signer) {
            Ok(c)
        } else {
            Err(SaleError::Unauthorized)
        },
    }
}

/// Creates the configuration and the escrow from addresses already derived.
pub fn initialize_derived(
    deployment: &mut Deployment,
    accounts: &Initialize,
    token_price: u64,
    purchase_limit: u64,
    admin_pubkey: Address,
    config_pda: Option<(Address, u8)>,
    authority_pda: Option<(Address, u8)>,
    vault_pda: Option<(Address, u8)>,
) -> (r: Result<(), SaleError>)
    requires
        old(deployment)@.wf(),
    ensures
        final(deployment)@.wf(),
        stepped(
            old(deployment)@,
            final(deployment)@,
            r,
            initialize_step(
                old(deployment)@,
                accounts.token_mint,
                token_price,
                purchase_limit,
                admin_pubkey,
                config_pda,
                authority_pda,
                vault_pda,
            ),
        ),
{
    if deployment.config.is_some() || deployment.escrow.is_some() {
        return Err(SaleError::AlreadyInitialized);
    }
    match (config_pda, authority_pda, vault_pda) {
        (Some(c), Some(a), Some(v)) => {
            deployment.config = Some(
                ConfigurationAccount {
                    bump: c.1,
                    admin_pubkey,
                    token_price,
                    purchase_limit,
                    token_mint: accounts.token_mint,
                },
            );
            deployment.escrow = Some(
                Escrow { authority: a.0, bump: a.1, vault: v.0, vault_tokens: 0, lamports: 0 },
            );
            Ok(())
        },
        _ => Err(SaleError::AddressDerivationFailed),
    }
}

/// An escrow at the derived authority `a` with vault `v`, holding nothing.
pub open spec fn fresh_escrow(escrow: Option<Escrow>, a: (Seq<u8>, u8), v: (Seq<u8>, u8)) -> bool {
    match escrow {
        Some(e) => e.authority@ == a.0 && e.bump == a.1 && e.vault@ == v.0 && e.vault_tokens == 0
            && e.lamports == 0,
        None => false,
    }
}

/// Creates the configuration record, the escrow authority and its empty
/// vault, at addresses derived from the program's identity. A deployment
/// that already has them is left as it is.
pub fn initialize(
    deployment: &mut Deployment,
    accounts: &Initialize,
    token_price: u64,
    purchase_limit: u64,
    admin_pubkey: Address,
) -> (r: Result<(), SaleError>)
    requires
        old(deployment)@.wf(),
    ensures
        final(deployment)@.wf(),
        old(deployment).config is Some || old(deployment).escrow is Some ==> r == Err::<(), SaleError>(
            SaleError::AlreadyInitialized,
        ) && final(deployment)@ == old(deployment)@,
        old(deployment).config is None && old(deployment).escrow is None ==> match (
            program_address_of(seq![config_seed()], old(deployment).program_id@),
            program_address_of(seq![authority_seed()], old(deployment).program_id@),
            program_address_of(seq![vault_seed()], old(deployment).program_id@),
        ) {
            (Some(c), Some(a), Some(v)) => r is Ok && final(deployment).config == Some(
                ConfigurationAccount {
                    bump: c.1,
                    admin_pubkey,
                    token_price,
                    purchase_limit,
                    token_mint: accounts.token_mint,
                },
            ) && fresh_escrow(final(deployment).escrow, a, v)
                && final(deployment).users@ == old(deployment).users@
                && final(deployment).program_id == old(deployment).program_id,
            _ => r == Err::<(), SaleError>(SaleError::AddressDerivationFailed) && final(deployment)@
                == old(deployment)@,
        },
{
    if deployment.config.is_some() || deployment.escrow.is_some() {
        return Err(SaleError::AlreadyInitialized);
    }
    let config_pda = derive_address(config_seed_bytes(), &deployment.program_id);
    let authority_pda = derive_address(authority_seed_bytes(), &deployment.program_id);
    let vault_pda = derive_address(vault_seed_bytes(), &deployment.program_id);
    initialize_derived(
        deployment,
        accounts,
        token_price,
        purchase_limit,
        admin_pubkey,
        config_pda,
        authority_pda,
        vault_pda,
    )
}

/// Sets the price of one whole token; admin only.
pub fn change_price(deployment: &mut Deployment, accounts: &ChangePrice, new_price: u64) -> (r: Result<(), SaleError>)
    requires
        old(deployment)@.wf(),
    ensures
        final(deployment)@.wf(),
        stepped(old(deployment)@, final(deployment)@, r, change_price_step(old(deployment)@, accounts.signer@, new_price)),
{
    let c = match admin_config(deployment, &accounts.signer) {
        Ok(c) => c,
        Err(e) => return Err(e),
    };
    deployment.config = Some(
        ConfigurationAccount {
            bump: c.bump,
            admin_pubkey: c.admin_pubkey,
            token_price: new_price,
            purchase_limit: c.purchase_limit,
            token_mint: c.token_mint,
        },
    );
    Ok(())
}

/// Sets the most that one buyer may buy in total; admin only.
pub fn change_limit(deployment: &mut Deployment, accounts: &ChangeLimit, new_limit: u64) -> (r: Result<(), SaleError>)
    requires
        old(deployment)@.wf(),
    ensures
        final(deployment)@.wf(),
        stepped(old(deployment)@, final(deployment)@, r, change_limit_step(old(deployment)@, accounts.signer@, new_limit)),
{
    let c = match admin_config(deployment, &accounts.signer) {
        Ok(c) => c,
        Err(e) => return Err(e),
    };
    deployment.config = Some(
        ConfigurationAccount {
            bump: c.bump,
            admin_pubkey: c.admin_pubkey,
            token_price: c.token_price,
            purchase_limit: new_limit,
            token_mint: c.token_mint,
        },
    );
    Ok(())
}

/// Sets the allow-list flag of the record at `i`, keeping its purchases.
fn set_flag(deployment: &mut Deployment, i: usize, flag: bool)
    requires
        old(deployment)@.wf(),
        i < old(deployment).users@.len(),
    ensures
        final(deployment)@ == (SaleState { users: with_flag(old(deployment).users@, i as int, flag), ..old(deployment)@ }),
        final(deployment)@.wf(),
{
    let rec = deployment.users[i];
    deployment.users.set(
        i,
        UserRecord {
            owner: rec.owner,
            account: UserAccount { whitelisted: flag, amount_purchased: rec.account.amount_purchased },
        },
    );
    assert(deployment.users@ =~= with_flag(old(deployment).users@, i as int, flag));
    assert(owners_unique(deployment.users@)) by {
        assert forall|j: int, k: int|
            0 <= j < deployment.users@.len() && 0 <= k < deployment.users@.len() && j != k implies
            deployment.users@[j].owner@ != deployment.users@[k].owner@ by {
            assert(old(deployment).users@[j].owner@ != old(deployment).users@[k].owner@);
        }
    }
}

/// Puts `pubkey_to_add` on the allow-list, creating its record with nothing
/// bought where it has none; admin only.
pub fn add_to_whitelist(
    deployment: &mut Deployment,
    accounts: &AddToWhitelist,
    pubkey_to_add: Address,
) -> (r: Result<(), SaleError>)
    requires
        old(deployment)@.wf(),
    ensures
        final(deployment)@.wf(),
        stepped(
            old(deployment)@,
            final(deployment)@,
            r,
            add_to_whitelist_step(old(deployment)@, accounts.signer@, pubkey_to_add),
        ),
{
    match admin_config(deployment, &accounts.signer) {
        Ok(_) => {},
        Err(e) => return Err(e),
    }
    match deployment.find_user(&pubkey_to_add) {
        Some(i) => {
            set_flag(deployment, i, true);
        },
        None => {
            let ghost before = deployment.users@;
            deployment.users.push(
                UserRecord {
                    owner: pubkey_to_add,
                    account: UserAccount { whitelisted: true, amount_purchased: 0 },
                },
            );
            assert(owners_unique(deployment.users@)) by {
                assert forall|j: int, k: int|
                    0 <= j < deployment.users@.len() && 0 <= k < deployment.users@.len() && j != k implies
                    deployment.users@[j].owner@ != deployment.users@[k].owner@ by {
                    if j < before.len() && k < before.len() {
                        assert(before[j].owner@ != before[k].owner@);
                    } else if j < before.len() {
                        assert(before[j].owner@ != pubkey_to_add@);
                    } else {
                        assert(before[k].owner@ != pubkey_to_add@);
                    }
                }
            }
        },
    }
    Ok(())
}

/// Takes `pubkey_to_remove` off the allow-list, keeping its record and what
/// it bought; admin only.
pub fn remove_from_whitelist(
    deployment: &mut Deployment,
    accounts: &RemoveFromWhitelist,
    pubkey_to_remove: Address,
) -> (r: Result<(), SaleError>)
    requires
        old(deployment)@.wf(),
    ensures
        final(deployment)@.wf(),
        stepped(
            old(deployment)@,
            final(deployment)@,
            r,
            remove_from_whitelist_step(old(deployment)@, accounts.signer@, pubkey_to_remove),
        ),
{
    match admin_config(deployment, &accounts.signer) {
        Ok(_) => {},
        Err(e) => return Err(e),
    }
    match deployment.find_user(&pubkey_to_remove) {
        Some(i) => {
            set_flag(deployment, i, false);
            Ok(())
        },
        None => Err(SaleError::RecordNotFound),
    }
}

/// Plans a purchase of up to `amount` tokens by the signer: checks the
/// allow-list and the limit, clamps to what is left of the limit and prices
/// the units, rounding down. Nothing changes until `complete_purchase`.
pub fn buy_token(deployment: &Deployment, accounts: &BuyToken, amount: u64) -> (r: Result<Purchase, SaleError>)
    requires
        deployment@.wf(),
    ensures
        r == plan_purchase(deployment@, accounts.signer, amount),
{
    let config = match deployment.config {
        Some(c) => c,
        None => return Err(SaleError::RecordNotFound),
    };
    let escrow = match deployment.escrow {
        Some(e) => e,
        None => return Err(SaleError::RecordNotFound),
    };
    let user = match deployment.user_account(&accounts.signer) {
        Some(u) => u,
        None => return Err(SaleError::NotWhitelisted),
    };
    if !user.whitelisted {
        return Err(SaleError::NotWhitelisted);
    }
    if user.amount_purchased >= config.purchase_limit {
        return Err(SaleError::LimitReached);
    }
    let left_to_buy: u64 = config.purchase_limit - user.amount_purchased;
    let units: u64 = if left_to_buy < amount {
        left_to_buy
    } else {
        amount
    };
    assert(units as int == clamp(config.purchase_limit - user.amount_purchased, amount));
    let cost = match currency_cost(units, config.token_price) {
        Some(c) => c,
        None => return Err(SaleError::ArithmeticOverflow),
    };
    if units > escrow.vault_tokens {
        return Err(SaleError::InsufficientFunds);
    }
    if escrow.lamports > u64::MAX - cost {
        return Err(SaleError::ArithmeticOverflow);
    }
    Ok(Purchase { buyer: accounts.signer, requested: amount, units, cost })
}

/// Records `purchase` once its two transfers have reported `outcome`: the
/// buyer's total grows by the units, the vault gives them up and the escrow
/// takes the cost. The purchase is planned again on the current records
/// first; any refusal, a failed transfer, or a plan that no longer matches
/// leaves everything as it was.
pub fn complete_purchase(
    deployment: &mut Deployment,
    purchase: &Purchase,
    outcome: Result<(), SaleError>,
) -> (r: Result<(), SaleError>)
    requires
        old(deployment)@.wf(),
    ensures
        final(deployment)@.wf(),
        stepped(old(deployment)@, final(deployment)@, r, complete_purchase_step(old(deployment)@, *purchase, outcome)),
{
    let p = match buy_token(deployment, &BuyToken { signer: purchase.buyer }, purchase.requested) {
        Ok(p) => p,
        Err(e) => return Err(e),
    };
    match outcome {
        Ok(()) => {},
        Err(e) => return Err(e),
    }
    if p.units != purchase.units || p.cost != purchase.cost {
        return Err(SaleError::StalePurchase);
    }
    let i = match deployment.find_user(&p.buyer) {
        Some(i) => i,
        None => return Err(SaleError::NotWhitelisted),
    };
    let escrow = match deployment.escrow {
        Some(e) => e,
        None => return Err(SaleError::RecordNotFound),
    };
    let ghost before = deployment.users@;
    let rec = deployment.users[i];
    deployment.users.set(
        i,
        UserRecord {
            owner: rec.owner,
            account: UserAccount {
                whitelisted: rec.account.whitelisted,
                amount_purchased: rec.account.amount_purchased + p.units,
            },
        },
    );
    deployment.escrow = Some(
        Escrow {
            authority: escrow.authority,
            bump: escrow.bump,
            vault: escrow.vault,
            vault_tokens: escrow.vault_tokens - p.units,
            lamports: escrow.lamports + p.cost,
        },
    );
    assert(owners_unique(deployment.users@)) by {
        assert forall|j: int, k: int|
            0 <= j < deployment.users@.len() && 0 <= k < deployment.users@.len() && j != k implies
            deployment.users@[j].owner@ != deployment.users@[k].owner@ by {
            assert(before[j].owner@ != before[k].owner@);
        }
    }
    assert(deployment@ == apply_purchase(old(deployment)@, p)) by {
        assert(deployment.users@ =~= apply_purchase(old(deployment)@, p).users);
    }
    Ok(())
}

/// Checks that the signer may deposit `amount` tokens into the vault; the
/// transfer from the admin's holding is made by the token program, and
/// `complete_deposit` records it.
pub fn deposit(deployment: &Deployment, accounts: &Deposit, amount: u64) -> (r: Result<(), SaleError>)
    requires
        deployment@.wf(),
    ensures
        r == deposit_check(deployment@, accounts.signer@, amount),
{
    match admin_config(deployment, &accounts.signer) {
        Ok(_) => {},
        Err(e) => return Err(e),
    }
    match deployment.escrow {
        None => Err(SaleError::RecordNotFound),
        Some(e) => if e.vault_tokens > u64::MAX - amount {
            Err(SaleError::ArithmeticOverflow)
        } else {
            Ok(())
        },
    }
}

/// Records a deposit of `amount` tokens into the vault once its transfer has
/// reported `outcome`.
pub fn complete_deposit(
    deployment: &mut Deployment,
    accounts: &Deposit,
    amount: u64,
    outcome: Result<(), SaleError>,
) -> (r: Result<(), SaleError>)
    requires
        old(deployment)@.wf(),
    ensures
        final(deployment)@.wf(),
        stepped(old(deployment)@, final(deployment)@, r, deposit_step(old(deployment)@, accounts.signer@, amount, outcome)),
{
    match deposit(deployment, accounts, amount) {
        Ok(()) => {},
        Err(e) => return Err(e),
    }
    match outcome {
        Ok(()) => {},
        Err(e) => return Err(e),
    }
    match deployment.escrow {
        Some(e) => {
            deployment.escrow = Some(
                Escrow {
                    authority: e.authority,
                    bump: e.bump,
                    vault: e.vault,
                    vault_tokens: e.vault_tokens + amount,
                    lamports: e.lamports,
                },
            );
        },
        None => {},
    }
    Ok(())
}

/// Moves `amount` currency units from the escrow authority to the admin,
/// whose balance is `admin_lamports`; admin only. Refused, with nothing
/// moved, where the escrow holds less than `amount`.
pub fn withdraw(
    deployment: &mut Deployment,
    accounts: &Withdraw,
    amount: u64,
    admin_lamports: &mut u64,
) -> (r: Result<(), SaleError>)
    requires
        old(deployment)@.wf(),
    ensures
        final(deployment)@.wf(),
        match withdraw_step(old(deployment)@, accounts.signer@, amount, *old(admin_lamports)) {
            Ok((s, a)) => r is Ok && final(deployment)@ == s && *final(admin_lamports) == a,
            Err(e) => r == Err::<(), SaleError>(e) && final(deployment)@ == old(deployment)@
                && *final(admin_lamports) == *old(admin_lamports),
        },
{
    match admin_config(deployment, &accounts.signer) {
        Ok(_) => {},
        Err(e) => return Err(e),
    }
    let e = match deployment.escrow {
        Some(e) => e,
        None => return Err(SaleError::RecordNotFound),
    };
    if amount > e.lamports {
        return Err(SaleError::InsufficientFunds);
    }
    if *admin_lamports > u64::MAX - amount {
        return Err(SaleError::ArithmeticOverflow);
    }
    *admin_lamports = *admin_lamports + amount;
    deployment.escrow = Some(
        Escrow {
            authority: e.authority,
            bump: e.bump,
            vault: e.vault,
            vault_tokens: e.vault_tokens,
            lamports: e.lamports - amount,
        },
    );
    Ok(())
}

} // verus!
