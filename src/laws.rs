use vstd::prelude::*;
use crate::address::Address;
use crate::sale::{
    add_to_whitelist_step, apply_purchase, buy_step, complete_purchase_step, change_limit_step, change_price_step, clamp, deposit_check, deposit_step, initialize_step, plan_purchase,
    remove_from_whitelist_step, scaled_cost_spec, with_flag, withdraw_step, Purchase, SaleError,
    CURRENCY_BASE_UNIT,
};
use crate::state::{has_user, owners_unique, user_index, user_of, SaleState, UserAccount, UserRecord};

verus! {

/// Replacing a record by one under the same identity keeps identities unique
/// and every identity where it was.
pub proof fn lemma_update_keeps_index(users: Seq<UserRecord>, i: int, rec: UserRecord)
    requires
        owners_unique(users),
        0 <= i < users.len(),
        rec.owner@ == users[i].owner@,
    ensures
        owners_unique(users.update(i, rec)),
        forall|who: Seq<u8>| #[trigger] user_index(users.update(i, rec), who) == user_index(users, who),
{
    let u2 = users.update(i, rec);
    assert forall|j: int, k: int| 0 <= j < u2.len() && 0 <= k < u2.len() && j != k implies
        u2[j].owner@ != u2[k].owner@ by {
        assert(users[j].owner@ != users[k].owner@);
    }
    assert forall|who: Seq<u8>| #[trigger] user_index(u2, who) == user_index(users, who) by {
        if has_user(users, who) {
            let k = choose|k: int| 0 <= k < users.len() && #[trigger] users[k].owner@ == who;
            assert(u2[k].owner@ == who);
            assert(has_user(u2, who));
            let k2 = choose|k2: int| 0 <= k2 < u2.len() && #[trigger] u2[k2].owner@ == who;
            if k2 != k {
                assert(u2[k2].owner@ != u2[k].owner@);
            }
        } else {
            if has_user(u2, who) {
                let k2 = choose|k2: int| 0 <= k2 < u2.len() && #[trigger] u2[k2].owner@ == who;
                assert(users[k2].owner@ == who);
            }
        }
    }
}

/// The record found for an identity is the one under that identity.
pub proof fn lemma_user_index_found(users: Seq<UserRecord>, who: Seq<u8>)
    requires
        has_user(users, who),
    ensures
        user_index(users, who) matches Some(i) && 0 <= i < users.len() && users[i].owner@ == who,
{
}

/// Every buyer holds at most the purchase limit.
pub open spec fn within_limit(s: SaleState) -> bool {
    match s.config {
        Some(c) => forall|i: int|
            0 <= i < s.users.len() ==> #[trigger] s.users[i].account.amount_purchased <= c.purchase_limit,
        None => true,
    }
}

/// After a successful purchase the buyer holds at most the purchase limit,
/// and the purchase moved no more than what was asked for.
pub proof fn lemma_purchase_within_limit(s: SaleState, buyer: Address, amount: u64)
    requires
        s.wf(),
        buy_step(s, buyer, amount) is Ok,
    ensures
        buy_step(s, buyer, amount) matches Ok(s2) && s2.wf() && s2.config == s.config && (
        user_of(s2.users, buyer@) matches Some(u) && u.amount_purchased <= s.config->Some_0.purchase_limit),
        plan_purchase(s, buyer, amount) matches Ok(p) && p.units <= amount,
{
    let p = plan_purchase(s, buyer, amount)->Ok_0;
    lemma_user_index_found(s.users, buyer@);
    let i = user_index(s.users, buyer@)->Some_0;
    let rec = apply_purchase(s, p).users[i];
    lemma_update_keeps_index(s.users, i, rec);
}

/// A purchase keeps every buyer within the purchase limit.
pub proof fn lemma_purchase_keeps_within_limit(s: SaleState, buyer: Address, amount: u64)
    requires
        s.wf(),
        within_limit(s),
        buy_step(s, buyer, amount) is Ok,
    ensures
        buy_step(s, buyer, amount) matches Ok(s2) && s2.wf() && within_limit(s2),
{
    lemma_purchase_within_limit(s, buyer, amount);
    let p = plan_purchase(s, buyer, amount)->Ok_0;
    let i = user_index(s.users, buyer@)->Some_0;
    let s2 = apply_purchase(s, p);
    assert(s2.users[i].account.amount_purchased <= s.config->Some_0.purchase_limit);
}

/// A purchase completed with successful transfers is the whole purchase of
/// what was requested, so what holds of `buy_step` holds of it.
pub proof fn lemma_completed_purchase_is_buy(s: SaleState, p: Purchase)
    requires
        complete_purchase_step(s, p, Ok(())) is Ok,
    ensures
        complete_purchase_step(s, p, Ok(())) == buy_step(s, p.buyer, p.requested),
{
}

/// The state after the purchases `orders`, each a buyer and an amount, made
/// one after the other; the first refusal stops the run.
pub open spec fn buy_all(s: SaleState, orders: Seq<(Address, u64)>) -> Result<SaleState, SaleError>
    decreases orders.len(),
{
    if orders.len() == 0 {
        Ok(s)
    } else {
        match buy_step(s, orders[0].0, orders[0].1) {
            Err(e) => Err(e),
            Ok(s2) => buy_all(s2, orders.drop_first()),
        }
    }
}

/// Any run of successful purchases leaves every buyer within the purchase
/// limit.
pub proof fn lemma_purchases_within_limit(s: SaleState, orders: Seq<(Address, u64)>)
    requires
        s.wf(),
        within_limit(s),
        buy_all(s, orders) is Ok,
    ensures
        buy_all(s, orders) matches Ok(s2) && s2.wf() && within_limit(s2),
    decreases orders.len(),
{
    if orders.len() > 0 {
        lemma_purchase_keeps_within_limit(s, orders[0].0, orders[0].1);
        let s2 = buy_step(s, orders[0].0, orders[0].1)->Ok_0;
        lemma_purchases_within_limit(s2, orders.drop_first());
    }
}

/// A purchase of nothing by a buyer on the allow-list and under the limit
/// succeeds, moves nothing and changes nothing.
pub proof fn lemma_zero_purchase(s: SaleState, buyer: Address)
    requires
        s.wf(),
        s.config is Some,
        s.escrow is Some,
        user_of(s.users, buyer@) matches Some(u) && u.whitelisted && u.amount_purchased
            < s.config->Some_0.purchase_limit,
    ensures
        plan_purchase(s, buyer, 0) == Ok::<Purchase, SaleError>(
            Purchase { buyer, requested: 0, units: 0, cost: 0 },
        ),
        buy_step(s, buyer, 0) == Ok::<SaleState, SaleError>(s),
{
    let c = s.config->Some_0;
    let u = user_of(s.users, buyer@)->Some_0;
    assert(clamp(c.purchase_limit - u.amount_purchased, 0) == 0);
    assert(scaled_cost_spec(0, c.token_price, CURRENCY_BASE_UNIT) == 0);
    let p = Purchase { buyer, requested: 0, units: 0, cost: 0 };
    let i = user_index(s.users, buyer@)->Some_0;
    lemma_user_index_found(s.users, buyer@);
    let s2 = apply_purchase(s, p);
    assert(s2.users =~= s.users);
}

/// Every admin operation refuses a caller other than the admin with
/// `Unauthorized`, whatever its other inputs.
pub proof fn lemma_admin_only(
    s: SaleState,
    signer: Seq<u8>,
    value: u64,
    who: Address,
    admin_lamports: u64,
    outcome: Result<(), SaleError>,
)
    requires
        s.config matches Some(c) && c.admin_pubkey@ != signer,
    ensures
        change_price_step(s, signer, value) == Err::<SaleState, SaleError>(SaleError::Unauthorized),
        change_limit_step(s, signer, value) == Err::<SaleState, SaleError>(SaleError::Unauthorized),
        add_to_whitelist_step(s, signer, who) == Err::<SaleState, SaleError>(SaleError::Unauthorized),
        remove_from_whitelist_step(s, signer, who) == Err::<SaleState, SaleError>(SaleError::Unauthorized),
        deposit_check(s, signer, value) == Err::<(), SaleError>(SaleError::Unauthorized),
        deposit_step(s, signer, value, outcome) == Err::<SaleState, SaleError>(SaleError::Unauthorized),
        withdraw_step(s, signer, value, admin_lamports) == Err::<(SaleState, u64), SaleError>(
            SaleError::Unauthorized,
        ),
{
}

/// A buyer that is not on the allow-list cannot buy, whatever the amount.
pub proof fn lemma_not_whitelisted_cannot_buy(s: SaleState, buyer: Address, amount: u64)
    requires
        s.config is Some,
        s.escrow is Some,
        !(user_of(s.users, buyer@) matches Some(u) && u.whitelisted),
    ensures
        plan_purchase(s, buyer, amount) == Err::<Purchase, SaleError>(SaleError::NotWhitelisted),
        buy_step(s, buyer, amount) == Err::<SaleState, SaleError>(SaleError::NotWhitelisted),
{
}

/// A withdrawal of more than the escrow holds is refused with
/// `InsufficientFunds`.
pub proof fn lemma_withdraw_beyond_balance(s: SaleState, signer: Seq<u8>, amount: u64, admin_lamports: u64)
    requires
        s.config matches Some(c) && c.admin_pubkey@ == signer,
        s.escrow matches Some(e) && amount > e.lamports,
    ensures
        withdraw_step(s, signer, amount, admin_lamports) == Err::<(SaleState, u64), SaleError>(
            SaleError::InsufficientFunds,
        ),
{
}

/// Taking a buyer off the allow-list and putting it back keeps what it
/// bought.
pub proof fn lemma_rewhitelist_keeps_purchases(s: SaleState, signer: Seq<u8>, who: Address)
    requires
        s.wf(),
        s.config matches Some(c) && c.admin_pubkey@ == signer,
        user_of(s.users, who@) is Some,
    ensures
        remove_from_whitelist_step(s, signer, who) matches Ok(s1) && add_to_whitelist_step(s1, signer, who) matches Ok(
            s2,
        ) && user_of(s2.users, who@) == Some(
            UserAccount {
                whitelisted: true,
                amount_purchased: user_of(s.users, who@)->Some_0.amount_purchased,
            },
        ),
{
    lemma_user_index_found(s.users, who@);
    let i = user_index(s.users, who@)->Some_0;
    let u1 = with_flag(s.users, i, false);
    lemma_update_keeps_index(s.users, i, u1[i]);
    let s1 = remove_from_whitelist_step(s, signer, who)->Ok_0;
    assert(s1.users == u1);
    let u2 = with_flag(u1, i, true);
    lemma_update_keeps_index(u1, i, u2[i]);
    assert(user_index(u2, who@) == Some(i));
}

/// A deployment that has been initialized refuses a second initialization.
pub proof fn lemma_initialize_once(
    s: SaleState,
    token_mint: Address,
    token_price: u64,
    purchase_limit: u64,
    admin_pubkey: Address,
    config_pda: Option<(Address, u8)>,
    authority_pda: Option<(Address, u8)>,
    vault_pda: Option<(Address, u8)>,
    token_mint2: Address,
    token_price2: u64,
    purchase_limit2: u64,
    admin_pubkey2: Address,
    config_pda2: Option<(Address, u8)>,
    authority_pda2: Option<(Address, u8)>,
    vault_pda2: Option<(Address, u8)>,
)
    requires
        initialize_step(
            s,
            token_mint,
            token_price,
            purchase_limit,
            admin_pubkey,
            config_pda,
            authority_pda,
            vault_pda,
        ) is Ok,
    ensures
        initialize_step(
            s,
            token_mint,
            token_price,
            purchase_limit,
            admin_pubkey,
            config_pda,
            authority_pda,
            vault_pda,
        ) matches Ok(s1) && initialize_step(
            s1,
            token_mint2,
            token_price2,
            purchase_limit2,
            admin_pubkey2,
            config_pda2,
            authority_pda2,
            vault_pda2,
        ) == Err::<SaleState, SaleError>(SaleError::AlreadyInitialized),
{
}

} // verus!
