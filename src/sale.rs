use vstd::prelude::*;
use crate::address::Address;
use crate::state::{user_index, user_of, ConfigurationAccount, Escrow, SaleState, UserAccount, UserRecord};

verus! {

/// Smallest currency units in one whole unit of currency; prices are per
/// whole token and are scaled down by this.
pub const CURRENCY_BASE_UNIT: u64 = 1_000_000_000;

#[derive(Clone, Copy, Debug, PartialEq, Eq, Structural)]
pub enum SaleError {
    /// The caller is not the identity the operation requires.
    Unauthorized,
    /// The buyer has no record, or is not on the allow-list.
    NotWhitelisted,
    /// The buyer has already bought the whole purchase limit.
    LimitReached,
    /// A balance is too small for the movement asked for.
    InsufficientFunds,
    /// The deployment already has its configuration.
    AlreadyInitialized,
    /// A record that the operation reads does not exist.
    RecordNotFound,
    /// A result does not fit in 64 bits.
    ArithmeticOverflow,
    /// No address could be derived for one of the deployment's seeds.
    AddressDerivationFailed,
    /// The purchase no longer matches what the records allow.
    StalePurchase,
    /// The transfer program failed with this code.
    Gateway(u32),
}

/// The identities named by `initialize`.
#[derive(Clone, Copy, Debug)]
pub struct Initialize {
    /// Pays for the new records.
    pub signer: Address,
    /// The token to be sold.
    pub token_mint: Address,
}

/// The identities named by `change_price`.
#[derive(Clone, Copy, Debug)]
pub struct ChangePrice {
    pub signer: Address,
}

/// The identities named by `change_limit`.
#[derive(Clone, Copy, Debug)]
pub struct ChangeLimit {
    pub signer: Address,
}

/// The identities named by `add_to_whitelist`.
#[derive(Clone, Copy, Debug)]
pub struct AddToWhitelist {
    pub signer: Address,
}

/// The identities named by `remove_from_whitelist`.
#[derive(Clone, Copy, Debug)]
pub struct RemoveFromWhitelist {
    pub signer: Address,
}

/// The identities named by `buy_token`: the buyer signs.
#[derive(Clone, Copy, Debug)]
pub struct BuyToken {
    pub signer: Address,
}

/// The identities named by `deposit`.
#[derive(Clone, Copy, Debug)]
pub struct Deposit {
    pub signer: Address,
}

/// The identities named by `withdraw`.
#[derive(Clone, Copy, Debug)]
pub struct Withdraw {
    pub signer: Address,
}

/// A planned purchase: `cost` currency units from the buyer to the escrow
/// authority, then `units` tokens from the vault to the buyer.
#[derive(Clone, Copy, Debug, PartialEq, Eq)]
pub struct Purchase {
    pub buyer: Address,
    pub requested: u64,
    pub units: u64,
    pub cost: u64,
}

/// `units` tokens at `price` per whole token, rounded down.
pub open spec fn scaled_cost_spec(units: u64, price: u64, base_unit: u64) -> int {
    (units as int * price as int) / (base_unit as int)
}

/// The configuration, where `signer` is its admin.
pub open spec fn admin_gate(s: SaleState, signer: Seq<u8>) -> Result<ConfigurationAccount, SaleError> {
    match s.config {
        None => Err(SaleError::RecordNotFound),
        Some(c) => if c.admin_pubkey@ == signer {
            Ok(c)
        } else {
            Err(SaleError::Unauthorized)
        },
    }
}

/// `after` and `r` are what a step gives from `before`: its new state, or
/// its error and no change.
pub open spec fn stepped(
    before: SaleState,
    after: SaleState,
    r: Result<(), SaleError>,
    step: Result<SaleState, SaleError>,
) -> bool {
    match step {
        Ok(s) => r is Ok && after == s,
        Err(e) => r == Err::<(), SaleError>(e) && after == before,
    }
}

pub open spec fn initialize_step(
    s: SaleState,
    token_mint: Address,
    token_price: u64,
    purchase_limit: u64,
    admin_pubkey: Address,
    config_pda: Option<(Address, u8)>,
    authority_pda: Option<(Address, u8)>,
    vault_pda: Option<(Address, u8)>,
) -> Result<SaleState, SaleError> {
    if s.config is Some || s.escrow is Some {
        Err(SaleError::AlreadyInitialized)
    } else {
        match (config_pda, authority_pda, vault_pda) {
            (Some(c), Some(a), Some(v)) => Ok(
                SaleState {
                    config: Some(
                        ConfigurationAccount {
                            bump: c.1,
                            admin_pubkey,
                            token_price,
                            purchase_limit,
                            token_mint,
                        },
                    ),
                    escrow: Some(
                        Escrow { authority: a.0, bump: a.1, vault: v.0, vault_tokens: 0, lamports: 0 },
                    ),
                    ..s
                },
            ),
            _ => Err(SaleError::AddressDerivationFailed),
        }
    }
}

pub open spec fn change_price_step(s: SaleState, signer: Seq<u8>, new_price: u64) -> Result<SaleState, SaleError> {
    match admin_gate(s, signer) {
        Err(e) => Err(e),
        Ok(c) => Ok(SaleState { config: Some(ConfigurationAccount { token_price: new_price, ..c }), ..s }),
    }
}

pub open spec fn change_limit_step(s: SaleState, signer: Seq<u8>, new_limit: u64) -> Result<SaleState, SaleError> {
    match admin_gate(s, signer) {
        Err(e) => Err(e),
        Ok(c) => Ok(SaleState { config: Some(ConfigurationAccount { purchase_limit: new_limit, ..c }), ..s }),
    }
}

/// The records with the allow-list flag of the record at `i` set to `flag`.
pub open spec fn with_flag(users: Seq<UserRecord>, i: int, flag: bool) -> Seq<UserRecord> {
    users.update(
        i,
        UserRecord {
            owner: users[i].owner,
            account: UserAccount { whitelisted: flag, amount_purchased: users[i].account.amount_purchased },
        },
    )
}

pub open spec fn add_to_whitelist_step(s: SaleState, signer: Seq<u8>, who: Address) -> Result<SaleState, SaleError> {
    match admin_gate(s, signer) {
        Err(e) => Err(e),
        Ok(_) => match user_index(s.users, who@) {
            Some(i) => Ok(SaleState { users: with_flag(s.users, i, true), ..s }),
            None => Ok(
                SaleState {
                    users: s.users.push(
                        UserRecord { owner: who, account: UserAccount { whitelisted: true, amount_purchased: 0 } },
                    ),
                    ..s
                },
            ),
        },
    }
}

pub open spec fn remove_from_whitelist_step(s: SaleState, signer: Seq<u8>, who: Address) -> Result<SaleState, SaleError> {
    match admin_gate(s, signer) {
        Err(e) => Err(e),
        Ok(_) => match user_index(s.users, who@) {
            Some(i) => Ok(SaleState { users: with_flag(s.users, i, false), ..s }),
            None => Err(SaleError::RecordNotFound),
        },
    }
}

/// The smaller of what is left to the buyer and what was asked for.
pub open spec fn clamp(left: int, requested: u64) -> int {
    if left < requested {
        left
    } else {
        requested as int
    }
}

/// What a purchase of `amount` by `buyer` moves, or why it is refused.
pub open spec fn plan_purchase(s: SaleState, buyer: Address, amount: u64) -> Result<Purchase, SaleError> {
    match s.config {
        None => Err(SaleError::RecordNotFound),
        Some(c) => match s.escrow {
            None => Err(SaleError::RecordNotFound),
            Some(e) => match user_of(s.users, buyer@) {
                None => Err(SaleError::NotWhitelisted),
                Some(u) => if !u.whitelisted {
                    Err(SaleError::NotWhitelisted)
                } else if u.amount_purchased >= c.purchase_limit {
                    Err(SaleError::LimitReached)
                } else {
                    let units = clamp(c.purchase_limit - u.amount_purchased, amount);
                    let cost = scaled_cost_spec(units as u64, c.token_price, CURRENCY_BASE_UNIT);
                    if cost > u64::MAX {
                        Err(SaleError::ArithmeticOverflow)
                    } else if units > e.vault_tokens {
                        Err(SaleError::InsufficientFunds)
                    } else if e.lamports + cost > u64::MAX {
                        Err(SaleError::ArithmeticOverflow)
                    } else {
                        Ok(Purchase { buyer, requested: amount, units: units as u64, cost: cost as u64 })
                    }
                },
            },
        },
    }
}

/// The state once both legs of `p` have moved.
pub open spec fn apply_purchase(s: SaleState, p: Purchase) -> SaleState {
    match (user_index(s.users, p.buyer@), s.escrow) {
        (Some(i), Some(e)) => SaleState {
            users: s.users.update(
                i,
                UserRecord {
                    owner: s.users[i].owner,
                    account: UserAccount {
                        whitelisted: s.users[i].account.whitelisted,
                        amount_purchased: (s.users[i].account.amount_purchased + p.units) as u64,
                    },
                },
            ),
            escrow: Some(
                Escrow {
                    vault_tokens: (e.vault_tokens - p.units) as u64,
                    lamports: (e.lamports + p.cost) as u64,
                    ..e
                },
            ),
            ..s
        },
        _ => s,
    }
}

/// A whole purchase whose transfers succeed.
pub open spec fn buy_step(s: SaleState, buyer: Address, amount: u64) -> Result<SaleState, SaleError> {
    match plan_purchase(s, buyer, amount) {
        Err(e) => Err(e),
        Ok(p) => Ok(apply_purchase(s, p)),
    }
}

/// Recording `p` once its transfers report `outcome`.
pub open spec fn complete_purchase_step(
    s: SaleState,
    p: Purchase,
    outcome: Result<(), SaleError>,
) -> Result<SaleState, SaleError> {
    match plan_purchase(s, p.buyer, p.requested) {
        Err(e) => Err(e),
        Ok(q) => match outcome {
            Err(e) => Err(e),
            Ok(_) => if q.units == p.units && q.cost == p.cost {
                Ok(apply_purchase(s, q))
            } else {
                Err(SaleError::StalePurchase)
            },
        },
    }
}

pub open spec fn deposit_check(s: SaleState, signer: Seq<u8>, amount: u64) -> Result<(), SaleError> {
    match admin_gate(s, signer) {
        Err(e) => Err(e),
        Ok(_) => match s.escrow {
            None => Err(SaleError::RecordNotFound),
            Some(e) => if e.vault_tokens + amount > u64::MAX {
                Err(SaleError::ArithmeticOverflow)
            } else {
                Ok(())
            },
        },
    }
}

/// Recording a deposit of `amount` once its transfer reports `outcome`.
pub open spec fn deposit_step(
    s: SaleState,
    signer: Seq<u8>,
    amount: u64,
    outcome: Result<(), SaleError>,
) -> Result<SaleState, SaleError> {
    match deposit_check(s, signer, amount) {
        Err(e) => Err(e),
        Ok(_) => match outcome {
            Err(e) => Err(e),
            Ok(_) => match s.escrow {
                Some(e) => Ok(SaleState { escrow: Some(Escrow { vault_tokens: (e.vault_tokens + amount) as u64, ..e }), ..s }),
                None => Ok(s),
            },
        },
    }
}

/// The new state and the admin's new balance after a withdrawal.
pub open spec fn withdraw_step(
    s: SaleState,
    signer: Seq<u8>,
    amount: u64,
    admin_lamports: u64,
) -> Result<(SaleState, u64), SaleError> {
    match admin_gate(s, signer) {
        Err(e) => Err(e),
        Ok(_) => match s.escrow {
            None => Err(SaleError::RecordNotFound),
            Some(e) => if amount > e.lamports {
                Err(SaleError::InsufficientFunds)
            } else if admin_lamports + amount > u64::MAX {
                Err(SaleError::ArithmeticOverflow)
            } else {
                Ok(
                    (
                        SaleState { escrow: Some(Escrow { lamports: (e.lamports - amount) as u64, ..e }), ..s },
                        (admin_lamports + amount) as u64,
                    ),
                )
            },
        },
    }
}

} // verus!
