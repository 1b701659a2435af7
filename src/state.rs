use vstd::prelude::*;
use crate::address::Address;

verus! {

/// The sale parameters of one deployment.
#[derive(Clone, Copy, Debug, PartialEq, Eq)]
pub struct ConfigurationAccount {
    /// Bump of the record's own derived address.
    pub bump: u8,
    /// The one identity allowed to administer the sale and receive withdrawals.
    pub admin_pubkey: Address,
    /// Price of one whole token, in the currency's smallest units.
    pub token_price: u64,
    /// Most token units that any one buyer may acquire in total.
    pub purchase_limit: u64,
    /// The token on sale; fixed at creation.
    pub token_mint: Address,
}

/// What the sale keeps of one buyer.
#[derive(Clone, Copy, Debug, PartialEq, Eq)]
pub struct UserAccount {
    pub whitelisted: bool,
    /// Token units bought so far; never decreases.
    pub amount_purchased: u64,
}

/// A buyer record under the buyer's identity.
#[derive(Clone, Copy, Debug, PartialEq, Eq)]
pub struct UserRecord {
    pub owner: Address,
    pub account: UserAccount,
}

/// The keyless escrow authority, its vault and the balances it holds.
#[derive(Clone, Copy, Debug, PartialEq, Eq)]
pub struct Escrow {
    /// The derived identity that owns the vault and the currency.
    pub authority: Address,
    /// The bump that, with the authority seed, derives `authority`.
    pub bump: u8,
    /// The token holding of the authority.
    pub vault: Address,
    /// Token units in the vault.
    pub vault_tokens: u64,
    /// Currency, in smallest units, held at the authority.
    pub lamports: u64,
}

/// Every record of one deployment of the sale.
#[derive(Debug)]
pub struct Deployment {
    /// The identity of the deployed program, from which its addresses derive.
    pub program_id: Address,
    pub config: Option<ConfigurationAccount>,
    pub escrow: Option<Escrow>,
    pub users: Vec<UserRecord>,
}

/// The mathematical state of a deployment.
pub struct SaleState {
    pub program_id: Address,
    pub config: Option<ConfigurationAccount>,
    pub escrow: Option<Escrow>,
    pub users: Seq<UserRecord>,
}

impl View for Deployment {
    type V = SaleState;

    open spec fn view(&self) -> SaleState {
        SaleState { program_id: self.program_id, config: self.config, escrow: self.escrow, users: self.users@ }
    }
}

/// No two buyer records share an identity.
pub open spec fn owners_unique(users: Seq<UserRecord>) -> bool {
    forall|i: int, j: int|
        #![trigger users[i], users[j]]
        0 <= i < users.len() && 0 <= j < users.len() && i != j ==> users[i].owner@ != users[j].owner@
}

pub open spec fn has_user(users: Seq<UserRecord>, who: Seq<u8>) -> bool {
    exists|i: int| 0 <= i < users.len() && #[trigger] users[i].owner@ == who
}

/// Where the record of `who` stands, if it has one.
pub open spec fn user_index(users: Seq<UserRecord>, who: Seq<u8>) -> Option<int> {
    if has_user(users, who) {
        Some(choose|i: int| 0 <= i < users.len() && #[trigger] users[i].owner@ == who)
    } else {
        None
    }
}

/// The record of `who`, if it has one.
pub open spec fn user_of(users: Seq<UserRecord>, who: Seq<u8>) -> Option<UserAccount> {
    match user_index(users, who) {
        Some(i) => Some(users[i].account),
        None => None,
    }
}

impl SaleState {
    /// Each buyer has at most one record.
    pub open spec fn wf(&self) -> bool {
        owners_unique(self.users)
    }
}

impl Deployment {
    /// A deployment of `program_id` before anything is created.
    pub fn new(program_id: Address) -> (r: Deployment)
        ensures
            r@.wf(),
            r.program_id == program_id,
            r.config.is_none(),
            r.escrow.is_none(),
            r.users@.len() == 0,
    {
        Deployment { program_id, config: None, escrow: None, users: Vec::new() }
    }

    /// Finds the record of `who`.
    pub fn find_user(&self, who: &Address) -> (r: Option<usize>)
        requires
            owners_unique(self.users@),
        ensures
            r.is_some() == has_user(self.users@, who@),
            r matches Some(i) ==> user_index(self.users@, who@) == Some(i as int),
    {
        let mut i: usize = 0;
        while i < self.users.len()
            invariant
                i <= self.users@.len(),
                owners_unique(self.users@),
                forall|j: int| 0 <= j < i ==> #[trigger] self.users@[j].owner@ != who@,
            decreases self.users@.len() - i,
        {
            if self.users[i].owner.same_as(who) {
                assert(self.users@[i as int].owner@ == who@);
                assert(has_user(self.users@, who@));
                let ghost k = choose|k: int| 0 <= k < self.users@.len() && #[trigger] self.users@[k].owner@ == who@;
                proof {
                    assert(0 <= k < self.users@.len() && self.users@[k].owner@ == who@);
                    if k != i as int {
                        assert(self.users@[k].owner@ != self.users@[i as int].owner@);
                    }
                }
                return Some(i);
            }
            i = i + 1;
        }
        None
    }

    /// The record of `who`, if it has one.
    pub fn user_account(&self, who: &Address) -> (r: Option<UserAccount>)
        requires
            owners_unique(self.users@),
        ensures
            r == user_of(self.users@, who@),
    {
        match self.find_user(who) {
            Some(i) => Some(self.users[i].account),
            None => None,
        }
    }
}

} // verus!
