//! A custodial token-sale engine: an escrow vault of a sellable token, a buyer
//! allow-list with a per-buyer purchase cap, and admin-gated configuration.
//!
//! Asset movements are carried out by the host's transfer programs. The engine
//! decides what to move and, once the movement is reported, records it.

mod address;
pub mod authority;
pub mod engine;
pub mod laws;
pub mod sale;
pub mod state;

pub use address::Address;
pub use authority::{derive_address, signer_seeds};
pub use engine::{
    add_to_whitelist, buy_token, change_limit, change_price, complete_deposit, complete_purchase,
    currency_cost, deposit, initialize, initialize_derived, remove_from_whitelist, scaled_cost,
    withdraw,
};
pub use sale::{
    AddToWhitelist, BuyToken, ChangeLimit, ChangePrice, Deposit, Initialize, Purchase,
    RemoveFromWhitelist, SaleError, Withdraw, CURRENCY_BASE_UNIT,
};
pub use state::{ConfigurationAccount, Deployment, Escrow, UserAccount, UserRecord};
