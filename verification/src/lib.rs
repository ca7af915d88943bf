//! A verified faucet for a Soroban token.
//!
//! A deployment holds a reserve of one token. A principal first asks the
//! authority for a mint key, a number that is good for one redemption, and
//! then presents the key to receive a fixed amount from the reserve. After a
//! redemption the principal has to let a cooldown pass before it can ask for
//! the next key.
//!
//! # Layout
//!
//! - [`contract`] holds the authority itself, [`TapMintContract`], with its
//!   four operations `initialize`, `get_mint_key`, `mint` and `balance`, and
//!   the relations between states that specify them.
//! - [`cooldown`] and [`registry`] hold the two maps of the authority: when
//!   each principal last redeemed, and which key each principal holds.
//!   [`assoc`] says which map a list of records stands for.
//! - [`mint_key`] holds the key and the rule that makes one from a clock
//!   reading and a random draw; [`config`] the parameters of a deployment;
//!   [`error`] the reasons for a refusal.
//! - [`host`] holds every call into `soroban-sdk`: the ledger clock, the
//!   token client, and what an address says of itself.
//! - [`laws`] states what holds of every run of the authority.
//!
//! # What is proved and what is taken on trust
//!
//! Every function is verified against its contract, except the calls in
//! [`host`], whose contracts say what `soroban-sdk` documents. Of the clock
//! and of the token contract nothing is assumed; of an address, that it
//! alone decides its strkey and whether it is the address of a contract.
//!
//! The authority is a plain value. The contract that embeds the library
//! reads it from its storage before an invocation and writes it back
//! afterwards, asks the host whether the caller is who it claims to be,
//! hands in its own address and the random draw for a key, and publishes
//! the notice of a redemption. An operation takes the authority by `&mut`,
//! so it sees and leaves one state; a refused operation leaves the state as
//! it found it. On `TransferFailure` the embedding contract has to abort its
//! invocation, so that the host undoes what the token contract may have
//! done before its answer was lost.

pub mod assoc;
pub mod config;
pub mod contract;
pub mod cooldown;
pub mod error;
pub mod host;
pub mod laws;
pub mod mint_key;
pub mod registry;

pub use config::Config;
pub use contract::{ContractView, DataKey, MintNotice, TapMintContract};
pub use cooldown::{CooldownLedger, CooldownRecord};
pub use error::TapMintError;
pub use host::{Principal, PrincipalView, TransferOrder};
pub use mint_key::{generate_mint_key, MintKey, MintKeyView};
pub use registry::MintKeyRegistry;
