//! A registry of agent names, paid for in $NAIM.
//!
//! Each instruction is a function on the accounts it names. It checks the
//! request, changes the records and returns the actions that the runtime has to
//! perform: token and lamport transfers, burns, closed records. A refused
//! instruction changes nothing and says why.
//!
//! `registry`, `category`, `market`, `staking`, `ranking` and `admin` hold the
//! instructions; `names`, `fees`, `arith` and `digest` what they share; `state`,
//! `action`, `error`, `pubkey` and `constants` the types. The modules whose names
//! end in `_laws` state what the instructions are for and what holds across them,
//! in the plain arithmetic of `ledger`.
pub mod action;
pub mod admin;
pub mod admin_laws;
pub mod arith;
pub mod category;
pub mod category_laws;
pub mod constants;
pub mod digest;
pub mod error;
pub mod fee_laws;
pub mod fees;
pub mod ledger;
pub mod market;
pub mod market_laws;
pub mod name_laws;
pub mod names;
pub mod pubkey;
pub mod ranking;
pub mod ranking_laws;
pub mod registry;
pub mod registry_laws;
pub mod staking;
pub mod staking_laws;
pub mod state;
