use vstd::prelude::*;

pub mod account_key;
pub mod burn_paired;
pub mod create_series;
pub mod errors;
pub mod exercise;
pub mod lemmas;
pub mod math;
pub mod mint_options;
pub mod option;
pub mod pda;
pub mod redeem;
pub mod redeem_consideration;
pub mod sol_option_protocol;
pub mod spl_marketplace;
pub mod token_actions;
pub mod validation;

verus! {

} // verus!
