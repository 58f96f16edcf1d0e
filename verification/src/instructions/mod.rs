//! The state changes of the program's instructions, one module per
//! instruction group.  Account loading, signer and seed checks, token
//! transfers and event emission are left to the runtime layer, which hands
//! these functions the accounts' contents and the values it read.

pub mod owner_init_program;
pub mod admin_setup_operator;
pub mod admin_setup_operator_wallet;
pub mod operator_setup_tier_allocate;
pub mod operator_initialize_ido_account;
pub mod operator_setup_ido;
pub mod operator_setup_release_token;
pub mod operator_withdraw;
pub mod admin_withdraw;
pub mod user_claim_token;
