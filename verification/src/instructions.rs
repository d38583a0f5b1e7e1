pub mod attestation;
pub mod buy_now;
pub mod cancel_listing;
pub mod create_listing;
pub mod initialize_attestor_state;
pub mod initialize_config;
pub mod initialize_user_vault;
pub mod withdraw_from_vault;
