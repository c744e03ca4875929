pub mod beast_account;
pub mod combat_session;
pub mod program_config;
