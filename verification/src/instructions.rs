pub mod breed_beasts;
pub mod claim_rewards;
pub mod create_beast;
pub mod execute_combat_turn;
pub mod initialize;
pub mod initiate_combat;
pub mod perform_activity;
pub mod resolve_combat;
pub mod unlock_ability;
pub mod update_beast_owner;
pub mod update_config;
pub mod upgrade_ability;
pub mod upgrade_trait;
