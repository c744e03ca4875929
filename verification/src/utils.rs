pub mod breeding;
pub mod combat;
pub mod cooldown;
pub mod randomness;
pub mod rewards;
pub mod traits;
pub mod treasury;
