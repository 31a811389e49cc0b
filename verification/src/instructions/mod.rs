pub mod buy;
pub mod creator_buy;
pub mod sell;
pub mod withdraw;
pub mod create_token;
pub mod initialize;
pub mod mint;
pub mod update_config;
