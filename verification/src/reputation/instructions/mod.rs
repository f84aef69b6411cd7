pub mod mint_nft;
pub mod rate_agent;
pub mod update_reputation;
