pub mod deactivate_agent;
pub mod link_metaplex_identity;
pub mod register_agent;
pub mod update_agent;
pub mod verify_world_id;
