use colosseum::agent_registry::errors::AgentRegistryError;
use colosseum::agent_registry::instructions::verify_world_id::NullifierAccount;
use colosseum::agent_registry::instructions::{
    deactivate_agent, link_metaplex_identity, register_agent, update_agent, verify_world_id,
};
use colosseum::agent_registry::state::{AgentAccount, AgentStatus, AgentTier};
use colosseum::agent_registry::WORLD_ID_VERIFIER;
use colosseum::pubkey::Pubkey;

fn key(b: u8) -> Pubkey {
    Pubkey { bytes: [b; 32] }
}

fn registered() -> AgentAccount {
    let mut name = [0u8; 64];
    name[..3].copy_from_slice(b"bot");
    register_agent::handler(key(1), key(5), name, 3, [0u8; 256], 0, 100_000_000, 1_000, 250)
        .unwrap()
}

#[test]
fn register_agent_record() {
    let a = registered();
    assert_eq!(a.owner, key(1));
    assert_eq!(&a.name[..3], b"bot");
    assert_eq!(a.name_len, 3);
    assert_eq!(a.stake_lamports, 100_000_000);
    assert_eq!(a.jobs_completed, 0);
    assert_eq!(a.reputation_sum, 0);
    assert!(!a.world_id_verified);
    assert_eq!(a.swig_wallet, key(5));
    assert_eq!(a.core_asset, key(0));
    assert!(a.is_active);
    assert_eq!(a.created_at, 1_000);
    assert_eq!(a.updated_at, 1_000);
    assert_eq!(a.bump, 250);
}

#[test]
fn register_agent_errors() {
    let h = |nl: u16, cl: u16, stake: u64| {
        register_agent::handler(key(1), key(5), [0u8; 64], nl, [0u8; 256], cl, stake, 0, 0).err()
    };
    assert_eq!(h(65, 0, 100_000_000), Some(AgentRegistryError::NameTooLong));
    assert_eq!(h(64, 257, 100_000_000), Some(AgentRegistryError::CapabilitiesTooLong));
    assert_eq!(h(64, 256, 99_999_999), Some(AgentRegistryError::InsufficientStake));
    assert_eq!(h(64, 256, 100_000_000), None);
}

#[test]
fn update_and_deactivate() {
    let mut a = registered();
    let mut caps = [0u8; 256];
    caps[..6].copy_from_slice(b"coding");
    assert_eq!(
        update_agent::handler(key(2), &mut a, [1u8; 64], 64, caps, 6, 1_100),
        Err(AgentRegistryError::Unauthorized)
    );
    assert_eq!(
        update_agent::handler(key(1), &mut a, [1u8; 64], 65, caps, 6, 1_100),
        Err(AgentRegistryError::NameTooLong)
    );
    assert_eq!(
        update_agent::handler(key(1), &mut a, [1u8; 64], 64, caps, 257, 1_100),
        Err(AgentRegistryError::CapabilitiesTooLong)
    );
    assert_eq!(a.name_len, 3);
    assert_eq!(update_agent::handler(key(1), &mut a, [1u8; 64], 64, caps, 6, 1_100), Ok(()));
    assert_eq!(a.name, [1u8; 64]);
    assert_eq!(a.name_len, 64);
    assert_eq!(&a.capabilities[..6], b"coding");
    assert_eq!(a.capabilities_len, 6);
    assert_eq!(a.updated_at, 1_100);

    assert_eq!(deactivate_agent::handler(key(2), &mut a, 1_200), Err(AgentRegistryError::Unauthorized));
    assert_eq!(deactivate_agent::handler(key(1), &mut a, 1_200), Ok(()));
    assert!(!a.is_active);
    assert_eq!(a.updated_at, 1_200);
    assert_eq!(
        deactivate_agent::handler(key(1), &mut a, 1_300),
        Err(AgentRegistryError::AlreadyDeactivated)
    );
    assert_eq!(a.updated_at, 1_200);
}

#[test]
fn world_id_verification_once() {
    let mut a = registered();
    let verifier = Pubkey { bytes: WORLD_ID_VERIFIER };
    let mut nullifier = NullifierAccount { is_used: false };
    let proof = vec![[3u8; 32]];
    assert_eq!(
        verify_world_id::handler(key(2), &mut a, verifier, &mut nullifier, proof.clone(), [0; 32], [0; 32], [0; 32], 5),
        Err(AgentRegistryError::Unauthorized)
    );
    assert_eq!(
        verify_world_id::handler(key(1), &mut a, key(9), &mut nullifier, proof.clone(), [0; 32], [0; 32], [0; 32], 5),
        Err(AgentRegistryError::InvalidWorldIdProof)
    );
    assert_eq!(
        verify_world_id::handler(key(1), &mut a, verifier, &mut nullifier, vec![], [0; 32], [0; 32], [0; 32], 5),
        Err(AgentRegistryError::InvalidWorldIdProof)
    );
    assert!(!nullifier.is_used);
    assert_eq!(
        verify_world_id::handler(key(1), &mut a, verifier, &mut nullifier, proof.clone(), [0; 32], [0; 32], [0; 32], 5),
        Ok(())
    );
    assert!(nullifier.is_used);
    assert!(a.world_id_verified);
    assert_eq!(a.updated_at, 5);
    // The same nullifier cannot be replayed, and a verified agent is refused.
    let mut b = registered();
    assert_eq!(
        verify_world_id::handler(key(1), &mut b, verifier, &mut nullifier, proof.clone(), [0; 32], [0; 32], [0; 32], 6),
        Err(AgentRegistryError::AlreadyVerified)
    );
    let mut fresh = NullifierAccount { is_used: false };
    assert_eq!(
        verify_world_id::handler(key(1), &mut a, verifier, &mut fresh, proof, [0; 32], [0; 32], [0; 32], 6),
        Err(AgentRegistryError::AlreadyVerified)
    );
    assert!(!fresh.is_used);
}

#[test]
fn metaplex_identity_links_once() {
    let mut a = registered();
    assert_eq!(
        link_metaplex_identity::handler(key(2), &mut a, key(7), "uri".to_string(), 9),
        Err(AgentRegistryError::Unauthorized)
    );
    assert_eq!(
        link_metaplex_identity::handler(key(1), &mut a, key(0), "uri".to_string(), 9),
        Err(AgentRegistryError::InvalidCoreAsset)
    );
    assert_eq!(link_metaplex_identity::handler(key(1), &mut a, key(7), "uri".to_string(), 9), Ok(()));
    assert_eq!(a.core_asset, key(7));
    assert_eq!(a.updated_at, 9);
    assert_eq!(
        link_metaplex_identity::handler(key(1), &mut a, key(8), "uri".to_string(), 10),
        Err(AgentRegistryError::CoreIdentityAlreadyLinked)
    );
    assert_eq!(a.core_asset, key(7));
}

#[test]
fn average_and_tier() {
    let mut a = registered();
    assert_eq!(a.average_reputation(), 0);
    assert_eq!(a.tier(), AgentTier::Scout);
    a.jobs_completed = 4;
    a.reputation_sum = 4 * 199;
    assert_eq!(a.average_reputation(), 199);
    assert_eq!(a.tier(), AgentTier::Scout);
    a.reputation_sum = 4 * 200 + 3;
    assert_eq!(a.average_reputation(), 200);
    assert_eq!(a.tier(), AgentTier::Rookie);
    a.reputation_sum = 4 * 349;
    assert_eq!(a.tier(), AgentTier::Rookie);
    a.reputation_sum = 4 * 350;
    assert_eq!(a.tier(), AgentTier::Pro);
    a.reputation_sum = 4 * 449;
    assert_eq!(a.tier(), AgentTier::Pro);
    a.reputation_sum = 4 * 450;
    assert_eq!(a.tier(), AgentTier::Legend);
    a.reputation_sum = u64::MAX;
    assert_eq!(a.tier(), AgentTier::Legend);
}

#[test]
fn agent_status_active() {
    assert!(AgentStatus::Active.is_active());
    assert!(!AgentStatus::Deactivated.is_active());
    assert!(!AgentStatus::PendingVerification.is_active());
}
