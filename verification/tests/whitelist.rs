use staking_core::error::StakingError;
use staking_core::key::Key;
use staking_core::utils::{metadata_creator, Creator, MetadataInfo};
use staking_core::whitelist_proof::{
    metadata_address, validate_metadata_account, whitelist_address, WhitelistProof, WhitelistType,
};

fn key(n: u64) -> Key {
    Key { w0: n, w1: 0, w2: 0, w3: 0 }
}

fn key_from_bytes(bytes: &[u8]) -> Key {
    assert_eq!(bytes.len(), 32);
    Key {
        w0: u64::from_le_bytes(bytes[0..8].try_into().unwrap()),
        w1: u64::from_le_bytes(bytes[8..16].try_into().unwrap()),
        w2: u64::from_le_bytes(bytes[16..24].try_into().unwrap()),
        w3: u64::from_le_bytes(bytes[24..32].try_into().unwrap()),
    }
}

fn metadata_for(mint: &Key, token_metadata_program: &Key, creators: Option<Vec<Creator>>) -> MetadataInfo {
    MetadataInfo {
        key: key_from_bytes(&metadata_address(mint, token_metadata_program)),
        creators,
    }
}

#[test]
fn typed_accessors_enforce_the_kind_split() {
    let rate_entry = WhitelistProof {
        whitelisted_address: key(1),
        farm: key(2),
        reward_rate: 9,
        ty: WhitelistType::Mint,
    };
    assert_eq!(rate_entry.base_rate(), Ok(9));
    assert_eq!(rate_entry.buff_factor(), Err(StakingError::InvalidWhitelistType));

    let buff_entry = WhitelistProof {
        ty: WhitelistType::Buff,
        ..rate_entry
    };
    assert_eq!(buff_entry.buff_factor(), Ok(9));
    assert_eq!(buff_entry.base_rate(), Err(StakingError::InvalidWhitelistType));

    let creator_entry = WhitelistProof {
        ty: WhitelistType::Creator,
        ..rate_entry
    };
    assert_eq!(creator_entry.base_rate(), Ok(9));
}

#[test]
fn metadata_creator_takes_the_first_verified_creator() {
    let verified = MetadataInfo {
        key: key(1),
        creators: Some(vec![
            Creator { address: key(7), verified: true },
            Creator { address: key(8), verified: false },
        ]),
    };
    assert_eq!(metadata_creator(&verified), Ok(key(7)));

    let unverified = MetadataInfo {
        key: key(1),
        creators: Some(vec![Creator { address: key(7), verified: false }]),
    };
    assert_eq!(metadata_creator(&unverified), Err(StakingError::InvalidAccountData));

    let empty = MetadataInfo {
        key: key(1),
        creators: Some(vec![]),
    };
    assert_eq!(metadata_creator(&empty), Err(StakingError::InvalidAccountData));

    let none = MetadataInfo {
        key: key(1),
        creators: None,
    };
    assert_eq!(metadata_creator(&none), Err(StakingError::InvalidAccountData));
}

#[test]
fn derived_addresses_depend_on_every_seed() {
    let farm = key(1);
    let program = key(3);
    let a = whitelist_address(&farm, &key(10), &program);
    let b = whitelist_address(&farm, &key(11), &program);
    let c = whitelist_address(&key(2), &key(10), &program);
    assert_eq!(a.len(), 32);
    assert_ne!(a, b);
    assert_ne!(a, c);
    // Different record families derive different addresses too.
    assert_ne!(a, metadata_address(&key(10), &farm));
}

#[test]
fn metadata_account_at_the_derived_address_is_accepted() {
    let mint = key(5);
    let token_metadata_program = key(6);
    let good = metadata_for(&mint, &token_metadata_program, None);
    assert_eq!(validate_metadata_account(&good, &mint, &token_metadata_program), Ok(()));

    let substituted = MetadataInfo {
        key: key(9),
        creators: None,
    };
    assert_eq!(
        validate_metadata_account(&substituted, &mint, &token_metadata_program),
        Err(StakingError::InvalidAccountData)
    );
}

#[test]
fn validate_accepts_a_mint_entry_at_its_derived_address() {
    let farm = key(1);
    let mint = key(5);
    let program = key(3);
    let token_metadata_program = key(6);
    let entry = WhitelistProof {
        whitelisted_address: mint,
        farm,
        reward_rate: 4,
        ty: WhitelistType::Mint,
    };
    let proof_key = key_from_bytes(&whitelist_address(&farm, &mint, &program));
    assert_eq!(
        entry.validate(&proof_key, &mint, &None, &token_metadata_program, &program),
        Ok(())
    );
}

#[test]
fn validate_rejects_a_substituted_entry() {
    let farm = key(1);
    let mint = key(5);
    let other_mint = key(50);
    let program = key(3);
    let token_metadata_program = key(6);
    let entry = WhitelistProof {
        whitelisted_address: other_mint,
        farm,
        reward_rate: 4,
        ty: WhitelistType::Mint,
    };
    // The entry lives at the address derived for another asset: presented
    // for this mint, it is refused.
    let proof_key = key_from_bytes(&whitelist_address(&farm, &other_mint, &program));
    assert_eq!(
        entry.validate(&proof_key, &mint, &None, &token_metadata_program, &program),
        Err(StakingError::InvalidWhitelist)
    );
}

#[test]
fn validate_resolves_creator_entries_through_metadata() {
    let farm = key(1);
    let mint = key(5);
    let creator = key(7);
    let program = key(3);
    let token_metadata_program = key(6);
    let entry = WhitelistProof {
        whitelisted_address: creator,
        farm,
        reward_rate: 4,
        ty: WhitelistType::Creator,
    };
    let proof_key = key_from_bytes(&whitelist_address(&farm, &creator, &program));
    let metadata = metadata_for(
        &mint,
        &token_metadata_program,
        Some(vec![Creator { address: creator, verified: true }]),
    );
    assert_eq!(
        entry.validate(
            &proof_key,
            &mint,
            &Some(metadata),
            &token_metadata_program,
            &program,
        ),
        Ok(())
    );

    // Without the metadata account the creator cannot be resolved.
    assert_eq!(
        entry.validate(&proof_key, &mint, &None, &token_metadata_program, &program),
        Err(StakingError::InvalidAccountData)
    );

    // An unverified creator proves nothing.
    let unverified = metadata_for(
        &mint,
        &token_metadata_program,
        Some(vec![Creator { address: creator, verified: false }]),
    );
    assert_eq!(
        entry.validate(
            &proof_key,
            &mint,
            &Some(unverified),
            &token_metadata_program,
            &program,
        ),
        Err(StakingError::InvalidAccountData)
    );

    // Metadata presented at the wrong address is a substitution.
    let misplaced = MetadataInfo {
        key: key(40),
        creators: Some(vec![Creator { address: creator, verified: true }]),
    };
    assert_eq!(
        entry.validate(
            &proof_key,
            &mint,
            &Some(misplaced),
            &token_metadata_program,
            &program,
        ),
        Err(StakingError::InvalidAccountData)
    );
}
