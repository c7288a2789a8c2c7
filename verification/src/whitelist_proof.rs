//! The whitelist registry.
//!
//! A whitelist entry maps a collection creator, a fungible asset, or a
//! buff asset to an earn rate (or, for buffs, a multiplier) on one farm.
//! Entries are stored under an address derived from (farm, subject), so a
//! caller cannot substitute an entry registered for a different subject:
//! validation re-derives the address for the identity the asset actually
//! proves and compares it against the entry presented. Rate entries are
//! never read as factors and factor entries never as rates; the typed
//! accessors enforce the split.

use vstd::prelude::*;

use crate::error::StakingError;
use crate::key::{bytes_eq, Key};
use crate::pda::{derive_address, derived_address};
use crate::utils::{metadata_creator, spec_metadata_creator, MetadataInfo};

verus! {

/// What a whitelist entry speaks for: an entire collection (by creator),
/// one fungible asset, or a buff asset.
#[derive(Clone, Copy, Debug, PartialEq, Eq, Structural)]
pub enum WhitelistType {
    Creator,
    Mint,
    Buff,
}

/// One whitelist entry: the subject it was registered for, the farm it
/// belongs to, and its rate — tokens per asset-unit per second for rate
/// entries, a multiplier for buff entries.
#[derive(Clone, Copy, Debug, PartialEq, Eq, Structural)]
pub struct WhitelistProof {
    pub whitelisted_address: Key,
    pub farm: Key,
    pub reward_rate: u64,
    pub ty: WhitelistType,
}

/// The record-family tag whitelist entries are stored under: the bytes of
/// `"collection_data"`.
pub open spec fn spec_whitelist_prefix() -> Seq<u8> {
    seq![
        0x63u8,
        0x6fu8,
        0x6cu8,
        0x6cu8,
        0x65u8,
        0x63u8,
        0x74u8,
        0x69u8,
        0x6fu8,
        0x6eu8,
        0x5fu8,
        0x64u8,
        0x61u8,
        0x74u8,
        0x61u8,
    ]
}

/// The record-family tag metadata accounts are stored under: the bytes of
/// `"metadata"`.
pub open spec fn spec_metadata_prefix() -> Seq<u8> {
    seq![0x6du8, 0x65u8, 0x74u8, 0x61u8, 0x64u8, 0x61u8, 0x74u8, 0x61u8]
}

/// The bytes of `"collection_data"`, the whitelist record-family tag.
pub fn whitelist_prefix() -> (r: Vec<u8>)
    ensures
        r@ == spec_whitelist_prefix(),
{
    let r: Vec<u8> = vec![
        0x63u8, 0x6fu8, 0x6cu8, 0x6cu8, 0x65u8, 0x63u8, 0x74u8, 0x69u8, 0x6fu8, 0x6eu8, 0x5fu8,
        0x64u8, 0x61u8, 0x74u8, 0x61u8,
    ];
    proof {
        assert(r@ =~= spec_whitelist_prefix());
    }
    r
}

/// The bytes of `"metadata"`, the metadata record-family tag.
pub fn metadata_prefix() -> (r: Vec<u8>)
    ensures
        r@ == spec_metadata_prefix(),
{
    let r: Vec<u8> = vec![0x6du8, 0x65u8, 0x74u8, 0x61u8, 0x64u8, 0x61u8, 0x74u8, 0x61u8];
    proof {
        assert(r@ =~= spec_metadata_prefix());
    }
    r
}

/// The address a whitelist entry for `subject` on `farm` must live at.
pub open spec fn spec_whitelist_address(farm: Key, subject: Key, program_id: Key) -> Seq<u8> {
    derived_address(
        spec_whitelist_prefix(),
        farm.spec_bytes(),
        subject.spec_bytes(),
        program_id.spec_bytes(),
    )
}

/// The address the metadata account of `mint` must live at, under the
/// token-metadata program.
pub open spec fn spec_metadata_address(mint: Key, token_metadata_program: Key) -> Seq<u8> {
    derived_address(
        spec_metadata_prefix(),
        token_metadata_program.spec_bytes(),
        mint.spec_bytes(),
        token_metadata_program.spec_bytes(),
    )
}

/// Whether a presented metadata account lives at the address derived for
/// `mint` under the token-metadata program.
pub open spec fn spec_metadata_account_ok(
    metadata: MetadataInfo,
    mint: Key,
    token_metadata_program: Key,
) -> bool {
    metadata.key.spec_bytes() == spec_metadata_address(mint, token_metadata_program)
}

/// The derived storage address of the whitelist entry for `subject`, as
/// raw bytes.
pub fn whitelist_address(farm: &Key, subject: &Key, program_id: &Key) -> (r: Vec<u8>)
    ensures
        r@ == spec_whitelist_address(*farm, *subject, *program_id),
        r@.len() == 32,
{
    derive_address(
        &whitelist_prefix(),
        &farm.to_le_bytes(),
        &subject.to_le_bytes(),
        &program_id.to_le_bytes(),
    )
}

/// The derived storage address of `mint`'s metadata account, as raw bytes.
pub fn metadata_address(mint: &Key, token_metadata_program: &Key) -> (r: Vec<u8>)
    ensures
        r@ == spec_metadata_address(*mint, *token_metadata_program),
        r@.len() == 32,
{
    derive_address(
        &metadata_prefix(),
        &token_metadata_program.to_le_bytes(),
        &mint.to_le_bytes(),
        &token_metadata_program.to_le_bytes(),
    )
}

/// Check that a presented metadata account is the one derived for `mint`:
/// a metadata account at any other address is invalid account data. The
/// deserialisation of the account's contents is the identity-proof
/// collaborator's job; this checks the address.
pub fn validate_metadata_account(
    metadata: &MetadataInfo,
    mint: &Key,
    token_metadata_program: &Key,
) -> (r: Result<(), StakingError>)
    ensures
        r is Ok <==> spec_metadata_account_ok(*metadata, *mint, *token_metadata_program),
        r is Err ==> r == Err::<(), StakingError>(StakingError::InvalidAccountData),
{
    let expected = metadata_address(mint, token_metadata_program);
    if bytes_eq(&metadata.key.to_le_bytes(), &expected) {
        Ok(())
    } else {
        Err(StakingError::InvalidAccountData)
    }
}

impl WhitelistProof {
    /// The identity this entry must have been registered for, given what
    /// the asset proves: the asset itself for a `Mint` entry, and the
    /// verified first creator out of valid metadata for `Creator` and
    /// `Buff` entries.
    pub open spec fn spec_subject(
        self,
        mint: Key,
        metadata: Option<MetadataInfo>,
        token_metadata_program: Key,
    ) -> Result<Key, StakingError> {
        match self.ty {
            WhitelistType::Mint => Ok(mint),
            _ => match metadata {
                None => Err(StakingError::InvalidAccountData),
                Some(m) => if spec_metadata_account_ok(m, mint, token_metadata_program) {
                    spec_metadata_creator(m)
                } else {
                    Err(StakingError::InvalidAccountData)
                },
            },
        }
    }

    /// What validation returns: the entry is accepted exactly when the
    /// subject resolves and the entry's own address is the one derived for
    /// (farm, subject); an entry at any other address is a substitution.
    pub open spec fn spec_validate(
        self,
        proof_key: Key,
        mint: Key,
        metadata: Option<MetadataInfo>,
        token_metadata_program: Key,
        program_id: Key,
    ) -> Result<(), StakingError> {
        match self.spec_subject(mint, metadata, token_metadata_program) {
            Err(e) => Err(e),
            Ok(subject) => if proof_key.spec_bytes() == spec_whitelist_address(
                self.farm,
                subject,
                program_id,
            ) {
                Ok(())
            } else {
                Err(StakingError::InvalidWhitelist)
            },
        }
    }

    /// Confirm that this entry, stored at `proof_key`, was registered for
    /// the identity that the asset `mint` actually proves — the asset
    /// address itself for `Mint` entries, or the verified creator out of
    /// `mint`'s own metadata account for `Creator` and `Buff` entries —
    /// by re-deriving the entry's storage address for that identity and
    /// comparing. Defends against a caller presenting an entry registered
    /// for a different collection.
    pub fn validate(
        &self,
        proof_key: &Key,
        mint: &Key,
        metadata: &Option<MetadataInfo>,
        token_metadata_program: &Key,
        program_id: &Key,
    ) -> (r: Result<(), StakingError>)
        ensures
            r == self.spec_validate(
                *proof_key,
                *mint,
                *metadata,
                *token_metadata_program,
                *program_id,
            ),
    {
        let subject = match self.ty {
            WhitelistType::Mint => *mint,
            _ => {
                match metadata {
                    None => {
                        return Err(StakingError::InvalidAccountData);
                    },
                    Some(m) => {
                        match validate_metadata_account(m, mint, token_metadata_program) {
                            Ok(()) => {},
                            Err(e) => {
                                return Err(e);
                            },
                        }
                        match metadata_creator(m) {
                            Ok(creator) => creator,
                            Err(e) => {
                                return Err(e);
                            },
                        }
                    },
                }
            },
        };
        let expected = whitelist_address(&self.farm, &subject, program_id);
        if bytes_eq(&proof_key.to_le_bytes(), &expected) {
            Ok(())
        } else {
            Err(StakingError::InvalidWhitelist)
        }
    }

    /// The base earn rate this entry grants, in tokens per asset-unit per
    /// second. Only rate entries carry a rate: reading a buff entry as a
    /// rate is a caller error.
    pub fn base_rate(&self) -> (r: Result<u64, StakingError>)
        ensures
            self.ty is Buff ==> r == Err::<u64, StakingError>(StakingError::InvalidWhitelistType),
            !(self.ty is Buff) ==> r == Ok::<u64, StakingError>(self.reward_rate),
    {
        match self.ty {
            WhitelistType::Buff => Err(StakingError::InvalidWhitelistType),
            _ => Ok(self.reward_rate),
        }
    }

    /// The rate multiplier this entry grants. Only buff entries carry a
    /// factor: reading a rate entry as a factor is a caller error.
    pub fn buff_factor(&self) -> (r: Result<u64, StakingError>)
        ensures
            self.ty is Buff ==> r == Ok::<u64, StakingError>(self.reward_rate),
            !(self.ty is Buff) ==> r == Err::<u64, StakingError>(StakingError::InvalidWhitelistType),
    {
        match self.ty {
            WhitelistType::Buff => Ok(self.reward_rate),
            _ => Err(StakingError::InvalidWhitelistType),
        }
    }
}

} // verus!
