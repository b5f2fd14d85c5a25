//! Asset records: what minting produces, and the Metadata Resolver, which
//! reads a mint's display name and issuer from its metadata account.
use vstd::prelude::*;
use crate::FinternetClient;
use crate::keys::{PublicKey, token_program_bytes, token_program_id};
use crate::text::{trim_nul, trim_nul_padding};

verus! {

/// An asset and its token mint.
#[derive(Clone, Debug)]
pub struct AssetMetadata {
    pub name: String,
    pub description: String,
    pub value: u64,
    pub issuer: PublicKey,
    pub asset_type: String,
    pub created_at: u64,
    pub token_mint: Option<PublicKey>,
}

/// An asset record as plain values.
pub struct AssetModel {
    pub name: Seq<char>,
    pub description: Seq<char>,
    pub value: u64,
    pub issuer: Seq<u8>,
    pub asset_type: Seq<char>,
    pub created_at: u64,
    pub token_mint: Option<Seq<u8>>,
}

impl View for AssetMetadata {
    type V = AssetModel;

    open spec fn view(&self) -> AssetModel {
        AssetModel {
            name: self.name@,
            description: self.description@,
            value: self.value,
            issuer: self.issuer@,
            asset_type: self.asset_type@,
            created_at: self.created_at,
            token_mint: match self.token_mint {
                Some(k) => Some(k@),
                None => None,
            },
        }
    }
}

/// What a metadata account holds that the resolver reads: the name field as
/// stored (padding included) and the creators' addresses, where it lists any.
#[derive(Clone, Debug)]
pub struct MetadataAccount {
    pub name: String,
    pub creators: Option<Vec<PublicKey>>,
}

/// What `mpl_token_metadata::accounts::Metadata::from_bytes` reads from an
/// account's bytes: its name field and the addresses of its creators, or
/// `None` where the bytes are not a metadata account.
pub uninterp spec fn metadata_decoded(b: Seq<u8>) -> Option<(Seq<char>, Option<Seq<Seq<u8>>>)>;

/// Relies on `Metadata::from_bytes` of mpl-token-metadata 4.1 (a Borsh
/// decoding): its result is a function of the bytes alone.
#[verifier::external_body]
fn decode_metadata_account(b: &Vec<u8>) -> (r: Option<MetadataAccount>)
    ensures
        r is None <==> metadata_decoded(b@) is None,
        r matches Some(m) ==> metadata_decoded(b@) matches Some((name, creators)) && name == m.name@
            && match (m.creators, creators) {
                (Some(cs), Some(addresses)) => cs@.len() == addresses.len() && forall|i: int|
                    0 <= i < cs@.len() ==> #[trigger] cs@[i]@ == addresses[i],
                (None, None) => true,
                _ => false,
            },
{
    mpl_token_metadata::accounts::Metadata::from_bytes(b).ok().map(|m| MetadataAccount {
        name: m.name,
        creators: m.creators.map(|cs| cs.iter().map(|c| PublicKey { bytes: c.address.to_bytes() }).collect()),
    })
}

/// The address of a mint's metadata account: the program-derived address of
/// the seeds `"metadata"`, the metadata program's id and the mint, under the
/// metadata program; `None` in the improbable case that no bump seed gives one.
pub uninterp spec fn metadata_address_of(mint: Seq<u8>) -> Option<Seq<u8>>;

/// Relies on `Pubkey::try_find_program_address` of solana-program, with the
/// seeds and program id of mpl-token-metadata's `Metadata::find_pda`: a
/// derivation from the mint's bytes alone, with no query.
#[verifier::external_body]
fn find_metadata_address(mint: &PublicKey) -> (r: Option<PublicKey>)
    ensures
        r matches Some(a) ==> metadata_address_of(mint@) == Some(a@),
        r is None ==> metadata_address_of(mint@) is None,
{
    let program = mpl_token_metadata::ID;
    let seeds: [&[u8]; 3] = [mpl_token_metadata::accounts::Metadata::PREFIX, program.as_ref(), &mint.bytes];
    solana_sdk::pubkey::Pubkey::try_find_program_address(&seeds, &program).map(|(a, _)| PublicKey { bytes: a.to_bytes() })
}

/// Placeholder description of an asset read back from the ledger: the
/// metadata account does not store one. Not real data.
pub open spec fn placeholder_description() -> Seq<char> {
    "Asset tokenized on Finternet"@
}

/// Type recorded for an asset read back from the ledger. Not real data.
pub open spec fn placeholder_asset_type() -> Seq<char> {
    "tokenized_asset"@
}

/// The issuer that a creator list names: its first creator, or the all-zero
/// key where there is none.
pub open spec fn issuer_of(creators: Option<Seq<Seq<u8>>>) -> Seq<u8> {
    match creators {
        Some(cs) => if cs.len() > 0 {
            cs[0]
        } else {
            Seq::new(32, |i: int| 0u8)
        },
        None => Seq::new(32, |i: int| 0u8),
    }
}

/// What the resolver gives for a mint, from the bytes of its metadata
/// account where one was found. Value, description, type and creation time
/// are placeholders (zero and fixed texts), not data of the asset.
pub open spec fn resolved_metadata(mint: Seq<u8>, account: Option<Seq<u8>>) -> Option<AssetModel> {
    match account {
        None => None,
        Some(b) => match metadata_decoded(b) {
            None => None,
            Some((name, creators)) => Some(AssetModel {
                name: trim_nul(name),
                description: placeholder_description(),
                value: 0,
                issuer: issuer_of(creators),
                asset_type: placeholder_asset_type(),
                created_at: 0,
                token_mint: Some(mint),
            }),
        },
    }
}

pub open spec fn asset_option_view(r: Option<AssetMetadata>) -> Option<AssetModel> {
    match r {
        Some(a) => Some(a@),
        None => None,
    }
}

/// The number of bytes of a mint account.
pub const MINT_ACCOUNT_LEN: usize = 82;

/// What the query layer reports of an account that exists.
#[derive(Clone, Copy, Debug, PartialEq, Eq)]
pub struct AccountSummary {
    pub owner: PublicKey,
    pub lamports: u64,
    pub data_len: usize,
}

impl FinternetClient {
    /// The address at which a mint's metadata account lives.
    pub fn metadata_account_address(&self, mint: &PublicKey) -> (r: Option<PublicKey>)
        ensures
            r matches Some(a) ==> metadata_address_of(mint@) == Some(a@),
            r is None ==> metadata_address_of(mint@) is None,
    {
        find_metadata_address(mint)
    }

    /// Resolves a mint's asset record from the data of its metadata account
    /// (`None` where no such account was found). Absence, and data that is not
    /// a metadata account, give `None`. The name loses its NUL padding, the
    /// first creator is the issuer; the other fields are placeholders.
    pub fn get_asset_info(&self, token_mint: &PublicKey, account_data: Option<Vec<u8>>) -> (r: Option<AssetMetadata>)
        ensures
            asset_option_view(r) == resolved_metadata(token_mint@, match account_data {
                Some(b) => Some(b@),
                None => None,
            }),
            account_data is None ==> r is None,
    {
        let data = match account_data {
            Some(d) => d,
            None => return None,
        };
        let account = match decode_metadata_account(&data) {
            Some(a) => a,
            None => return None,
        };
        let issuer = match &account.creators {
            Some(cs) => if cs.len() > 0 {
                cs[0]
            } else {
                PublicKey::zero()
            },
            None => PublicKey::zero(),
        };
        Some(AssetMetadata {
            name: trim_nul_padding(account.name.as_str()),
            description: String::from_str("Asset tokenized on Finternet"),
            value: 0,
            issuer,
            asset_type: String::from_str("tokenized_asset"),
            created_at: 0,
            token_mint: Some(*token_mint),
        })
    }

    /// Whether an account is a mint: owned by the token program and of a mint
    /// account's size. An account that was not found is not one.
    pub fn is_valid_asset(&self, account: Option<AccountSummary>) -> (r: bool)
        ensures
            r == (account matches Some(a) && a.owner@ == token_program_bytes() && a.data_len == MINT_ACCOUNT_LEN),
    {
        match account {
            Some(a) => a.owner.same_as(&token_program_id()) && a.data_len == MINT_ACCOUNT_LEN,
            None => false,
        }
    }

    /// The record of an asset just minted to `mint`, issued by `issuer` at
    /// `created_at` (seconds since the epoch).
    pub fn tokenize_asset(
        &self,
        name: &str,
        description: &str,
        value: u64,
        asset_type: &str,
        issuer: &PublicKey,
        mint: &PublicKey,
        created_at: u64,
    ) -> (r: (PublicKey, AssetMetadata))
        ensures
            r.0 == *mint,
            r.1@ == (AssetModel {
                name: name@,
                description: description@,
                value,
                issuer: issuer@,
                asset_type: asset_type@,
                created_at,
                token_mint: Some(mint@),
            }),
    {
        let metadata = AssetMetadata {
            name: name.to_owned(),
            description: description.to_owned(),
            value,
            issuer: *issuer,
            asset_type: asset_type.to_owned(),
            created_at,
            token_mint: Some(*mint),
        };
        (*mint, metadata)
    }
}

} // verus!
