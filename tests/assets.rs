use finternet_sdk::asset::AccountSummary;
use finternet_sdk::keys::PublicKey;
use finternet_sdk::FinternetClient;

fn borsh_string(out: &mut Vec<u8>, s: &str) {
    out.extend_from_slice(&(s.len() as u32).to_le_bytes());
    out.extend_from_slice(s.as_bytes());
}

fn metadata_bytes(name: &str, creators: Option<Vec<[u8; 32]>>) -> Vec<u8> {
    let mut b = vec![4u8];
    b.extend_from_slice(&[1u8; 32]);
    b.extend_from_slice(&[2u8; 32]);
    borsh_string(&mut b, name);
    borsh_string(&mut b, "FINT");
    borsh_string(&mut b, "https://example.com/m.json");
    b.extend_from_slice(&0u16.to_le_bytes());
    match creators {
        Some(cs) => {
            b.push(1);
            b.extend_from_slice(&(cs.len() as u32).to_le_bytes());
            for c in cs {
                b.extend_from_slice(&c);
                b.push(1);
                b.push(100);
            }
        }
        None => b.push(0),
    }
    b.push(0);
    b.push(1);
    b.extend_from_slice(&[0u8; 6]);
    b
}

fn mint() -> PublicKey {
    PublicKey::from_bytes([2u8; 32])
}

#[test]
fn missing_metadata_account_resolves_to_none() {
    let client = FinternetClient::new_devnet();
    assert!(client.get_asset_info(&mint(), None).is_none());
}

#[test]
fn unreadable_metadata_account_resolves_to_none() {
    let client = FinternetClient::new_devnet();
    assert!(client.get_asset_info(&mint(), Some(vec![1, 2, 3])).is_none());
    assert!(client.get_asset_info(&mint(), Some(vec![])).is_none());
}

#[test]
fn metadata_name_is_trimmed_and_first_creator_issues() {
    let client = FinternetClient::new_devnet();
    let data = metadata_bytes("Villa\0\0\0\0", Some(vec![[7u8; 32], [8u8; 32]]));
    let asset = client.get_asset_info(&mint(), Some(data)).unwrap();
    assert_eq!(asset.name, "Villa");
    assert_eq!(asset.issuer, PublicKey::from_bytes([7u8; 32]));
    assert_eq!(asset.token_mint, Some(mint()));
    assert_eq!(asset.description, "Asset tokenized on Finternet");
    assert_eq!(asset.asset_type, "tokenized_asset");
    assert_eq!(asset.value, 0);
    assert_eq!(asset.created_at, 0);
}

#[test]
fn metadata_without_creators_has_zero_issuer() {
    let client = FinternetClient::new_devnet();
    let asset = client.get_asset_info(&mint(), Some(metadata_bytes("Art", None))).unwrap();
    assert_eq!(asset.name, "Art");
    assert_eq!(asset.issuer, PublicKey::zero());
    let empty = client.get_asset_info(&mint(), Some(metadata_bytes("Art", Some(vec![])))).unwrap();
    assert_eq!(empty.issuer, PublicKey::zero());
}

#[test]
fn metadata_address_is_the_program_derived_address() {
    let client = FinternetClient::new_devnet();
    let m = solana_sdk::pubkey::Pubkey::new_from_array([2u8; 32]);
    let program: solana_sdk::pubkey::Pubkey = "metaqbxxUerdq28cj1RbAWkYQm3ybzjb6a8bt518x1s".parse().unwrap();
    let (expected, _) =
        solana_sdk::pubkey::Pubkey::find_program_address(&[b"metadata", program.as_ref(), m.as_ref()], &program);
    let derived = client.metadata_account_address(&mint()).unwrap();
    assert_eq!(derived, PublicKey::from_bytes(expected.to_bytes()));
    assert_ne!(derived, mint());
}

#[test]
fn mint_accounts_are_recognised() {
    let client = FinternetClient::new_devnet();
    let mint_account = AccountSummary { owner: token_program(), lamports: 1, data_len: 82 };
    assert!(client.is_valid_asset(Some(mint_account)));
    assert!(!client.is_valid_asset(Some(AccountSummary { data_len: 165, ..mint_account })));
    assert!(!client.is_valid_asset(Some(AccountSummary { owner: PublicKey::zero(), ..mint_account })));
    assert!(!client.is_valid_asset(None));
}

#[test]
fn tokenized_asset_record_keeps_inputs() {
    let client = FinternetClient::new_devnet();
    let issuer = PublicKey::from_bytes([4u8; 32]);
    let (m, asset) = client.tokenize_asset("House", "Two rooms", 250_000, "real_estate", &issuer, &mint(), 1_700_000_123);
    assert_eq!(m, mint());
    assert_eq!(asset.name, "House");
    assert_eq!(asset.description, "Two rooms");
    assert_eq!(asset.value, 250_000);
    assert_eq!(asset.asset_type, "real_estate");
    assert_eq!(asset.issuer, issuer);
    assert_eq!(asset.created_at, 1_700_000_123);
    assert_eq!(asset.token_mint, Some(mint()));
}

fn token_program() -> PublicKey {
    PublicKey::from_bytes(spl_token::id().to_bytes())
}
