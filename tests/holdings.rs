use base64::Engine;
use finternet_sdk::account::{AccountData, AccountEncoding, DecodeError};
use finternet_sdk::asset::AssetMetadata;
use finternet_sdk::holdings::{aggregate_holdings, HoldingsMap};
use finternet_sdk::keys::PublicKey;
use finternet_sdk::FinternetClient;

fn record(mint: u8, amount: u64) -> AccountData {
    let mut b = Vec::new();
    b.extend_from_slice(&[mint; 32]);
    b.extend_from_slice(&[200u8; 32]);
    b.extend_from_slice(&amount.to_le_bytes());
    b.extend_from_slice(&[0u8; 36]);
    b.push(1);
    b.extend_from_slice(&[0u8; 56]);
    AccountData::Binary(base64::engine::general_purpose::STANDARD.encode(&b), AccountEncoding::Base64)
}

fn key(b: u8) -> PublicKey {
    PublicKey::from_bytes([b; 32])
}

#[test]
fn later_record_for_same_mint_wins() {
    let scan = aggregate_holdings(&vec![record(1, 10), record(2, 20), record(1, 30)]);
    assert_eq!(scan.holdings.len(), 2);
    assert_eq!(scan.holdings.get(&key(1)), Some(30));
    assert_eq!(scan.holdings.get(&key(2)), Some(20));
    assert_eq!(scan.holdings.entries().clone(), vec![(key(1), 30), (key(2), 20)]);
    assert!(scan.skipped.is_empty());
}

#[test]
fn undecodable_records_are_skipped_and_reported() {
    let records = vec![
        record(1, 10),
        AccountData::LegacyBinary("abc".to_string()),
        AccountData::Binary("???".to_string(), AccountEncoding::Base64),
        record(2, 5),
    ];
    let scan = aggregate_holdings(&records);
    assert_eq!(scan.holdings.entries().clone(), vec![(key(1), 10), (key(2), 5)]);
    assert_eq!(scan.skipped, vec![(1, DecodeError::UnsupportedEncoding), (2, DecodeError::InvalidBase64)]);
}

#[test]
fn owned_assets_exclude_zero_balances() {
    let client = FinternetClient::new_devnet();
    let owned = client.get_owned_assets(&vec![record(1, 0), record(2, 7), record(3, 0), record(4, 1)]);
    assert_eq!(owned, vec![(key(2), 7), (key(4), 1)]);
    assert!(owned.iter().all(|(_, amount)| *amount > 0));
}

#[test]
fn owned_assets_of_empty_holdings() {
    let holdings = HoldingsMap::new();
    assert!(holdings.owned_assets().is_empty());
    assert!(holdings.is_empty());
}

#[test]
fn zero_overwrites_positive_balance() {
    let client = FinternetClient::new_devnet();
    let owned = client.get_owned_assets(&vec![record(1, 9), record(1, 0)]);
    assert!(owned.is_empty());
}

#[test]
fn discovered_tokens_carry_metadata_names() {
    let client = FinternetClient::new_devnet();
    let scan = client.get_token_accounts(&vec![record(1, 3), record(2, 0), record(3, 4)]);
    let named = AssetMetadata {
        name: "Gold".to_string(),
        description: String::new(),
        value: 0,
        issuer: key(0),
        asset_type: String::new(),
        created_at: 0,
        token_mint: Some(key(1)),
    };
    let found = client.discover_all_tokens(&scan.holdings, &vec![Some(named), None]);
    assert_eq!(found.len(), 2);
    assert_eq!((found[0].mint, found[0].balance, found[0].display_name.clone()), (key(1), 3, Some("Gold".to_string())));
    assert_eq!((found[1].mint, found[1].balance, found[1].display_name.clone()), (key(3), 4, None));
}

#[test]
fn wallet_info_counts_token_types() {
    let client = FinternetClient::new_devnet();
    let info = client.get_wallet_info(&key(9), 1_000, &vec![record(1, 3), record(2, 0)]);
    assert_eq!(info.sol_balance, 1_000);
    assert!(info.has_tokens());
    assert_eq!(info.total_token_types(), 2);
    let empty = client.get_wallet_info(&key(9), 0, &vec![]);
    assert!(!empty.has_tokens());
    assert_eq!(empty.total_token_types(), 0);
}
