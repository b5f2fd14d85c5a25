use finternet_sdk::asset::AccountSummary;
use finternet_sdk::identity::{decimal_text, readable_address, FinternetIdentity, IdentityError};
use finternet_sdk::keys::PublicKey;
use finternet_sdk::{FinternetClient, FinternetConfig};
use solana_sdk::signer::Signer;

fn entries(id: &FinternetIdentity) -> Vec<(String, String)> {
    id.metadata.clone()
}

#[test]
fn identity_of_funded_account() {
    let client = FinternetClient::new_devnet();
    let id = client.get_identity(&PublicKey::from_bytes([5u8; 32]), Some(1500));
    assert_eq!(
        entries(&id),
        vec![
            ("sol_balance".to_string(), "1500".to_string()),
            ("account_status".to_string(), "active".to_string())
        ]
    );
    assert_eq!(id.display_name, None);
}

#[test]
fn identity_of_empty_and_missing_accounts() {
    let client = FinternetClient::new_devnet();
    let empty = client.get_identity(&PublicKey::from_bytes([5u8; 32]), Some(0));
    assert_eq!(
        entries(&empty),
        vec![("sol_balance".to_string(), "0".to_string()), ("account_status".to_string(), "inactive".to_string())]
    );
    let missing = client.get_identity(&PublicKey::from_bytes([5u8; 32]), None);
    assert_eq!(entries(&missing), vec![("account_status".to_string(), "not_found".to_string())]);
}

#[test]
fn identity_names_known_programs() {
    let client = FinternetClient::new_devnet();
    assert_eq!(client.get_identity(&PublicKey::zero(), None).display_name, Some("System Program".to_string()));
    assert_eq!(client.get_identity(&token_program(), None).display_name, Some("SPL Token Program".to_string()));
}

#[test]
fn identity_attributes_overwrite_by_key() {
    let id = FinternetIdentity::new(PublicKey::zero())
        .with_metadata("email", "a@example.com")
        .with_metadata("org", "Acme")
        .with_metadata("email", "b@example.com")
        .with_display_name("Alice");
    assert_eq!(
        entries(&id),
        vec![("email".to_string(), "b@example.com".to_string()), ("org".to_string(), "Acme".to_string())]
    );
    assert_eq!(id.display_name, Some("Alice".to_string()));
}

#[test]
fn decimal_text_of_numbers() {
    assert_eq!(decimal_text(0), "0");
    assert_eq!(decimal_text(7), "7");
    assert_eq!(decimal_text(1_234_567_890), "1234567890");
    assert_eq!(decimal_text(u64::MAX), u64::MAX.to_string());
}

#[test]
fn account_activity_follows_lamports() {
    let client = FinternetClient::new_devnet();
    let acct = AccountSummary { owner: PublicKey::zero(), lamports: 5, data_len: 0 };
    assert!(client.is_account_active(Some(acct)));
    assert!(!client.is_account_active(Some(AccountSummary { lamports: 0, ..acct })));
    assert!(!client.is_account_active(None));
}

#[test]
fn signatures_are_checked_against_key_and_challenge() {
    let keypair = solana_sdk::signature::Keypair::new();
    let key = PublicKey::from_bytes(keypair.pubkey().to_bytes());
    let signed = keypair.sign_message(b"challenge-42").to_string();
    assert_eq!(FinternetClient::verify_signature(&key, "challenge-42", &signed), Ok(true));
    assert_eq!(FinternetClient::verify_signature(&key, "challenge-43", &signed), Ok(false));
    assert_eq!(FinternetClient::verify_signature(&key, "challenge-42", "xyz"), Err(IdentityError::InvalidSignature));
}

#[test]
fn default_config_targets_devnet() {
    let config = FinternetConfig::default();
    assert_eq!(config.rpc_url, "https://api.devnet.solana.com");
    assert_eq!(config.commitment_level, "confirmed");
    assert_eq!(FinternetClient::new_devnet().config.rpc_url, config.rpc_url);
}

fn token_program() -> PublicKey {
    PublicKey::from_bytes(spl_token::id().to_bytes())
}

#[test]
fn readable_address_keeps_both_ends() {
    assert_eq!(readable_address("abcdefghijklmnopqrstuvwxyz"), "abcdefgh...stuvwxyz");
    assert_eq!(readable_address("abcdefgh"), "abcdefgh...abcdefgh");
    assert_eq!(readable_address("abc"), "abc");
    let key = PublicKey::from_bytes([1u8; 32]);
    let text = bs58::encode([1u8; 32]).into_string();
    let expected = format!("{}...{}", &text[..8], &text[text.len() - 8..]);
    assert_eq!(FinternetClient::create_readable_address(&key, "fin"), expected);
}
