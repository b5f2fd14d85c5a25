use finternet_sdk::history::{HistorySkip, SignatureEntry};
use finternet_sdk::keys::{PublicKey, Signature};
use finternet_sdk::transfer::{FetchedTransaction, TokenBalanceEntry, TransactionMeta};
use finternet_sdk::FinternetClient;

fn changing_tx(amount_before: &str, amount_after: &str) -> FetchedTransaction {
    let mint = bs58::encode([1u8; 32]).into_string();
    let entry = |a: &str| TokenBalanceEntry { account_index: 0, mint: mint.clone(), amount: a.to_string() };
    FetchedTransaction {
        meta: Some(TransactionMeta {
            pre_token_balances: Some(vec![entry(amount_before), entry(amount_before)]),
            post_token_balances: Some(vec![entry(amount_after), entry(amount_after)]),
        }),
        account_keys: vec![],
        instructions: vec![],
        block_time: None,
    }
}

fn sig_text(b: u8) -> String {
    bs58::encode([b; 64]).into_string()
}

fn entry(b: u8, tx: Option<FetchedTransaction>) -> SignatureEntry {
    SignatureEntry { signature: sig_text(b), block_time: Some(b as i64), transaction: tx }
}

fn owner() -> PublicKey {
    PublicKey::from_bytes([3u8; 32])
}

#[test]
fn history_never_exceeds_limit() {
    let client = FinternetClient::new_devnet();
    let entries: Vec<SignatureEntry> = (1..=7).map(|b| entry(b, Some(changing_tx("10", &(b as u64).to_string())))).collect();
    let records = client.get_transaction_history(&owner(), Some(5), &entries).records;
    assert_eq!(records.len(), 5);
    let stamps: Vec<u64> = records.iter().map(|r| r.timestamp).collect();
    assert_eq!(stamps, vec![1, 2, 3, 4, 5]);
}

#[test]
fn history_default_limit_is_ten() {
    let client = FinternetClient::new_devnet();
    let entries: Vec<SignatureEntry> = (1..=12).map(|b| entry(b, Some(changing_tx("100", "1")))).collect();
    assert_eq!(client.get_transaction_history(&owner(), None, &entries).records.len(), 10);
    assert_eq!(client.get_transaction_history(&owner(), Some(0), &entries).records.len(), 0);
}

#[test]
fn history_skips_failed_fetch_and_keeps_order() {
    let client = FinternetClient::new_devnet();
    let entries = vec![
        entry(1, Some(changing_tx("10", "1"))),
        entry(2, None),
        entry(3, Some(changing_tx("10", "2"))),
        entry(4, Some(changing_tx("5", "5"))),
        entry(5, Some(changing_tx("10", "3"))),
    ];
    let scan = client.get_transaction_history(&owner(), Some(10), &entries);
    assert_eq!(scan.skipped, vec![(1, HistorySkip::FetchFailed)]);
    let records = scan.records;
    let amounts: Vec<u64> = records.iter().map(|r| r.amount).collect();
    assert_eq!(amounts, vec![9, 8, 7]);
    let signatures: Vec<Signature> = records.iter().map(|r| r.signature).collect();
    assert_eq!(
        signatures,
        vec![Signature::from_bytes([1u8; 64]), Signature::from_bytes([3u8; 64]), Signature::from_bytes([5u8; 64])]
    );
    assert!(records.iter().all(|r| r.from == owner() && r.to == owner()));
}

#[test]
fn history_of_no_signatures_is_empty() {
    let client = FinternetClient::new_devnet();
    let scan = client.get_transaction_history(&owner(), Some(5), &vec![]);
    assert!(scan.records.is_empty());
    assert!(scan.skipped.is_empty());
}

#[test]
fn history_skips_malformed_signature() {
    let client = FinternetClient::new_devnet();
    let mut bad = entry(2, Some(changing_tx("10", "1")));
    bad.signature = "not-a-signature".to_string();
    let entries = vec![entry(1, Some(changing_tx("10", "1"))), bad, entry(3, Some(changing_tx("10", "4")))];
    let scan = client.get_transaction_history(&owner(), Some(5), &entries);
    assert_eq!(scan.skipped, vec![(1, HistorySkip::InvalidSignature)]);
    let amounts: Vec<u64> = scan.records.iter().map(|r| r.amount).collect();
    assert_eq!(amounts, vec![9, 6]);
}

#[test]
fn history_skips_malformed_mint() {
    let client = FinternetClient::new_devnet();
    let mut t = changing_tx("10", "1");
    if let Some(meta) = t.meta.as_mut() {
        meta.pre_token_balances.as_mut().unwrap()[0].mint = "bad".to_string();
    }
    let entries = vec![entry(1, Some(t)), entry(2, Some(changing_tx("7", "2")))];
    let scan = client.get_transaction_history(&owner(), Some(5), &entries);
    assert_eq!(scan.skipped, vec![(0, HistorySkip::InvalidMint)]);
    assert_eq!(scan.records.len(), 1);
    assert_eq!(scan.records[0].amount, 5);
    assert_eq!(scan.records[0].signature, Signature::from_bytes([2u8; 64]));
}

#[test]
fn history_without_snapshots_is_empty() {
    let client = FinternetClient::new_devnet();
    let mut no_snapshots = changing_tx("10", "1");
    no_snapshots.meta = Some(TransactionMeta { pre_token_balances: None, post_token_balances: None });
    let entries = vec![entry(1, Some(no_snapshots)), entry(2, Some(changing_tx("4", "4")))];
    let scan = client.get_transaction_history(&owner(), Some(5), &entries);
    assert!(scan.records.is_empty());
    assert!(scan.skipped.is_empty());
}
