use finternet_sdk::keys::{PublicKey, Signature};
use finternet_sdk::transfer::{
    amount_value, extract_memo, find_balance_change, reconstruct_transfer, FetchedTransaction, InstructionRecord,
    TokenBalanceEntry, TransactionMeta, TransferError,
};
use finternet_sdk::FinternetClient;

const MEMO_PROGRAM: &str = "MemoSq4gqABAXKb96qnH8TysNcWxMyWCqXgDLGmfcHr";

fn mint_text(b: u8) -> String {
    bs58::encode([b; 32]).into_string()
}

fn entry(index: u8, mint: &str, amount: &str) -> TokenBalanceEntry {
    TokenBalanceEntry { account_index: index, mint: mint.to_string(), amount: amount.to_string() }
}

fn tx(pre: Option<Vec<TokenBalanceEntry>>, post: Option<Vec<TokenBalanceEntry>>) -> FetchedTransaction {
    FetchedTransaction {
        meta: Some(TransactionMeta { pre_token_balances: pre, post_token_balances: post }),
        account_keys: vec![],
        instructions: vec![],
        block_time: Some(1_700_000_000),
    }
}

fn owner() -> PublicKey {
    PublicKey::from_bytes([11u8; 32])
}

fn sig() -> Signature {
    Signature::from_bytes([5u8; 64])
}

#[test]
fn absent_snapshots_give_no_record() {
    let t = tx(None, None);
    assert!(reconstruct_transfer(&owner(), &sig(), &t, Some(1)).unwrap().is_none());
    let only_pre = tx(Some(vec![entry(0, &mint_text(1), "100")]), None);
    assert!(reconstruct_transfer(&owner(), &sig(), &only_pre, Some(1)).unwrap().is_none());
    let mut no_meta = tx(None, None);
    no_meta.meta = None;
    assert!(reconstruct_transfer(&owner(), &sig(), &no_meta, Some(1)).unwrap().is_none());
}

#[test]
fn unchanged_balances_give_no_record() {
    let m = mint_text(1);
    let pre = vec![entry(0, &m, "100"), entry(1, &mint_text(2), "7")];
    let post = vec![entry(0, &m, "100"), entry(1, &mint_text(2), "7")];
    assert!(reconstruct_transfer(&owner(), &sig(), &tx(Some(pre), Some(post)), Some(1)).unwrap().is_none());
}

#[test]
fn decrease_from_hundred_to_sixty_is_forty() {
    let m = mint_text(1);
    let t = tx(Some(vec![entry(0, &m, "100")]), Some(vec![entry(0, &m, "60")]));
    let record = reconstruct_transfer(&owner(), &sig(), &t, Some(1_700_000_000)).unwrap().unwrap();
    assert_eq!(record.amount, 40);
    assert_eq!(record.token_mint, PublicKey::from_bytes([1u8; 32]));
    assert_eq!(record.from, owner());
    assert_eq!(record.to, owner());
    assert_eq!(record.signature, sig());
    assert_eq!(record.timestamp, 1_700_000_000);
    assert_eq!(record.memo, None);
}

#[test]
fn increase_is_absolute_difference() {
    let m = mint_text(1);
    let t = tx(Some(vec![entry(0, &m, "60")]), Some(vec![entry(0, &m, "100")]));
    let record = reconstruct_transfer(&owner(), &sig(), &t, None).unwrap().unwrap();
    assert_eq!(record.amount, 40);
    assert_eq!(record.timestamp, 0);
}

#[test]
fn only_first_change_is_reported() {
    let t = tx(
        Some(vec![entry(0, &mint_text(1), "5"), entry(1, &mint_text(2), "10"), entry(2, &mint_text(3), "1")]),
        Some(vec![entry(0, &mint_text(1), "5"), entry(1, &mint_text(2), "3"), entry(2, &mint_text(3), "9")]),
    );
    let record = reconstruct_transfer(&owner(), &sig(), &t, Some(1)).unwrap().unwrap();
    assert_eq!(record.amount, 7);
    assert_eq!(record.token_mint, PublicKey::from_bytes([2u8; 32]));
}

#[test]
fn mismatched_indices_and_extra_entries_are_ignored() {
    let pre = vec![entry(0, &mint_text(1), "5"), entry(3, &mint_text(2), "10")];
    let post = vec![entry(1, &mint_text(1), "9"), entry(3, &mint_text(2), "10"), entry(4, &mint_text(2), "99")];
    assert_eq!(find_balance_change(&pre, &post), None);
    assert!(reconstruct_transfer(&owner(), &sig(), &tx(Some(pre), Some(post)), Some(1)).unwrap().is_none());
}

#[test]
fn unreadable_amount_counts_as_zero() {
    assert_eq!(amount_value(""), 0);
    assert_eq!(amount_value("12x"), 0);
    assert_eq!(amount_value("+12"), 12);
    let m = mint_text(1);
    let t = tx(Some(vec![entry(0, &m, "")]), Some(vec![entry(0, &m, "25")]));
    assert_eq!(reconstruct_transfer(&owner(), &sig(), &t, Some(1)).unwrap().unwrap().amount, 25);
}

#[test]
fn invalid_mint_of_changed_entry_is_an_error() {
    let t = tx(Some(vec![entry(0, "nope", "1")]), Some(vec![entry(0, "nope", "2")]));
    assert_eq!(reconstruct_transfer(&owner(), &sig(), &t, Some(1)).unwrap_err(), TransferError::InvalidMint);
}

#[test]
fn memo_instruction_payload_is_extracted() {
    let m = mint_text(1);
    let mut t = tx(Some(vec![entry(0, &m, "3")]), Some(vec![entry(0, &m, "1")]));
    t.account_keys = vec![mint_text(20), MEMO_PROGRAM.to_string()];
    t.instructions = vec![
        InstructionRecord { program_id_index: 0, data: bs58::encode(b"not a memo").into_string() },
        InstructionRecord { program_id_index: 1, data: bs58::encode("paid rent".as_bytes()).into_string() },
    ];
    assert_eq!(extract_memo(&t), Some("paid rent".to_string()));
    let record = reconstruct_transfer(&owner(), &sig(), &t, Some(1)).unwrap().unwrap();
    assert_eq!(record.memo, Some("paid rent".to_string()));
}

#[test]
fn memo_absent_or_not_text_is_none() {
    let mut t = tx(None, None);
    t.account_keys = vec![MEMO_PROGRAM.to_string()];
    assert_eq!(extract_memo(&t), None);
    t.instructions = vec![InstructionRecord { program_id_index: 0, data: bs58::encode([0xffu8, 0xfe]).into_string() }];
    assert_eq!(extract_memo(&t), None);
    t.instructions = vec![InstructionRecord { program_id_index: 7, data: bs58::encode(b"hi").into_string() }];
    assert_eq!(extract_memo(&t), None);
}

#[test]
fn transaction_details_use_zero_parties_and_block_time() {
    let client = FinternetClient::new_devnet();
    let m = mint_text(1);
    let mut t = tx(Some(vec![entry(2, &m, "1000")]), Some(vec![entry(2, &m, "1")]));
    t.block_time = Some(99);
    let record = client.get_transaction_details(&sig(), &t).unwrap().unwrap();
    assert_eq!(record.amount, 999);
    assert_eq!(record.from, PublicKey::zero());
    assert_eq!(record.to, PublicKey::zero());
    assert_eq!(record.timestamp, 99);
}
