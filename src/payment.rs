//! Payments: the decisions around moving a token balance, and reading what
//! the query layer reports of balances and transaction status.
use vstd::prelude::*;
use crate::FinternetClient;
use crate::keys::{PublicKey, Signature, memo_program_bytes, memo_program_id};
use crate::text::{parse_u64, parsed_u64};
use crate::transfer::TransactionRecord;

pub mod usdc;

verus! {

/// One step of a payment, in the order it is submitted.
#[derive(Clone, Debug, PartialEq, Eq)]
pub enum PaymentStep {
    /// Create the recipient's associated token account for the mint.
    CreateRecipientAccount,
    /// Move this many base units from the payer's account to the recipient's.
    Transfer(u64),
    /// Attach this memo, signed by the payer.
    Memo(String),
}

/// An instruction of the memo program.
#[derive(Clone, Debug)]
pub struct MemoInstruction {
    pub program_id: PublicKey,
    pub signers: Vec<PublicKey>,
    pub data: Vec<u8>,
}

/// A memo instruction carrying `memo`, signed by each of `signers`.
pub fn build_memo(memo: &[u8], signers: &[PublicKey]) -> (r: MemoInstruction)
    ensures
        r.program_id@ == memo_program_bytes(),
        r.signers@ == signers@,
        r.data@ == memo@,
{
    let mut data: Vec<u8> = Vec::new();
    let mut i: usize = 0;
    while i < memo.len()
        invariant
            i <= memo@.len(),
            data@ == memo@.subrange(0, i as int),
        decreases memo.len() - i,
    {
        data.push(memo[i]);
        i = i + 1;
    }
    assert(memo@.subrange(0, memo@.len() as int) =~= memo@);
    let mut keys: Vec<PublicKey> = Vec::new();
    let mut j: usize = 0;
    while j < signers.len()
        invariant
            j <= signers@.len(),
            keys@ == signers@.subrange(0, j as int),
        decreases signers.len() - j,
    {
        keys.push(signers[j]);
        j = j + 1;
    }
    assert(signers@.subrange(0, signers@.len() as int) =~= signers@);
    MemoInstruction { program_id: memo_program_id(), signers: keys, data }
}

/// The balance that a token account balance query gives: its base-unit amount,
/// or zero where the account was not found or the amount is not a `u64`.
pub open spec fn balance_from_reply(reply: Option<Seq<char>>) -> u64 {
    match reply {
        Some(s) => match parsed_u64(s) {
            Some(n) => n,
            None => 0,
        },
        None => 0,
    }
}

impl FinternetClient {
    /// The steps of a payment of `amount` base units: the recipient's account
    /// is created first where it does not exist, and a memo goes last where
    /// one is given.
    pub fn payment_steps(&self, recipient_account_exists: bool, amount: u64, memo: Option<&str>) -> (r: Vec<PaymentStep>)
        ensures
            r@.len() == 1 + (if recipient_account_exists { 0int } else { 1 }) + (if memo is Some { 1int } else { 0 }),
            !recipient_account_exists ==> r@[0] == PaymentStep::CreateRecipientAccount,
            r@[if recipient_account_exists { 0int } else { 1 }] == PaymentStep::Transfer(amount),
            memo matches Some(m) ==> r@.last() matches PaymentStep::Memo(t) && t@ == m@,
    {
        let mut steps: Vec<PaymentStep> = Vec::new();
        if !recipient_account_exists {
            steps.push(PaymentStep::CreateRecipientAccount);
        }
        steps.push(PaymentStep::Transfer(amount));
        match memo {
            Some(m) => steps.push(PaymentStep::Memo(m.to_owned())),
            None => {},
        }
        steps
    }

    /// The balance of a token account from the amount text that the query
    /// layer returned for it (`None` where the query failed).
    pub fn get_token_balance(&self, amount_reply: Option<&str>) -> (r: u64)
        ensures
            r == balance_from_reply(match amount_reply {
                Some(s) => Some(s@),
                None => None,
            }),
    {
        match amount_reply {
            Some(s) => match parse_u64(s) {
                Some(n) => n,
                None => 0,
            },
            None => 0,
        }
    }

    /// Whether the balance that the reply gives covers `amount`.
    pub fn can_afford_payment(&self, amount_reply: Option<&str>, amount: u64) -> (r: bool)
        ensures
            r == (balance_from_reply(match amount_reply {
                Some(s) => Some(s@),
                None => None,
            }) >= amount),
    {
        self.get_token_balance(amount_reply) >= amount
    }

    /// The status of a transaction: `Pending` where the ledger has none yet,
    /// `Confirmed` where it succeeded, and `Failed: ` with the error where it
    /// failed.
    pub fn get_transaction_status(&self, status: Option<Result<(), String>>) -> (r: String)
        ensures
            status is None ==> r@ == "Pending"@,
            status matches Some(Ok(_)) ==> r@ == "Confirmed"@,
            status matches Some(Err(e)) ==> r@ == "Failed: "@ + e@,
    {
        match status {
            Some(Ok(_)) => String::from_str("Confirmed"),
            Some(Err(e)) => String::from_str("Failed: ").concat(e.as_str()),
            None => String::from_str("Pending"),
        }
    }

    /// The record of a payment made at `timestamp` (seconds since the epoch).
    pub fn create_transaction_record(
        &self,
        signature: Signature,
        from: PublicKey,
        to: PublicKey,
        amount: u64,
        token_mint: PublicKey,
        memo: Option<String>,
        timestamp: u64,
    ) -> (r: TransactionRecord)
        ensures
            r.signature == signature,
            r.from == from,
            r.to == to,
            r.amount == amount,
            r.token_mint == token_mint,
            r.memo == memo,
            r.timestamp == timestamp,
    {
        TransactionRecord { signature, from, to, amount, token_mint, timestamp, memo }
    }

    /// Where an account's devnet USDC token account stands, from the display
    /// amount that a balance query returned for it (`None` where it failed):
    /// its balance, or how to create it. The account and mint are given as text.
    pub fn request_devnet_usdc(&self, token_account: &str, mint: &str, ui_amount: Option<&str>) -> (r: String)
        ensures
            ui_amount matches Some(a) ==> r@ == "USDC ATA exists with balance: "@ + a@,
            ui_amount is None ==> r@ == "USDC ATA needs to be created: "@ + token_account@
                + ". Use `spl-token create-account "@ + mint@ + "` or fund it via a faucet service."@,
    {
        match ui_amount {
            Some(a) => String::from_str("USDC ATA exists with balance: ").concat(a),
            None => String::from_str("USDC ATA needs to be created: ")
                .concat(token_account)
                .concat(". Use `spl-token create-account ")
                .concat(mint)
                .concat("` or fund it via a faucet service."),
        }
    }
}

} // verus!
