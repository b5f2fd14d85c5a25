//! The Transfer Reconstructor: infers a transfer record from a transaction's
//! token balance snapshots taken before and after it ran.
use vstd::prelude::*;
use vstd::utf8::{decode_utf8, valid_utf8};
use crate::FinternetClient;
use crate::keys::{PublicKey, Signature, base58_decoded, decode_base58, memo_program_bytes, memo_program_id, pubkey_from_text};
use crate::text::{parse_u64, parsed_u64, utf8_text};

verus! {

/// One token account's balance in a snapshot: the account's position in the
/// transaction, its mint's key text, and its amount in base units as text.
#[derive(Clone, Debug)]
pub struct TokenBalanceEntry {
    pub account_index: u8,
    pub mint: String,
    pub amount: String,
}

/// One instruction of a transaction: the position of its program among the
/// transaction's account keys, and its data as base58 text.
#[derive(Clone, Debug)]
pub struct InstructionRecord {
    pub program_id_index: u8,
    pub data: String,
}

/// The balance snapshots that the query layer reports for a transaction.
#[derive(Clone, Debug)]
pub struct TransactionMeta {
    pub pre_token_balances: Option<Vec<TokenBalanceEntry>>,
    pub post_token_balances: Option<Vec<TokenBalanceEntry>>,
}

/// A transaction as fetched from the query layer.
#[derive(Clone, Debug)]
pub struct FetchedTransaction {
    pub meta: Option<TransactionMeta>,
    pub account_keys: Vec<String>,
    pub instructions: Vec<InstructionRecord>,
    pub block_time: Option<i64>,
}

/// One inferred balance-changing event of a transaction.
#[derive(Clone, Debug)]
pub struct TransactionRecord {
    pub signature: Signature,
    pub from: PublicKey,
    pub to: PublicKey,
    pub amount: u64,
    pub token_mint: PublicKey,
    pub timestamp: u64,
    pub memo: Option<String>,
}

/// A transfer record as plain values.
pub struct TransferModel {
    pub signature: Seq<u8>,
    pub from: Seq<u8>,
    pub to: Seq<u8>,
    pub amount: u64,
    pub token_mint: Seq<u8>,
    pub timestamp: u64,
    pub memo: Option<Seq<char>>,
}

impl View for TransactionRecord {
    type V = TransferModel;

    open spec fn view(&self) -> TransferModel {
        TransferModel {
            signature: self.signature@,
            from: self.from@,
            to: self.to@,
            amount: self.amount,
            token_mint: self.token_mint@,
            timestamp: self.timestamp,
            memo: match self.memo {
                Some(m) => Some(m@),
                None => None,
            },
        }
    }
}

/// Why a transfer could not be reconstructed.
#[derive(Clone, Copy, Debug, PartialEq, Eq, Structural)]
pub enum TransferError {
    /// The changed account's mint text is not a key.
    InvalidMint,
}

/// A snapshot amount: its base-unit value, or zero where the text is not a
/// `u64` (an untouched account often carries no amount).
pub open spec fn amount_or_zero(s: Seq<char>) -> u64 {
    match parsed_u64(s) {
        Some(n) => n,
        None => 0,
    }
}

/// The absolute difference of two amounts.
pub open spec fn abs_diff(a: u64, b: u64) -> u64 {
    if b > a {
        (b - a) as u64
    } else {
        (a - b) as u64
    }
}

/// The change of one paired entry: its size where both entries name the same
/// account and their amounts differ.
pub open spec fn entry_change(pre: TokenBalanceEntry, post: TokenBalanceEntry) -> Option<u64> {
    if pre.account_index == post.account_index && amount_or_zero(pre.amount@) != amount_or_zero(post.amount@) {
        Some(abs_diff(amount_or_zero(pre.amount@), amount_or_zero(post.amount@)))
    } else {
        None
    }
}

/// The first position, from `k` on, at which the snapshots paired by position
/// show a change, with the size of that change. Only the overlapping prefix of
/// the two snapshots is paired.
pub open spec fn first_change_from(pre: Seq<TokenBalanceEntry>, post: Seq<TokenBalanceEntry>, k: int) -> Option<(int, u64)>
    decreases pre.len() - k,
{
    if k < 0 || k >= pre.len() || k >= post.len() {
        None
    } else {
        match entry_change(pre[k], post[k]) {
            Some(a) => Some((k, a)),
            None => first_change_from(pre, post, k + 1),
        }
    }
}

pub open spec fn first_change(pre: Seq<TokenBalanceEntry>, post: Seq<TokenBalanceEntry>) -> Option<(int, u64)> {
    first_change_from(pre, post, 0)
}

/// The payload of an instruction if its program is the memo program: the
/// UTF-8 text of its data, or nothing where the data is not base58 or not
/// UTF-8. `None` where the instruction is not a memo.
pub open spec fn memo_payload(keys: Seq<String>, ins: InstructionRecord) -> Option<Option<Seq<char>>> {
    if (ins.program_id_index as int) < keys.len()
        && pubkey_from_text(keys[ins.program_id_index as int]@) == Some(memo_program_bytes()) {
        Some(
            match base58_decoded(ins.data@) {
                Some(b) => if valid_utf8(b) {
                    Some(decode_utf8(b))
                } else {
                    None
                },
                None => None,
            },
        )
    } else {
        None
    }
}

/// The memo of the first memo instruction among `ins`.
pub open spec fn memo_from(keys: Seq<String>, ins: Seq<InstructionRecord>) -> Option<Seq<char>>
    decreases ins.len(),
{
    if ins.len() == 0 {
        None
    } else {
        match memo_payload(keys, ins[0]) {
            Some(m) => m,
            None => memo_from(keys, ins.drop_first()),
        }
    }
}

/// The memo that a transaction carries.
pub open spec fn memo_of(tx: FetchedTransaction) -> Option<Seq<char>> {
    memo_from(tx.account_keys@, tx.instructions@)
}

/// A block time as a timestamp: the time's bits read as unsigned, or zero
/// where the time is unknown.
pub open spec fn timestamp_of(t: Option<i64>) -> u64 {
    match t {
        Some(x) => x as u64,
        None => 0,
    }
}

/// The record that a transaction yields for `party`: the first change among
/// the paired snapshot entries, attributed to `party` on both sides. Nothing
/// where either snapshot is absent or no paired entry changed.
pub open spec fn transfer_of(party: Seq<u8>, signature: Seq<u8>, tx: FetchedTransaction, block_time: Option<i64>) -> Result<Option<TransferModel>, TransferError> {
    match tx.meta {
        Some(meta) => match (meta.pre_token_balances, meta.post_token_balances) {
            (Some(pre), Some(post)) => match first_change(pre@, post@) {
                Some((k, amount)) => match pubkey_from_text(pre@[k].mint@) {
                    Some(mint) => Ok(Some(TransferModel {
                        signature,
                        from: party,
                        to: party,
                        amount,
                        token_mint: mint,
                        timestamp: timestamp_of(block_time),
                        memo: memo_of(tx),
                    })),
                    None => Err(TransferError::InvalidMint),
                },
                None => Ok(None),
            },
            _ => Ok(None),
        },
        None => Ok(None),
    }
}

/// A reconstruction result as plain values.
pub open spec fn transfer_result_view(r: Result<Option<TransactionRecord>, TransferError>) -> Result<Option<TransferModel>, TransferError> {
    match r {
        Ok(Some(t)) => Ok(Some(t@)),
        Ok(None) => Ok(None),
        Err(e) => Err(e),
    }
}

/// Reads a snapshot amount, with zero for text that is not a `u64`.
pub fn amount_value(s: &str) -> (r: u64)
    ensures
        r == amount_or_zero(s@),
{
    match parse_u64(s) {
        Some(n) => n,
        None => 0,
    }
}

/// Finds the first paired entry whose amount changed, and the size of the change.
pub fn find_balance_change(pre: &Vec<TokenBalanceEntry>, post: &Vec<TokenBalanceEntry>) -> (r: Option<(usize, u64)>)
    ensures
        r matches Some((k, a)) ==> first_change(pre@, post@) == Some((k as int, a)) && k < pre@.len()
            && k < post@.len(),
        r is None ==> first_change(pre@, post@) is None,
{
    let mut k: usize = 0;
    while k < pre.len() && k < post.len()
        invariant
            k <= pre@.len(),
            first_change(pre@, post@) == first_change_from(pre@, post@, k as int),
        decreases pre.len() - k,
    {
        let before = &pre[k];
        let after = &post[k];
        if before.account_index == after.account_index {
            let a = amount_value(before.amount.as_str());
            let b = amount_value(after.amount.as_str());
            if a != b {
                let amount = if b > a { b - a } else { a - b };
                return Some((k, amount));
            }
        }
        k = k + 1;
    }
    None
}

/// Finds the memo of the first memo-program instruction of a transaction.
pub fn extract_memo(tx: &FetchedTransaction) -> (r: Option<String>)
    ensures
        r matches Some(m) ==> memo_of(*tx) == Some(m@),
        r is None ==> memo_of(*tx) is None,
{
    let memo_program = memo_program_id();
    let keys = &tx.account_keys;
    let ins = &tx.instructions;
    let mut i: usize = 0;
    assert(ins@.subrange(0, ins@.len() as int) =~= ins@);
    while i < ins.len()
        invariant
            i <= ins@.len(),
            keys@ == tx.account_keys@,
            ins@ == tx.instructions@,
            memo_program@ == memo_program_bytes(),
            memo_of(*tx) == memo_from(keys@, ins@.subrange(i as int, ins@.len() as int)),
        decreases ins.len() - i,
    {
        let ghost rest = ins@.subrange(i as int, ins@.len() as int);
        assert(rest[0] == ins@[i as int]);
        assert(rest.drop_first() =~= ins@.subrange(i + 1, ins@.len() as int));
        let idx = ins[i].program_id_index as usize;
        if idx < keys.len() {
            match PublicKey::parse(keys[idx].as_str()) {
                Some(program) => {
                    if program.same_as(&memo_program) {
                        let text = match decode_base58(ins[i].data.as_str()) {
                            Some(bytes) => utf8_text(&bytes),
                            None => None,
                        };
                        return text;
                    }
                },
                None => {},
            }
        }
        i = i + 1;
    }
    None
}

/// Reconstructs the record of a transaction for `party`, who stands on both
/// sides: a balance snapshot does not tell sender from receiver.
pub fn reconstruct_transfer(
    party: &PublicKey,
    signature: &Signature,
    tx: &FetchedTransaction,
    block_time: Option<i64>,
) -> (r: Result<Option<TransactionRecord>, TransferError>)
    ensures
        transfer_result_view(r) == transfer_of(party@, signature@, *tx, block_time),
{
    let meta = match &tx.meta {
        Some(meta) => meta,
        None => return Ok(None),
    };
    let (pre, post) = match (&meta.pre_token_balances, &meta.post_token_balances) {
        (Some(pre), Some(post)) => (pre, post),
        _ => return Ok(None),
    };
    let (k, amount) = match find_balance_change(pre, post) {
        Some(found) => found,
        None => return Ok(None),
    };
    let token_mint = match PublicKey::parse(pre[k].mint.as_str()) {
        Some(mint) => mint,
        None => return Err(TransferError::InvalidMint),
    };
    let timestamp: u64 = match block_time {
        Some(t) => t as u64,
        None => 0,
    };
    let memo = extract_memo(tx);
    let record = TransactionRecord {
        signature: *signature,
        from: *party,
        to: *party,
        amount,
        token_mint,
        timestamp,
        memo,
    };
    Ok(Some(record))
}

/// A transaction whose metadata lacks either balance snapshot yields no record.
pub proof fn lemma_absent_snapshots_no_record(party: Seq<u8>, signature: Seq<u8>, tx: FetchedTransaction, block_time: Option<i64>)
    requires
        tx.meta matches Some(m) && (m.pre_token_balances is None || m.post_token_balances is None),
    ensures
        transfer_of(party, signature, tx, block_time) == Ok::<Option<TransferModel>, TransferError>(None),
{
}

/// Whether every paired entry of the two snapshots that names the same account
/// holds the same amount in both.
pub open spec fn snapshots_unchanged(pre: Seq<TokenBalanceEntry>, post: Seq<TokenBalanceEntry>) -> bool {
    forall|k: int|
        0 <= k < pre.len() && k < post.len() && (#[trigger] pre[k]).account_index == (#[trigger] post[k]).account_index
            ==> amount_or_zero(pre[k].amount@) == amount_or_zero(post[k].amount@)
}

proof fn lemma_unchanged_from(pre: Seq<TokenBalanceEntry>, post: Seq<TokenBalanceEntry>, k: int)
    requires
        0 <= k,
        snapshots_unchanged(pre, post),
    ensures
        first_change_from(pre, post, k) is None,
    decreases pre.len() - k,
{
    if k < pre.len() && k < post.len() {
        assert(entry_change(pre[k], post[k]) is None);
        lemma_unchanged_from(pre, post, k + 1);
    }
}

/// When no paired account's amount changed, a transaction yields no record,
/// whatever other token accounts it lists.
pub proof fn lemma_unchanged_snapshots_no_record(
    party: Seq<u8>,
    signature: Seq<u8>,
    tx: FetchedTransaction,
    block_time: Option<i64>,
)
    requires
        tx.meta matches Some(m) && (m.pre_token_balances matches Some(pre) && (
        m.post_token_balances matches Some(post) && snapshots_unchanged(pre@, post@))),
    ensures
        transfer_of(party, signature, tx, block_time) == Ok::<Option<TransferModel>, TransferError>(None),
{
    let m = tx.meta->0;
    lemma_unchanged_from(m.pre_token_balances->0@, m.post_token_balances->0@, 0);
}

impl FinternetClient {
    /// The record of one fetched transaction, with both parties left as the
    /// all-zero key and the transaction's own block time.
    pub fn get_transaction_details(&self, signature: &Signature, tx: &FetchedTransaction) -> (r: Result<Option<TransactionRecord>, TransferError>)
        ensures
            transfer_result_view(r) == transfer_of(Seq::new(32, |i: int| 0u8), signature@, *tx, tx.block_time),
    {
        let nobody = PublicKey::zero();
        reconstruct_transfer(&nobody, signature, tx, tx.block_time)
    }
}

} // verus!
