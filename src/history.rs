//! The History Scanner: walks an address's signatures, most recent first, and
//! reconstructs a transfer record from each transaction that could be fetched.
//! A bad entry is skipped and reported; it never ends the scan.
use vstd::prelude::*;
use crate::FinternetClient;
use crate::keys::{PublicKey, Signature, signature_from_text};
use crate::transfer::{
    FetchedTransaction, TransactionRecord, TransferError, TransferModel, reconstruct_transfer, transfer_of,
    snapshots_unchanged, lemma_unchanged_snapshots_no_record,
};

verus! {

/// One signature of an address's history, with the transaction fetched for it;
/// `transaction` is `None` where the fetch failed.
#[derive(Clone, Debug)]
pub struct SignatureEntry {
    pub signature: String,
    pub block_time: Option<i64>,
    pub transaction: Option<FetchedTransaction>,
}

/// Why a signature of the history yielded nothing.
#[derive(Clone, Copy, Debug, PartialEq, Eq, Structural)]
pub enum HistorySkip {
    /// The signature's text is not a signature.
    InvalidSignature,
    /// Its transaction could not be fetched.
    FetchFailed,
    /// The changed account's mint text is not a key.
    InvalidMint,
}

/// How many signatures a scan reads when the caller gives no limit.
pub const DEFAULT_HISTORY_LIMIT: usize = 10;

/// What one signature gives: a record or nothing, or the reason it was skipped.
pub open spec fn history_step(owner: Seq<u8>, e: SignatureEntry) -> Result<Option<TransferModel>, HistorySkip> {
    match signature_from_text(e.signature@) {
        None => Err(HistorySkip::InvalidSignature),
        Some(sig) => match e.transaction {
            None => Err(HistorySkip::FetchFailed),
            Some(tx) => match transfer_of(owner, sig, tx, e.block_time) {
                Ok(r) => Ok(r),
                Err(TransferError::InvalidMint) => Err(HistorySkip::InvalidMint),
            },
        },
    }
}

/// The records that one signature contributes: none or one.
pub open spec fn step_records(owner: Seq<u8>, e: SignatureEntry) -> Seq<TransferModel> {
    match history_step(owner, e) {
        Ok(Some(t)) => seq![t],
        _ => Seq::empty(),
    }
}

/// The records of a list of signatures, in the list's order.
pub open spec fn history_of(owner: Seq<u8>, entries: Seq<SignatureEntry>) -> Seq<TransferModel>
    decreases entries.len(),
{
    if entries.len() == 0 {
        Seq::empty()
    } else {
        history_of(owner, entries.drop_last()) + step_records(owner, entries.last())
    }
}

/// The position and reason of each signature that was skipped, in order.
pub open spec fn skipped_history(owner: Seq<u8>, entries: Seq<SignatureEntry>) -> Seq<(usize, HistorySkip)>
    decreases entries.len(),
{
    if entries.len() == 0 {
        Seq::empty()
    } else {
        let prev = skipped_history(owner, entries.drop_last());
        match history_step(owner, entries.last()) {
            Err(reason) => prev.push(((entries.len() - 1) as usize, reason)),
            Ok(_) => prev,
        }
    }
}

/// The signatures that a scan with this limit reads: the first `limit`.
pub open spec fn history_window(entries: Seq<SignatureEntry>, limit: nat) -> Seq<SignatureEntry> {
    if limit < entries.len() {
        entries.take(limit as int)
    } else {
        entries
    }
}

pub open spec fn effective_limit(limit: Option<usize>) -> nat {
    match limit {
        Some(n) => n as nat,
        None => DEFAULT_HISTORY_LIMIT as nat,
    }
}

/// A list of records as plain values.
pub open spec fn records_view(v: Seq<TransactionRecord>) -> Seq<TransferModel> {
    Seq::new(v.len(), |i: int| v[i]@)
}

/// The records of a history scan, and the signatures it skipped.
#[derive(Clone, Debug)]
pub struct HistoryScan {
    pub records: Vec<TransactionRecord>,
    pub skipped: Vec<(usize, HistorySkip)>,
}

/// A scan yields at most one record per signature read.
pub proof fn lemma_history_len(owner: Seq<u8>, entries: Seq<SignatureEntry>)
    ensures
        history_of(owner, entries).len() <= entries.len(),
    decreases entries.len(),
{
    if entries.len() > 0 {
        lemma_history_len(owner, entries.drop_last());
    }
}

/// Scanning one list of signatures after another is scanning their concatenation.
pub proof fn lemma_history_concat(owner: Seq<u8>, a: Seq<SignatureEntry>, b: Seq<SignatureEntry>)
    ensures
        history_of(owner, a + b) == history_of(owner, a) + history_of(owner, b),
    decreases b.len(),
{
    if b.len() == 0 {
        assert(a + b =~= a);
        assert(history_of(owner, a) + history_of(owner, b) =~= history_of(owner, a));
    } else {
        lemma_history_concat(owner, a, b.drop_last());
        assert((a + b).drop_last() =~= a + b.drop_last());
        assert((a + b).last() == b.last());
        assert(history_of(owner, a + b) =~= history_of(owner, a) + history_of(owner, b));
    }
}

impl FinternetClient {
    /// The transfer records of `owner`'s most recent signatures, at most `limit`
    /// of them (ten by default), most recent first. A signature whose text is
    /// not a signature, whose transaction could not be fetched, or whose
    /// changed account names no valid mint is skipped and listed in `skipped`
    /// with its position; the scan goes on with the others.
    pub fn get_transaction_history(
        &self,
        owner: &PublicKey,
        limit: Option<usize>,
        entries: &Vec<SignatureEntry>,
    ) -> (r: HistoryScan)
        ensures
            records_view(r.records@) == history_of(owner@, history_window(entries@, effective_limit(limit))),
            r.skipped@ == skipped_history(owner@, history_window(entries@, effective_limit(limit))),
            r.records@.len() <= effective_limit(limit),
    {
        let lim = match limit {
            Some(n) => n,
            None => DEFAULT_HISTORY_LIMIT,
        };
        let n = if lim < entries.len() { lim } else { entries.len() };
        let ghost window = history_window(entries@, effective_limit(limit));
        assert(window =~= entries@.subrange(0, n as int));
        let mut records: Vec<TransactionRecord> = Vec::new();
        let mut skipped: Vec<(usize, HistorySkip)> = Vec::new();
        let mut i: usize = 0;
        assert(entries@.subrange(0, 0) =~= Seq::<SignatureEntry>::empty());
        assert(records_view(records@) =~= Seq::<TransferModel>::empty());
        while i < n
            invariant
                i <= n <= entries@.len(),
                window == entries@.subrange(0, n as int),
                window == history_window(entries@, effective_limit(limit)),
                n <= effective_limit(limit),
                records_view(records@) == history_of(owner@, entries@.subrange(0, i as int)),
                skipped@ == skipped_history(owner@, entries@.subrange(0, i as int)),
            decreases n - i,
        {
            let ghost next = entries@.subrange(0, i + 1);
            assert(next.drop_last() =~= entries@.subrange(0, i as int));
            assert(next.last() == entries@[i as int]);
            let ghost before = records@;
            let entry = &entries[i];
            match Signature::parse(entry.signature.as_str()) {
                None => skipped.push((i, HistorySkip::InvalidSignature)),
                Some(signature) => match &entry.transaction {
                    None => skipped.push((i, HistorySkip::FetchFailed)),
                    Some(tx) => match reconstruct_transfer(owner, &signature, tx, entry.block_time) {
                        Ok(Some(record)) => {
                            records.push(record);
                            assert(records_view(records@) =~= records_view(before) + seq![record@]);
                        },
                        Ok(None) => {},
                        Err(TransferError::InvalidMint) => skipped.push((i, HistorySkip::InvalidMint)),
                    },
                },
            }
            assert(records_view(records@) =~= history_of(owner@, next));
            i = i + 1;
        }
        assert(entries@.subrange(0, n as int) == window);
        proof {
            lemma_history_len(owner@, window);
        }
        HistoryScan { records, skipped }
    }
}

/// A signature whose transaction could not be fetched is skipped: the scan
/// gives the records it gives with that entry removed, the others in their order.
pub proof fn lemma_failed_fetch_skipped(owner: Seq<u8>, entries: Seq<SignatureEntry>, i: int)
    requires
        0 <= i < entries.len(),
        entries[i].transaction is None,
    ensures
        history_of(owner, entries) == history_of(owner, entries.remove(i)),
{
    let front = entries.take(i);
    let one = seq![entries[i]];
    let back = entries.skip(i + 1);
    assert(entries =~= (front + one) + back);
    assert(entries.remove(i) =~= front + back);
    lemma_history_concat(owner, front + one, back);
    lemma_history_concat(owner, front, one);
    lemma_history_concat(owner, front, back);
    assert(one.drop_last() =~= Seq::<SignatureEntry>::empty());
    assert(one.last() == entries[i]);
    assert(history_of(owner, one.drop_last()) =~= Seq::<TransferModel>::empty());
    assert(history_step(owner, entries[i]) is Err);
    assert(step_records(owner, entries[i]) =~= Seq::<TransferModel>::empty());
    assert(history_of(owner, one) =~= Seq::<TransferModel>::empty());
    assert(history_of(owner, front) + history_of(owner, one) =~= history_of(owner, front));
}

/// Whether a fetched transaction shows no token balance change: no metadata,
/// a balance snapshot absent, or every paired account's amount the same.
pub open spec fn shows_no_change(tx: FetchedTransaction) -> bool {
    match tx.meta {
        None => true,
        Some(m) => match (m.pre_token_balances, m.post_token_balances) {
            (Some(pre), Some(post)) => snapshots_unchanged(pre@, post@),
            _ => true,
        },
    }
}

/// Whether a signature's transaction, where it was fetched, shows no change.
pub open spec fn entry_shows_no_change(e: SignatureEntry) -> bool {
    match e.transaction {
        Some(tx) => shows_no_change(tx),
        None => true,
    }
}

/// A history whose fetched transactions all lack balance snapshots, or show
/// no balance change, has no records.
pub proof fn lemma_unchanged_history_empty(owner: Seq<u8>, entries: Seq<SignatureEntry>)
    requires
        forall|j: int| 0 <= j < entries.len() ==> entry_shows_no_change(#[trigger] entries[j]),
    ensures
        history_of(owner, entries) == Seq::<TransferModel>::empty(),
    decreases entries.len(),
{
    if entries.len() > 0 {
        let e = entries.last();
        assert(entries.drop_last().len() == entries.len() - 1);
        assert forall|j: int| 0 <= j < entries.drop_last().len() implies entry_shows_no_change(
            #[trigger] entries.drop_last()[j],
        ) by {
            assert(entries.drop_last()[j] == entries[j]);
        }
        lemma_unchanged_history_empty(owner, entries.drop_last());
        assert(e == entries[entries.len() - 1]);
        match signature_from_text(e.signature@) {
            Some(sig) => match e.transaction {
                Some(tx) => {
                    assert(entry_shows_no_change(entries[entries.len() - 1]));
                    match tx.meta {
                        Some(m) => {
                            if m.pre_token_balances is Some && m.post_token_balances is Some {
                                lemma_unchanged_snapshots_no_record(owner, sig, tx, e.block_time);
                            }
                        },
                        None => {},
                    }
                },
                None => {},
            },
            None => {},
        }
        assert(step_records(owner, e) =~= Seq::<TransferModel>::empty());
        assert(history_of(owner, entries) =~= Seq::<TransferModel>::empty());
    }
}

/// The records of a scan come from the scanned signatures in their order: the
/// `k`-th record carries the signature of entry `idx[k]`, and `idx` increases.
pub proof fn lemma_history_in_order(owner: Seq<u8>, entries: Seq<SignatureEntry>) -> (idx: Seq<int>)
    ensures
        idx.len() == history_of(owner, entries).len(),
        forall|k: int| 0 <= k < idx.len() ==> 0 <= #[trigger] idx[k] < entries.len()
            && signature_from_text(entries[idx[k]].signature@) == Some(history_of(owner, entries)[k].signature),
        forall|k: int, l: int| 0 <= k < l < idx.len() ==> #[trigger] idx[k] < #[trigger] idx[l],
    decreases entries.len(),
{
    if entries.len() == 0 {
        Seq::empty()
    } else {
        let prev = entries.drop_last();
        let p = lemma_history_in_order(owner, prev);
        let e = entries.last();
        let h = history_of(owner, entries);
        let hp = history_of(owner, prev);
        assert(forall|j: int| 0 <= j < prev.len() ==> #[trigger] prev[j] == entries[j]);
        match history_step(owner, e) {
            Ok(Some(t)) => {
                let idx = p.push(entries.len() - 1);
                assert(h == hp + seq![t]);
                assert(h[hp.len() as int] == t);
                assert(forall|k: int| 0 <= k < hp.len() ==> h[k] == hp[k]);
                let sig = signature_from_text(e.signature@)->0;
                assert(t.signature == sig);
                assert forall|k: int| 0 <= k < idx.len() implies 0 <= #[trigger] idx[k] < entries.len()
                    && signature_from_text(entries[idx[k]].signature@) == Some(h[k].signature) by {
                    if k < p.len() {
                        assert(idx[k] == p[k]);
                    }
                }
                assert forall|k: int, l: int| 0 <= k < l < idx.len() implies #[trigger] idx[k] < #[trigger] idx[l] by {
                    if l < p.len() {
                        assert(idx[k] == p[k] && idx[l] == p[l]);
                    } else {
                        assert(idx[k] == p[k]);
                    }
                }
                idx
            },
            _ => {
                assert(h =~= hp);
                p
            },
        }
    }
}

} // verus!
