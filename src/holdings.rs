//! The Holdings Aggregator: the balance of each mint that an owner holds,
//! built from the owner's raw token account records.
use vstd::prelude::*;
use crate::account::{AccountData, DecodeError, decode_account, decoded_account};
use crate::FinternetClient;
use crate::asset::AssetMetadata;
use crate::entries::{has_key, keys_unique, lemma_upsert, lookup, upsert};
use crate::keys::PublicKey;

verus! {

/// Balances as plain values: (mint, amount) in order of first appearance.
pub type Balances = Seq<(Seq<u8>, u64)>;

/// A mapping from mint to amount, one entry per distinct mint.
#[derive(Clone, Debug)]
pub struct HoldingsMap {
    entries: Vec<(PublicKey, u64)>,
}

impl View for HoldingsMap {
    type V = Balances;

    closed spec fn view(&self) -> Balances {
        Seq::new(self.entries@.len(), |i: int| (self.entries@[i].0@, self.entries@[i].1))
    }
}

impl HoldingsMap {
    pub open spec fn wf(&self) -> bool {
        keys_unique(self@)
    }

    pub fn new() -> (r: HoldingsMap)
        ensures
            r.wf(),
            r@ == Seq::<(Seq<u8>, u64)>::empty(),
    {
        let r = HoldingsMap { entries: Vec::new() };
        assert(r@ =~= Seq::<(Seq<u8>, u64)>::empty());
        r
    }

    /// Sets the balance of `mint`; a later write for the same mint wins.
    pub fn insert(&mut self, mint: PublicKey, amount: u64)
        requires
            old(self).wf(),
        ensures
            final(self).wf(),
            final(self)@ == upsert(old(self)@, mint@, amount),
            lookup(final(self)@, mint@) == Some(amount),
            forall|k: Seq<u8>| k != mint@ ==> #[trigger] lookup(final(self)@, k) == lookup(old(self)@, k),
            final(self)@.len() == old(self)@.len() + (if has_key(old(self)@, mint@) { 0int } else { 1 }),
    {
        let ghost before = self@;
        let mut i: usize = 0;
        while i < self.entries.len()
            invariant
                i <= self.entries@.len(),
                self@ == before,
                before == old(self)@,
                keys_unique(before),
                forall|j: int| 0 <= j < i ==> before[j].0 != mint@,
            decreases self.entries.len() - i,
        {
            if self.entries[i].0.same_as(&mint) {
                assert(before[i as int].0 == mint@);
                assert(has_key(before, mint@));
                let ghost c = choose|j: int| 0 <= j < before.len() && #[trigger] before[j].0 == mint@;
                assert(c == i);
                self.entries.set(i, (mint, amount));
                assert(self@ =~= before.update(i as int, (mint@, amount)));
                proof {
                    lemma_upsert(before, mint@, amount);
                }
                return;
            }
            i = i + 1;
        }
        assert(!has_key(before, mint@));
        self.entries.push((mint, amount));
        assert(self@ =~= before.push((mint@, amount)));
        proof {
            lemma_upsert(before, mint@, amount);
        }
    }

    /// The balance of `mint`, if it has an entry.
    pub fn get(&self, mint: &PublicKey) -> (r: Option<u64>)
        requires
            self.wf(),
        ensures
            r == lookup(self@, mint@),
    {
        let mut i: usize = 0;
        while i < self.entries.len()
            invariant
                i <= self.entries@.len(),
                keys_unique(self@),
                forall|j: int| 0 <= j < i ==> self@[j].0 != mint@,
            decreases self.entries.len() - i,
        {
            if self.entries[i].0.same_as(mint) {
                assert(self@[i as int].0 == mint@);
                assert(has_key(self@, mint@));
                return Some(self.entries[i].1);
            }
            i = i + 1;
        }
        None
    }

    pub fn len(&self) -> (r: usize)
        ensures
            r == self@.len(),
    {
        self.entries.len()
    }

    pub fn is_empty(&self) -> (r: bool)
        ensures
            r == (self@.len() == 0),
    {
        self.entries.len() == 0
    }

    /// The entries, mint and amount, in order of first appearance.
    pub fn entries(&self) -> (r: &Vec<(PublicKey, u64)>)
        ensures
            r@.len() == self@.len(),
            forall|i: int| 0 <= i < r@.len() ==> (#[trigger] r@[i].0@, r@[i].1) == self@[i],
    {
        &self.entries
    }
}

/// The balances after reading each record in turn over `start`: a record that
/// decodes sets its mint's amount, one that does not changes nothing.
pub open spec fn apply_records(start: Balances, records: Seq<AccountData>) -> Balances
    decreases records.len(),
{
    if records.len() == 0 {
        start
    } else {
        let prev = apply_records(start, records.drop_last());
        match decoded_account(records.last()) {
            Ok(m) => upsert(prev, m.1, m.2),
            Err(_) => prev,
        }
    }
}

/// The holdings that a list of raw records gives.
pub open spec fn holdings_of(records: Seq<AccountData>) -> Balances {
    apply_records(Seq::empty(), records)
}

/// The position and decode error of each record that does not decode, in order.
pub open spec fn skipped_records(records: Seq<AccountData>) -> Seq<(usize, DecodeError)>
    decreases records.len(),
{
    if records.len() == 0 {
        Seq::empty()
    } else {
        let prev = skipped_records(records.drop_last());
        match decoded_account(records.last()) {
            Ok(_) => prev,
            Err(e) => prev.push(((records.len() - 1) as usize, e)),
        }
    }
}

/// The holdings read from an owner's records, with the records that were
/// skipped because they did not decode.
#[derive(Clone, Debug)]
pub struct HoldingsScan {
    pub holdings: HoldingsMap,
    pub skipped: Vec<(usize, DecodeError)>,
}

/// Decodes each record and sets its mint's balance; a record that does not
/// decode is skipped, and reported in `skipped`, without stopping the others.
pub fn aggregate_holdings(records: &Vec<AccountData>) -> (r: HoldingsScan)
    ensures
        r.holdings.wf(),
        r.holdings@ == holdings_of(records@),
        r.skipped@ == skipped_records(records@),
{
    let mut holdings = HoldingsMap::new();
    let mut skipped: Vec<(usize, DecodeError)> = Vec::new();
    let mut i: usize = 0;
    while i < records.len()
        invariant
            i <= records@.len(),
            holdings.wf(),
            holdings@ == holdings_of(records@.subrange(0, i as int)),
            skipped@ == skipped_records(records@.subrange(0, i as int)),
        decreases records.len() - i,
    {
        let ghost next = records@.subrange(0, i + 1);
        assert(next.drop_last() =~= records@.subrange(0, i as int));
        assert(next.last() == records@[i as int]);
        match decode_account(&records[i]) {
            Ok(view) => holdings.insert(view.mint, view.amount),
            Err(e) => skipped.push((i, e)),
        }
        i = i + 1;
    }
    assert(records@.subrange(0, records@.len() as int) =~= records@);
    HoldingsScan { holdings, skipped }
}

/// The entries with a positive amount, in order.
pub open spec fn positive_entries(s: Balances) -> Balances
    decreases s.len(),
{
    if s.len() == 0 {
        s
    } else {
        let prev = positive_entries(s.drop_last());
        if s.last().1 > 0 {
            prev.push(s.last())
        } else {
            prev
        }
    }
}

/// A list of (mint, amount) pairs as plain values.
pub open spec fn pairs_view(v: Seq<(PublicKey, u64)>) -> Balances {
    Seq::new(v.len(), |i: int| (v[i].0@, v[i].1))
}

impl HoldingsMap {
    /// The holdings with a positive balance, in order.
    pub fn owned_assets(&self) -> (r: Vec<(PublicKey, u64)>)
        ensures
            pairs_view(r@) == positive_entries(self@),
            forall|i: int| 0 <= i < r@.len() ==> #[trigger] r@[i].1 > 0,
    {
        let mut r: Vec<(PublicKey, u64)> = Vec::new();
        let mut i: usize = 0;
        while i < self.entries.len()
            invariant
                i <= self@.len(),
                pairs_view(r@) == positive_entries(self@.subrange(0, i as int)),
                forall|j: int| 0 <= j < r@.len() ==> #[trigger] r@[j].1 > 0,
            decreases self@.len() - i,
        {
            let ghost next = self@.subrange(0, i + 1);
            assert(next.drop_last() =~= self@.subrange(0, i as int));
            let (mint, amount) = self.entries[i];
            if amount > 0 {
                let ghost before = r@;
                r.push((mint, amount));
                assert(pairs_view(r@) =~= pairs_view(before).push((mint@, amount)));
            }
            i = i + 1;
        }
        assert(self@.subrange(0, self@.len() as int) =~= self@);
        r
    }
}

/// Reading records one list after another is reading their concatenation.
pub proof fn lemma_apply_records_concat(start: Balances, a: Seq<AccountData>, b: Seq<AccountData>)
    ensures
        apply_records(start, a + b) == apply_records(apply_records(start, a), b),
    decreases b.len(),
{
    if b.len() == 0 {
        assert(a + b =~= a);
    } else {
        lemma_apply_records_concat(start, a, b.drop_last());
        assert((a + b).drop_last() =~= a + b.drop_last());
        assert((a + b).last() == b.last());
    }
}

/// An account record in an encoding that the decoder does not read: the
/// legacy untagged form, or a binary payload tagged other than base58 or
/// base64.
pub open spec fn unsupported_encoding(data: AccountData) -> bool {
    match data {
        AccountData::LegacyBinary(_) => true,
        AccountData::Binary(_, e) => e != crate::account::AccountEncoding::Base58
            && e != crate::account::AccountEncoding::Base64,
        AccountData::Json(_) => false,
    }
}

/// A record in an unsupported encoding is a decode failure, and the holdings
/// are the same as if the record were not there.
pub proof fn lemma_unsupported_record_excluded(records: Seq<AccountData>, i: int)
    requires
        0 <= i < records.len(),
        unsupported_encoding(records[i]),
    ensures
        decoded_account(records[i]) == Err::<crate::account::TokenAccountModel, DecodeError>(
            DecodeError::UnsupportedEncoding,
        ),
        holdings_of(records) == holdings_of(records.remove(i)),
{
    lemma_failed_record_excluded(records, i);
}

/// A record that does not decode leaves the holdings as if it were not there.
pub proof fn lemma_failed_record_excluded(records: Seq<AccountData>, i: int)
    requires
        0 <= i < records.len(),
        decoded_account(records[i]) is Err,
    ensures
        holdings_of(records) == holdings_of(records.remove(i)),
{
    let empty = Seq::<(Seq<u8>, u64)>::empty();
    let front = records.take(i);
    let one = seq![records[i]];
    let back = records.skip(i + 1);
    assert(records =~= (front + one) + back);
    assert(records.remove(i) =~= front + back);
    lemma_apply_records_concat(empty, front + one, back);
    lemma_apply_records_concat(empty, front, one);
    lemma_apply_records_concat(empty, front, back);
    let mid = apply_records(empty, front);
    assert(one.drop_last() =~= Seq::<AccountData>::empty());
    assert(apply_records(mid, one.drop_last()) == mid);
    assert(one.last() == records[i]);
    assert(apply_records(mid, one) == mid);
}

/// No owned asset has a zero amount, whatever the holdings.
pub proof fn lemma_owned_assets_positive(s: Balances)
    ensures
        forall|i: int| 0 <= i < positive_entries(s).len() ==> #[trigger] positive_entries(s)[i].1 > 0,
    decreases s.len(),
{
    if s.len() > 0 {
        lemma_owned_assets_positive(s.drop_last());
        let p = positive_entries(s.drop_last());
        assert forall|i: int| 0 <= i < positive_entries(s).len() implies #[trigger] positive_entries(s)[i].1 > 0 by {
            if i < p.len() {
                assert(positive_entries(s)[i] == p[i]);
            }
        }
    }
}

/// A token held with a positive balance, with its display name where its
/// metadata could be resolved.
#[derive(Clone, Debug)]
pub struct DiscoveredToken {
    pub mint: PublicKey,
    pub balance: u64,
    pub display_name: Option<String>,
}

/// An account's native balance and its token holdings.
#[derive(Clone, Debug)]
pub struct WalletInfo {
    pub pubkey: PublicKey,
    pub sol_balance: u64,
    pub token_balances: HoldingsMap,
}

impl WalletInfo {
    pub fn has_tokens(&self) -> (r: bool)
        ensures
            r == (self.token_balances@.len() > 0),
    {
        !self.token_balances.is_empty()
    }

    pub fn total_token_types(&self) -> (r: usize)
        ensures
            r == self.token_balances@.len(),
    {
        self.token_balances.len()
    }
}

impl FinternetClient {
    /// The holdings of an owner, from the raw records of the token accounts it
    /// owns; records that do not decode are listed in `skipped`.
    pub fn get_token_accounts(&self, token_accounts: &Vec<AccountData>) -> (r: HoldingsScan)
        ensures
            r.holdings.wf(),
            r.holdings@ == holdings_of(token_accounts@),
            r.skipped@ == skipped_records(token_accounts@),
    {
        aggregate_holdings(token_accounts)
    }

    /// The mints that an owner holds a positive balance of, with the balance.
    pub fn get_owned_assets(&self, token_accounts: &Vec<AccountData>) -> (r: Vec<(PublicKey, u64)>)
        ensures
            pairs_view(r@) == positive_entries(holdings_of(token_accounts@)),
            forall|i: int| 0 <= i < r@.len() ==> #[trigger] r@[i].1 > 0,
    {
        let scan = aggregate_holdings(token_accounts);
        scan.holdings.owned_assets()
    }

    /// The tokens held with a positive balance, each with the name of the asset
    /// record resolved for it: `metadata[i]` is what was resolved for the
    /// `i`-th of them.
    pub fn discover_all_tokens(&self, holdings: &HoldingsMap, metadata: &Vec<Option<AssetMetadata>>) -> (r: Vec<DiscoveredToken>)
        requires
            metadata@.len() == positive_entries(holdings@).len(),
        ensures
            r@.len() == positive_entries(holdings@).len(),
            forall|i: int| 0 <= i < r@.len() ==> {
                &&& (#[trigger] r@[i]).mint@ == positive_entries(holdings@)[i].0
                &&& r@[i].balance == positive_entries(holdings@)[i].1
                &&& match metadata@[i] {
                    Some(m) => r@[i].display_name matches Some(n) && n@ == m.name@,
                    None => r@[i].display_name is None,
                }
            },
    {
        let owned = holdings.owned_assets();
        let mut r: Vec<DiscoveredToken> = Vec::new();
        let mut i: usize = 0;
        while i < owned.len()
            invariant
                i <= owned@.len(),
                owned@.len() == metadata@.len(),
                pairs_view(owned@) == positive_entries(holdings@),
                r@.len() == i,
                forall|j: int| 0 <= j < i ==> {
                    &&& (#[trigger] r@[j]).mint@ == positive_entries(holdings@)[j].0
                    &&& r@[j].balance == positive_entries(holdings@)[j].1
                    &&& match metadata@[j] {
                        Some(m) => r@[j].display_name matches Some(n) && n@ == m.name@,
                        None => r@[j].display_name is None,
                    }
                },
            decreases owned.len() - i,
        {
            assert(pairs_view(owned@)[i as int] == (owned@[i as int].0@, owned@[i as int].1));
            let display_name = match &metadata[i] {
                Some(m) => Some(m.name.clone()),
                None => None,
            };
            r.push(DiscoveredToken { mint: owned[i].0, balance: owned[i].1, display_name });
            i = i + 1;
        }
        r
    }

    /// An account's native balance together with its holdings.
    pub fn get_wallet_info(&self, pubkey: &PublicKey, sol_balance: u64, token_accounts: &Vec<AccountData>) -> (r: WalletInfo)
        ensures
            r.pubkey == *pubkey,
            r.sol_balance == sol_balance,
            r.token_balances.wf(),
            r.token_balances@ == holdings_of(token_accounts@),
    {
        let scan = aggregate_holdings(token_accounts);
        WalletInfo { pubkey: *pubkey, sol_balance, token_balances: scan.holdings }
    }
}

} // verus!
