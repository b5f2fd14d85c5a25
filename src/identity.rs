//! Identities: what the ledger shows of an address, and signature checks of
//! wallet ownership.
use vstd::prelude::*;
use vstd::string::StringSliceAdditionalSpecFns;
use crate::FinternetClient;
use crate::asset::AccountSummary;
use crate::keys::{PublicKey, Signature, signature_from_text, token_program_bytes, token_program_id};
use crate::entries::{has_key, keys_unique, lemma_upsert, lookup, upsert};
use crate::text::same_text;

verus! {

/// Text entries as plain values, in order of first appearance.
pub type TextEntries = Seq<(Seq<char>, Seq<char>)>;

/// An address with an optional display name and named attributes.
#[derive(Clone, Debug)]
pub struct FinternetIdentity {
    pub pubkey: PublicKey,
    pub display_name: Option<String>,
    pub metadata: Vec<(String, String)>,
}

impl FinternetIdentity {
    /// The attributes, key and value, in order of first appearance.
    pub open spec fn metadata_view(&self) -> TextEntries {
        Seq::new(self.metadata@.len(), |i: int| (self.metadata@[i].0@, self.metadata@[i].1@))
    }

    pub open spec fn wf(&self) -> bool {
        keys_unique(self.metadata_view())
    }

    pub fn new(pubkey: PublicKey) -> (r: FinternetIdentity)
        ensures
            r.wf(),
            r.pubkey == pubkey,
            r.display_name is None,
            r.metadata_view() == Seq::<(Seq<char>, Seq<char>)>::empty(),
    {
        let r = FinternetIdentity { pubkey, display_name: None, metadata: Vec::new() };
        assert(r.metadata_view() =~= Seq::<(Seq<char>, Seq<char>)>::empty());
        r
    }

    pub fn with_display_name(self, name: &str) -> (r: FinternetIdentity)
        requires
            self.wf(),
        ensures
            r.wf(),
            r.pubkey == self.pubkey,
            r.display_name matches Some(n) && n@ == name@,
            r.metadata_view() == self.metadata_view(),
    {
        FinternetIdentity { pubkey: self.pubkey, display_name: Some(name.to_owned()), metadata: self.metadata }
    }

    /// Sets the attribute `key`; a later value for the same key wins.
    pub fn with_metadata(self, key: &str, value: &str) -> (r: FinternetIdentity)
        requires
            self.wf(),
        ensures
            r.wf(),
            r.pubkey == self.pubkey,
            r.display_name == self.display_name,
            r.metadata_view() == upsert(self.metadata_view(), key@, value@),
            lookup(r.metadata_view(), key@) == Some(value@),
            forall|k: Seq<char>| k != key@ ==> #[trigger] lookup(r.metadata_view(), k) == lookup(self.metadata_view(), k),
    {
        let ghost before = self.metadata_view();
        let mut metadata = self.metadata;
        let mut i: usize = 0;
        while i < metadata.len()
            invariant
                i <= metadata@.len(),
                metadata@ == self.metadata@,
                keys_unique(before),
                before == self.metadata_view(),
                forall|j: int| 0 <= j < i ==> before[j].0 != key@,
            decreases metadata.len() - i,
        {
            assert(before[i as int].0 == metadata@[i as int].0@);
            if same_text(metadata[i].0.as_str(), key) {
                assert(has_key(before, key@));
                let ghost c = choose|j: int| 0 <= j < before.len() && #[trigger] before[j].0 == key@;
                assert(c == i);
                metadata.set(i, (key.to_owned(), value.to_owned()));
                let r = FinternetIdentity { pubkey: self.pubkey, display_name: self.display_name, metadata };
                assert(r.metadata_view() =~= before.update(i as int, (key@, value@)));
                proof {
                    lemma_upsert(before, key@, value@);
                }
                return r;
            }
            i = i + 1;
        }
        assert(!has_key(before, key@));
        metadata.push((key.to_owned(), value.to_owned()));
        let r = FinternetIdentity { pubkey: self.pubkey, display_name: self.display_name, metadata };
        assert(r.metadata_view() =~= before.push((key@, value@)));
        proof {
            lemma_upsert(before, key@, value@);
        }
        r
    }
}

/// The decimal digit character of `d`.
pub open spec fn digit_char(d: nat) -> char {
    if d == 0 { '0' } else if d == 1 { '1' } else if d == 2 { '2' } else if d == 3 { '3' }
    else if d == 4 { '4' } else if d == 5 { '5' } else if d == 6 { '6' } else if d == 7 { '7' }
    else if d == 8 { '8' } else { '9' }
}

/// The decimal text of `n`, without leading zeros.
pub open spec fn decimal_digits(n: nat) -> Seq<char>
    decreases n,
{
    if n < 10 {
        seq![digit_char(n)]
    } else {
        decimal_digits(n / 10).push(digit_char(n % 10))
    }
}

fn digit_text(d: u64) -> (r: String)
    requires
        d < 10,
    ensures
        r@ == seq![digit_char(d as nat)],
{
    proof {
        reveal_strlit("0");
        reveal_strlit("1");
        reveal_strlit("2");
        reveal_strlit("3");
        reveal_strlit("4");
        reveal_strlit("5");
        reveal_strlit("6");
        reveal_strlit("7");
        reveal_strlit("8");
        reveal_strlit("9");
    }
    let r = if d == 0 { String::from_str("0") } else if d == 1 { String::from_str("1") }
    else if d == 2 { String::from_str("2") } else if d == 3 { String::from_str("3") }
    else if d == 4 { String::from_str("4") } else if d == 5 { String::from_str("5") }
    else if d == 6 { String::from_str("6") } else if d == 7 { String::from_str("7") }
    else if d == 8 { String::from_str("8") } else { String::from_str("9") };
    assert(r@ =~= seq![digit_char(d as nat)]);
    r
}

/// The decimal text of a number.
pub fn decimal_text(n: u64) -> (r: String)
    ensures
        r@ == decimal_digits(n as nat),
    decreases n,
{
    if n < 10 {
        digit_text(n)
    } else {
        let high = decimal_text(n / 10);
        let low = digit_text(n % 10);
        high.concat(low.as_str())
    }
}

/// Whether `sig` is a valid signature of `msg` by the key `key`, as
/// `solana_sdk::signature::Signature::verify` decides it.
pub uninterp spec fn ed25519_verifies(sig: Seq<u8>, key: Seq<u8>, msg: Seq<u8>) -> bool;

/// Relies on `Signature::verify` of solana-sdk (strict ed25519 verification):
/// its answer is a function of the signature, key and message bytes alone.
#[verifier::external_body]
fn verify_ed25519(sig: &Signature, key: &PublicKey, msg: &[u8]) -> (r: bool)
    ensures
        r == ed25519_verifies(sig@, key@, msg@),
{
    solana_sdk::signature::Signature::from(sig.bytes).verify(&key.bytes, msg)
}

/// The text form of a key, as `Pubkey`'s `Display` writes it (its bytes in
/// base58).
pub uninterp spec fn pubkey_display_text(key: Seq<u8>) -> Seq<char>;

/// Relies on `Display for solana_sdk::pubkey::Pubkey`: the text is a function
/// of the key's bytes alone.
#[verifier::external_body]
fn pubkey_text(key: &PublicKey) -> (r: String)
    ensures
        r@ == pubkey_display_text(key@),
{
    solana_sdk::pubkey::Pubkey::new_from_array(key.bytes).to_string()
}

/// A short form of a key's text: its first eight characters, `...`, and its
/// last eight; a text of fewer than eight characters stays whole.
pub open spec fn shortened(text: Seq<char>) -> Seq<char> {
    if text.len() < 8 {
        text
    } else {
        text.subrange(0, 8) + "..."@ + text.subrange(text.len() - 8, text.len() as int)
    }
}

/// Shortens a key's text for display.
pub fn readable_address(text: &str) -> (r: String)
    ensures
        r@ == shortened(text@),
{
    let n = text.unicode_len();
    if n < 8 {
        return text.to_owned();
    }
    let head = text.substring_char(0, 8);
    let tail = text.substring_char(n - 8, n);
    head.to_owned().concat("...").concat(tail)
}

/// Why a signature check could not be made.
#[derive(Clone, Copy, Debug, PartialEq, Eq, Structural)]
pub enum IdentityError {
    /// The signature's text is not a signature.
    InvalidSignature,
}

/// The identity that the ledger shows of an address: its native balance and
/// whether it holds any (`not_found` where the balance could not be read),
/// and a display name for the system and token programs.
pub open spec fn identity_entries(balance: Option<u64>) -> TextEntries {
    match balance {
        Some(b) => seq![
            ("sol_balance"@, decimal_digits(b as nat)),
            ("account_status"@, if b > 0 { "active"@ } else { "inactive"@ }),
        ],
        None => seq![("account_status"@, "not_found"@)],
    }
}

pub open spec fn identity_display_name(key: Seq<u8>) -> Option<Seq<char>> {
    if key == Seq::new(32, |i: int| 0u8) {
        Some("System Program"@)
    } else if key == token_program_bytes() {
        Some("SPL Token Program"@)
    } else {
        None
    }
}

impl FinternetClient {
    /// The identity of an address, from its native balance as the query layer
    /// reported it (`None` where the query failed).
    pub fn get_identity(&self, pubkey: &PublicKey, balance: Option<u64>) -> (r: FinternetIdentity)
        ensures
            r.wf(),
            r.pubkey == *pubkey,
            r.metadata_view() == identity_entries(balance),
            match identity_display_name(pubkey@) {
                Some(n) => r.display_name matches Some(d) && d@ == n,
                None => r.display_name is None,
            },
    {
        proof {
            reveal_strlit("sol_balance");
            reveal_strlit("account_status");
        }
        let mut identity = FinternetIdentity::new(*pubkey);
        match balance {
            Some(b) => {
                identity = identity.with_metadata("sol_balance", decimal_text(b).as_str());
                let ghost first = identity.metadata_view();
                assert(first =~= seq![("sol_balance"@, decimal_digits(b as nat))]);
                assert("sol_balance"@.len() != "account_status"@.len());
                assert(!has_key(first, "account_status"@)) by {
                    assert(first[0].0 != "account_status"@);
                }
                if b > 0 {
                    identity = identity.with_metadata("account_status", "active");
                } else {
                    identity = identity.with_metadata("account_status", "inactive");
                }
                assert(identity.metadata_view() =~= identity_entries(balance));
            },
            None => {
                identity = identity.with_metadata("account_status", "not_found");
                assert(identity.metadata_view() =~= identity_entries(balance));
            },
        }
        if pubkey.same_as(&PublicKey::zero()) {
            identity = identity.with_display_name("System Program");
        } else if pubkey.same_as(&token_program_id()) {
            identity = identity.with_display_name("SPL Token Program");
        }
        identity
    }

    /// A key's text shortened for display; the prefix is not used.
    pub fn create_readable_address(pubkey: &PublicKey, _prefix: &str) -> (r: String)
        ensures
            r@ == shortened(pubkey_display_text(pubkey@)),
    {
        let text = pubkey_text(pubkey);
        readable_address(text.as_str())
    }

    /// Whether an account exists and holds a native balance.
    pub fn is_account_active(&self, account: Option<AccountSummary>) -> (r: bool)
        ensures
            r == (account matches Some(a) && a.lamports > 0),
    {
        match account {
            Some(a) => a.lamports > 0,
            None => false,
        }
    }

    /// Whether `signature_text` is `pubkey`'s signature of the challenge's
    /// bytes; an error where the text is not a signature.
    pub fn verify_signature(pubkey: &PublicKey, challenge: &str, signature_text: &str) -> (r: Result<bool, IdentityError>)
        ensures
            signature_from_text(signature_text@) is None <==> r is Err,
            signature_from_text(signature_text@) matches Some(sig) ==> r == Ok::<bool, IdentityError>(
                ed25519_verifies(sig, pubkey@, challenge.spec_bytes()),
            ),
    {
        match Signature::parse(signature_text) {
            Some(sig) => Ok(verify_ed25519(&sig, pubkey, challenge.as_bytes())),
            None => Err(IdentityError::InvalidSignature),
        }
    }
}

} // verus!
