//! Public keys and transaction signatures, and their base58 text form.
use vstd::prelude::*;

verus! {

/// What `bs58::decode(s).into_vec()` yields for the text `s`: the decoded
/// bytes, or `None` where `s` is not base58.
pub uninterp spec fn base58_decoded(s: Seq<char>) -> Option<Seq<u8>>;

/// Relies on `bs58::decode(..).into_vec()` (bitcoin alphabet): its result is a
/// function of the text alone.
#[verifier::external_body]
pub(crate) fn decode_base58(s: &str) -> (r: Option<Vec<u8>>)
    ensures
        r matches Some(b) ==> base58_decoded(s@) == Some(b@),
        r is None ==> base58_decoded(s@) is None,
{
    bs58::decode(s).into_vec().ok()
}

pub open spec fn is_ascii_text(s: Seq<char>) -> bool {
    forall|i: int| 0 <= i < s.len() ==> (s[i] as u32) < 128
}

/// The bytes that a base58 text of at most `max_len` characters names, when it
/// decodes to exactly `width` bytes.
pub open spec fn fixed_width_base58(s: Seq<char>, max_len: nat, width: nat) -> Option<Seq<u8>> {
    if is_ascii_text(s) && s.len() <= max_len {
        match base58_decoded(s) {
            Some(b) => if b.len() == width { Some(b) } else { None },
            None => None,
        }
    } else {
        None
    }
}

/// A 32-byte account address.
#[derive(Clone, Copy, Debug, PartialEq, Eq, Hash)]
pub struct PublicKey {
    pub bytes: [u8; 32],
}

impl View for PublicKey {
    type V = Seq<u8>;

    open spec fn view(&self) -> Seq<u8> {
        self.bytes@
    }
}

/// The key that a base58 text names, as `Pubkey::from_str` reads it.
pub open spec fn pubkey_from_text(s: Seq<char>) -> Option<Seq<u8>> {
    fixed_width_base58(s, 44, 32)
}

/// Relies on `Pubkey::from_str` of solana-program: it refuses a text longer than
/// 44 bytes, decodes it with `bs58::decode(..).into_vec()`, and accepts the
/// result only when it is 32 bytes long (non-ASCII text is never base58).
#[verifier::external_body]
fn pubkey_from_str(s: &str) -> (r: Option<PublicKey>)
    ensures
        r matches Some(k) ==> pubkey_from_text(s@) == Some(k@),
        r is None ==> pubkey_from_text(s@) is None,
{
    match s.parse::<solana_sdk::pubkey::Pubkey>() {
        Ok(k) => Some(PublicKey { bytes: k.to_bytes() }),
        Err(_) => None,
    }
}

impl PublicKey {
    /// The all-zero key.
    pub fn zero() -> (r: PublicKey)
        ensures
            r@ == Seq::new(32, |i: int| 0u8),
    {
        let r = PublicKey { bytes: [0u8; 32] };
        assert(r@ =~= Seq::new(32, |i: int| 0u8));
        r
    }

    pub fn from_bytes(bytes: [u8; 32]) -> (r: PublicKey)
        ensures
            r@ == bytes@,
    {
        PublicKey { bytes }
    }

    /// Parses the base58 text form of a key.
    pub fn parse(s: &str) -> (r: Option<PublicKey>)
        ensures
            r matches Some(k) ==> pubkey_from_text(s@) == Some(k@),
            r is None <==> pubkey_from_text(s@) is None,
    {
        pubkey_from_str(s)
    }

    /// Whether the two keys hold the same bytes.
    pub fn same_as(&self, other: &PublicKey) -> (r: bool)
        ensures
            r == (self@ == other@),
    {
        let mut i: usize = 0;
        while i < 32
            invariant
                i <= 32,
                forall|j: int| 0 <= j < i ==> self@[j] == other@[j],
            decreases 32 - i,
        {
            if self.bytes[i] != other.bytes[i] {
                return false;
            }
            i = i + 1;
        }
        assert(self@ =~= other@);
        true
    }
}

/// A 64-byte transaction signature, the identifier of a submitted transaction.
#[derive(Clone, Copy, Debug, PartialEq, Eq, Hash)]
pub struct Signature {
    pub bytes: [u8; 64],
}

impl View for Signature {
    type V = Seq<u8>;

    open spec fn view(&self) -> Seq<u8> {
        self.bytes@
    }
}

/// The signature that a base58 text names, as `Signature::from_str` reads it.
pub open spec fn signature_from_text(s: Seq<char>) -> Option<Seq<u8>> {
    fixed_width_base58(s, 88, 64)
}

/// Relies on `Signature::from_str` of solana-sdk: it refuses a text longer than
/// 88 bytes, decodes it with `bs58::decode(..).into_vec()`, and accepts the
/// result only when it is 64 bytes long (non-ASCII text is never base58).
#[verifier::external_body]
fn signature_from_str(s: &str) -> (r: Option<Signature>)
    ensures
        r matches Some(k) ==> signature_from_text(s@) == Some(k@),
        r is None ==> signature_from_text(s@) is None,
{
    match s.parse::<solana_sdk::signature::Signature>() {
        Ok(k) => Some(Signature { bytes: <[u8; 64]>::from(k) }),
        Err(_) => None,
    }
}

impl Signature {
    pub fn from_bytes(bytes: [u8; 64]) -> (r: Signature)
        ensures
            r@ == bytes@,
    {
        Signature { bytes }
    }

    /// Parses the base58 text form of a signature.
    pub fn parse(s: &str) -> (r: Option<Signature>)
        ensures
            r matches Some(k) ==> signature_from_text(s@) == Some(k@),
            r is None <==> signature_from_text(s@) is None,
    {
        signature_from_str(s)
    }
}

/// Bytes of the memo program's address, `MemoSq4gqABAXKb96qnH8TysNcWxMyWCqXgDLGmfcHr`.
pub open spec fn memo_program_bytes() -> Seq<u8> {
    seq![
        5u8, 74, 83, 90, 153, 41, 33, 6, 77, 36, 232, 113, 96, 218, 56, 124,
        124, 53, 181, 221, 188, 146, 187, 129, 228, 31, 168, 64, 65, 5, 68, 141,
    ]
}

/// The memo program, which records a free-text annotation in a transaction.
pub fn memo_program_id() -> (r: PublicKey)
    ensures
        r@ == memo_program_bytes(),
{
    let r = PublicKey {
        bytes: [
            5u8, 74, 83, 90, 153, 41, 33, 6, 77, 36, 232, 113, 96, 218, 56, 124,
            124, 53, 181, 221, 188, 146, 187, 129, 228, 31, 168, 64, 65, 5, 68, 141,
        ],
    };
    assert(r@ =~= memo_program_bytes());
    r
}

/// Bytes of the token program's address, `TokenkegQfeZyiNwAJbNbGKPFXCWuBvf9Ss623VQ5DA`.
pub open spec fn token_program_bytes() -> Seq<u8> {
    seq![
        6u8, 221, 246, 225, 215, 101, 161, 147, 217, 203, 225, 70, 206, 235, 121, 172,
        28, 180, 133, 237, 95, 91, 55, 145, 58, 140, 245, 133, 126, 255, 0, 169,
    ]
}

/// Relies on `spl_token::id()`: the token program's fixed address.
#[verifier::external_body]
pub(crate) fn token_program_id() -> (r: PublicKey)
    ensures
        r@ == token_program_bytes(),
{
    PublicKey { bytes: spl_token::id().to_bytes() }
}

} // verus!
