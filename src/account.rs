//! The Account Decoder: normalizes one raw account record, in any of the query
//! layer's encodings, into an owner-mint-amount view of a token account.
use vstd::prelude::*;
use base64::Engine;
use solana_sdk::program_pack::Pack;
use crate::json::{JsonValue, json_get, json_text};
use crate::keys::{PublicKey, base58_decoded, decode_base58, pubkey_from_text};
use crate::text::{parse_u64, parsed_u64};

verus! {

/// The wire encoding that a binary account payload is written in.
#[derive(Clone, Copy, Debug, PartialEq, Eq, Structural)]
pub enum AccountEncoding {
    Binary,
    Base58,
    Base64,
    JsonParsed,
    Base64Zstd,
}

/// One raw account record as the query layer returns it.
#[derive(Debug)]
pub enum AccountData {
    /// The legacy form: base58 text with no encoding tag.
    LegacyBinary(String),
    /// The structured form, whose payload already carries named fields.
    Json(JsonValue),
    /// Binary data written as text in the tagged encoding.
    Binary(String, AccountEncoding),
}

/// Why a raw account record could not be read as a token account.
#[derive(Clone, Copy, Debug, PartialEq, Eq, Structural)]
pub enum DecodeError {
    UnsupportedEncoding,
    InvalidBase64,
    InvalidBase58,
    InvalidLayout,
    MissingInfo,
    MissingMintOrAmount,
    MissingAmount,
    InvalidMint,
    InvalidAmount,
}

/// A token account: which mint it holds, how much of it in base units, and,
/// where the record carries it in a form this decoder reads, its owner.
#[derive(Clone, Copy, Debug, PartialEq, Eq)]
pub struct TokenAccountView {
    pub owner: Option<PublicKey>,
    pub mint: PublicKey,
    pub amount: u64,
}

/// A token account as plain values: owner, mint, amount.
pub type TokenAccountModel = (Option<Seq<u8>>, Seq<u8>, u64);

impl View for TokenAccountView {
    type V = TokenAccountModel;

    open spec fn view(&self) -> TokenAccountModel {
        (
            match self.owner {
                Some(k) => Some(k@),
                None => None,
            },
            self.mint@,
            self.amount,
        )
    }
}

/// What `base64::engine::general_purpose::STANDARD.decode(s)` yields for the
/// text `s`: the decoded bytes, or `None` where `s` is not padded base64.
pub uninterp spec fn base64_decoded(s: Seq<char>) -> Option<Seq<u8>>;

/// Relies on `base64`'s `STANDARD` engine (`Engine::decode`): its result is a
/// function of the text alone.
#[verifier::external_body]
fn decode_base64(s: &str) -> (r: Option<Vec<u8>>)
    ensures
        r matches Some(b) ==> base64_decoded(s@) == Some(b@),
        r is None ==> base64_decoded(s@) is None,
{
    base64::engine::general_purpose::STANDARD.decode(s).ok()
}

/// The number that eight bytes spell, least significant first.
pub open spec fn le_u64(b: Seq<u8>) -> int {
    b[0] as int + 0x100 * (b[1] as int + 0x100 * (b[2] as int + 0x100 * (b[3] as int
        + 0x100 * (b[4] as int + 0x100 * (b[5] as int + 0x100 * (b[6] as int + 0x100 * (
    b[7] as int)))))))
}

/// Whether the four bytes at `at` are the tag of an absent (0) or present (1)
/// optional field.
pub open spec fn option_tag_ok(b: Seq<u8>, at: int) -> bool {
    (b[at] == 0 || b[at] == 1) && b[at + 1] == 0 && b[at + 2] == 0 && b[at + 3] == 0
}

/// Length of a token account's fixed layout.
pub const TOKEN_ACCOUNT_LEN: usize = 165;

/// Whether the bytes are a token account in use: the fixed length, valid tags
/// for the optional delegate, native amount and close authority, and a state
/// of initialized (1) or frozen (2).
pub open spec fn token_layout_ok(b: Seq<u8>) -> bool {
    &&& b.len() == TOKEN_ACCOUNT_LEN
    &&& option_tag_ok(b, 72)
    &&& (b[108] == 1 || b[108] == 2)
    &&& option_tag_ok(b, 109)
    &&& option_tag_ok(b, 129)
}

/// The token account that valid layout bytes hold: mint at 0, owner at 32,
/// amount at 64.
pub open spec fn token_layout_fields(b: Seq<u8>) -> TokenAccountModel {
    (Some(b.subrange(32, 64)), b.subrange(0, 32), le_u64(b.subrange(64, 72)) as u64)
}

/// Relies on `spl_token::state::Account::unpack` (spl-token 4.0): it accepts
/// exactly 165 bytes with valid option tags and an initialized or frozen
/// state, and reads mint, owner and little-endian amount at fixed offsets.
#[verifier::external_body]
fn unpack_token_account(b: &Vec<u8>) -> (r: Option<TokenAccountView>)
    ensures
        r is Some <==> token_layout_ok(b@),
        r matches Some(v) ==> v@ == token_layout_fields(b@),
{
    spl_token::state::Account::unpack(b).ok().map(|a| TokenAccountView {
        owner: Some(PublicKey { bytes: a.owner.to_bytes() }),
        mint: PublicKey { bytes: a.mint.to_bytes() },
        amount: a.amount,
    })
}

/// The bytes that a binary payload's text stands for in its encoding.
pub open spec fn binary_payload(text: Seq<char>, encoding: AccountEncoding) -> Result<Seq<u8>, DecodeError> {
    match encoding {
        AccountEncoding::Base64 => match base64_decoded(text) {
            Some(b) => Ok(b),
            None => Err(DecodeError::InvalidBase64),
        },
        AccountEncoding::Base58 => match base58_decoded(text) {
            Some(b) => Ok(b),
            None => Err(DecodeError::InvalidBase58),
        },
        _ => Err(DecodeError::UnsupportedEncoding),
    }
}

/// The token account that binary data holds.
pub open spec fn token_account_of(b: Seq<u8>) -> Result<TokenAccountModel, DecodeError> {
    if token_layout_ok(b) {
        Ok(token_layout_fields(b))
    } else {
        Err(DecodeError::InvalidLayout)
    }
}

/// The text of the field `key` of `v`, where that field is a text.
pub open spec fn text_field(v: JsonValue, key: Seq<char>) -> Option<Seq<char>> {
    match json_get(v, key) {
        Some(f) => json_text(f),
        None => None,
    }
}

/// The token account that a structured payload describes: its `info` object
/// must hold a `mint` text and a `tokenAmount` object with an `amount` text,
/// the mint must be a key and the amount a base-unit `u64`.
pub open spec fn structured_account_of(parsed: JsonValue) -> Result<TokenAccountModel, DecodeError> {
    match json_get(parsed, "info"@) {
        None => Err(DecodeError::MissingInfo),
        Some(info) => match (text_field(info, "mint"@), json_get(info, "tokenAmount"@)) {
            (Some(mint), Some(token_amount)) => match text_field(token_amount, "amount"@) {
                None => Err(DecodeError::MissingAmount),
                Some(amount) => match (pubkey_from_text(mint), parsed_u64(amount)) {
                    (Some(k), Some(n)) => Ok((None, k, n)),
                    (None, _) => Err(DecodeError::InvalidMint),
                    (_, None) => Err(DecodeError::InvalidAmount),
                },
            },
            _ => Err(DecodeError::MissingMintOrAmount),
        },
    }
}

/// What a raw account record decodes to.
pub open spec fn decoded_account(data: AccountData) -> Result<TokenAccountModel, DecodeError> {
    match data {
        AccountData::Binary(text, encoding) => match binary_payload(text@, encoding) {
            Ok(b) => token_account_of(b),
            Err(e) => Err(e),
        },
        AccountData::Json(parsed) => structured_account_of(parsed),
        AccountData::LegacyBinary(_) => Err(DecodeError::UnsupportedEncoding),
    }
}

/// A decode result as plain values.
pub open spec fn decode_result_view(r: Result<TokenAccountView, DecodeError>) -> Result<TokenAccountModel, DecodeError> {
    match r {
        Ok(v) => Ok(v@),
        Err(e) => Err(e),
    }
}

/// Reads fixed-layout token account bytes.
pub fn decode_token_account_bytes(b: &Vec<u8>) -> (r: Result<TokenAccountView, DecodeError>)
    ensures
        decode_result_view(r) == token_account_of(b@),
{
    match unpack_token_account(b) {
        Some(v) => Ok(v),
        None => Err(DecodeError::InvalidLayout),
    }
}

/// Reads a structured token account payload.
pub fn decode_structured_account(parsed: &JsonValue) -> (r: Result<TokenAccountView, DecodeError>)
    ensures
        decode_result_view(r) == structured_account_of(*parsed),
{
    let info = match parsed.get("info") {
        Some(info) => info,
        None => return Err(DecodeError::MissingInfo),
    };
    let mint_text = match info.get("mint") {
        Some(m) => m.as_str(),
        None => None,
    };
    let token_amount = info.get("tokenAmount");
    let (mint_text, token_amount) = match (mint_text, token_amount) {
        (Some(m), Some(t)) => (m, t),
        _ => return Err(DecodeError::MissingMintOrAmount),
    };
    let amount_text = match token_amount.get("amount") {
        Some(a) => a.as_str(),
        None => None,
    };
    let amount_text = match amount_text {
        Some(a) => a,
        None => return Err(DecodeError::MissingAmount),
    };
    match (PublicKey::parse(mint_text), parse_u64(amount_text)) {
        (Some(mint), Some(amount)) => Ok(TokenAccountView { owner: None, mint, amount }),
        (None, _) => Err(DecodeError::InvalidMint),
        (_, None) => Err(DecodeError::InvalidAmount),
    }
}

/// Decodes one raw account record into a token account view. Only base64 and
/// base58 binary payloads and the structured form are read; every other
/// encoding is refused.
pub fn decode_account(data: &AccountData) -> (r: Result<TokenAccountView, DecodeError>)
    ensures
        decode_result_view(r) == decoded_account(*data),
{
    match data {
        AccountData::Binary(text, encoding) => {
            let bytes = match encoding {
                AccountEncoding::Base64 => match decode_base64(text.as_str()) {
                    Some(b) => b,
                    None => return Err(DecodeError::InvalidBase64),
                },
                AccountEncoding::Base58 => match decode_base58(text.as_str()) {
                    Some(b) => b,
                    None => return Err(DecodeError::InvalidBase58),
                },
                _ => return Err(DecodeError::UnsupportedEncoding),
            };
            decode_token_account_bytes(&bytes)
        },
        AccountData::Json(parsed) => decode_structured_account(parsed),
        AccountData::LegacyBinary(_) => Err(DecodeError::UnsupportedEncoding),
    }
}

/// Binary token account data of the fixed length with a valid layout always
/// decodes, and to the mint and amount at the layout's offsets: decoding the
/// same bytes again gives the same pair.
pub proof fn lemma_layout_decoding_repeatable(b1: Seq<u8>, b2: Seq<u8>)
    requires
        b1.len() == TOKEN_ACCOUNT_LEN,
        token_layout_ok(b1),
        b2 == b1,
    ensures
        token_account_of(b1) matches Ok(m) && m.1 == b1.subrange(0, 32) && m.2 == le_u64(b1.subrange(64, 72)) as u64,
        token_account_of(b1) == token_account_of(b2),
{
}

} // verus!
