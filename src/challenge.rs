use vstd::prelude::*;
use vstd::utf8::{decode_utf8, valid_utf8};

use crate::address::Address;
use crate::bytes::{as_signed_64, copy_range, le_u32_at, le_u64_at, read_i64_le, read_u32_le, read_u64_le};
use crate::error::LazorKitError;

verus! {

/// The decoded challenge of a request.
///
/// `current_slot` is the freshness marker: the slot at which the client made
/// the request. Freshness is always measured in slots, never in wall-clock
/// time.
#[derive(Debug)]
pub struct Message {
    pub nonce: u64,
    pub current_slot: i64,
    pub instruction_data: Vec<u8>,
}

/// Bytes before the payload in an encoded message: nonce, slot and length.
pub const MESSAGE_HEADER_LEN: usize = 20;

/// Whether `b` is an encoded message: nonce, slot, a 32-bit payload length and
/// exactly that many payload bytes.
pub open spec fn message_well_formed(b: Seq<u8>) -> bool {
    b.len() >= MESSAGE_HEADER_LEN && b.len() - MESSAGE_HEADER_LEN == le_u32_at(b, 16)
}

/// `m` is the message that the well-formed encoding `b` holds.
pub open spec fn message_of(b: Seq<u8>, m: Message) -> bool {
    &&& m.nonce as int == le_u64_at(b, 0)
    &&& m.current_slot as int == as_signed_64(le_u64_at(b, 8))
    &&& m.instruction_data@ == b.subrange(MESSAGE_HEADER_LEN as int, b.len() as int)
}

/// Reads a message from its fixed binary layout; every byte must be used.
pub fn parse_message(b: &[u8]) -> (r: Result<Message, LazorKitError>)
    ensures
        r is Ok <==> message_well_formed(b@),
        r matches Ok(m) ==> message_of(b@, m),
        r matches Err(e) ==> e == LazorKitError::ChallengeDeserializationError,
{
    if b.len() < MESSAGE_HEADER_LEN {
        return Err(LazorKitError::ChallengeDeserializationError);
    }
    let nonce = read_u64_le(b, 0);
    let current_slot = read_i64_le(b, 8);
    let n = read_u32_le(b, 16);
    if b.len() - MESSAGE_HEADER_LEN != n as usize {
        return Err(LazorKitError::ChallengeDeserializationError);
    }
    let instruction_data = copy_range(b, MESSAGE_HEADER_LEN, b.len());
    Ok(Message { nonce, current_slot, instruction_data })
}

/// The characters stripped from both ends of a challenge: `"`, `'`, `/` and
/// space. All are ASCII, so stripping them from the UTF-8 bytes strips them
/// from the text.
pub open spec fn is_strip_byte(c: u8) -> bool {
    c == 34 || c == 39 || c == 47 || c == 32
}

/// `s` without its leading strip bytes.
pub open spec fn strip_front(s: Seq<u8>) -> Seq<u8>
    decreases s.len(),
{
    if s.len() > 0 && is_strip_byte(s[0]) {
        strip_front(s.drop_first())
    } else {
        s
    }
}

/// `s` without its trailing strip bytes.
pub open spec fn strip_back(s: Seq<u8>) -> Seq<u8>
    decreases s.len(),
{
    if s.len() > 0 && is_strip_byte(s.last()) {
        strip_back(s.drop_last())
    } else {
        s
    }
}

/// `s` without strip bytes at either end.
pub open spec fn strip_quotes(s: Seq<u8>) -> Seq<u8> {
    strip_back(strip_front(s))
}

fn is_strip(c: u8) -> (r: bool)
    ensures
        r == is_strip_byte(c),
{
    c == 34 || c == 39 || c == 47 || c == 32
}

/// Strips quotes, apostrophes, slashes and spaces from both ends.
pub fn trim_challenge(s: &[u8]) -> (r: Vec<u8>)
    ensures
        r@ == strip_quotes(s@),
{
    let n = s.len();
    assert(s@.subrange(0, n as int) =~= s@);
    let mut a: usize = 0;
    while a < n && is_strip(s[a])
        invariant
            n == s@.len(),
            0 <= a <= n,
            strip_front(s@.subrange(a as int, n as int)) == strip_front(s@),
        decreases n - a,
    {
        proof {
            assert(s@.subrange(a as int, n as int).drop_first() =~= s@.subrange(a + 1, n as int));
        }
        a = a + 1;
    }
    let ghost front = s@.subrange(a as int, n as int);
    assert(strip_front(s@) == front);
    let mut b: usize = n;
    while b > a && is_strip(s[b - 1])
        invariant
            n == s@.len(),
            0 <= a <= b <= n,
            front == s@.subrange(a as int, n as int),
            strip_back(s@.subrange(a as int, b as int)) == strip_back(front),
        decreases b,
    {
        proof {
            assert(s@.subrange(a as int, b as int).drop_last() =~= s@.subrange(a as int, b - 1));
        }
        b = b - 1;
    }
    copy_range(s, a, b)
}

/// Relies on `std::str::from_utf8`: it accepts exactly the valid UTF-8 byte
/// strings, and the text it returns is the one those bytes encode.
#[verifier::external_body]
fn text_of(bytes: &[u8]) -> (r: Option<&str>)
    ensures
        r is Some <==> valid_utf8(bytes@),
        r matches Some(s) ==> s@ == decode_utf8(bytes@),
{
    std::str::from_utf8(bytes).ok()
}

/// The `challenge` member of the JSON text `s`: `None` where `s` is not JSON,
/// `Some(None)` where the member is missing or not a string, else the UTF-8
/// bytes of the string.
pub uninterp spec fn json_challenge(s: Seq<char>) -> Option<Option<Seq<u8>>>;

/// serde_json's parse error, carried as an opaque value.
#[verifier::external_type_specification]
#[verifier::external_body]
pub struct ExJsonError(serde_json::Error);

/// Relies on `serde_json::from_str` into a `serde_json::Value` and on reading
/// its `"challenge"` member with `Value::as_str`: whether the text parses and
/// what that member holds depend on the text alone.
#[verifier::external_body]
fn challenge_member(text: &str) -> (r: Result<Option<Vec<u8>>, serde_json::Error>)
    ensures
        r matches Ok(Some(c)) ==> json_challenge(text@) == Some(Some(c@)),
        r matches Ok(None) ==> json_challenge(text@) == Some(None::<Seq<u8>>),
        r is Err ==> json_challenge(text@) is None,
{
    let parsed: serde_json::Value = serde_json::from_str(text)?;
    Ok(parsed["challenge"].as_str().map(|c| c.as_bytes().to_vec()))
}

/// The bytes that the URL-safe, unpadded base64 text `s` encodes, or `None`
/// where `s` is not such a text.
pub uninterp spec fn base64url_decoded(s: Seq<u8>) -> Option<Seq<u8>>;

/// base64's decode error, carried as an opaque value.
#[verifier::external_type_specification]
#[verifier::external_body]
pub struct ExDecodeError(base64::DecodeError);

/// Relies on base64's `URL_SAFE_NO_PAD` engine and its `Engine::decode`: the
/// outcome depends on the text alone.
#[verifier::external_body]
fn decode_base64url(text: &[u8]) -> (r: Result<Vec<u8>, base64::DecodeError>)
    ensures
        r matches Ok(v) ==> base64url_decoded(text@) == Some(v@),
        r is Err ==> base64url_decoded(text@) is None,
{
    base64::Engine::decode(&base64::engine::general_purpose::URL_SAFE_NO_PAD, text)
}

/// The SHA-256 digest of `b`.
pub uninterp spec fn sha256_of(b: Seq<u8>) -> Seq<u8>;

/// Relies on `solana_program::hash::hash`, as anchor_lang re-exports it: the
/// SHA-256 digest of the bytes.
#[verifier::external_body]
pub(crate) fn sha256(b: &[u8]) -> (r: [u8; 32])
    ensures
        r@ == sha256_of(b@),
{
    anchor_lang::solana_program::hash::hash(b).to_bytes()
}

/// The outcome of decoding the challenge text `c`, as the bytes of an encoded
/// message.
pub open spec fn challenge_outcome(c: Seq<u8>) -> Result<Seq<u8>, LazorKitError> {
    match base64url_decoded(strip_quotes(c)) {
        None => Err(LazorKitError::ChallengeBase64DecodeError),
        Some(m) => if message_well_formed(m) {
            Ok(m)
        } else {
            Err(LazorKitError::ChallengeDeserializationError)
        },
    }
}

/// The outcome of decoding the raw client data `raw`, as the bytes of an
/// encoded message.
pub open spec fn client_data_outcome(raw: Seq<u8>) -> Result<Seq<u8>, LazorKitError> {
    if !valid_utf8(raw) {
        Err(LazorKitError::ClientDataInvalidUtf8)
    } else {
        match json_challenge(decode_utf8(raw)) {
            None => Err(LazorKitError::ClientDataJsonParseError),
            Some(None) => Err(LazorKitError::ChallengeMissing),
            Some(Some(c)) => challenge_outcome(c),
        }
    }
}

/// Decodes a challenge text: strip the quoting characters, base64url-decode,
/// and read the message layout.
pub fn decode_challenge(c: &[u8]) -> (r: Result<Message, LazorKitError>)
    ensures
        r is Ok <==> challenge_outcome(c@) is Ok,
        r matches Ok(m) ==> message_of(challenge_outcome(c@)->Ok_0, m),
        r matches Err(e) ==> challenge_outcome(c@) == Err::<Seq<u8>, LazorKitError>(e),
{
    let trimmed = trim_challenge(c);
    let bytes = match decode_base64url(trimmed.as_slice()) {
        Ok(b) => b,
        Err(_) => return Err(LazorKitError::ChallengeBase64DecodeError),
    };
    parse_message(bytes.as_slice())
}

/// Decodes the client data of a request into its challenge message: UTF-8,
/// then JSON, then the `challenge` member, then [`decode_challenge`].
pub fn decode_client_data(raw: &[u8]) -> (r: Result<Message, LazorKitError>)
    ensures
        r is Ok <==> client_data_outcome(raw@) is Ok,
        r matches Ok(m) ==> message_of(client_data_outcome(raw@)->Ok_0, m),
        r matches Err(e) ==> client_data_outcome(raw@) == Err::<Seq<u8>, LazorKitError>(e),
{
    let text = match text_of(raw) {
        Some(t) => t,
        None => return Err(LazorKitError::ClientDataInvalidUtf8),
    };
    let challenge = match challenge_member(text) {
        Ok(Some(c)) => c,
        Ok(None) => return Err(LazorKitError::ChallengeMissing),
        Err(_) => return Err(LazorKitError::ClientDataJsonParseError),
    };
    decode_challenge(challenge.as_slice())
}

/// The bytes that the passkey signs: the authenticator data followed by the
/// SHA-256 digest of the client data.
pub open spec fn signed_bytes(authenticator_data: Seq<u8>, client_data: Seq<u8>) -> Seq<u8> {
    authenticator_data + sha256_of(client_data)
}

/// Builds the bytes that the passkey signs.
pub fn signed_message(authenticator_data: &[u8], client_data: &[u8]) -> (r: Vec<u8>)
    ensures
        r@ == signed_bytes(authenticator_data@, client_data@),
{
    let digest = sha256(client_data);
    let mut message: Vec<u8> = Vec::new();
    message.extend_from_slice(authenticator_data);
    message.extend_from_slice(digest.as_slice());
    proof {
        assert(message@ =~= signed_bytes(authenticator_data@, client_data@));
    }
    message
}

/// The seed that ties a passkey to a wallet: the digest of the key followed by
/// the wallet address.
pub fn to_hashed_bytes(passkey: &[u8; 33], wallet: &Address) -> (r: [u8; 32])
    ensures
        r@ == sha256_of(passkey@ + wallet@),
{
    let mut buf: Vec<u8> = Vec::new();
    buf.extend_from_slice(passkey.as_slice());
    buf.extend_from_slice(wallet.bytes.as_slice());
    proof {
        assert(buf@ =~= passkey@ + wallet@);
    }
    sha256(buf.as_slice())
}

} // verus!
