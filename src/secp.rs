use vstd::prelude::*;

use crate::address::{Address, SECP256R1_PROGRAM_ID};
use crate::challenge::{sha256_of, signed_bytes};
use crate::error::LazorKitError;
use crate::instruction::Instruction;

verus! {

/// Bytes of the record header: count, padding and seven 16-bit fields.
pub const SECP_HEADER_TOTAL: usize = 16;

/// Bytes of a compressed secp256r1 public key.
pub const SECP_PUBKEY_SIZE: usize = 33;

/// Bytes of a secp256r1 signature.
pub const SECP_SIGNATURE_SIZE: usize = 64;

/// Where the message starts in a record: after header, key and signature.
pub const SECP_MESSAGE_START: usize = 113;

/// The value of an instruction-index field that points at the record itself.
pub const SECP_SAME_RECORD: u16 = 0xFFFF;

/// The little-endian 16-bit field at `i`.
pub open spec fn u16_at(data: Seq<u8>, i: int) -> int {
    data[i] as int + 256 * (data[i + 1] as int)
}

/// The header declares one signature, with its signature, key and message
/// at the given offsets, all in this same record, and a message of
/// `msg_len` bytes.
pub open spec fn header_declares(
    data: Seq<u8>,
    sig_offset: int,
    pubkey_offset: int,
    msg_offset: int,
    msg_len: int,
) -> bool {
    &&& data[0] == 1
    &&& u16_at(data, 2) == sig_offset
    &&& u16_at(data, 4) == 0xFFFF
    &&& u16_at(data, 6) == pubkey_offset
    &&& u16_at(data, 8) == 0xFFFF
    &&& u16_at(data, 10) == msg_offset
    &&& u16_at(data, 12) == msg_len
    &&& u16_at(data, 14) == 0xFFFF
}

/// The header that a record for a message of `msg_len` bytes must carry.
pub open spec fn header_matches(data: Seq<u8>, msg_len: int) -> bool {
    header_declares(
        data,
        SECP_HEADER_TOTAL + SECP_PUBKEY_SIZE,
        SECP_HEADER_TOTAL as int,
        SECP_MESSAGE_START as int,
        msg_len,
    )
}

/// The key, signature and message regions hold exactly the given values.
pub open spec fn payload_matches(
    data: Seq<u8>,
    pubkey: Seq<u8>,
    signature: Seq<u8>,
    message: Seq<u8>,
) -> bool {
    &&& data.subrange(16, 49) == pubkey
    &&& data.subrange(49, 113) == signature
    &&& data.subrange(113, data.len() as int) == message
}

/// The outcome of checking a verification record against a key, message and
/// signature.
pub open spec fn secp_outcome(
    program_id: Address,
    n_accounts: int,
    data: Seq<u8>,
    pubkey: Seq<u8>,
    message: Seq<u8>,
    signature: Seq<u8>,
) -> Result<(), LazorKitError> {
    if program_id.bytes != SECP256R1_PROGRAM_ID || n_accounts != 0 || data.len()
        != SECP_MESSAGE_START + message.len() {
        Err(LazorKitError::Secp256r1InvalidLength)
    } else if !header_matches(data, message.len() as int) {
        Err(LazorKitError::Secp256r1HeaderMismatch)
    } else if !payload_matches(data, pubkey, signature, message) {
        Err(LazorKitError::Secp256r1DataMismatch)
    } else {
        Ok(())
    }
}

/// The record data that the verification program is given for a key,
/// signature and message.
pub open spec fn record_data(pubkey: Seq<u8>, signature: Seq<u8>, message: Seq<u8>) -> Seq<u8> {
    let n = message.len();
    seq![1u8, 0u8, 49u8, 0u8, 0xFFu8, 0xFFu8, 16u8, 0u8, 0xFFu8, 0xFFu8, 113u8, 0u8]
        + seq![(n % 256) as u8, (n / 256) as u8, 0xFFu8, 0xFFu8] + pubkey + signature + message
}

/// Whether two byte slices are equal.
pub fn slice_eq(a: &[u8], b: &[u8]) -> (r: bool)
    ensures
        r == (a@ == b@),
{
    if a.len() != b.len() {
        return false;
    }
    let mut i: usize = 0;
    while i < a.len()
        invariant
            a.len() == b.len(),
            0 <= i <= a.len(),
            forall|j: int| 0 <= j < i ==> a@[j] == b@[j],
        decreases a.len() - i,
    {
        if a[i] != b[i] {
            return false;
        }
        i = i + 1;
    }
    proof {
        assert(a@ =~= b@);
    }
    true
}

/// Whether `data` holds `part` from `start` on.
fn matches_at(data: &[u8], start: usize, part: &[u8]) -> (r: bool)
    requires
        start + part@.len() <= data@.len(),
    ensures
        r == (data@.subrange(start as int, start + part@.len()) == part@),
{
    let n = data.len();
    let mut i: usize = 0;
    while i < part.len()
        invariant
            n == data@.len(),
            start + part@.len() <= data@.len(),
            0 <= i <= part.len(),
            forall|j: int| 0 <= j < i ==> data@[start + j] == part@[j],
        decreases part.len() - i,
    {
        if data[start + i] != part[i] {
            proof {
                assert(data@.subrange(start as int, start + part@.len())[i as int] != part@[i as int]);
            }
            return false;
        }
        i = i + 1;
    }
    proof {
        assert(data@.subrange(start as int, start + part@.len()) =~= part@);
    }
    true
}

/// The offsets that a record for a message of a given length declares.
struct SecpOffsets {
    pubkey_offset: u16,
    sig_offset: u16,
    msg_offset: u16,
    msg_len: u16,
}

fn calculate_secp_offsets(msg_len: u16) -> (r: SecpOffsets)
    ensures
        r.pubkey_offset == SECP_HEADER_TOTAL,
        r.sig_offset == SECP_HEADER_TOTAL + SECP_PUBKEY_SIZE,
        r.msg_offset == SECP_MESSAGE_START,
        r.msg_len == msg_len,
{
    SecpOffsets {
        pubkey_offset: SECP_HEADER_TOTAL as u16,
        sig_offset: (SECP_HEADER_TOTAL + SECP_PUBKEY_SIZE) as u16,
        msg_offset: SECP_MESSAGE_START as u16,
        msg_len,
    }
}

fn read_u16_le(data: &[u8], i: usize) -> (r: u16)
    requires
        i + 1 < data@.len(),
    ensures
        r as int == u16_at(data@, i as int),
{
    data[i] as u16 + 256 * (data[i + 1] as u16)
}

fn verify_secp_header(data: &[u8], offsets: &SecpOffsets) -> (r: bool)
    requires
        data@.len() >= SECP_HEADER_TOTAL,
    ensures
        r == header_declares(
            data@,
            offsets.sig_offset as int,
            offsets.pubkey_offset as int,
            offsets.msg_offset as int,
            offsets.msg_len as int,
        ),
{
    data[0] == 1 && read_u16_le(data, 2) == offsets.sig_offset && read_u16_le(data, 4)
        == SECP_SAME_RECORD && read_u16_le(data, 6) == offsets.pubkey_offset && read_u16_le(
        data,
        8,
    ) == SECP_SAME_RECORD && read_u16_le(data, 10) == offsets.msg_offset && read_u16_le(data, 12)
        == offsets.msg_len && read_u16_le(data, 14) == SECP_SAME_RECORD
}

fn verify_secp_data(data: &[u8], public_key: &[u8], signature: &[u8], message: &[u8]) -> (r: bool)
    requires
        data@.len() >= SECP_MESSAGE_START,
    ensures
        r == payload_matches(data@, public_key@, signature@, message@),
{
    if data.len() - SECP_MESSAGE_START != message.len() {
        proof {
            assert(data@.subrange(113, data@.len() as int).len() != message@.len());
        }
        return false;
    }
    let pk_ok = public_key.len() == SECP_PUBKEY_SIZE && matches_at(data, SECP_HEADER_TOTAL, public_key);
    let sig_ok = signature.len() == SECP_SIGNATURE_SIZE && matches_at(
        data,
        SECP_HEADER_TOTAL + SECP_PUBKEY_SIZE,
        signature,
    );
    let msg_ok = matches_at(data, SECP_MESSAGE_START, message);
    pk_ok && sig_ok && msg_ok
}

fn verify_secp256r1_data(
    data: &[u8],
    public_key: &[u8; 33],
    message: &Vec<u8>,
    signature: &Vec<u8>,
) -> (r: Result<(), LazorKitError>)
    requires
        data@.len() == SECP_MESSAGE_START + message@.len(),
    ensures
        r == (if !header_matches(data@, message@.len() as int) {
            Err(LazorKitError::Secp256r1HeaderMismatch)
        } else if !payload_matches(data@, public_key@, signature@, message@) {
            Err(LazorKitError::Secp256r1DataMismatch)
        } else {
            Ok(())
        }),
{
    if message.len() > 0xFFFF {
        return Err(LazorKitError::Secp256r1HeaderMismatch);
    }
    let offsets = calculate_secp_offsets(message.len() as u16);
    if !verify_secp_header(data, &offsets) {
        return Err(LazorKitError::Secp256r1HeaderMismatch);
    }
    if !verify_secp_data(data, public_key.as_slice(), signature.as_slice(), message.as_slice()) {
        return Err(LazorKitError::Secp256r1DataMismatch);
    }
    Ok(())
}

/// Checks a verification record: it must come from the secp256r1 program, with
/// no accounts, a header that declares exactly this layout, and the key,
/// signature and message byte for byte.
pub fn verify_secp256r1_instruction(
    ix: &Instruction,
    pubkey: &[u8; 33],
    msg: &Vec<u8>,
    sig: &Vec<u8>,
) -> (r: Result<(), LazorKitError>)
    ensures
        r == secp_outcome(ix.program_id, ix.accounts@.len() as int, ix.data@, pubkey@, msg@, sig@),
{
    let id = Address::new(SECP256R1_PROGRAM_ID);
    let same_program = ix.program_id.same(&id);
    if !same_program || ix.accounts.len() != 0 || ix.data.len() < SECP_MESSAGE_START
        || ix.data.len() - SECP_MESSAGE_START != msg.len() {
        return Err(LazorKitError::Secp256r1InvalidLength);
    }
    verify_secp256r1_data(ix.data.as_slice(), pubkey, msg, sig)
}

/// A record accepts at most one key, message and signature.
pub proof fn lemma_record_binds(
    program_id: Address,
    n_accounts: int,
    data: Seq<u8>,
    pubkey1: Seq<u8>,
    message1: Seq<u8>,
    signature1: Seq<u8>,
    pubkey2: Seq<u8>,
    message2: Seq<u8>,
    signature2: Seq<u8>,
)
    requires
        secp_outcome(program_id, n_accounts, data, pubkey1, message1, signature1) is Ok,
        secp_outcome(program_id, n_accounts, data, pubkey2, message2, signature2) is Ok,
    ensures
        pubkey1 == pubkey2,
        message1 == message2,
        signature1 == signature2,
{
}

/// The record built from a 33-byte key, a 64-byte signature and a message of
/// at most 65535 bytes is accepted for exactly that key, signature and message.
pub proof fn lemma_record_data_verifies(
    program_id: Address,
    pubkey: Seq<u8>,
    signature: Seq<u8>,
    message: Seq<u8>,
)
    requires
        program_id.bytes == SECP256R1_PROGRAM_ID,
        pubkey.len() == SECP_PUBKEY_SIZE,
        signature.len() == SECP_SIGNATURE_SIZE,
        message.len() <= 0xFFFF,
    ensures
        secp_outcome(program_id, 0, record_data(pubkey, signature, message), pubkey, message, signature)
            == Ok::<(), LazorKitError>(()),
{
    let d = record_data(pubkey, signature, message);
    let n = message.len();
    assert(n % 256 + 256 * (n / 256) == n);
    assert(d.subrange(16, 49) =~= pubkey);
    assert(d.subrange(49, 113) =~= signature);
    assert(d.subrange(113, d.len() as int) =~= message);
}

/// A record binds the signed envelope it was made for. Two envelopes that one
/// record accepts for the same key carry the same signature; if their
/// authenticator data have the same length, they carry the same
/// authenticator data and client data with the same digest. So flipping a
/// bit of the signature or of the authenticator data breaks verification,
/// and so does a change of the client data that changes its digest. What the
/// envelope binds of the request beyond the client data (the nonce, the slot
/// and the action payload of its challenge) is checked by the dispatcher.
pub proof fn lemma_signature_binding(
    program_id: Address,
    n_accounts: int,
    data: Seq<u8>,
    pubkey: Seq<u8>,
    authenticator_data1: Seq<u8>,
    client_data1: Seq<u8>,
    signature1: Seq<u8>,
    authenticator_data2: Seq<u8>,
    client_data2: Seq<u8>,
    signature2: Seq<u8>,
)
    requires
        secp_outcome(
            program_id,
            n_accounts,
            data,
            pubkey,
            signed_bytes(authenticator_data1, client_data1),
            signature1,
        ) is Ok,
        secp_outcome(
            program_id,
            n_accounts,
            data,
            pubkey,
            signed_bytes(authenticator_data2, client_data2),
            signature2,
        ) is Ok,
    ensures
        signature1 == signature2,
        authenticator_data1.len() == authenticator_data2.len() ==> {
            &&& authenticator_data1 == authenticator_data2
            &&& sha256_of(client_data1) == sha256_of(client_data2)
        },
{
    let m1 = signed_bytes(authenticator_data1, client_data1);
    let m2 = signed_bytes(authenticator_data2, client_data2);
    lemma_record_binds(program_id, n_accounts, data, pubkey, m1, signature1, pubkey, m2, signature2);
    if authenticator_data1.len() == authenticator_data2.len() {
        let k = authenticator_data1.len() as int;
        assert(authenticator_data1 =~= m1.subrange(0, k));
        assert(authenticator_data2 =~= m2.subrange(0, k));
        assert(sha256_of(client_data1) =~= m1.subrange(k, m1.len() as int));
        assert(sha256_of(client_data2) =~= m2.subrange(k, m2.len() as int));
    }
}

/// The record built for a request with a 33-byte key and a 64-byte signature
/// accepts that request, when the signed bytes fit the 16-bit length field.
pub proof fn lemma_signed_request_verifies(
    pubkey: Seq<u8>,
    authenticator_data: Seq<u8>,
    client_data: Seq<u8>,
    signature: Seq<u8>,
)
    requires
        pubkey.len() == SECP_PUBKEY_SIZE,
        signature.len() == SECP_SIGNATURE_SIZE,
        signed_bytes(authenticator_data, client_data).len() <= 0xFFFF,
    ensures
        secp_outcome(
            Address { bytes: SECP256R1_PROGRAM_ID },
            0,
            record_data(pubkey, signature, signed_bytes(authenticator_data, client_data)),
            pubkey,
            signed_bytes(authenticator_data, client_data),
            signature,
        ) == Ok::<(), LazorKitError>(()),
{
    lemma_record_data_verifies(
        Address { bytes: SECP256R1_PROGRAM_ID },
        pubkey,
        signature,
        signed_bytes(authenticator_data, client_data),
    );
}

} // verus!
