//! The encrypted WiFi provisioning payload: the credentials' JSON text,
//! zero-padded to whole blocks, behind sixteen random bytes, encrypted with
//! AES-128 in CBC mode under the derived key and the fixed initialization vector.
use vstd::prelude::*;

use cipher::{BlockEncryptMut, KeyIvInit};

use crate::contracts::AccessoryInfoGet;
use crate::error::EccError;
use crate::key::{derive_key, iv_bytes, key_bytes, protocol_iv};

verus! {

/// Length of the cipher's blocks, of its key and of the random prefix.
pub const BLOCK_LEN: usize = 16;

/// `n` rounded up to a whole number of blocks.
pub open spec fn padded_len(n: nat) -> nat {
    if n % 16 == 0 { n } else { (n + (16 - n % 16)) as nat }
}

/// `bytes` followed by zero bytes up to a whole number of blocks.
pub open spec fn padded(bytes: Seq<u8>) -> Seq<u8> {
    bytes + Seq::new((padded_len(bytes.len()) - bytes.len()) as nat, |i: int| 0u8)
}

/// What is encrypted: the prefix, then the padded JSON text.
pub open spec fn payload_plaintext(prefix: Seq<u8>, json: Seq<u8>) -> Seq<u8> {
    prefix + padded(json)
}

/// What AES-128 in CBC mode, without padding, makes of `plain` under `key` and `iv`.
pub uninterp spec fn aes128_cbc_encrypted(key: Seq<u8>, iv: Seq<u8>, plain: Seq<u8>) -> Seq<u8>;

/// Relies on cbc::Encryptor::<aes::Aes128>::new_from_slices, which refuses a key
/// or an initialization vector that is not sixteen bytes long, and on its
/// encrypt_padded_mut::<NoPadding> over the whole buffer, which refuses data that
/// is not a whole number of blocks and otherwise encrypts it in place.
#[verifier::external_body]
fn aes128_cbc_encrypt(key: &[u8], iv: &[u8], data: Vec<u8>) -> (r: Option<Vec<u8>>)
    ensures
        r is Some <==> (key@.len() == 16 && iv@.len() == 16 && data@.len() % 16 == 0),
        r matches Some(c) ==> c@ == aes128_cbc_encrypted(key@, iv@, data@),
        r matches Some(c) ==> c@.len() == data@.len(),
{
    let mut data = data;
    let len = data.len();
    let enc = cbc::Encryptor::<aes::Aes128>::new_from_slices(key, iv).ok()?;
    let out = enc.encrypt_padded_mut::<cipher::block_padding::NoPadding>(&mut data, len).ok()?;
    Some(out.to_vec())
}

/// Relies on rand::random::<u8>: a byte from the thread's generator; nothing is known of it.
#[verifier::external_body]
fn random_byte() -> (r: u8) {
    rand::random::<u8>()
}

/// Appends zero bytes until the length is a whole number of blocks.
pub fn add_padding(bytes: &mut Vec<u8>)
    requires
        old(bytes)@.len() + BLOCK_LEN <= usize::MAX,
    ensures
        final(bytes)@ == padded(old(bytes)@),
        final(bytes)@.len() % 16 == 0,
{
    let ghost start = bytes@;
    let ghost target = padded_len(start.len());
    while bytes.len() % BLOCK_LEN != 0
        invariant
            start.len() <= bytes@.len() <= target,
            target == padded_len(start.len()),
            start.len() + BLOCK_LEN <= usize::MAX,
            bytes@ =~= start + Seq::new((bytes@.len() - start.len()) as nat, |i: int| 0u8),
        decreases target - bytes@.len(),
    {
        assert(bytes@.len() < target);
        bytes.push(0);
    }
    assert(bytes@.len() == target);
}

/// Sixteen random bytes.
pub fn random_prefix() -> (r: Vec<u8>)
    ensures
        r@.len() == BLOCK_LEN,
{
    let mut prefix: Vec<u8> = Vec::new();
    let mut i: usize = 0;
    while i < BLOCK_LEN
        invariant
            i <= BLOCK_LEN,
            prefix@.len() == i,
        decreases BLOCK_LEN - i,
    {
        prefix.push(random_byte());
        i = i + 1;
    }
    prefix
}

/// Encrypts the JSON text of WiFi credentials for the accessory described by
/// `accessory_info`, behind the given sixteen-byte prefix.
pub fn encrypt_with_prefix(
    accessory_info: &AccessoryInfoGet,
    payload_json: Vec<u8>,
    prefix: Vec<u8>,
) -> (r: Result<Vec<u8>, EccError>)
    requires
        prefix@.len() == BLOCK_LEN,
        payload_json@.len() + 2 * BLOCK_LEN <= usize::MAX,
    ensures
        r matches Ok(c) && c@ == aes128_cbc_encrypted(
            key_bytes(accessory_info.hardware_board_type, accessory_info.firmware_build_number),
            iv_bytes(),
            payload_plaintext(prefix@, payload_json@),
        ),
        r matches Ok(c) && c@.len() == BLOCK_LEN + padded_len(payload_json@.len()),
{
    let mut json = payload_json;
    add_padding(&mut json);
    let mut data = prefix;
    data.append(&mut json);
    let key = derive_key(accessory_info.hardware_board_type, accessory_info.firmware_build_number);
    let iv = protocol_iv();
    assert(data@.len() % 16 == 0);
    match aes128_cbc_encrypt(key.as_slice(), iv.as_slice(), data) {
        Some(c) => Ok(c),
        None => Err(EccError::Encoding),
    }
}

/// Encrypts the JSON text of WiFi credentials for the accessory described by
/// `accessory_info`, behind a fresh random prefix.
pub fn encrypt_wifi_payload(accessory_info: &AccessoryInfoGet, payload_json: Vec<u8>) -> (r: Result<
    Vec<u8>,
    EccError,
>)
    requires
        payload_json@.len() + 2 * BLOCK_LEN <= usize::MAX,
    ensures
        r matches Ok(c) && c@.len() == BLOCK_LEN + padded_len(payload_json@.len()),
        r matches Ok(c) && exists|prefix: Seq<u8>|
            prefix.len() == BLOCK_LEN && c@ == aes128_cbc_encrypted(
                key_bytes(accessory_info.hardware_board_type, accessory_info.firmware_build_number),
                iv_bytes(),
                #[trigger] payload_plaintext(prefix, payload_json@),
            ),
{
    let prefix = random_prefix();
    let ghost p = prefix@;
    let r = encrypt_with_prefix(accessory_info, payload_json, prefix);
    assert(r matches Ok(c) && c@ == aes128_cbc_encrypted(
        key_bytes(accessory_info.hardware_board_type, accessory_info.firmware_build_number),
        iv_bytes(),
        payload_plaintext(p, payload_json@),
    ));
    r
}

/// The encrypted payload is whole blocks, the prefix and the padded text.
pub proof fn lemma_payload_length(prefix: Seq<u8>, json: Seq<u8>)
    requires
        prefix.len() == BLOCK_LEN,
    ensures
        payload_plaintext(prefix, json).len() == BLOCK_LEN + padded_len(json.len()),
        payload_plaintext(prefix, json).len() % 16 == 0,
        payload_plaintext(prefix, json).len() >= BLOCK_LEN + json.len(),
{
}

/// Two prefixes that differ give two different plaintexts of one length for the
/// same credentials, so the random prefix reaches the cipher.
pub proof fn lemma_prefix_reaches_plaintext(first: Seq<u8>, second: Seq<u8>, json: Seq<u8>)
    requires
        first.len() == BLOCK_LEN,
        second.len() == BLOCK_LEN,
        first != second,
    ensures
        payload_plaintext(first, json) != payload_plaintext(second, json),
        payload_plaintext(first, json).len() == payload_plaintext(second, json).len(),
{
    let a = payload_plaintext(first, json);
    let b = payload_plaintext(second, json);
    if a == b {
        assert(first =~= a.subrange(0, 16));
        assert(second =~= b.subrange(0, 16));
    }
}

} // verus!
