//! Login helpers: offline-mode player ids, online-mode key material, the
//! session server hash.

use vstd::prelude::*;
use vstd::utf8::encode_utf8;
use vstd::string::*;
use sha1::Digest;
use rsa::pkcs8::{DecodePrivateKey, EncodePrivateKey, EncodePublicKey};

verus! {

// ───────────────────────────── offline ids ─────────────────────────────

/// The name-based (version 3, MD5) UUID of `name` in the OID namespace, as
/// a 128-bit big-endian value.
pub uninterp spec fn uuid_v3_oid(name: Seq<u8>) -> u128;

/// `uuid::Uuid::new_v3(&Uuid::NAMESPACE_OID, name)`, read with `as_u128`.
/// The crate sets the RFC 4122 variant bits and version 3.
#[verifier::external_body]
fn uuid_v3_from_name(name: &[u8]) -> (r: u128)
    ensures
        r == uuid_v3_oid(name@),
        (r >> 76u128) & 0xF == 3,
        (r >> 62u128) & 0x3 == 2,
{
    uuid::Uuid::new_v3(&uuid::Uuid::NAMESPACE_OID, name).as_u128()
}

/// Prefix of the name hashed for an offline player's id.
pub open spec fn offline_name_bytes(username: &str) -> Seq<u8> {
    "OfflinePlayer:".spec_bytes() + username.spec_bytes()
}

/// The offline id of a user name given by its characters.
pub open spec fn offline_id(name: Seq<char>) -> u128 {
    uuid_v3_oid(encode_utf8("OfflinePlayer:"@) + encode_utf8(name))
}

/// The id of an offline-mode player: the version 3 UUID of
/// `"OfflinePlayer:" + username` in the OID namespace.
pub fn offline_uuid(username: &str) -> (r: u128)
    ensures
        r == uuid_v3_oid(offline_name_bytes(username)),
        r == offline_id(username@),
        (r >> 76u128) & 0xF == 3,
{
    let prefix = "OfflinePlayer:";
    let mut name: Vec<u8> = prefix.as_bytes_vec();
    let tail: Vec<u8> = username.as_bytes_vec();
    let mut i: usize = 0;
    let ghost start = name@;
    while i < tail.len()
        invariant
            i <= tail@.len(),
            name@ == start + tail@.subrange(0, i as int),
        decreases tail@.len() - i,
    {
        name.push(tail[i]);
        i = i + 1;
        assert(name@ =~= start + tail@.subrange(0, i as int));
    }
    assert(tail@.subrange(0, tail@.len() as int) =~= tail@);
    uuid_v3_from_name(name.as_slice())
}

/// The same user name always gives the same offline id.
pub proof fn offline_uuid_is_deterministic(a: &str, b: &str)
    requires
        a@ == b@,
        a.spec_bytes() == b.spec_bytes(),
    ensures
        uuid_v3_oid(offline_name_bytes(a)) == uuid_v3_oid(offline_name_bytes(b)),
{
}

// ───────────────────────────── session hash ─────────────────────────────

/// SHA-1 digest of a byte string.
pub uninterp spec fn sha1_of(data: Seq<u8>) -> Seq<u8>;

/// `sha1::Sha1::digest`; the digest is 20 bytes.
#[verifier::external_body]
pub(crate) fn sha1_digest(data: &[u8]) -> (r: Vec<u8>)
    ensures
        r@ == sha1_of(data@),
        r@.len() == 20,
{
    sha1::Sha1::digest(data).to_vec()
}

/// Lower-case hex digit of a value below 16.
pub open spec fn hex_digit(d: u8) -> char {
    if d < 10 {
        ((d as u32) + ('0' as u32)) as char
    } else {
        ((d as u32) - 10 + ('a' as u32)) as char
    }
}

/// Two lower-case hex digits per byte, high nibble first.
pub open spec fn hex_text(b: Seq<u8>) -> Seq<char>
    decreases b.len(),
{
    if b.len() == 0 {
        Seq::empty()
    } else {
        hex_text(b.drop_last()).push(hex_digit(b.last() / 16)).push(hex_digit(b.last() % 16))
    }
}

fn hex_char(d: u8) -> (c: char)
    requires
        d < 16,
    ensures
        c == hex_digit(d),
{
    let table: [char; 16] = ['0', '1', '2', '3', '4', '5', '6', '7', '8', '9', 'a', 'b', 'c', 'd', 'e', 'f'];
    let c = table[d as usize];
    assert(c == hex_digit(d)) by {
        assert(table@[d as int] == c);
        assert(d == 0 || d == 1 || d == 2 || d == 3 || d == 4 || d == 5 || d == 6 || d == 7 || d == 8 || d == 9
            || d == 10 || d == 11 || d == 12 || d == 13 || d == 14 || d == 15);
    }
    c
}

/// Lower-case hex text of `bytes`.
pub fn hex_lower(bytes: &[u8]) -> (r: String)
    ensures
        r@ == hex_text(bytes@),
{
    let mut s = String::new();
    let mut i: usize = 0;
    while i < bytes.len()
        invariant
            i <= bytes@.len(),
            s@ == hex_text(bytes@.subrange(0, i as int)),
        decreases bytes@.len() - i,
    {
        let b = bytes[i];
        crate::text::push_char(&mut s, hex_char(b / 16));
        crate::text::push_char(&mut s, hex_char(b % 16));
        proof {
            let p = bytes@.subrange(0, i + 1);
            assert(p.drop_last() =~= bytes@.subrange(0, i as int));
            assert(p.last() == b);
        }
        i = i + 1;
    }
    assert(bytes@.subrange(0, bytes@.len() as int) =~= bytes@);
    s
}

/// The session-server id: the lower-case hex SHA-1 of the server id, the
/// shared secret and the encoded public key, in that order.
pub fn compute_server_hash(server_id: &str, shared_secret: &[u8; 16], public_key: &[u8]) -> (r: String)
    ensures
        r@ == hex_text(sha1_of(server_id.spec_bytes() + shared_secret@ + public_key@)),
        r@.len() == 40,
{
    let mut data: Vec<u8> = server_id.as_bytes_vec();
    let ghost a = data@;
    let mut i: usize = 0;
    while i < 16
        invariant
            i <= 16,
            data@ == a + shared_secret@.subrange(0, i as int),
        decreases 16 - i,
    {
        data.push(shared_secret[i]);
        i = i + 1;
        assert(data@ =~= a + shared_secret@.subrange(0, i as int));
    }
    assert(shared_secret@.subrange(0, 16) =~= shared_secret@);
    let ghost b = data@;
    let mut j: usize = 0;
    while j < public_key.len()
        invariant
            j <= public_key@.len(),
            data@ == b + public_key@.subrange(0, j as int),
        decreases public_key@.len() - j,
    {
        data.push(public_key[j]);
        j = j + 1;
        assert(data@ =~= b + public_key@.subrange(0, j as int));
    }
    assert(public_key@.subrange(0, public_key@.len() as int) =~= public_key@);
    let digest = sha1_digest(data.as_slice());
    proof { lemma_hex_len(digest@); }
    hex_lower(digest.as_slice())
}

proof fn lemma_hex_len(b: Seq<u8>)
    ensures
        hex_text(b).len() == 2 * b.len(),
    decreases b.len(),
{
    if b.len() > 0 {
        lemma_hex_len(b.drop_last());
    }
}

// ──────────────────────────── online-mode keys ────────────────────────────

#[verifier::external_type_specification]
#[verifier::external_body]
pub struct ExRsaPrivateKey(rsa::RsaPrivateKey);

/// `rsa::RsaPrivateKey::new(&mut OsRng, 1024)`: a fresh random 1024-bit key,
/// or the crate's error text. Nothing is stated of the key, which is random.
#[verifier::external_body]
fn rsa_generate_1024() -> (r: Result<rsa::RsaPrivateKey, String>)
{
    rsa::RsaPrivateKey::new(&mut rand::rngs::OsRng, 1024).map_err(|e| e.to_string())
}

/// DER (SubjectPublicKeyInfo) encoding of the key's public half, via
/// `EncodePublicKey::to_public_key_der`, or the crate's error text. The
/// bytes are not described: they depend on the opaque key.
#[verifier::external_body]
fn rsa_public_key_der(key: &rsa::RsaPrivateKey) -> (r: Result<Vec<u8>, String>)
{
    rsa::RsaPublicKey::from(key).to_public_key_der().map(|d| d.as_bytes().to_vec()).map_err(|e| e.to_string())
}

/// `rand::random` four bytes; nothing is stated of them.
#[verifier::external_body]
fn random_token() -> (r: [u8; 4])
{
    rand::random()
}

/// PKCS#8 DER encoding of the key, via `EncodePrivateKey::to_pkcs8_der`, or
/// the crate's error text. The bytes are not described: they depend on the
/// opaque, random key.
#[verifier::external_body]
fn rsa_private_key_der(key: &rsa::RsaPrivateKey) -> (r: Result<Vec<u8>, String>)
{
    key.to_pkcs8_der().map(|d| d.as_bytes().to_vec()).map_err(|e| e.to_string())
}

/// What PKCS#1 v1.5 decryption of `ciphertext` gives under the private key
/// whose PKCS#8 DER encoding is `key_der`: the plaintext, or the error text.
pub uninterp spec fn rsa_pkcs1v15_decrypted(key_der: Seq<u8>, ciphertext: Seq<u8>) -> Result<Seq<u8>, Seq<char>>;

/// Reads the key with `DecodePrivateKey::from_pkcs8_der` and decrypts with
/// `RsaPrivateKey::decrypt(Pkcs1v15Encrypt, ciphertext)`; either error comes
/// back as its text. The crate decrypts without blinding (no random source
/// is handed to it), so the outcome is a function of the key bytes and the
/// ciphertext alone, named `rsa_pkcs1v15_decrypted`; what that function is
/// on given bytes is not stated.
#[verifier::external_body]
fn rsa_decrypt_pkcs1v15(key_der: &[u8], ciphertext: &[u8]) -> (r: Result<Vec<u8>, String>)
    ensures
        plain_view(r) == rsa_pkcs1v15_decrypted(key_der@, ciphertext@),
{
    let key = rsa::RsaPrivateKey::from_pkcs8_der(key_der).map_err(|e| e.to_string())?;
    key.decrypt(rsa::Pkcs1v15Encrypt, ciphertext).map_err(|e| e.to_string())
}

/// Key material of an online-mode login: the private key by its PKCS#8 DER
/// encoding, the public key by its SubjectPublicKeyInfo DER encoding, and
/// the verify token sent to the client.
pub struct EncryptionKeys {
    pub private_key_der: Vec<u8>,
    pub public_key_der: Vec<u8>,
    pub verify_token: [u8; 4],
}

/// A fresh RSA-1024 key pair and a random four-byte verify token; an error
/// names the step that failed.
pub fn generate_keys() -> (r: Result<EncryptionKeys, String>)
    ensures
        r matches Err(e) ==> has_prefix(e@, "Failed to generate RSA key: "@)
            || has_prefix(e@, "Failed to encode public key: "@)
            || has_prefix(e@, "Failed to encode private key: "@),
{
    let private_key = match rsa_generate_1024() {
        Ok(k) => k,
        Err(e) => {
            let r = crate::text::concat2("Failed to generate RSA key: ", e.as_str());
            return Err(r);
        },
    };
    let public_key_der = match rsa_public_key_der(&private_key) {
        Ok(d) => d,
        Err(e) => {
            let r = crate::text::concat2("Failed to encode public key: ", e.as_str());
            return Err(r);
        },
    };
    let private_key_der = match rsa_private_key_der(&private_key) {
        Ok(d) => d,
        Err(e) => {
            let r = crate::text::concat2("Failed to encode private key: ", e.as_str());
            return Err(r);
        },
    };
    let verify_token = random_token();
    Ok(EncryptionKeys { private_key_der, public_key_der, verify_token })
}

use crate::text::has_prefix;

/// What an encryption response decrypts to under the key `key_der`: the
/// shared secret (exactly 16 bytes) from `encrypted_secret`, then the verify
/// token (exactly 4 bytes) from `encrypted_token`; the first failure is the
/// outcome.
pub open spec fn client_secrets(
    key_der: Seq<u8>,
    encrypted_secret: Seq<u8>,
    encrypted_token: Seq<u8>,
) -> Result<(Seq<u8>, Seq<u8>), Seq<char>> {
    match decrypted_exactly(rsa_pkcs1v15_decrypted(key_der, encrypted_secret), 16,
        "Failed to decrypt shared secret: "@, "Shared secret must be 16 bytes"@) {
        Err(e) => Err(e),
        Ok(secret) => match decrypted_exactly(rsa_pkcs1v15_decrypted(key_der, encrypted_token), 4,
            "Failed to decrypt verify token: "@, "Verify token must be 4 bytes"@) {
            Err(e) => Err(e),
            Ok(token) => Ok((secret, token)),
        },
    }
}

/// A decrypted shared secret and verify token, or the decryption error, by
/// their views.
pub open spec fn decrypted_view(d: Result<([u8; 16], [u8; 4]), String>) -> Result<(Seq<u8>, Seq<u8>), Seq<char>> {
    match d {
        Ok((s, t)) => Ok((s@, t@)),
        Err(e) => Err(e@),
    }
}

/// Decrypts the shared secret and verify token of an encryption response
/// with the private key given by its PKCS#8 DER bytes. The secret must
/// decrypt to exactly 16 bytes and the token to exactly 4.
pub fn decrypt_client_secrets(
    private_key_der: &[u8],
    encrypted_secret: &[u8],
    encrypted_token: &[u8],
) -> (r: Result<([u8; 16], [u8; 4]), String>)
    ensures
        decrypted_view(r) == client_secrets(private_key_der@, encrypted_secret@, encrypted_token@),
{
    let secret = rsa_decrypt_pkcs1v15(private_key_der, encrypted_secret);
    let shared_secret = match shared_secret_from(secret) {
        Ok(a) => a,
        Err(e) => {
            return Err(e);
        },
    };
    let token = rsa_decrypt_pkcs1v15(private_key_der, encrypted_token);
    let verify_token = match verify_token_from(token) {
        Ok(a) => a,
        Err(e) => {
            return Err(e);
        },
    };
    Ok((shared_secret, verify_token))
}

/// What a decryption outcome gives when it must be `n` bytes: the bytes,
/// or the error named after `what`.
pub open spec fn decrypted_exactly(
    plain: Result<Seq<u8>, Seq<char>>,
    n: nat,
    failed: Seq<char>,
    wrong_size: Seq<char>,
) -> Result<Seq<u8>, Seq<char>> {
    match plain {
        Err(e) => Err(failed + e),
        Ok(p) => if p.len() == n { Ok(p) } else { Err(wrong_size) },
    }
}

pub open spec fn plain_view(r: Result<Vec<u8>, String>) -> Result<Seq<u8>, Seq<char>> {
    match r {
        Ok(v) => Ok(v@),
        Err(e) => Err(e@),
    }
}

/// The shared secret from the outcome of its decryption: exactly 16 bytes.
pub fn shared_secret_from(plain: Result<Vec<u8>, String>) -> (r: Result<[u8; 16], String>)
    ensures
        match (r, decrypted_exactly(plain_view(plain), 16, "Failed to decrypt shared secret: "@,
            "Shared secret must be 16 bytes"@)) {
            (Ok(a), Ok(p)) => a@ == p,
            (Err(e), Err(f)) => e@ == f,
            _ => false,
        },
{
    let secret = match plain {
        Ok(v) => v,
        Err(e) => {
            return Err(crate::text::concat2("Failed to decrypt shared secret: ", e.as_str()));
        },
    };
    if secret.len() != 16 {
        return Err(String::from_str("Shared secret must be 16 bytes"));
    }
    let a: [u8; 16] = [secret[0], secret[1], secret[2], secret[3], secret[4], secret[5],
        secret[6], secret[7], secret[8], secret[9], secret[10], secret[11], secret[12], secret[13],
        secret[14], secret[15]];
    assert(a@ =~= secret@);
    Ok(a)
}

/// The verify token from the outcome of its decryption: exactly 4 bytes.
pub fn verify_token_from(plain: Result<Vec<u8>, String>) -> (r: Result<[u8; 4], String>)
    ensures
        match (r, decrypted_exactly(plain_view(plain), 4, "Failed to decrypt verify token: "@,
            "Verify token must be 4 bytes"@)) {
            (Ok(a), Ok(p)) => a@ == p,
            (Err(e), Err(f)) => e@ == f,
            _ => false,
        },
{
    let token = match plain {
        Ok(v) => v,
        Err(e) => {
            return Err(crate::text::concat2("Failed to decrypt verify token: ", e.as_str()));
        },
    };
    if token.len() != 4 {
        return Err(String::from_str("Verify token must be 4 bytes"));
    }
    let a: [u8; 4] = [token[0], token[1], token[2], token[3]];
    assert(a@ =~= token@);
    Ok(a)
}

} // verus!

verus! {

/// The 16 big-endian bytes of an id.
pub open spec fn uuid_bytes(u: u128) -> Seq<u8> {
    Seq::new(16, |i: int| ((u >> ((8 * (15 - i)) as u128)) & 0xff) as u8)
}

/// The hyphenated lower-case form of an id (8-4-4-4-12 hex digits), as
/// `Uuid`'s `Display` writes it.
pub open spec fn uuid_hyphenated(u: u128) -> Seq<char> {
    let b = uuid_bytes(u);
    hex_text(b.subrange(0, 4)) + "-"@ + hex_text(b.subrange(4, 6)) + "-"@ + hex_text(b.subrange(6, 8)) + "-"@
        + hex_text(b.subrange(8, 10)) + "-"@ + hex_text(b.subrange(10, 16))
}

fn hex_of_range(bytes: &Vec<u8>, a: usize, b: usize) -> (r: String)
    requires
        a <= b <= bytes@.len(),
    ensures
        r@ == hex_text(bytes@.subrange(a as int, b as int)),
{
    let mut part: Vec<u8> = Vec::new();
    let mut i: usize = a;
    while i < b
        invariant
            a <= i <= b <= bytes@.len(),
            part@ == bytes@.subrange(a as int, i as int),
        decreases b - i,
    {
        part.push(bytes[i]);
        i = i + 1;
        assert(part@ =~= bytes@.subrange(a as int, i as int));
    }
    hex_lower(part.as_slice())
}

/// The hyphenated text of an id.
pub fn uuid_text(u: u128) -> (r: String)
    ensures
        r@ == uuid_hyphenated(u),
{
    let mut bytes: Vec<u8> = Vec::new();
    let mut i: usize = 0;
    while i < 16
        invariant
            i <= 16,
            bytes@ == uuid_bytes(u).subrange(0, i as int),
        decreases 16 - i,
    {
        let shift: u128 = (8 * (15 - i)) as u128;
        bytes.push(((u >> shift) & 0xff) as u8);
        i = i + 1;
        assert(bytes@ =~= uuid_bytes(u).subrange(0, i as int));
    }
    assert(bytes@ =~= uuid_bytes(u));
    let mut s = hex_of_range(&bytes, 0, 4);
    s.append("-");
    let p = hex_of_range(&bytes, 4, 6);
    s.append(p.as_str());
    s.append("-");
    let p = hex_of_range(&bytes, 6, 8);
    s.append(p.as_str());
    s.append("-");
    let p = hex_of_range(&bytes, 8, 10);
    s.append(p.as_str());
    s.append("-");
    let p = hex_of_range(&bytes, 10, 16);
    s.append(p.as_str());
    s
}

} // verus!
