//! Password sealing for saved connections.
//!
//! A password is encrypted under AES-256-GCM with a key derived from a
//! machine identity, framed as a random 12-byte nonce followed by the
//! ciphertext, and carried as standard base64 text. Decryption undoes the
//! framing and is proved to return exactly the password that was sealed.
//!
//! The key derivation is deliberately simple: the machine identity and a
//! fixed salt, cycled to 32 bytes. The machine identity is resolved by the
//! embedding application (typically the login user name).
use vstd::prelude::*;
use vstd::string::StringSliceAdditionalSpecFns;
use vstd::utf8::encode_utf8;

verus! {

/// Failures of password sealing and unsealing.
#[derive(Clone, Copy, Debug, PartialEq, Eq, Structural)]
pub enum CryptoError {
    /// The cipher could not seal the password.
    EncryptionFailed,
    /// The ciphertext did not authenticate, or the plaintext was not text.
    DecryptionFailed,
    /// The input was not base64, or too short to hold the nonce.
    InvalidFormat,
}

/// The user-facing message of a sealing error.
pub open spec fn spec_crypto_message(e: CryptoError) -> Seq<char> {
    match e {
        CryptoError::EncryptionFailed => ("Encryption failed")@,
        CryptoError::DecryptionFailed => ("Decryption failed")@,
        CryptoError::InvalidFormat => ("Invalid data format")@,
    }
}

impl CryptoError {
    /// Renders the error as its user-facing message.
    pub fn message(&self) -> (r: String)
        ensures
            r@ == spec_crypto_message(*self),
    {
        match self {
            CryptoError::EncryptionFailed => String::from_str("Encryption failed"),
            CryptoError::DecryptionFailed => String::from_str("Decryption failed"),
            CryptoError::InvalidFormat => String::from_str("Invalid data format"),
        }
    }
}

/// The AES-256-GCM ciphertext (tag included) for a key, nonce and
/// plaintext. The cipher is a deterministic function of the three.
pub uninterp spec fn aes_gcm_seal(key: Seq<u8>, nonce: Seq<u8>, plain: Seq<u8>) -> Seq<u8>;

/// Relies on `aes_gcm::Aes256Gcm` through `aead::Aead::encrypt`:
/// AES-256-GCM encryption is a deterministic function of key, nonce and
/// plaintext. The cipher construction (`KeyInit::new_from_slice`) cannot
/// fail on a 32-byte key; encryption itself fails only on plaintexts
/// beyond the mode's length bound.
#[verifier::external_body]
fn aes_encrypt(key: &[u8], nonce: &[u8], plain: &[u8]) -> (r: Option<Vec<u8>>)
    requires
        key@.len() == 32,
        nonce@.len() == 12,
    ensures
        r matches Some(c) ==> c@ == aes_gcm_seal(key@, nonce@, plain@),
{
    let cipher = match aes_gcm::KeyInit::new_from_slice(key) {
        Ok(c) => c,
        Err(_) => return None,
    };
    let cipher: aes_gcm::Aes256Gcm = cipher;
    match aes_gcm::aead::Aead::encrypt(&cipher, aes_gcm::Nonce::from_slice(nonce), plain) {
        Ok(v) => Some(v),
        Err(_) => None,
    }
}

/// Relies on `aes_gcm::Aes256Gcm` through `aead::Aead::decrypt`:
/// decryption inverts encryption — for the ciphertext produced under a
/// key and nonce it returns exactly the plaintext that was sealed.
#[verifier::external_body]
fn aes_decrypt(key: &[u8], nonce: &[u8], ciphertext: &[u8]) -> (r: Option<Vec<u8>>)
    requires
        key@.len() == 32,
        nonce@.len() == 12,
    ensures
        r is None ==> forall|p: Seq<u8>| ciphertext@ != aes_gcm_seal(key@, nonce@, p),
        r matches Some(q) ==> forall|p: Seq<u8>|
            ciphertext@ == aes_gcm_seal(key@, nonce@, p) ==> q@ == p,
{
    let cipher = match aes_gcm::KeyInit::new_from_slice(key) {
        Ok(c) => c,
        Err(_) => return None,
    };
    let cipher: aes_gcm::Aes256Gcm = cipher;
    match aes_gcm::aead::Aead::decrypt(&cipher, aes_gcm::Nonce::from_slice(nonce), ciphertext) {
        Ok(v) => Some(v),
        Err(_) => None,
    }
}

/// The standard base64 text (with padding) for a byte sequence.
pub uninterp spec fn base64_of(bytes: Seq<u8>) -> Seq<char>;

/// Relies on `base64::engine::general_purpose::STANDARD` through
/// `base64::Engine::encode`: standard base64 with padding, a deterministic
/// function of the input bytes.
#[verifier::external_body]
fn base64_encode(bytes: &[u8]) -> (r: String)
    ensures
        r@ == base64_of(bytes@),
{
    base64::Engine::encode(&base64::engine::general_purpose::STANDARD, bytes)
}

/// Relies on `base64::engine::general_purpose::STANDARD` through
/// `base64::Engine::decode`: decoding inverts encoding, and the engine
/// requires canonical padding and trailing bits, so it accepts exactly the
/// encodings that `encode` produces.
#[verifier::external_body]
fn base64_decode(s: &str) -> (r: Option<Vec<u8>>)
    ensures
        r is None ==> forall|b: Seq<u8>| s@ != base64_of(b),
        r matches Some(v) ==> forall|b: Seq<u8>| s@ == base64_of(b) ==> v@ == b,
        r matches Some(v) ==> s@ == base64_of(v@),
{
    match base64::Engine::decode(&base64::engine::general_purpose::STANDARD, s) {
        Ok(v) => Some(v),
        Err(_) => None,
    }
}

/// Relies on `rand::Rng::fill` over `rand::thread_rng`: fills the nonce
/// with random bytes. Nothing is promised of the values beyond the count.
#[verifier::external_body]
fn random_nonce() -> (r: Vec<u8>)
    ensures
        r@.len() == 12,
{
    let mut buf = [0u8; 12];
    rand::Rng::fill(&mut rand::thread_rng(), &mut buf[..]);
    buf.to_vec()
}

/// Relies on `String::from_utf8`: returns the string whose UTF-8 encoding
/// is the input, and errors exactly when the input is not valid UTF-8.
#[verifier::external_body]
fn string_from_utf8(bytes: Vec<u8>) -> (r: Option<String>)
    ensures
        r is None ==> forall|t: Seq<char>| bytes@ != encode_utf8(t),
        r matches Some(s) ==> forall|t: Seq<char>| bytes@ == encode_utf8(t) ==> s@ == t,
        r matches Some(s) ==> bytes@ == encode_utf8(s@),
{
    match String::from_utf8(bytes) {
        Ok(s) => Some(s),
        Err(_) => None,
    }
}

/// The fixed salt appended to the machine identity for key derivation.
pub open spec fn spec_salt() -> Seq<char> {
    ("datatool_encryption_salt_v1")@
}

/// The 32-byte key derived from a machine identity: the UTF-8 bytes of the
/// identity followed by the salt, cycled to 32 bytes.
pub open spec fn spec_derived_key(machine_id: Seq<char>) -> Seq<u8> {
    let bytes = encode_utf8(machine_id + spec_salt());
    if bytes.len() == 0 {
        Seq::new(32, |i: int| 0u8)
    } else {
        Seq::new(32, |i: int| bytes[i % (bytes.len() as int)])
    }
}

/// Derives the 32-byte sealing key from a machine identity.
fn derive_key(machine_id: &str) -> (r: Vec<u8>)
    ensures
        r@ == spec_derived_key(machine_id@),
        r@.len() == 32,
{
    let combined = machine_id.to_owned().concat("datatool_encryption_salt_v1");
    let bytes = combined.as_str().as_bytes();
    let n = bytes.len();
    let mut key: Vec<u8> = Vec::new();
    if n == 0 {
        while key.len() < 32
            invariant
                key@.len() <= 32,
                forall|k: int| 0 <= k < key@.len() ==> key@[k] == 0u8,
            decreases 32 - key@.len(),
        {
            key.push(0u8);
        }
        proof {
            assert(key@ =~= spec_derived_key(machine_id@));
        }
        return key;
    }
    let mut i: usize = 0;
    while i < 32
        invariant
            n == bytes@.len(),
            n > 0,
            bytes@ == encode_utf8(machine_id@ + spec_salt()),
            i == key@.len(),
            i <= 32,
            forall|k: int| 0 <= k < i ==> key@[k] == bytes@[k % (n as int)],
        decreases 32 - i,
    {
        key.push(bytes[i % n]);
        i += 1;
    }
    proof {
        assert(key@ =~= spec_derived_key(machine_id@));
    }
    key
}

/// What a sealed password looks like: base64 of a 12-byte nonce followed
/// by the AES-256-GCM ciphertext of the password's UTF-8 bytes under the
/// key derived from the machine identity.
pub open spec fn is_encryption_of(
    machine_id: Seq<char>,
    password: Seq<char>,
    sealed: Seq<char>,
) -> bool {
    exists|nonce: Seq<u8>|
        #![auto]
        nonce.len() == 12 && sealed == base64_of(
            nonce + aes_gcm_seal(spec_derived_key(machine_id), nonce, encode_utf8(password)),
        )
}

/// Encrypts a password under the key derived from `machine_id`, framing a
/// fresh random nonce before the ciphertext and encoding the frame as
/// base64.
pub fn encrypt_password(machine_id: &str, password: &str) -> (r: Result<String, CryptoError>)
    ensures
        r matches Ok(sealed) ==> is_encryption_of(machine_id@, password@, sealed@),
        r matches Err(e) ==> e == CryptoError::EncryptionFailed,
{
    let key = derive_key(machine_id);
    let nonce = random_nonce();
    let ghost gnonce = nonce@;
    let ciphertext = match aes_encrypt(key.as_slice(), nonce.as_slice(), password.as_bytes()) {
        Some(c) => c,
        None => {
            return Err(CryptoError::EncryptionFailed);
        },
    };
    let mut combined = nonce;
    let mut ciphertext = ciphertext;
    combined.append(&mut ciphertext);
    let sealed = base64_encode(combined.as_slice());
    proof {
        assert(combined@ == gnonce + aes_gcm_seal(
            spec_derived_key(machine_id@),
            gnonce,
            encode_utf8(password@),
        ));
        assert(gnonce.len() == 12 && sealed@ == base64_of(
            gnonce + aes_gcm_seal(spec_derived_key(machine_id@), gnonce, encode_utf8(password@)),
        ));
    }
    Ok(sealed)
}

/// Decrypts a sealed password: decodes the base64 frame, splits off the
/// 12-byte nonce, opens the ciphertext under the key derived from
/// `machine_id`, and reads the plaintext as text.
///
/// Whatever was sealed by `encrypt_password` under the same machine
/// identity comes back exactly: for every password, an input in the shape
/// of its sealing decrypts to it. An input that is not base64, or too
/// short to hold the nonce, is rejected as `InvalidFormat`; one that does
/// not authenticate or does not decrypt to text is rejected as
/// `DecryptionFailed`.
pub fn decrypt_password(machine_id: &str, encrypted: &str) -> (r: Result<String, CryptoError>)
    ensures
        forall|password: Seq<char>|
            is_encryption_of(machine_id@, password, encrypted@) ==> (r matches Ok(p) && p@
                == password),
        r matches Err(e) ==> (e == CryptoError::InvalidFormat || e
            == CryptoError::DecryptionFailed),
        r == Err::<String, CryptoError>(CryptoError::InvalidFormat) <==> !(exists|b: Seq<u8>|
            #![auto]
            encrypted@ == base64_of(b) && b.len() >= 12),
{
    let combined = match base64_decode(encrypted) {
        Some(v) => v,
        None => {
            proof {
                assert forall|password: Seq<char>| !is_encryption_of(
                    machine_id@,
                    password,
                    encrypted@,
                ) by {
                    if is_encryption_of(machine_id@, password, encrypted@) {
                        let gkey = spec_derived_key(machine_id@);
                        let gnonce = choose|gnonce: Seq<u8>|
                            #![auto]
                            gnonce.len() == 12 && encrypted@ == base64_of(
                                gnonce + aes_gcm_seal(gkey, gnonce, encode_utf8(password)),
                            );
                    }
                }
            }
            return Err(CryptoError::InvalidFormat);
        },
    };
    if combined.len() < 12 {
        proof {
            assert forall|password: Seq<char>| !is_encryption_of(
                machine_id@,
                password,
                encrypted@,
            ) by {
                if is_encryption_of(machine_id@, password, encrypted@) {
                    let gkey = spec_derived_key(machine_id@);
                    let gnonce = choose|gnonce: Seq<u8>|
                        #![auto]
                        gnonce.len() == 12 && encrypted@ == base64_of(
                            gnonce + aes_gcm_seal(gkey, gnonce, encode_utf8(password)),
                        );
                    assert(combined@ == gnonce + aes_gcm_seal(
                        gkey,
                        gnonce,
                        encode_utf8(password),
                    ));
                }
            }
            assert forall|b: Seq<u8>| encrypted@ == base64_of(b) implies b.len() < 12 by {
                assert(combined@ == b);
            }
        }
        return Err(CryptoError::InvalidFormat);
    }
    proof {
        assert(encrypted@ == base64_of(combined@) && combined@.len() >= 12);
    }
    let nonce = vstd::slice::slice_subrange(combined.as_slice(), 0, 12);
    let ciphertext = vstd::slice::slice_subrange(combined.as_slice(), 12, combined.len());
    let key = derive_key(machine_id);
    let plain = match aes_decrypt(key.as_slice(), nonce, ciphertext) {
        Some(p) => p,
        None => {
            proof {
                assert forall|password: Seq<char>| !is_encryption_of(
                    machine_id@,
                    password,
                    encrypted@,
                ) by {
                    if is_encryption_of(machine_id@, password, encrypted@) {
                        let gkey = spec_derived_key(machine_id@);
                        let gnonce = choose|gnonce: Seq<u8>|
                            #![auto]
                            gnonce.len() == 12 && encrypted@ == base64_of(
                                gnonce + aes_gcm_seal(gkey, gnonce, encode_utf8(password)),
                            );
                        let body = aes_gcm_seal(gkey, gnonce, encode_utf8(password));
                        assert(combined@ == gnonce + body);
                        assert(nonce@ =~= gnonce);
                        assert(ciphertext@ =~= body);
                        assert(ciphertext@ == aes_gcm_seal(key@, nonce@, encode_utf8(password)));
                    }
                }
            }
            return Err(CryptoError::DecryptionFailed);
        },
    };
    match string_from_utf8(plain) {
        Some(s) => {
            proof {
                assert forall|password: Seq<char>|
                    is_encryption_of(machine_id@, password, encrypted@) implies s@ == password by {
                    let gkey = spec_derived_key(machine_id@);
                    let gnonce = choose|gnonce: Seq<u8>|
                        #![auto]
                        gnonce.len() == 12 && encrypted@ == base64_of(
                            gnonce + aes_gcm_seal(gkey, gnonce, encode_utf8(password)),
                        );
                    let body = aes_gcm_seal(gkey, gnonce, encode_utf8(password));
                    assert(combined@ == gnonce + body);
                    assert(nonce@ =~= gnonce);
                    assert(ciphertext@ =~= body);
                    assert(plain@ == encode_utf8(password));
                }
            }
            Ok(s)
        },
        None => {
            proof {
                assert forall|password: Seq<char>| !is_encryption_of(
                    machine_id@,
                    password,
                    encrypted@,
                ) by {
                    if is_encryption_of(machine_id@, password, encrypted@) {
                        let gkey = spec_derived_key(machine_id@);
                        let gnonce = choose|gnonce: Seq<u8>|
                            #![auto]
                            gnonce.len() == 12 && encrypted@ == base64_of(
                                gnonce + aes_gcm_seal(gkey, gnonce, encode_utf8(password)),
                            );
                        let body = aes_gcm_seal(gkey, gnonce, encode_utf8(password));
                        assert(combined@ == gnonce + body);
                        assert(nonce@ =~= gnonce);
                        assert(ciphertext@ =~= body);
                        assert(ciphertext@ == aes_gcm_seal(key@, nonce@, encode_utf8(password)));
                        assert(plain@ == encode_utf8(password));
                    }
                }
            }
            Err(CryptoError::DecryptionFailed)
        },
    }
}

} // verus!
