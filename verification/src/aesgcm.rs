//! The encrypted message envelope: a fresh 12-byte nonce followed by the
//! AES-256-GCM ciphertext (with its tag) of the UTF-8 plaintext, the whole
//! written in standard base64.

use aes_gcm::aead::generic_array::GenericArray;
use aes_gcm::aead::{Aead, NewAead};
use aes_gcm::Aes256Gcm;
use base64::Engine;
use rand::RngCore;
use vstd::prelude::*;
use vstd::slice::*;
use vstd::string::*;
use vstd::utf8::*;

use crate::text::{
    is_white_space, lemma_trimmed_idempotent, lemma_trimmed_no_white_space, lemma_trimmed_padding,
    trimmed,
};

verus! {

broadcast use {encode_utf8_valid_utf8, encode_utf8_decode_utf8};

/// The longest plaintext, in bytes, that aes-gcm 0.9 encrypts: 2^36 - 17.
/// Its 32-bit block counter, which starts at block 1, runs out (a panic)
/// from 2^36 - 16 bytes on; the crate itself refuses only above 2^36 bytes.
pub const AES_GCM_MAX_PLAINTEXT: u64 = 68719476719;

/// Length in bytes of the nonce that starts every envelope.
pub const NONCE_LEN: usize = 12;

/// Length in bytes of an AES-256 key.
pub const KEY_LEN: usize = 32;

/// What `base64::engine::general_purpose::STANDARD.encode` returns for `bytes`.
pub uninterp spec fn base64_standard_encode(bytes: Seq<u8>) -> Seq<char>;

/// What `base64::engine::general_purpose::STANDARD.decode` returns for the
/// UTF-8 bytes of `text` (`None` for a decoding error).
pub uninterp spec fn base64_standard_decode(text: Seq<char>) -> Option<Seq<u8>>;

/// The ciphertext with appended tag that AES-256-GCM (`Aead::encrypt` of
/// `aes_gcm::Aes256Gcm`, empty associated data) makes of `plaintext`.
pub uninterp spec fn aes256gcm_seal(key: Seq<u8>, nonce: Seq<u8>, plaintext: Seq<u8>) -> Seq<u8>;

/// What `Aead::decrypt` of `aes_gcm::Aes256Gcm` (empty associated data)
/// returns for `ciphertext` (`None` when the tag does not authenticate it).
pub uninterp spec fn aes256gcm_open(key: Seq<u8>, nonce: Seq<u8>, ciphertext: Seq<u8>) -> Option<
    Seq<u8>,
>;

/// The characters of the standard base64 alphabet, padding included.
pub open spec fn is_base64_char(c: char) -> bool {
    ||| 'A' <= c && c <= 'Z'
    ||| 'a' <= c && c <= 'z'
    ||| '0' <= c && c <= '9'
    ||| c == '+'
    ||| c == '/'
    ||| c == '='
}

/// `STANDARD.encode` (base64 0.21): the padded standard-alphabet encoding.
/// Claimed: the result is the named encoding, it is made of alphabet
/// characters, and `STANDARD.decode` (canonical padding) turns it back into
/// `bytes`. The bound keeps the crate's output-length computation from
/// overflowing, where it would panic.
#[verifier::external_body]
fn base64_encode(bytes: &[u8]) -> (res: String)
    requires
        bytes@.len() <= usize::MAX / 2,
    ensures
        res@ == base64_standard_encode(bytes@),
        base64_standard_decode(res@) == Some(bytes@),
        forall|i: int| 0 <= i < res@.len() ==> is_base64_char(#[trigger] res@[i]),
{
    base64::engine::general_purpose::STANDARD.encode(bytes)
}

/// `STANDARD.decode` (base64 0.21). Claimed: the result is the named
/// decoding of `text`; the error case is `None`.
#[verifier::external_body]
fn base64_decode(text: &str) -> (res: Option<Vec<u8>>)
    ensures
        res is Some <==> base64_standard_decode(text@) is Some,
        res matches Some(bytes) ==> bytes@ == base64_standard_decode(text@)->0,
{
    base64::engine::general_purpose::STANDARD.decode(text).ok()
}

/// `Aead::encrypt` of `aes_gcm::Aes256Gcm` (aes-gcm 0.9), with the cipher
/// made by `NewAead::new` from `key`. Claimed, as the crate's source shows:
/// for a plaintext of at most 2^36 - 17 bytes it succeeds, with the named
/// ciphertext, 16 tag bytes longer than the plaintext, which decryption with
/// the same key and nonce turns back into the plaintext. Longer plaintexts
/// are left out: from 2^36 - 16 bytes on, the crate's 32-bit block counter
/// runs out and the call panics. `GenericArray::from_slice` panics on other
/// key or nonce lengths.
#[verifier::external_body]
#[allow(deprecated)]
fn aes256gcm_encrypt(key: &[u8], nonce: &[u8], plaintext: &[u8]) -> (res: Option<Vec<u8>>)
    requires
        key@.len() == KEY_LEN,
        nonce@.len() == NONCE_LEN,
        plaintext@.len() <= AES_GCM_MAX_PLAINTEXT,
    ensures
        res is Some,
        res matches Some(c) ==> c@ == aes256gcm_seal(key@, nonce@, plaintext@),
        res matches Some(c) ==> c@.len() == plaintext@.len() + 16,
        res matches Some(c) ==> aes256gcm_open(key@, nonce@, c@) == Some(plaintext@),
{
    let cipher = Aes256Gcm::new(GenericArray::from_slice(key));
    cipher.encrypt(GenericArray::from_slice(nonce), plaintext).ok()
}

/// `Aead::decrypt` of `aes_gcm::Aes256Gcm` (aes-gcm 0.9). Claimed: the
/// result is the named decryption; an authentication failure is `None`.
/// Ciphertexts whose message part exceeds 2^36 - 17 bytes are left out: an
/// authentic one of 2^36 - 16 bytes or more makes the crate's block counter
/// run out, a panic.
#[verifier::external_body]
#[allow(deprecated)]
fn aes256gcm_decrypt(key: &[u8], nonce: &[u8], ciphertext: &[u8]) -> (res: Option<Vec<u8>>)
    requires
        key@.len() == KEY_LEN,
        nonce@.len() == NONCE_LEN,
        ciphertext@.len() <= AES_GCM_MAX_PLAINTEXT + 16,
    ensures
        res is Some <==> aes256gcm_open(key@, nonce@, ciphertext@) is Some,
        res matches Some(p) ==> p@ == aes256gcm_open(key@, nonce@, ciphertext@)->0,
{
    let cipher = Aes256Gcm::new(GenericArray::from_slice(key));
    cipher.decrypt(GenericArray::from_slice(nonce), ciphertext).ok()
}

/// `RngCore::fill_bytes` of `rand::thread_rng()` on a 12-byte buffer.
/// The bytes are random: only their number is claimed.
#[verifier::external_body]
fn random_nonce() -> (res: Vec<u8>)
    ensures
        res@.len() == NONCE_LEN,
{
    let mut nonce = [0u8; 12];
    rand::thread_rng().fill_bytes(&mut nonce);
    nonce.to_vec()
}

/// The 32-byte key that a base64 key text stands for, if it stands for one.
pub open spec fn key_from_text(text: Seq<char>) -> Option<Seq<u8>> {
    match base64_standard_decode(text) {
        Some(key) => if key.len() == KEY_LEN {
            Some(key)
        } else {
            None
        },
        None => None,
    }
}

/// A plaintext short enough to be sealed: AES-GCM's limit, and room for the
/// nonce, tag and base64 expansion within the machine's `usize`.
pub open spec fn sealable(plaintext: Seq<char>) -> bool {
    &&& encode_utf8(plaintext).len() <= AES_GCM_MAX_PLAINTEXT
    &&& encode_utf8(plaintext).len() <= usize::MAX / 4
}

/// The envelope of `plaintext` under `key` with `nonce`: base64 of the nonce
/// followed by the AES-256-GCM ciphertext of the plaintext's UTF-8 bytes.
pub open spec fn sealed_envelope(key: Seq<u8>, nonce: Seq<u8>, plaintext: Seq<char>) -> Seq<char> {
    base64_standard_encode(nonce + aes256gcm_seal(key, nonce, encode_utf8(plaintext)))
}

/// The bytes of an envelope before base64: the nonce, then the ciphertext
/// with its tag.
pub open spec fn envelope_bytes(key: Seq<u8>, nonce: Seq<u8>, plaintext: Seq<char>) -> Seq<u8> {
    nonce + aes256gcm_seal(key, nonce, encode_utf8(plaintext))
}

/// What an envelope text opens to under `key`: the text is trimmed and
/// base64-decoded, the first 12 bytes are the nonce, the rest, of at most
/// the longest plaintext plus the 16 tag bytes, must authenticate and decrypt to
/// valid UTF-8.
pub open spec fn opened_envelope(key: Seq<u8>, text: Seq<char>) -> Option<Seq<char>> {
    match base64_standard_decode(trimmed(text)) {
        Some(data) => if data.len() >= NONCE_LEN && data.len() - NONCE_LEN
            <= AES_GCM_MAX_PLAINTEXT + 16 {
            match aes256gcm_open(key, data.take(NONCE_LEN as int), data.skip(NONCE_LEN as int)) {
                Some(plain) => if valid_utf8(plain) {
                    Some(decode_utf8(plain))
                } else {
                    None
                },
                None => None,
            }
        } else {
            None
        },
        None => None,
    }
}

/// Every base64 text that decodes to exactly 32 bytes is a key, whatever
/// the byte values, and its key is those bytes.
pub proof fn law_any_32_decoded_bytes_are_a_key(text: Seq<char>, key: Seq<u8>)
    requires
        base64_standard_decode(text) == Some(key),
        key.len() == KEY_LEN,
    ensures
        key_from_text(text) == Some(key),
{
}

/// A text is a key only if it decodes to exactly 32 bytes, and then the
/// key is those bytes.
pub proof fn law_keys_are_decoded_32_bytes(text: Seq<char>)
    ensures
        key_from_text(text) matches Some(key) ==> base64_standard_decode(text) == Some(key)
            && key.len() == KEY_LEN,
        base64_standard_decode(text) is None ==> key_from_text(text) is None,
{
}

/// Opening a text gives what opening its trimmed form gives: white space
/// around an envelope never changes what it opens to.
pub proof fn law_opening_ignores_surrounding_white_space(key: Seq<u8>, text: Seq<char>)
    ensures
        opened_envelope(key, text) == opened_envelope(key, trimmed(text)),
{
    lemma_trimmed_idempotent(text);
}

/// Any white space put before and after a text without surrounding white
/// space (such as an envelope with a `"\r\n"` line end) leaves what it opens
/// to unchanged.
pub proof fn law_padded_envelope_opens_alike(
    key: Seq<u8>,
    before: Seq<char>,
    text: Seq<char>,
    after: Seq<char>,
)
    requires
        forall|i: int| 0 <= i < before.len() ==> is_white_space(#[trigger] before[i]),
        forall|i: int| 0 <= i < after.len() ==> is_white_space(#[trigger] after[i]),
        trimmed(text) == text,
    ensures
        opened_envelope(key, before + text + after) == opened_envelope(key, text),
{
    lemma_trimmed_padding(before, text, after);
}

proof fn lemma_base64_text_is_trimmed(s: Seq<char>)
    requires
        forall|i: int| 0 <= i < s.len() ==> is_base64_char(#[trigger] s[i]),
    ensures
        trimmed(s) == s,
{
    assert forall|i: int| 0 <= i < s.len() implies !is_white_space(#[trigger] s[i]) by {
        assert(is_base64_char(s[i]));
    }
    lemma_trimmed_no_white_space(s);
}

/// Encrypts and decrypts strings with one AES-256 key.
pub struct AesGcmEncryptor {
    key: Vec<u8>,
}

impl AesGcmEncryptor {
    #[verifier::type_invariant]
    spec fn key_is_256_bits(self) -> bool {
        self.key@.len() == KEY_LEN
    }
}

impl View for AesGcmEncryptor {
    type V = Seq<u8>;

    /// The key.
    closed spec fn view(&self) -> Seq<u8> {
        self.key@
    }
}

impl AesGcmEncryptor {
    /// The encryptor for a base64 key text, when it decodes to 32 bytes.
    pub fn try_new(aes_key: &str) -> (res: Option<AesGcmEncryptor>)
        ensures
            res is Some <==> key_from_text(aes_key@) is Some,
            res matches Some(e) ==> e@ == key_from_text(aes_key@)->0,
    {
        match base64_decode(aes_key) {
            Some(key) => {
                if key.len() == KEY_LEN {
                    Some(AesGcmEncryptor { key })
                } else {
                    None
                }
            },
            None => None,
        }
    }

    /// The encryptor for a base64 key text that decodes to 32 bytes.
    pub fn new(aes_key: String) -> (res: AesGcmEncryptor)
        requires
            key_from_text(aes_key@) is Some,
        ensures
            res@ == key_from_text(aes_key@)->0,
    {
        Self::try_new(aes_key.as_str()).unwrap()
    }

    /// The envelope of `plaintext` with the given nonce; opening it with the
    /// same key gives `plaintext` back.
    pub fn seal_with_nonce(&self, nonce: &[u8], plaintext: &str) -> (res: String)
        requires
            nonce@.len() == NONCE_LEN,
            sealable(plaintext@),
        ensures
            res@ == sealed_envelope(self@, nonce@, plaintext@),
            base64_standard_decode(res@) == Some(envelope_bytes(self@, nonce@, plaintext@)),
            envelope_bytes(self@, nonce@, plaintext@).len() == NONCE_LEN + encode_utf8(
                plaintext@,
            ).len() + 16,
            opened_envelope(self@, res@) == Some(plaintext@),
            forall|i: int| 0 <= i < res@.len() ==> is_base64_char(#[trigger] res@[i]),
            trimmed(res@) == res@,
    {
        proof {
            use_type_invariant(self);
        }
        let bytes = plaintext.as_bytes();
        let sealed = aes256gcm_encrypt(self.key.as_slice(), nonce, bytes);
        let ciphertext = sealed.unwrap();
        let mut data = slice_to_vec(nonce);
        data.extend_from_slice(ciphertext.as_slice());
        let res = base64_encode(data.as_slice());
        proof {
            assert(data@ =~= nonce@ + ciphertext@);
            lemma_base64_text_is_trimmed(res@);
            assert(data@.take(NONCE_LEN as int) =~= nonce@);
            assert(data@.skip(NONCE_LEN as int) =~= ciphertext@);
        }
        res
    }

    /// Encrypts `plaintext` under a fresh random nonce and returns the
    /// envelope. It always succeeds, and the envelope opens to `plaintext`.
    pub fn encrypt_string(&self, plaintext: String) -> (res: Result<String, ()>)
        requires
            sealable(plaintext@),
        ensures
            match res {
                Ok(s) => {
                    &&& exists|nonce: Seq<u8>|
                        nonce.len() == NONCE_LEN && s@ == #[trigger] sealed_envelope(
                            self@,
                            nonce,
                            plaintext@,
                        ) && base64_standard_decode(s@) == Some(
                            envelope_bytes(self@, nonce, plaintext@),
                        ) && envelope_bytes(self@, nonce, plaintext@).len() == NONCE_LEN
                            + encode_utf8(plaintext@).len() + 16
                    &&& opened_envelope(self@, s@) == Some(plaintext@)
                    &&& forall|i: int| 0 <= i < s@.len() ==> is_base64_char(#[trigger] s@[i])
                    &&& trimmed(s@) == s@
                },
                Err(_) => false,
            },
    {
        let nonce = random_nonce();
        let s = self.seal_with_nonce(nonce.as_slice(), plaintext.as_str());
        Ok(s)
    }

    /// Opens an envelope: `None` when it is not valid base64, is shorter than
    /// a nonce, does not authenticate under this key, or is not UTF-8 inside.
    pub fn try_decrypt_string(&self, encrypted: &str) -> (res: Option<String>)
        ensures
            res is Some <==> opened_envelope(self@, encrypted@) is Some,
            res matches Some(s) ==> s@ == opened_envelope(self@, encrypted@)->0,
    {
        proof {
            use_type_invariant(self);
        }
        let text = encrypted.trim();
        let decoded = match base64_decode(text) {
            Some(d) => d,
            None => return None,
        };
        if decoded.len() < NONCE_LEN {
            return None;
        }
        if (decoded.len() - NONCE_LEN) as u64 > AES_GCM_MAX_PLAINTEXT + 16 {
            return None;
        }
        let nonce = slice_subrange(decoded.as_slice(), 0, NONCE_LEN);
        let ciphertext = slice_subrange(decoded.as_slice(), NONCE_LEN, decoded.len());
        assert(nonce@ =~= decoded@.take(NONCE_LEN as int));
        assert(ciphertext@ =~= decoded@.skip(NONCE_LEN as int));
        let plain = match aes256gcm_decrypt(self.key.as_slice(), nonce, ciphertext) {
            Some(p) => p,
            None => return None,
        };
        match String::from_utf8(plain) {
            Ok(s) => Some(s),
            Err(_) => None,
        }
    }

    /// Opens an envelope that opens under this key.
    pub fn decrypt_string(&self, encrypted: &String) -> (res: Result<String, ()>)
        requires
            opened_envelope(self@, encrypted@) is Some,
        ensures
            match res {
                Ok(s) => s@ == opened_envelope(self@, encrypted@)->0,
                Err(_) => false,
            },
    {
        Ok(self.try_decrypt_string(encrypted.as_str()).unwrap())
    }
}

} // verus!
