//! A key store for symmetric encryption: one master key, and one data key per
//! topic, used with AES-256-GCM; ciphertexts travel as base64 text.

use vstd::prelude::*;
use vstd::utf8::{decode_utf8, encode_utf8, valid_utf8};
use crate::dispatch::{decimal, decimal_text};

verus! {

/// What base64 (standard alphabet, padded) makes of a byte string.
pub uninterp spec fn base64_text(bytes: Seq<u8>) -> Seq<char>;

/// The bytes that a base64 text stands for; `None` where it is not base64.
pub uninterp spec fn base64_bytes(text: Seq<char>) -> Option<Seq<u8>>;

/// AES-256-GCM sealing of `plaintext` under `key` and `nonce`, with no
/// associated data: the ciphertext and the tag; `None` where it fails.
pub uninterp spec fn aes_gcm_sealed(key: Seq<u8>, nonce: Seq<u8>, plaintext: Seq<u8>) -> Option<(Seq<u8>, Seq<u8>)>;

/// AES-256-GCM opening of `sealed` (ciphertext followed by tag) under `key`
/// and `nonce`, with no associated data; `None` where it fails.
pub uninterp spec fn aes_gcm_opened(key: Seq<u8>, nonce: Seq<u8>, sealed: Seq<u8>) -> Option<Seq<u8>>;

/// Relies on ring::rand::SystemRandom::fill: fills a buffer of the asked
/// length with random bytes, or fails.
#[verifier::external_body]
fn random_bytes(len: usize) -> (r: Result<Vec<u8>, String>)
    ensures
        r matches Ok(v) ==> v@.len() == len,
{
    let mut v = vec![0u8; len];
    ring::rand::SecureRandom::fill(&ring::rand::SystemRandom::new(), &mut v).map_err(
        |e| e.to_string(),
    )?;
    Ok(v)
}

/// Relies on base64's STANDARD engine `encode`.
#[verifier::external_body]
fn encode_base64(bytes: &[u8]) -> (r: String)
    ensures
        r@ == base64_text(bytes@),
{
    base64::Engine::encode(&base64::engine::general_purpose::STANDARD, bytes)
}

/// Relies on base64's STANDARD engine `decode`.
#[verifier::external_body]
fn decode_base64(text: &String) -> (r: Result<Vec<u8>, String>)
    ensures
        match r {
            Ok(v) => base64_bytes(text@) == Some(v@),
            Err(_) => base64_bytes(text@) is None,
        },
{
    base64::Engine::decode(&base64::engine::general_purpose::STANDARD, text).map_err(
        |e| e.to_string(),
    )
}

/// Relies on ring's AES-256-GCM `LessSafeKey::seal_in_place_separate_tag`,
/// with the key built by `UnboundKey::new` and the nonce by
/// `Nonce::try_assume_unique_for_key`.
#[verifier::external_body]
fn seal_aes_gcm(key: &[u8], nonce: &[u8], plaintext: Vec<u8>) -> (r: Result<(Vec<u8>, Vec<u8>), String>)
    ensures
        match r {
            Ok((c, t)) => aes_gcm_sealed(key@, nonce@, plaintext@) == Some((c@, t@)),
            Err(_) => aes_gcm_sealed(key@, nonce@, plaintext@) is None,
        },
{
    let unbound = ring::aead::UnboundKey::new(&ring::aead::AES_256_GCM, key).map_err(|e| e.to_string())?;
    let nonce = ring::aead::Nonce::try_assume_unique_for_key(nonce).map_err(|e| e.to_string())?;
    let mut in_out = plaintext;
    let tag = ring::aead::LessSafeKey::new(unbound)
        .seal_in_place_separate_tag(nonce, ring::aead::Aad::empty(), &mut in_out)
        .map_err(|e| e.to_string())?;
    Ok((in_out, tag.as_ref().to_vec()))
}

/// Relies on ring's AES-256-GCM `LessSafeKey::open_in_place`, with the key
/// built by `UnboundKey::new` and the nonce by
/// `Nonce::try_assume_unique_for_key`.
#[verifier::external_body]
fn open_aes_gcm(key: &[u8], nonce: &[u8], sealed: Vec<u8>) -> (r: Result<Vec<u8>, String>)
    ensures
        match r {
            Ok(p) => aes_gcm_opened(key@, nonce@, sealed@) == Some(p@),
            Err(_) => aes_gcm_opened(key@, nonce@, sealed@) is None,
        },
{
    let unbound = ring::aead::UnboundKey::new(&ring::aead::AES_256_GCM, key).map_err(|e| e.to_string())?;
    let nonce = ring::aead::Nonce::try_assume_unique_for_key(nonce).map_err(|e| e.to_string())?;
    let mut in_out = sealed;
    let plain = ring::aead::LessSafeKey::new(unbound)
        .open_in_place(nonce, ring::aead::Aad::empty(), &mut in_out)
        .map_err(|e| e.to_string())?;
    Ok(plain.to_vec())
}

/// Relies on String::from_utf8: accepts exactly the valid UTF-8 byte strings.
#[verifier::external_body]
fn utf8_string(bytes: Vec<u8>) -> (r: Result<String, String>)
    ensures
        match r {
            Ok(s) => valid_utf8(bytes@) && s@ == decode_utf8(bytes@),
            Err(_) => !valid_utf8(bytes@),
        },
{
    String::from_utf8(bytes).map_err(|e| e.to_string())
}

/// A ciphertext with its nonce and tag, each as base64 text.
#[derive(Debug, Clone, PartialEq)]
pub struct EncryptedData {
    pub ciphertext: String,
    pub iv: String,
    pub tag: Option<String>,
}

/// What is known of a key: its name, its algorithm and when it was reported.
#[derive(Debug, Clone, PartialEq)]
pub struct KeyInfo {
    pub id: String,
    pub algorithm: String,
    pub created_at: String,
}

/// The key of the first entry for `topic`.
pub open spec fn key_of(keys: Seq<(String, Vec<u8>)>, topic: Seq<char>) -> Option<Seq<u8>>
    decreases keys.len(),
{
    if keys.len() == 0 {
        None
    } else if keys[0].0@ == topic {
        Some(keys[0].1@)
    } else {
        key_of(keys.drop_first(), topic)
    }
}

proof fn lemma_key_of_found(keys: Seq<(String, Vec<u8>)>, topic: Seq<char>, i: int)
    requires
        0 <= i < keys.len(),
        keys[i].0@ == topic,
        forall|j: int| 0 <= j < i ==> keys[j].0@ != topic,
    ensures
        key_of(keys, topic) == Some(keys[i].1@),
    decreases i,
{
    if i > 0 {
        lemma_key_of_found(keys.drop_first(), topic, i - 1);
    }
}

proof fn lemma_key_of_absent(keys: Seq<(String, Vec<u8>)>, topic: Seq<char>)
    requires
        forall|j: int| 0 <= j < keys.len() ==> keys[j].0@ != topic,
    ensures
        key_of(keys, topic) is None,
    decreases keys.len(),
{
    if keys.len() > 0 {
        lemma_key_of_absent(keys.drop_first(), topic);
    }
}

proof fn lemma_key_of_push(keys: Seq<(String, Vec<u8>)>, entry: (String, Vec<u8>), topic: Seq<char>)
    ensures
        key_of(keys, topic) is Some ==> key_of(keys.push(entry), topic) == key_of(keys, topic),
        key_of(keys, topic) is None ==> key_of(keys.push(entry), topic) == (if entry.0@ == topic {
            Some(entry.1@)
        } else {
            None
        }),
    decreases keys.len(),
{
    let p = keys.push(entry);
    if keys.len() > 0 {
        assert(p.drop_first() =~= keys.drop_first().push(entry));
        assert(p[0] == keys[0]);
        lemma_key_of_push(keys.drop_first(), entry, topic);
    } else {
        assert(p.drop_first() =~= Seq::<(String, Vec<u8>)>::empty());
        assert(p[0] == entry);
        assert(key_of(p.drop_first(), topic) is None);
    }
}

/// The plaintext that `data` stands for under `key`: the base64 fields are
/// decoded, the tag (when there is one) is appended to the ciphertext, the
/// result is opened and read as UTF-8. `None` where any step fails.
pub open spec fn decryption(key: Seq<u8>, data: EncryptedData) -> Option<Seq<char>> {
    match (base64_bytes(data.ciphertext@), base64_bytes(data.iv@)) {
        (Some(ciphertext), Some(iv)) => {
            let tag = match data.tag {
                None => Some(Seq::<u8>::empty()),
                Some(t) => base64_bytes(t@),
            };
            match tag {
                None => None,
                Some(tag) => match aes_gcm_opened(key, iv, ciphertext + tag) {
                    Some(plain) => if valid_utf8(plain) {
                        Some(decode_utf8(plain))
                    } else {
                        None
                    },
                    None => None,
                },
            }
        },
        _ => None,
    }
}

/// `e` is the encryption of `data` under `key` with the nonce `iv`.
pub open spec fn encryption_of(key: Seq<u8>, iv: Seq<u8>, data: Seq<char>, e: EncryptedData) -> bool {
    match aes_gcm_sealed(key, iv, encode_utf8(data)) {
        Some((ciphertext, tag)) => {
            &&& e.ciphertext@ == base64_text(ciphertext)
            &&& e.iv@ == base64_text(iv)
            &&& e.tag matches Some(t) && t@ == base64_text(tag)
        },
        None => false,
    }
}

/// The message for a topic without a data key.
pub open spec fn missing_key_text(topic: Seq<char>) -> Seq<char> {
    "Data key not found for topic: "@ + topic
}

/// Key information reported for `id`, stamped with some reading of the clock.
pub open spec fn reported(info: KeyInfo, id: Seq<char>) -> bool {
    &&& info.id@ == id
    &&& info.algorithm@ == "AES-256-GCM"@
    &&& exists|t: i64| info.created_at@ == decimal(t as int)
}

fn report_key(id: String) -> (r: KeyInfo)
    ensures
        reported(r, id@),
{
    let now = crate::client::current_time();
    KeyInfo {
        id,
        algorithm: String::from_str("AES-256-GCM"),
        created_at: decimal_text(now.secs),
    }
}

/// Prepares the encryption service; there is nothing to set up, so this
/// always succeeds.
pub fn initialize() -> (r: Result<(), String>)
    ensures
        r is Ok,
{
    Ok(())
}

/// The master key and the per-topic data keys.
pub struct KeyStore {
    master_key: Option<Vec<u8>>,
    data_keys: Vec<(String, Vec<u8>)>,
}

impl KeyStore {
    /// The master key, if one was generated.
    pub closed spec fn master(&self) -> Option<Seq<u8>> {
        match self.master_key {
            Some(k) => Some(k@),
            None => None,
        }
    }

    /// The data key of `topic`, if one was generated.
    pub closed spec fn data_key(&self, topic: Seq<char>) -> Option<Seq<u8>> {
        key_of(self.data_keys@, topic)
    }

    /// An empty store: no master key and no data keys.
    pub fn new() -> (r: KeyStore)
        ensures
            r.master() is None,
            forall|t: Seq<char>| #[trigger] r.data_key(t) is None,
    {
        KeyStore { master_key: None, data_keys: Vec::new() }
    }

    fn find_key(&self, topic: &String) -> (r: Option<usize>)
        ensures
            match r {
                Some(i) => i < self.data_keys.len() && self.data_key(topic@) == Some(
                    self.data_keys@[i as int].1@,
                ),
                None => self.data_key(topic@) is None,
            },
    {
        let mut i: usize = 0;
        while i < self.data_keys.len()
            invariant
                i <= self.data_keys.len(),
                forall|j: int| 0 <= j < i ==> self.data_keys@[j].0@ != topic@,
            decreases self.data_keys.len() - i,
        {
            if self.data_keys[i].0 == *topic {
                proof {
                    lemma_key_of_found(self.data_keys@, topic@, i as int);
                }
                return Some(i);
            }
            i = i + 1;
        }
        proof {
            lemma_key_of_absent(self.data_keys@, topic@);
        }
        None
    }

    /// Generates the master key unless there is one already; either way
    /// reports it. A failure of the random source leaves the store as it was.
    pub fn generate_master_key(&mut self) -> (r: Result<KeyInfo, String>)
        ensures
            forall|t: Seq<char>| #[trigger] final(self).data_key(t) == old(self).data_key(t),
            old(self).master() is Some ==> final(self).master() == old(self).master() && r is Ok,
            old(self).master() is None ==> match r {
                Ok(_) => final(self).master() matches Some(k) && k.len() == 32,
                Err(_) => final(self).master() is None,
            },
            r matches Ok(info) ==> reported(info, "master"@),
    {
        if self.master_key.is_none() {
            let key = match random_bytes(32) {
                Ok(k) => k,
                Err(e) => return Err(e),
            };
            self.master_key = Some(key);
        }
        Ok(report_key(String::from_str("master")))
    }

    /// Generates the data key of `topic_id` unless it has one already;
    /// either way reports it. Needs the master key. Other topics' keys and
    /// the master key are left as they were.
    pub fn generate_data_key(&mut self, topic_id: String) -> (r: Result<KeyInfo, String>)
        ensures
            final(self).master() == old(self).master(),
            forall|t: Seq<char>| t != topic_id@ ==> #[trigger] final(self).data_key(t) == old(self).data_key(t),
            old(self).master() is None ==> (r matches Err(e) && e@ == "Master key not initialized"@),
            old(self).master() is None ==> final(self).data_key(topic_id@) == old(self).data_key(
                topic_id@,
            ),
            old(self).master() is Some && old(self).data_key(topic_id@) is Some ==> r is Ok
                && final(self).data_key(topic_id@) == old(self).data_key(topic_id@),
            old(self).master() is Some && old(self).data_key(topic_id@) is None ==> match r {
                Ok(_) => final(self).data_key(topic_id@) matches Some(k) && k.len() == 32,
                Err(_) => final(self).data_key(topic_id@) is None,
            },
            r matches Ok(info) ==> reported(info, topic_id@),
    {
        if self.master_key.is_none() {
            return Err(String::from_str("Master key not initialized"));
        }
        if self.find_key(&topic_id).is_some() {
            return Ok(report_key(topic_id));
        }
        let key = match random_bytes(32) {
            Ok(k) => k,
            Err(e) => return Err(e),
        };
        let entry = (topic_id.clone(), key);
        proof {
            assert forall|t: Seq<char>| #[trigger] key_of(self.data_keys@.push(entry), t) == (if t
                == topic_id@ {
                Some(entry.1@)
            } else {
                key_of(self.data_keys@, t)
            }) by {
                lemma_key_of_push(self.data_keys@, entry, t);
            }
        }
        self.data_keys.push(entry);
        Ok(report_key(topic_id))
    }

    /// Encrypts `data` with the data key of `topic_id` and the nonce `iv`.
    pub fn encrypt_with_nonce(&self, data: String, topic_id: String, iv: Vec<u8>) -> (r: Result<
        EncryptedData,
        String,
    >)
        ensures
            self.data_key(topic_id@) is None ==> (r matches Err(e) && e@ == missing_key_text(
                topic_id@,
            )),
            self.data_key(topic_id@) matches Some(key) ==> match r {
                Ok(e) => encryption_of(key, iv@, data@, e),
                Err(_) => aes_gcm_sealed(key, iv@, encode_utf8(data@)) is None,
            },
    {
        let key = match self.find_key(&topic_id) {
            None => {
                return Err(String::from_str("Data key not found for topic: ").concat(topic_id.as_str()));
            },
            Some(i) => &self.data_keys[i].1,
        };
        let plaintext = data.as_str().as_bytes_vec();
        let (ciphertext, tag) = match seal_aes_gcm(key.as_slice(), iv.as_slice(), plaintext) {
            Ok(sealed) => sealed,
            Err(e) => return Err(e),
        };
        Ok(EncryptedData {
            ciphertext: encode_base64(ciphertext.as_slice()),
            iv: encode_base64(iv.as_slice()),
            tag: Some(encode_base64(tag.as_slice())),
        })
    }

    /// Encrypts `data` with the data key of `topic_id` under a fresh random
    /// nonce of twelve bytes.
    pub fn encrypt(&self, data: String, topic_id: String) -> (r: Result<EncryptedData, String>)
        ensures
            self.data_key(topic_id@) is None ==> (r matches Err(e) && e@ == missing_key_text(
                topic_id@,
            )),
            r matches Ok(e) ==> self.data_key(topic_id@) matches Some(key) && exists|iv: Seq<u8>|
                iv.len() == 12 && encryption_of(key, iv, data@, e),
    {
        if self.find_key(&topic_id).is_none() {
            return Err(String::from_str("Data key not found for topic: ").concat(topic_id.as_str()));
        }
        let iv = match random_bytes(12) {
            Ok(iv) => iv,
            Err(e) => return Err(e),
        };
        self.encrypt_with_nonce(data, topic_id, iv)
    }

    /// Decrypts `encrypted_data` with the data key of `topic_id`.
    pub fn decrypt(&self, encrypted_data: EncryptedData, topic_id: String) -> (r: Result<String, String>)
        ensures
            self.data_key(topic_id@) is None ==> (r matches Err(e) && e@ == missing_key_text(
                topic_id@,
            )),
            self.data_key(topic_id@) matches Some(key) ==> match decryption(key, encrypted_data) {
                Some(plain) => r matches Ok(s) && s@ == plain,
                None => r is Err,
            },
    {
        let key = match self.find_key(&topic_id) {
            None => {
                return Err(String::from_str("Data key not found for topic: ").concat(topic_id.as_str()));
            },
            Some(i) => &self.data_keys[i].1,
        };
        let mut ciphertext = match decode_base64(&encrypted_data.ciphertext) {
            Ok(c) => c,
            Err(e) => return Err(e),
        };
        let iv = match decode_base64(&encrypted_data.iv) {
            Ok(v) => v,
            Err(e) => return Err(e),
        };
        let tag = match &encrypted_data.tag {
            None => Vec::new(),
            Some(t) => match decode_base64(t) {
                Ok(v) => v,
                Err(e) => return Err(e),
            },
        };
        let ghost sealed = ciphertext@ + tag@;
        let mut i: usize = 0;
        let ghost start = ciphertext@;
        while i < tag.len()
            invariant
                i <= tag.len(),
                ciphertext@ == start + tag@.subrange(0, i as int),
            decreases tag.len() - i,
        {
            ciphertext.push(tag[i]);
            i = i + 1;
            assert(ciphertext@ =~= start + tag@.subrange(0, i as int));
        }
        assert(ciphertext@ =~= sealed);
        let plain = match open_aes_gcm(key.as_slice(), iv.as_slice(), ciphertext) {
            Ok(p) => p,
            Err(e) => return Err(e),
        };
        utf8_string(plain)
    }
}

} // verus!
