//! The derivation engine: user key, site key, credential, stored state and
//! identicon. Every function here is a pure function of its arguments.

use crate::error::{result_view, SpectreError, SpectreErrorView};
use crate::primitives::{
    hmac_sha256, hmac_sha256_tag, scrypt, scrypt_key, sha256, sha256_digest,
};
use crate::types::{
    char_class_for_template, spec_char_class, SpectreAlgorithm, SpectreCounter,
    SpectreKeyPurpose, SpectreResultType, SPECTRE_ALGORITHM_CURRENT, SPECTRE_ALGORITHM_FIRST,
    SPECTRE_ALGORITHM_LAST,
};
use crate::util::zero_bytes;
use vstd::arithmetic::power2::{lemma2_to64, pow2};
use vstd::prelude::*;
use vstd::string::StringSliceAdditionalSpecFns;
use vstd::utf8::{decode_utf8, encode_utf8, encode_utf8_decode_utf8, valid_utf8};

verus! {

/// scrypt's cost.
pub const SPECTRE_N: u32 = 32768;

/// The binary logarithm of scrypt's cost.
pub const SPECTRE_LOG_N: u8 = 15;

/// scrypt's block size.
pub const SPECTRE_R: u32 = 8;

/// scrypt's parallelism.
pub const SPECTRE_P: u32 = 2;

/// The length of a user key in bytes.
pub const SPECTRE_DK_LEN: usize = 64;

/// The length of a site key in bytes: that of an HMAC-SHA-256 tag.
pub const SPECTRE_SITE_KEY_LEN: usize = 32;

/// A user key: 64 bytes derived from a name and a secret, with the SHA-256
/// digest of those bytes as its public fingerprint.
pub struct SpectreUserKey {
    pub key_id: [u8; 32],
    pub key_data: Vec<u8>,
    pub algorithm: SpectreAlgorithm,
}

/// A user key as contracts speak of it.
pub struct SpectreUserKeyView {
    pub key_id: Seq<u8>,
    pub key_data: Seq<u8>,
    pub algorithm: SpectreAlgorithm,
}

impl View for SpectreUserKey {
    type V = SpectreUserKeyView;

    open spec fn view(&self) -> SpectreUserKeyView {
        SpectreUserKeyView {
            key_id: self.key_id@,
            key_data: self.key_data@,
            algorithm: self.algorithm,
        }
    }
}

impl Clone for SpectreUserKey {
    fn clone(&self) -> (r: SpectreUserKey)
        ensures
            r@ == self@,
    {
        let r = SpectreUserKey {
            key_id: self.key_id,
            key_data: self.key_data.clone(),
            algorithm: self.algorithm,
        };
        r
    }
}

impl SpectreUserKey {
    /// A key is well formed when it has 64 bytes.
    pub open spec fn wf(&self) -> bool {
        self.key_data@.len() == SPECTRE_DK_LEN
    }

    /// A key is fingerprinted when its `key_id` is the SHA-256 digest of its
    /// bytes.
    pub open spec fn fingerprinted(&self) -> bool {
        self.key_id@ == sha256_digest(self.key_data@)
    }

    /// Whether the key has 64 bytes.
    pub fn is_wf(&self) -> (r: bool)
        ensures
            r == self.wf(),
    {
        self.key_data.len() == SPECTRE_DK_LEN
    }

    /// Wipes the key: every byte of the key and of its fingerprint becomes
    /// zero. A key is sensitive and is wiped before it is dropped.
    pub fn zeroize(&mut self)
        ensures
            final(self).key_data@.len() == old(self).key_data@.len(),
            forall|i: int| 0 <= i < final(self).key_data@.len() ==> final(self).key_data@[i] == 0,
            forall|i: int| 0 <= i < 32 ==> final(self).key_id@[i] == 0,
            final(self).algorithm == old(self).algorithm,
    {
        zero_bytes(&mut self.key_data);
        self.key_id = [0u8; 32];
    }
}

/// The four bytes of a 32-bit number, most significant first.
pub open spec fn spec_u32_be(x: u32) -> Seq<u8> {
    seq![
        (x / 0x100_0000) as u8,
        (x / 0x1_0000 % 0x100) as u8,
        (x / 0x100 % 0x100) as u8,
        (x % 0x100) as u8,
    ]
}

/// The length of a byte string as it is packed into a salt: a 32-bit number,
/// most significant byte first. A length of `2^32` or more wraps around.
pub open spec fn spec_len_be(bytes: Seq<u8>) -> Seq<u8> {
    spec_u32_be((bytes.len() % 0x1_0000_0000) as u32)
}

/// The salt of a user key: the authentication scope, the length of the name,
/// the name.
pub open spec fn spec_user_salt(name: Seq<u8>) -> Seq<u8> {
    encode_utf8(SpectreKeyPurpose::Authentication.spec_scope()) + spec_len_be(name) + name
}

/// The 64 bytes of the user key for a name and a secret, both in UTF-8.
pub open spec fn spec_user_key_data(name: Seq<u8>, secret: Seq<u8>) -> Seq<u8> {
    scrypt_key(
        secret,
        spec_user_salt(name),
        SPECTRE_LOG_N,
        SPECTRE_R,
        SPECTRE_P,
        SPECTRE_DK_LEN as nat,
    )
}

/// What `spectre_user_key` returns: an unsupported algorithm version is
/// refused; otherwise the key data is scrypt's output and the fingerprint is
/// its SHA-256 digest.
pub open spec fn spec_user_key(
    name: Seq<u8>,
    secret: Seq<u8>,
    algorithm: SpectreAlgorithm,
) -> Result<SpectreUserKeyView, SpectreErrorView> {
    if SPECTRE_ALGORITHM_FIRST <= algorithm <= SPECTRE_ALGORITHM_LAST {
        Ok(
            SpectreUserKeyView {
                key_id: sha256_digest(spec_user_key_data(name, secret)),
                key_data: spec_user_key_data(name, secret),
                algorithm,
            },
        )
    } else {
        Err(SpectreErrorView::InvalidAlgorithm(algorithm))
    }
}

/// Appends `bytes` to `buf`.
fn extend_bytes(buf: &mut Vec<u8>, bytes: &[u8])
    ensures
        final(buf)@ == old(buf)@ + bytes@,
{
    let n: usize = bytes.len();
    let mut i: usize = 0;
    while i < n
        invariant
            n == bytes@.len(),
            i <= n,
            buf@ == old(buf)@ + bytes@.take(i as int),
        decreases n - i,
    {
        buf.push(bytes[i]);
        i += 1;
    }
}

/// Appends the four bytes of `x` to `buf`, most significant first.
fn extend_u32_be(buf: &mut Vec<u8>, x: u32)
    ensures
        final(buf)@ == old(buf)@ + spec_u32_be(x),
{
    buf.push((x / 0x100_0000) as u8);
    buf.push((x / 0x1_0000 % 0x100) as u8);
    buf.push((x / 0x100 % 0x100) as u8);
    buf.push((x % 0x100) as u8);
}

/// Appends the length of `bytes` to `buf`, as it is packed into a salt.
fn extend_len_be(buf: &mut Vec<u8>, bytes: &[u8])
    ensures
        final(buf)@ == old(buf)@ + spec_len_be(bytes@),
{
    let len: u64 = bytes.len() as u64;
    extend_u32_be(buf, (len % 0x1_0000_0000) as u32);
}

/// Derives a user key from the user's name and secret.
///
/// The salt is the authentication scope, the length of the name in UTF-8 as a
/// 32-bit number, and the name; the key is scrypt's output of 64 bytes for the
/// secret under that salt, with `N = 32768`, `r = 8` and `p = 2`.
pub fn spectre_user_key(
    user_name: &str,
    user_secret: &str,
    algorithm: SpectreAlgorithm,
) -> (r: Result<SpectreUserKey, SpectreError>)
    ensures
        result_view(r) == spec_user_key(
            user_name.spec_bytes(),
            user_secret.spec_bytes(),
            algorithm,
        ),
        r matches Ok(key) ==> key.wf() && key.fingerprinted(),
{
    if !(SPECTRE_ALGORITHM_FIRST <= algorithm && algorithm <= SPECTRE_ALGORITHM_LAST) {
        return Err(SpectreError::InvalidAlgorithm(algorithm));
    }
    let scope = SpectreKeyPurpose::Authentication.scope().as_bytes();
    let name_bytes = user_name.as_bytes();

    let mut salt: Vec<u8> = Vec::new();
    extend_bytes(&mut salt, scope);
    extend_len_be(&mut salt, name_bytes);
    extend_bytes(&mut salt, name_bytes);

    // With N = 2^15, r = 8 and p = 2, scrypt accepts its parameters.
    proof {
        lemma2_to64();
        assert(pow2(SPECTRE_LOG_N as nat) == SPECTRE_N);
    }
    let key_data = match scrypt(
        user_secret.as_bytes(),
        salt.as_slice(),
        SPECTRE_LOG_N,
        SPECTRE_R,
        SPECTRE_P,
        SPECTRE_DK_LEN,
    ) {
        Some(key_data) => key_data,
        None => {
            return Err(SpectreError::KeyDerivationFailed);
        },
    };
    let key_id = sha256(key_data.as_slice());

    Ok(SpectreUserKey { key_id, key_data, algorithm })
}

/// The bytes of an optional text in UTF-8; no text gives no bytes.
pub open spec fn spec_context(context: Option<&str>) -> Seq<u8> {
    match context {
        Some(text) => text.spec_bytes(),
        None => Seq::empty(),
    }
}

/// The characters of an optional text.
pub open spec fn spec_param(param: Option<&str>) -> Option<Seq<char>> {
    match param {
        Some(text) => Some(text@),
        None => None,
    }
}

/// The salt of a site key: the scope of the purpose, the length of the site
/// name, the site name, the counter, and, where the context is not empty, the
/// length of the context and the context.
pub open spec fn spec_site_salt(
    purpose: SpectreKeyPurpose,
    site: Seq<u8>,
    counter: SpectreCounter,
    context: Seq<u8>,
) -> Seq<u8> {
    let head = encode_utf8(purpose.spec_scope()) + spec_len_be(site) + site + spec_u32_be(counter);
    if context.len() == 0 {
        head
    } else {
        head + spec_len_be(context) + context
    }
}

/// The site key: the HMAC-SHA-256 tag of the site's salt under the user key.
pub open spec fn spec_site_key(
    key_data: Seq<u8>,
    purpose: SpectreKeyPurpose,
    site: Seq<u8>,
    counter: SpectreCounter,
    context: Seq<u8>,
) -> Seq<u8> {
    hmac_sha256_tag(key_data, spec_site_salt(purpose, site, counter, context))
}

/// Derives the key of a site: the HMAC-SHA-256 tag, under the user key, of a
/// salt made of the purpose's scope, the site name, the counter and the
/// context. It has 32 bytes.
pub fn spectre_site_key(
    user_key: &SpectreUserKey,
    site_name: &str,
    key_counter: SpectreCounter,
    key_purpose: SpectreKeyPurpose,
    key_context: Option<&str>,
) -> (r: Result<Vec<u8>, SpectreError>)
    ensures
        result_view(r) == Ok::<Seq<u8>, SpectreErrorView>(
            spec_site_key(
                user_key.key_data@,
                key_purpose,
                site_name.spec_bytes(),
                key_counter,
                spec_context(key_context),
            ),
        ),
        r matches Ok(site_key) ==> site_key@.len() == SPECTRE_SITE_KEY_LEN,
{
    let scope = key_purpose.scope().as_bytes();
    let site_bytes = site_name.as_bytes();

    let mut salt: Vec<u8> = Vec::new();
    extend_bytes(&mut salt, scope);
    extend_len_be(&mut salt, site_bytes);
    extend_bytes(&mut salt, site_bytes);
    extend_u32_be(&mut salt, key_counter);

    if let Some(context) = key_context {
        let context_bytes = context.as_bytes();
        if context_bytes.len() != 0 {
            extend_len_be(&mut salt, context_bytes);
            extend_bytes(&mut salt, context_bytes);
        }
    }

    match hmac_sha256(user_key.key_data.as_slice(), salt.as_slice()) {
        Ok(site_key) => Ok(site_key),
        Err(_) => Err(SpectreError::KeyDerivationFailed),
    }
}

/// The template that a site key selects: its first byte, modulo the number of
/// templates, is the template's place in the list of the result type.
pub open spec fn spec_pick_template(
    result_type: SpectreResultType,
    site_key: Seq<u8>,
) -> Seq<char> {
    let templates = result_type.spec_template();
    templates[(site_key[0] as int) % (templates.len() as int)]
}

/// The seed index at place `i` of a template: one more than the number of
/// places before `i` whose character has a class. Byte 0 of the site key picks
/// the template, so the first class character is chosen by byte 1.
pub open spec fn spec_seed_index(template: Seq<char>, i: int) -> nat
    decreases i,
{
    if i <= 0 {
        1
    } else if spec_char_class(template[i - 1]).len() > 0 {
        spec_seed_index(template, i - 1) + 1
    } else {
        spec_seed_index(template, i - 1)
    }
}

/// The character of a credential at place `i`: the template's own where that
/// has no class, else the member of the class that the site key's byte at the
/// seed index, taken modulo 32, selects modulo the size of the class.
pub open spec fn spec_template_char(template: Seq<char>, site_key: Seq<u8>, i: int) -> char {
    let class = spec_char_class(template[i]);
    if class.len() == 0 {
        template[i]
    } else {
        let seed = site_key[(spec_seed_index(template, i) % 32) as int];
        class[(seed as int) % (class.len() as int)]
    }
}

/// The credential that a site key makes of a template, place by place.
pub open spec fn spec_fill_template(template: Seq<char>, site_key: Seq<u8>) -> Seq<char> {
    Seq::new(template.len(), |i: int| spec_template_char(template, site_key, i))
}

/// What a site key and a result type give. A stateful type decrypts the
/// stored state it is given, fails with `DecryptionFailed` where that is no
/// state, and fails with `PasswordGenerationFailed` without one; a type
/// without templates fails; any other type fills the template that the site
/// key selects.
pub open spec fn spec_site_result_with_key(
    site_key: Seq<u8>,
    result_type: SpectreResultType,
    result_param: Option<Seq<char>>,
) -> Result<Seq<char>, SpectreErrorView> {
    if result_type.spec_is_stateful() {
        match result_param {
            Some(state) => match spec_site_plaintext_with_key(site_key, state) {
                Some(plaintext) => Ok(plaintext),
                None => Err(SpectreErrorView::DecryptionFailed),
            },
            None => Err(SpectreErrorView::PasswordGenerationFailed),
        }
    } else if result_type.spec_template().len() == 0 {
        Err(SpectreErrorView::PasswordGenerationFailed)
    } else {
        Ok(spec_fill_template(spec_pick_template(result_type, site_key), site_key))
    }
}

/// What `spectre_site_result` returns for a user key and a request.
pub open spec fn spec_site_result(
    key_data: Seq<u8>,
    site: Seq<u8>,
    result_type: SpectreResultType,
    result_param: Option<Seq<char>>,
    counter: SpectreCounter,
    purpose: SpectreKeyPurpose,
    context: Seq<u8>,
) -> Result<Seq<char>, SpectreErrorView> {
    spec_site_result_with_key(
        spec_site_key(key_data, purpose, site, counter, context),
        result_type,
        result_param,
    )
}

/// Fills a template with the characters that a site key selects.
fn fill_template(template: &str, site_key: &[u8]) -> (password: String)
    requires
        site_key@.len() == SPECTRE_SITE_KEY_LEN,
    ensures
        password@ == spec_fill_template(template@, site_key@),
{
    broadcast use vstd::string::group_string_axioms;

    let mut password = String::new();
    // Byte 0 selected the template; the seed index is kept modulo 32.
    let mut seed_index: usize = 1;
    for template_char in it: template.chars()
        invariant
            it.seq() == template@,
            site_key@.len() == SPECTRE_SITE_KEY_LEN,
            seed_index == spec_seed_index(template@, it.index() as int) % 32,
            password@ == spec_fill_template(template@, site_key@).take(it.index() as int),
    {
        let char_class = char_class_for_template(template_char);
        if char_class.len() == 0 {
            password.push(template_char);
        } else {
            let char_index = site_key[seed_index] as usize % char_class.len();
            password.push(char_class[char_index]);
            seed_index = if seed_index == 31 {
                0
            } else {
                seed_index + 1
            };
        }
    }
    password
}

/// Assembles the credential of a site from its key.
///
/// For a stateful result type `result_param` is the stored state: it is
/// decrypted for display, and the type fails without it. Any other type needs
/// a template: the site key's first byte selects it, and each of its class
/// characters is replaced by the member of the class that the next byte of the
/// site key selects.
pub fn spectre_site_result_with_key(
    site_key: &[u8],
    result_type: SpectreResultType,
    result_param: Option<&str>,
) -> (r: Result<String, SpectreError>)
    requires
        site_key@.len() == SPECTRE_SITE_KEY_LEN,
    ensures
        result_view(r) == spec_site_result_with_key(
            site_key@,
            result_type,
            spec_param(result_param),
        ),
{
    if result_type.is_stateful() {
        if let Some(state) = result_param {
            return spectre_site_plaintext_with_key(site_key, state);
        }
        return Err(SpectreError::PasswordGenerationFailed);
    }
    let templates = result_type.template();
    if templates.len() == 0 {
        return Err(SpectreError::PasswordGenerationFailed);
    }
    let template_index = site_key[0] as usize % templates.len();
    let template = templates[template_index];

    Ok(fill_template(template, site_key))
}

/// Generates the credential of a site.
pub fn spectre_site_result(
    user_key: &SpectreUserKey,
    site_name: &str,
    result_type: SpectreResultType,
    result_param: Option<&str>,
    key_counter: SpectreCounter,
    key_purpose: SpectreKeyPurpose,
    key_context: Option<&str>,
) -> (r: Result<String, SpectreError>)
    ensures
        result_view(r) == spec_site_result(
            user_key.key_data@,
            site_name.spec_bytes(),
            result_type,
            spec_param(result_param),
            key_counter,
            key_purpose,
            spec_context(key_context),
        ),
{
    let mut site_key = match spectre_site_key(
        user_key,
        site_name,
        key_counter,
        key_purpose,
        key_context,
    ) {
        Ok(site_key) => site_key,
        Err(e) => {
            return Err(e);
        },
    };
    let result = spectre_site_result_with_key(site_key.as_slice(), result_type, result_param);
    zero_bytes(&mut site_key);
    result
}

/// The identicon of a user key: its first four bytes.
pub open spec fn spec_identicon_of_key(key_data: Seq<u8>) -> Seq<u8> {
    key_data.subrange(0, 4)
}

/// The identicon of a user: the first four bytes of the user key.
pub open spec fn spec_identicon(name: Seq<u8>, secret: Seq<u8>) -> Seq<u8> {
    spec_identicon_of_key(spec_user_key_data(name, secret))
}

/// The identicon of a user key.
pub fn spectre_identicon_of_key(user_key: &SpectreUserKey) -> (identicon: [u8; 4])
    requires
        user_key.key_data@.len() >= 4,
    ensures
        identicon@ == spec_identicon_of_key(user_key.key_data@),
{
    let identicon = [
        user_key.key_data[0],
        user_key.key_data[1],
        user_key.key_data[2],
        user_key.key_data[3],
    ];
    identicon
}

/// Generates the identicon of a user.
pub fn spectre_identicon(user_name: &str, user_secret: &str) -> (r: Result<[u8; 4], SpectreError>)
    ensures
        result_view(r) == Ok::<Seq<u8>, SpectreErrorView>(
            spec_identicon(user_name.spec_bytes(), user_secret.spec_bytes()),
        ),
{
    let mut user_key = match spectre_user_key(user_name, user_secret, SPECTRE_ALGORITHM_CURRENT) {
        Ok(user_key) => user_key,
        Err(e) => {
            return Err(e);
        },
    };
    let identicon = spectre_identicon_of_key(&user_key);
    user_key.zeroize();
    Ok(identicon)
}

/// The palette of an identicon: seven coloured circles, twice, the first run
/// closed by a black circle and the second by a white one.
pub open spec fn spec_identicon_palette() -> Seq<char> {
    seq![
        '\u{1F534}', '\u{1F7E0}', '\u{1F7E1}', '\u{1F7E2}', '\u{1F535}', '\u{1F7E3}', '\u{1F7E4}',
        '\u{26AB}', '\u{1F534}', '\u{1F7E0}', '\u{1F7E1}', '\u{1F7E2}', '\u{1F535}', '\u{1F7E3}',
        '\u{1F7E4}', '\u{26AA}',
    ]
}

/// An identicon as glyphs: for each byte, the glyph of the palette at the
/// byte's value modulo 16.
pub open spec fn spec_identicon_render(identicon: Seq<u8>) -> Seq<char> {
    Seq::new(identicon.len(), |i: int| spec_identicon_palette()[(identicon[i] % 16) as int])
}

/// Renders an identicon as four glyphs.
pub fn spectre_identicon_render(identicon: [u8; 4]) -> (glyphs: String)
    ensures
        glyphs@ == spec_identicon_render(identicon@),
{
    let palette: [char; 16] = [
        '\u{1F534}', '\u{1F7E0}', '\u{1F7E1}', '\u{1F7E2}', '\u{1F535}', '\u{1F7E3}', '\u{1F7E4}',
        '\u{26AB}', '\u{1F534}', '\u{1F7E0}', '\u{1F7E1}', '\u{1F7E2}', '\u{1F535}', '\u{1F7E3}',
        '\u{1F7E4}', '\u{26AA}',
    ];
    let mut glyphs = String::new();
    let mut i: usize = 0;
    while i < 4
        invariant
            i <= 4,
            palette@ == spec_identicon_palette(),
            glyphs@ == spec_identicon_render(identicon@).take(i as int),
        decreases 4 - i,
    {
        let index = (identicon[i] % 16) as usize;
        glyphs.push(palette[index]);
        i += 1;
    }
    glyphs
}

/// The sixteen hexadecimal digits, lower case.
pub open spec fn spec_hex_digits() -> Seq<char> {
    seq!['0', '1', '2', '3', '4', '5', '6', '7', '8', '9', 'a', 'b', 'c', 'd', 'e', 'f']
}

/// Byte `i` of a plaintext under a site key: the plaintext's byte, XORed with
/// the site key's byte at `i` modulo 32.
pub open spec fn spec_state_byte(site_key: Seq<u8>, plaintext: Seq<u8>, i: int) -> u8 {
    plaintext[i] ^ site_key[i % 32]
}

/// The stored state of a plaintext under a site key: each byte XORed with the
/// key stream, written as two hexadecimal digits, the high one first.
pub open spec fn spec_site_state_with_key(site_key: Seq<u8>, plaintext: Seq<u8>) -> Seq<char> {
    Seq::new(
        2 * plaintext.len(),
        |i: int|
            if i % 2 == 0 {
                spec_hex_digits()[(spec_state_byte(site_key, plaintext, i / 2) / 16) as int]
            } else {
                spec_hex_digits()[(spec_state_byte(site_key, plaintext, i / 2) % 16) as int]
            },
    )
}

/// What `spectre_site_state` returns for a user key and a request.
pub open spec fn spec_site_state(
    key_data: Seq<u8>,
    site: Seq<u8>,
    plaintext: Seq<u8>,
    counter: SpectreCounter,
    purpose: SpectreKeyPurpose,
    context: Seq<u8>,
) -> Seq<char> {
    spec_site_state_with_key(spec_site_key(key_data, purpose, site, counter, context), plaintext)
}

/// Encrypts a plaintext under a site key: XOR with the key stream, then
/// lower-case hexadecimal.
pub fn spectre_site_state_with_key(site_key: &[u8], plaintext: &str) -> (state: String)
    requires
        site_key@.len() == SPECTRE_SITE_KEY_LEN,
    ensures
        state@ == spec_site_state_with_key(site_key@, plaintext.spec_bytes()),
{
    let digits: [char; 16] = [
        '0', '1', '2', '3', '4', '5', '6', '7', '8', '9', 'a', 'b', 'c', 'd', 'e', 'f',
    ];
    let bytes = plaintext.as_bytes();
    let n: usize = bytes.len();
    let ghost whole = spec_site_state_with_key(site_key@, bytes@);
    let mut state = String::new();
    let mut i: usize = 0;
    while i < n
        invariant
            i <= n,
            n == bytes@.len(),
            site_key@.len() == SPECTRE_SITE_KEY_LEN,
            digits@ == spec_hex_digits(),
            whole == spec_site_state_with_key(site_key@, bytes@),
            state@ == whole.take(2 * i),
        decreases n - i,
    {
        let byte: u8 = bytes[i] ^ site_key[i % 32];
        state.push(digits[(byte / 16) as usize]);
        state.push(digits[(byte % 16) as usize]);
        i += 1;
    }
    state
}

/// The value of a lower-case hexadecimal digit; any other character has none.
pub open spec fn spec_hex_value(c: char) -> Option<u8> {
    if c == '0' {
        Some(0u8)
    } else if c == '1' {
        Some(1u8)
    } else if c == '2' {
        Some(2u8)
    } else if c == '3' {
        Some(3u8)
    } else if c == '4' {
        Some(4u8)
    } else if c == '5' {
        Some(5u8)
    } else if c == '6' {
        Some(6u8)
    } else if c == '7' {
        Some(7u8)
    } else if c == '8' {
        Some(8u8)
    } else if c == '9' {
        Some(9u8)
    } else if c == 'a' {
        Some(10u8)
    } else if c == 'b' {
        Some(11u8)
    } else if c == 'c' {
        Some(12u8)
    } else if c == 'd' {
        Some(13u8)
    } else if c == 'e' {
        Some(14u8)
    } else if c == 'f' {
        Some(15u8)
    } else {
        None
    }
}

/// Whether a text is written in pairs of lower-case hexadecimal digits.
pub open spec fn spec_is_hex(state: Seq<char>) -> bool {
    &&& state.len() % 2 == 0
    &&& forall|i: int| 0 <= i < state.len() ==> spec_hex_value(#[trigger] state[i]) is Some
}

/// The byte that the pair of digits at place `i` of a state stands for.
pub open spec fn spec_hex_byte(state: Seq<char>, i: int) -> u8 {
    (spec_hex_value(state[2 * i])->0 * 16 + spec_hex_value(state[2 * i + 1])->0) as u8
}

/// The bytes under a stored state: each pair of digits is read as a byte and
/// XORed with the site key's byte at its place modulo 32.
pub open spec fn spec_state_plain_bytes(site_key: Seq<u8>, state: Seq<char>) -> Seq<u8> {
    Seq::new(state.len() / 2, |i: int| spec_hex_byte(state, i) ^ site_key[i % 32])
}

/// The plaintext that a stored state holds under a site key: the state is
/// read as hexadecimal, XORed with the key stream, and read as UTF-8. A text
/// that is not written in pairs of lower-case hexadecimal digits, or whose
/// bytes are no UTF-8, is no state and holds nothing.
pub open spec fn spec_site_plaintext_with_key(site_key: Seq<u8>, state: Seq<char>) -> Option<
    Seq<char>,
> {
    if spec_is_hex(state) && valid_utf8(spec_state_plain_bytes(site_key, state)) {
        Some(decode_utf8(spec_state_plain_bytes(site_key, state)))
    } else {
        None
    }
}

/// The value of a lower-case hexadecimal digit.
fn hex_value(c: char) -> (r: Option<u8>)
    ensures
        r == spec_hex_value(c),
{
    match c {
        '0' => Some(0),
        '1' => Some(1),
        '2' => Some(2),
        '3' => Some(3),
        '4' => Some(4),
        '5' => Some(5),
        '6' => Some(6),
        '7' => Some(7),
        '8' => Some(8),
        '9' => Some(9),
        'a' => Some(10),
        'b' => Some(11),
        'c' => Some(12),
        'd' => Some(13),
        'e' => Some(14),
        'f' => Some(15),
        _ => None,
    }
}

/// Decrypts a stored state under a site key: lower-case hexadecimal, XOR with
/// the key stream, UTF-8. A text that is no state is refused with
/// `DecryptionFailed`.
pub fn spectre_site_plaintext_with_key(site_key: &[u8], state: &str) -> (r: Result<
    String,
    SpectreError,
>)
    requires
        site_key@.len() == SPECTRE_SITE_KEY_LEN,
    ensures
        result_view(r) == match spec_site_plaintext_with_key(site_key@, state@) {
            Some(plaintext) => Ok::<Seq<char>, SpectreErrorView>(plaintext),
            None => Err::<Seq<char>, SpectreErrorView>(SpectreErrorView::DecryptionFailed),
        },
{
    broadcast use vstd::string::group_string_axioms;

    let ghost whole = spec_state_plain_bytes(site_key@, state@);
    let mut bytes: Vec<u8> = Vec::new();
    let mut high: Option<u8> = None;
    for c in it: state.chars()
        invariant
            it.seq() == state@,
            site_key@.len() == SPECTRE_SITE_KEY_LEN,
            whole == spec_state_plain_bytes(site_key@, state@),
            forall|j: int| 0 <= j < it.index() ==> spec_hex_value(#[trigger] state@[j]) is Some,
            bytes@.len() == it.index() / 2,
            forall|k: int|
                0 <= k < bytes@.len() ==> bytes@[k] == spec_hex_byte(state@, k) ^ site_key@[k % 32],
            high is Some <==> it.index() % 2 == 1,
            high matches Some(h) ==> spec_hex_value(state@[it.index() - 1]) == Some(h),
    {
        let value = match hex_value(c) {
            Some(value) => value,
            None => {
                return Err(SpectreError::DecryptionFailed);
            },
        };
        match high {
            None => {
                high = Some(value);
            },
            Some(h) => {
                let place: usize = bytes.len() % 32;
                bytes.push((h * 16 + value) ^ site_key[place]);
                high = None;
            },
        }
    }
    if high.is_some() {
        return Err(SpectreError::DecryptionFailed);
    }
    assert(spec_is_hex(state@));
    assert(bytes@ =~= whole);
    match String::from_utf8(bytes) {
        Ok(plaintext) => {
            proof {
                encode_utf8_decode_utf8(plaintext@);
            }
            Ok(plaintext)
        },
        Err(_) => Err(SpectreError::DecryptionFailed),
    }
}

/// Encrypts a personal password for storage.
pub fn spectre_site_state(
    user_key: &SpectreUserKey,
    site_name: &str,
    _result_type: SpectreResultType,
    plaintext: &str,
    key_counter: SpectreCounter,
    key_purpose: SpectreKeyPurpose,
    key_context: Option<&str>,
) -> (r: Result<String, SpectreError>)
    ensures
        result_view(r) == Ok::<Seq<char>, SpectreErrorView>(
            spec_site_state(
                user_key.key_data@,
                site_name.spec_bytes(),
                plaintext.spec_bytes(),
                key_counter,
                key_purpose,
                spec_context(key_context),
            ),
        ),
{
    let mut site_key = match spectre_site_key(
        user_key,
        site_name,
        key_counter,
        key_purpose,
        key_context,
    ) {
        Ok(site_key) => site_key,
        Err(e) => {
            return Err(e);
        },
    };
    let state = spectre_site_state_with_key(site_key.as_slice(), plaintext);
    zero_bytes(&mut site_key);
    Ok(state)
}

} // verus!
