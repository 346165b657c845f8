//! What holds of every derivation: the same inputs give the same credential,
//! and a credential has the shape of its template.

use crate::algorithm::{
    spec_fill_template, spec_hex_byte, spec_hex_digits, spec_hex_value, spec_identicon,
    spec_len_be, spec_pick_template, spec_site_plaintext_with_key, spec_site_result,
    spec_site_result_with_key, spec_site_salt, spec_site_state_with_key, spec_state_byte,
    spec_state_plain_bytes, spec_u32_be, spec_user_key,
};
use crate::error::{result_view, SpectreError, SpectreErrorView};
use crate::models::SpectreFormat;
use crate::types::{
    spec_char_class, SpectreAlgorithm, SpectreCounter, SpectreKeyPurpose, SpectreResultType,
};
use vstd::prelude::*;
use vstd::utf8::{encode_utf8, encode_utf8_decode_utf8, encode_utf8_valid_utf8};

verus! {

/// The credential that a name, a secret and a request give: the user key is
/// derived, then the site's credential under it.
pub open spec fn spec_credential(
    name: Seq<u8>,
    secret: Seq<u8>,
    algorithm: SpectreAlgorithm,
    site: Seq<u8>,
    result_type: SpectreResultType,
    result_param: Option<Seq<char>>,
    counter: SpectreCounter,
    purpose: SpectreKeyPurpose,
    context: Seq<u8>,
) -> Result<Seq<char>, SpectreErrorView> {
    match spec_user_key(name, secret, algorithm) {
        Ok(key) => spec_site_result(
            key.key_data,
            site,
            result_type,
            result_param,
            counter,
            purpose,
            context,
        ),
        Err(e) => Err(e),
    }
}

/// Determinism: two derivations from the same name, secret, site, result
/// type, counter, purpose, algorithm and context end alike, and where they
/// give a credential it is the same one.
pub proof fn lemma_credential_deterministic(
    name: Seq<u8>,
    secret: Seq<u8>,
    algorithm: SpectreAlgorithm,
    site: Seq<u8>,
    result_type: SpectreResultType,
    result_param: Option<Seq<char>>,
    counter: SpectreCounter,
    purpose: SpectreKeyPurpose,
    context: Seq<u8>,
    first: Result<String, SpectreError>,
    second: Result<String, SpectreError>,
)
    requires
        result_view(first) == spec_credential(
            name,
            secret,
            algorithm,
            site,
            result_type,
            result_param,
            counter,
            purpose,
            context,
        ),
        result_view(second) == spec_credential(
            name,
            secret,
            algorithm,
            site,
            result_type,
            result_param,
            counter,
            purpose,
            context,
        ),
    ensures
        result_view(first) == result_view(second),
        first matches Ok(a) ==> second matches Ok(b) && a@ == b@,
{
}

/// Identicon determinism: two identicons of the same name and secret are the
/// same four bytes.
pub proof fn lemma_identicon_deterministic(
    name: Seq<u8>,
    secret: Seq<u8>,
    first: Result<[u8; 4], SpectreError>,
    second: Result<[u8; 4], SpectreError>,
)
    requires
        result_view(first) == Ok::<Seq<u8>, SpectreErrorView>(spec_identicon(name, secret)),
        result_view(second) == Ok::<Seq<u8>, SpectreErrorView>(spec_identicon(name, secret)),
    ensures
        first matches Ok(a) && second matches Ok(b) && a@ == b@,
{
}

/// A credential is as long as its template.
pub proof fn lemma_fill_length(template: Seq<char>, site_key: Seq<u8>)
    ensures
        spec_fill_template(template, site_key).len() == template.len(),
{
}

/// Every character of a credential is the template's own, where that has no
/// class, and a member of the class of the template's character, where it has
/// one.
pub proof fn lemma_fill_in_class(template: Seq<char>, site_key: Seq<u8>, i: int)
    requires
        0 <= i < template.len(),
    ensures
        spec_char_class(template[i]).len() == 0 ==> spec_fill_template(template, site_key)[i]
            == template[i],
        spec_char_class(template[i]).len() > 0 ==> spec_char_class(template[i]).contains(
            spec_fill_template(template, site_key)[i],
        ),
{
}

/// A credential has a space exactly where its template has one.
pub proof fn lemma_fill_keeps_spaces(template: Seq<char>, site_key: Seq<u8>, i: int)
    requires
        0 <= i < template.len(),
    ensures
        (spec_fill_template(template, site_key)[i] == ' ') <==> (template[i] == ' '),
{
}

/// Whether a character is a decimal digit.
pub open spec fn is_digit(c: char) -> bool {
    '0' <= c <= '9'
}

/// Whether a character is a lower-case letter of the Latin alphabet.
pub open spec fn is_lower(c: char) -> bool {
    'a' <= c <= 'z'
}

/// A PIN is exactly 4 digits.
pub proof fn lemma_pin_conformance(site_key: Seq<u8>)
    ensures
        spec_site_result_with_key(site_key, SpectreResultType::PIN, None) matches Ok(pin)
            && pin.len() == 4 && forall|i: int| 0 <= i < 4 ==> is_digit(#[trigger] pin[i]),
{
    reveal_strlit("nnnn");
    let template = "nnnn"@;
    let pin = spec_fill_template(template, site_key);
    assert forall|i: int| 0 <= i < 4 implies is_digit(#[trigger] pin[i]) by {
        lemma_fill_in_class(template, site_key, i);
    }
}

/// A short password is exactly 4 characters.
pub proof fn lemma_short_conformance(site_key: Seq<u8>)
    ensures
        spec_site_result_with_key(site_key, SpectreResultType::ShortPassword, None) matches Ok(
            password,
        ) && password.len() == 4,
{
    reveal_strlit("Cvcn");
}

/// A name is exactly 9 lower-case letters.
pub proof fn lemma_name_conformance(site_key: Seq<u8>)
    ensures
        spec_site_result_with_key(site_key, SpectreResultType::Name, None) matches Ok(name)
            && name.len() == 9 && forall|i: int| 0 <= i < 9 ==> is_lower(#[trigger] name[i]),
{
    reveal_strlit("cvccvcvcv");
    let template = "cvccvcvcv"@;
    let name = spec_fill_template(template, site_key);
    assert forall|i: int| 0 <= i < 9 implies is_lower(#[trigger] name[i]) by {
        lemma_fill_in_class(template, site_key, i);
    }
}

/// A phrase keeps the spaces of its template: it is as long as the template
/// that the site key selects, and has a space exactly where that has one.
pub proof fn lemma_phrase_conformance(site_key: Seq<u8>)
    ensures
        ({
            let template = spec_pick_template(SpectreResultType::Phrase, site_key);
            spec_site_result_with_key(site_key, SpectreResultType::Phrase, None) matches Ok(phrase)
                && phrase.len() == template.len() && forall|i: int|
                0 <= i < template.len() ==> ((#[trigger] phrase[i] == ' ') <==> (template[i]
                    == ' '))
        }),
{
    let template = spec_pick_template(SpectreResultType::Phrase, site_key);
    let phrase = spec_fill_template(template, site_key);
    assert forall|i: int| 0 <= i < template.len() implies ((#[trigger] phrase[i] == ' ') <==> (
    template[i] == ' ')) by {
        lemma_fill_keeps_spaces(template, site_key, i);
    }
}

/// Two numbers with the same four bytes are the same number.
pub proof fn lemma_u32_be_injective(x: u32, y: u32)
    requires
        spec_u32_be(x) == spec_u32_be(y),
    ensures
        x == y,
{
}

/// Counter independence of the salt: two requests that differ in the counter
/// alone never hand the same salt to the keyed MAC.
pub proof fn lemma_site_salt_differs_by_counter(
    purpose: SpectreKeyPurpose,
    site: Seq<u8>,
    first: SpectreCounter,
    second: SpectreCounter,
    context: Seq<u8>,
)
    requires
        first != second,
    ensures
        spec_site_salt(purpose, site, first, context) != spec_site_salt(
            purpose,
            site,
            second,
            context,
        ),
{
    let head = encode_utf8(purpose.spec_scope()) + spec_len_be(site) + site;
    let a = spec_site_salt(purpose, site, first, context);
    let b = spec_site_salt(purpose, site, second, context);
    if a == b {
        let n = head.len() as int;
        assert forall|j: int| 0 <= j < 4 implies spec_u32_be(first)[j] == spec_u32_be(
            second,
        )[j] by {
            assert(b[n + j] == spec_u32_be(second)[j]);
        }
        lemma_u32_be_injective(first, second);
    }
}

/// Site independence of the salt: two requests that differ in the site name
/// alone never hand the same salt to the keyed MAC, as long as the names are
/// shorter than `2^32` bytes.
pub proof fn lemma_site_salt_differs_by_site(
    purpose: SpectreKeyPurpose,
    first: Seq<u8>,
    second: Seq<u8>,
    counter: SpectreCounter,
    context: Seq<u8>,
)
    requires
        first != second,
        first.len() < 0x1_0000_0000,
        second.len() < 0x1_0000_0000,
    ensures
        spec_site_salt(purpose, first, counter, context) != spec_site_salt(
            purpose,
            second,
            counter,
            context,
        ),
{
    let scope = encode_utf8(purpose.spec_scope());
    let a = spec_site_salt(purpose, first, counter, context);
    let b = spec_site_salt(purpose, second, counter, context);
    let m = scope.len() as int;
    if a == b {
        assert forall|j: int| 0 <= j < 4 implies spec_len_be(first)[j] == spec_len_be(
            second,
        )[j] by {
            assert(b[m + j] == spec_len_be(second)[j]);
        }
        lemma_u32_be_injective(
            (first.len() % 0x1_0000_0000) as u32,
            (second.len() % 0x1_0000_0000) as u32,
        );
        assert forall|i: int| 0 <= i < first.len() implies first[i] == second[i] by {
            assert(b[m + 4 + i] == second[i]);
        }
        assert(first =~= second);
    }
}

/// The name of a key purpose reads back as that purpose.
pub proof fn lemma_purpose_name_parses(purpose: SpectreKeyPurpose)
    ensures
        SpectreKeyPurpose::spec_parse(purpose.spec_name()) == Some(purpose),
{
    reveal_strlit("a");
    reveal_strlit("auth");
    reveal_strlit("authentication");
    reveal_strlit("i");
    reveal_strlit("ident");
    reveal_strlit("identification");
    reveal_strlit("r");
    reveal_strlit("rec");
    reveal_strlit("recovery");
    assert("authentication"@[0] == 'a' && "identification"@[0] == 'i' && "recovery"@[0] == 'r');
}

/// The short name of a result type that has a word reads back as that type.
/// `ResultNone` has a short name and no word.
pub proof fn lemma_short_name_parses(result_type: SpectreResultType)
    requires
        result_type != SpectreResultType::ResultNone,
    ensures
        SpectreResultType::spec_parse(result_type.spec_short_name()) == Some(result_type),
{
    reveal_strlit("x");
    reveal_strlit("max");
    reveal_strlit("maximum");
    reveal_strlit("l");
    reveal_strlit("long");
    reveal_strlit("m");
    reveal_strlit("medium");
    reveal_strlit("b");
    reveal_strlit("basic");
    reveal_strlit("s");
    reveal_strlit("short");
    reveal_strlit("i");
    reveal_strlit("pin");
    reveal_strlit("n");
    reveal_strlit("name");
    reveal_strlit("p");
    reveal_strlit("phrase");
    reveal_strlit("K");
    reveal_strlit("key");
    reveal_strlit("P");
    reveal_strlit("personal");
    let name = result_type.spec_short_name();
    assert(name.len() >= 3);
    assert("maximum"@[0] == 'm' && "long"@[0] == 'l' && "medium"@[0] == 'm' && "basic"@[0] == 'b'
        && "short"@[0] == 's' && "pin"@[0] == 'p' && "name"@[0] == 'n' && "phrase"@[0] == 'p'
        && "key"@[0] == 'k' && "personal"@[0] == 'p' && "max"@[0] == 'm');
}

/// The name of a file format reads back as that format.
pub proof fn lemma_format_name_parses(format: SpectreFormat)
    ensures
        SpectreFormat::spec_parse(format.spec_name()) == Some(format),
{
    reveal_strlit("n");
    reveal_strlit("none");
    reveal_strlit("f");
    reveal_strlit("flat");
    reveal_strlit("j");
    reveal_strlit("json");
    assert("none"@[0] == 'n' && "flat"@[0] == 'f' && "json"@[0] == 'j');
}

/// The value of the hexadecimal digit of a number under 16 is that number.
pub proof fn lemma_hex_digit_value(n: int)
    requires
        0 <= n < 16,
    ensures
        spec_hex_value(spec_hex_digits()[n]) == Some(n as u8),
{
}

/// A stored state decrypts back to its plaintext: what `spectre_site_state`
/// makes of a plaintext under a site key, `spectre_site_result` turns back
/// into that plaintext under the same site key.
pub proof fn lemma_state_round_trip(site_key: Seq<u8>, plaintext: Seq<char>)
    ensures
        spec_site_plaintext_with_key(
            site_key,
            spec_site_state_with_key(site_key, encode_utf8(plaintext)),
        ) == Some(plaintext),
{
    let bytes = encode_utf8(plaintext);
    let state = spec_site_state_with_key(site_key, bytes);
    assert forall|i: int| 0 <= i < state.len() implies spec_hex_value(#[trigger] state[i])
        is Some by {
        let x = spec_state_byte(site_key, bytes, i / 2);
        lemma_hex_digit_value((x / 16) as int);
        lemma_hex_digit_value((x % 16) as int);
    }
    let back = spec_state_plain_bytes(site_key, state);
    assert forall|i: int| 0 <= i < bytes.len() implies back[i] == bytes[i] by {
        let k = site_key[i % 32];
        let b = bytes[i];
        let x = spec_state_byte(site_key, bytes, i);
        assert(x == b ^ k);
        lemma_hex_digit_value((x / 16) as int);
        lemma_hex_digit_value((x % 16) as int);
        assert(state[2 * i] == spec_hex_digits()[(x / 16) as int]);
        assert(state[2 * i + 1] == spec_hex_digits()[(x % 16) as int]);
        assert(spec_hex_byte(state, i) == x);
        assert((b ^ k) ^ k == b) by (bit_vector);
    }
    assert(back =~= bytes);
    encode_utf8_valid_utf8(plaintext);
    encode_utf8_decode_utf8(plaintext);
}

} // verus!
