//! Reading, writing and authenticating a profile. The file itself is read and
//! written by the caller; what is decided about it is decided here.

use crate::algorithm::{
    spec_identicon, spec_user_key_data, spectre_identicon_of_key, spectre_user_key,
};
use crate::error::{SpectreError, SpectreErrorView};
use crate::models::{
    spec_text, SpectreFormat, SpectreMarshalErrorType, SpectreMarshalledFile, SpectreMarshalledUser,
    SpectreMarshalledUserView, SPECTRE_FORMAT_DEFAULT,
};
use crate::primitives::sha256_digest;
use crate::types::{SPECTRE_ALGORITHM_FIRST, SPECTRE_ALGORITHM_LAST};
use std::path::PathBuf;
use vstd::prelude::*;
use vstd::string::StringSliceAdditionalSpecFns;
use vstd::utf8::encode_utf8;

verus! {

/// A path of the file system, as the standard library holds it.
#[verifier::external_type_specification]
#[verifier::external_body]
pub struct ExPathBuf(PathBuf);

/// `dirs::home_dir`: the home directory of the current user, if the system
/// knows one. It depends on the environment, so nothing is promised of it.
#[verifier::external_body]
fn home_dir() -> Option<PathBuf> {
    dirs::home_dir()
}

/// `base` with `part` adjoined, as the platform joins paths.
pub uninterp spec fn path_joined(base: PathBuf, part: Seq<char>) -> PathBuf;

/// `Path::join`: the path with `part` adjoined.
#[verifier::external_body]
fn path_join(base: &PathBuf, part: &str) -> (r: PathBuf)
    ensures
        r == path_joined(*base, part@),
{
    base.join(part)
}

/// Whether two byte strings of 32 bytes are the same.
fn same_bytes(a: &[u8; 32], b: &[u8; 32]) -> (r: bool)
    ensures
        r == (a@ == b@),
{
    let mut i: usize = 0;
    while i < 32
        invariant
            i <= 32,
            forall|j: int| 0 <= j < i ==> a@[j] == b@[j],
        decreases 32 - i,
    {
        if a[i] != b[i] {
            return false;
        }
        i += 1;
    }
    assert(a@ =~= b@);
    true
}

/// What authenticating a profile against a secret gives. The user key is
/// derived from the profile's name and algorithm and from the secret. An
/// unsupported algorithm is refused; a key whose fingerprint is not the
/// profile's is a mismatch; otherwise the profile gets the identicon of the
/// name and the secret, and nothing else changes.
pub open spec fn spec_marshal_auth(user: SpectreMarshalledUserView, secret: Seq<u8>) -> Result<
    SpectreMarshalledUserView,
    SpectreErrorView,
> {
    let name = encode_utf8(user.user_name);
    if !(SPECTRE_ALGORITHM_FIRST <= user.algorithm <= SPECTRE_ALGORITHM_LAST) {
        Err(SpectreErrorView::InvalidAlgorithm(user.algorithm))
    } else if user.key_id != sha256_digest(spec_user_key_data(name, secret)) {
        Err(SpectreErrorView::UserSecretMismatch)
    } else {
        Ok(SpectreMarshalledUserView { identicon: spec_identicon(name, secret), ..user })
    }
}

/// Authenticates a profile with the user's secret.
///
/// Succeeds exactly when the algorithm of the profile is supported and the
/// SHA-256 digest of the user key derived from the secret is the profile's
/// `key_id`; the identicon is then refreshed. On an error the profile is left
/// as it was.
pub fn spectre_marshal_auth(user: &mut SpectreMarshalledUser, user_secret: &str) -> (r: Result<
    (),
    SpectreError,
>)
    ensures
        match spec_marshal_auth(old(user)@, user_secret.spec_bytes()) {
            Ok(after) => r is Ok && final(user)@ == after,
            Err(e) => r matches Err(err) && err@ == e && final(user)@ == old(user)@,
        },
        SPECTRE_ALGORITHM_FIRST <= old(user).algorithm <= SPECTRE_ALGORITHM_LAST ==> (r is Ok
            <==> sha256_digest(
            spec_user_key_data(encode_utf8(old(user).user_name@), user_secret.spec_bytes()),
        ) == old(user).key_id@),
{
    let mut user_key = match spectre_user_key(
        user.user_name.as_str(),
        user_secret,
        user.algorithm,
    ) {
        Ok(user_key) => user_key,
        Err(e) => {
            return Err(e);
        },
    };
    if !same_bytes(&user.key_id, &user_key.key_id) {
        user_key.zeroize();
        return Err(SpectreError::UserSecretMismatch);
    }
    // The identicon is that of the key just derived: the algorithm version
    // takes no part in the derivation.
    user.identicon = spectre_identicon_of_key(&user_key);
    user_key.zeroize();
    Ok(())
}

/// The name of the directory under the home directory that holds the profiles.
pub open spec fn spec_profile_dir() -> Seq<char> {
    ".spectre.d"@
}

/// The name of a user's profile file: the user name, a dot and the extension
/// of the format. A format without an extension has no file.
pub open spec fn spec_user_file_name(user_name: Seq<char>, format: SpectreFormat) -> Option<
    Seq<char>,
> {
    if format.spec_extension().len() == 0 {
        None
    } else {
        Some(user_name + seq!['.'] + format.spec_extension())
    }
}

/// Whether a user has a profile file under a home directory: there must be a
/// home directory, and the format must have a file.
pub open spec fn spec_has_user_path(home: Option<PathBuf>, format: SpectreFormat) -> bool {
    home is Some && format.spec_extension().len() > 0
}

/// The path of a user's profile file under a home directory: the home
/// directory, joined with the profile directory, joined with the name of the
/// user's profile file. There is none without a home directory or for a format
/// that is not persisted.
pub open spec fn spec_user_path(
    home: Option<PathBuf>,
    user_name: Seq<char>,
    format: SpectreFormat,
) -> Option<PathBuf> {
    if spec_has_user_path(home, format) {
        Some(
            path_joined(
                path_joined(home->0, spec_profile_dir()),
                spec_user_file_name(user_name, format)->0,
            ),
        )
    } else {
        None
    }
}

/// The name of the directory under the home directory that holds the profiles.
pub fn spectre_profile_dir() -> (r: &'static str)
    ensures
        r@ == spec_profile_dir(),
{
    ".spectre.d"
}

/// The name of a user's profile file in a format.
pub fn spectre_user_file_name(user_name: &str, format: SpectreFormat) -> (r: Option<String>)
    ensures
        spec_text(r) == spec_user_file_name(user_name@, format),
{
    let extension = format.extension();
    if extension.is_empty() {
        return None;
    }
    let mut file_name = user_name.to_owned();
    file_name.push('.');
    file_name.push_str(extension);
    Some(file_name)
}

/// The path of a user's profile file under a given home directory: the home
/// directory, joined with the profile directory, joined with the name of the
/// user's profile file. There is none without a home directory or for a format
/// that is not persisted.
pub fn spectre_user_path_in(
    home: Option<PathBuf>,
    user_name: &str,
    format: SpectreFormat,
) -> (r: Option<PathBuf>)
    ensures
        r == spec_user_path(home, user_name@, format),
{
    let home = match home {
        Some(home) => home,
        None => {
            return None;
        },
    };
    let file_name = match spectre_user_file_name(user_name, format) {
        Some(file_name) => file_name,
        None => {
            return None;
        },
    };
    let spectre_dir = path_join(&home, spectre_profile_dir());
    Some(path_join(&spectre_dir, file_name.as_str()))
}

/// The default path of a user's profile file: `<user_name>.<extension>` in the
/// directory `.spectre.d` of the home directory. There is none where the home
/// directory is unknown or the format is not persisted.
pub fn spectre_user_path(user_name: &str, format: SpectreFormat) -> (r: Option<PathBuf>)
    ensures
        exists|home: Option<PathBuf>| r == spec_user_path(home, user_name@, format),
        format.spec_extension().len() == 0 ==> r is None,
{
    spectre_user_path_in(home_dir(), user_name, format)
}

/// What was found where a profile is kept.
pub enum SpectreMarshalInput {
    /// There is no file.
    Absent,
    /// The file holds a user in JSON.
    Json(SpectreMarshalledUser),
    /// The file holds this text, which is no user in JSON.
    Other(String),
}

/// Reads the legacy flat format. It is not supported: every text is refused.
fn parse_flat_format(_contents: &str) -> (r: Result<
    (SpectreMarshalledFile, Option<SpectreMarshalledUser>),
    SpectreError,
>)
    ensures
        r matches Err(e) && e@ == SpectreErrorView::InvalidFileFormat(
            "Flat format parsing not fully implemented. Please use JSON format."@,
        ),
{
    Err(
        SpectreError::InvalidFileFormat(
            "Flat format parsing not fully implemented. Please use JSON format.".to_owned(),
        ),
    )
}

/// Writes the legacy flat format. It is not supported: every user is refused.
fn write_flat_format(_user: &SpectreMarshalledUser) -> (r: Result<String, SpectreError>)
    ensures
        r matches Err(e) && e@ == SpectreErrorView::InvalidFileFormat(
            "Flat format writing not fully implemented. Please use JSON format."@,
        ),
{
    Err(
        SpectreError::InvalidFileFormat(
            "Flat format writing not fully implemented. Please use JSON format.".to_owned(),
        ),
    )
}

/// Decides what a read of a profile gives.
///
/// No file gives a fresh record in the default format, redacted, and no user.
/// A user in JSON gives a record in JSON that is redacted as the user is, and
/// the user. Any other text is taken for the flat format, which is refused.
pub fn spectre_marshal_read(input: SpectreMarshalInput) -> (r: Result<
    (SpectreMarshalledFile, Option<SpectreMarshalledUser>),
    SpectreError,
>)
    ensures
        match input {
            SpectreMarshalInput::Absent => r matches Ok((file, user)) && user is None
                && file.format == SPECTRE_FORMAT_DEFAULT && file.redacted
                && file.error.error_type == SpectreMarshalErrorType::Success,
            SpectreMarshalInput::Json(found) => r matches Ok((file, user)) && user == Some(found)
                && file.format == SpectreFormat::JSON && file.redacted == found.redacted
                && file.error.error_type == SpectreMarshalErrorType::Success,
            SpectreMarshalInput::Other(_) => r matches Err(e) && e@
                == SpectreErrorView::InvalidFileFormat(
                "Flat format parsing not fully implemented. Please use JSON format."@,
            ),
        },
{
    match input {
        SpectreMarshalInput::Absent => {
            let file_meta = SpectreMarshalledFile::new(SPECTRE_FORMAT_DEFAULT, true);
            Ok((file_meta, None))
        },
        SpectreMarshalInput::Json(user) => {
            let file_meta = SpectreMarshalledFile::new(SpectreFormat::JSON, user.redacted);
            Ok((file_meta, Some(user)))
        },
        SpectreMarshalInput::Other(contents) => parse_flat_format(contents.as_str()),
    }
}

impl SpectreMarshalledUserView {
    /// The user as it is persisted. A redacted user is persisted without its
    /// sites and without its login state, so that the file holds nothing but
    /// what is known of the user; any other user is persisted whole.
    pub open spec fn persisted(self) -> SpectreMarshalledUserView {
        if self.redacted {
            SpectreMarshalledUserView { login_state: None, sites: Seq::empty(), ..self }
        } else {
            self
        }
    }
}

/// The user as it is persisted: a redacted user without its sites and its
/// login state, any other user whole.
pub fn spectre_marshal_redact(user: &SpectreMarshalledUser) -> (r: SpectreMarshalledUser)
    ensures
        r@ == user@.persisted(),
        user.redacted ==> r@.sites.len() == 0 && r@.login_state is None,
        !user.redacted ==> r@ == user@,
{
    if user.redacted {
        let r = SpectreMarshalledUser {
            user_name: user.user_name.clone(),
            identicon: user.identicon,
            key_id: user.key_id,
            algorithm: user.algorithm,
            redacted: true,
            login_type: user.login_type,
            login_state: None,
            last_used: user.last_used,
            sites: Vec::new(),
        };
        assert(r@.sites =~= Seq::empty());
        r
    } else {
        user.clone()
    }
}

/// Decides what a write of a profile puts into the file.
///
/// Nothing where the format is not persisted; the user as it is persisted
/// where the format is JSON; the flat format is refused.
pub fn spectre_marshal_write(format: SpectreFormat, user: &SpectreMarshalledUser) -> (r: Result<
    Option<SpectreMarshalledUser>,
    SpectreError,
>)
    ensures
        match format {
            SpectreFormat::FormatNone => r matches Ok(None),
            SpectreFormat::JSON => r matches Ok(Some(out)) && out@ == user@.persisted(),
            SpectreFormat::Flat => r matches Err(e) && e@ == SpectreErrorView::InvalidFileFormat(
                "Flat format writing not fully implemented. Please use JSON format."@,
            ),
        },
{
    match format {
        SpectreFormat::JSON => Ok(Some(spectre_marshal_redact(user))),
        SpectreFormat::Flat => match write_flat_format(user) {
            Ok(_) => Ok(None),
            Err(e) => Err(e),
        },
        SpectreFormat::FormatNone => Ok(None),
    }
}

/// Persisting twice is persisting once.
pub proof fn lemma_persisted_idempotent(user: SpectreMarshalledUserView)
    ensures
        user.persisted().persisted() == user.persisted(),
{
}

/// A user that is not redacted is persisted whole.
pub proof fn lemma_persisted_whole(user: SpectreMarshalledUserView)
    requires
        !user.redacted,
    ensures
        user.persisted() == user,
{
}

/// A redacted user is persisted with nothing of its sites: what reaches the
/// file is what is known of the user alone.
pub proof fn lemma_persisted_redacted(user: SpectreMarshalledUserView)
    requires
        user.redacted,
    ensures
        user.persisted().sites.len() == 0,
        user.persisted().login_state is None,
        user.persisted() == (SpectreMarshalledUserView {
            login_state: None,
            sites: Seq::empty(),
            ..user
        }),
{
}

} // verus!
