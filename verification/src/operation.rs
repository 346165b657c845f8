//! One request of the command line: how its arguments become an operation,
//! and what the operation does to a profile. Prompts, files and output are
//! the caller's; every decision between them is made here.

use crate::algorithm::{
    spec_param, spec_site_key, spec_site_result, spec_site_state, spectre_site_result,
    spectre_site_state, SpectreUserKey,
};
use crate::error::{result_view, SpectreError, SpectreErrorView};
use crate::lemmas::lemma_state_round_trip;
use crate::marshal::{spec_marshal_auth, spectre_marshal_auth};
use crate::models::{
    spec_text, SpectreFormat, SpectreMarshalledFile, SpectreMarshalledQuestion,
    SpectreMarshalledQuestionView, SpectreMarshalledSite, SpectreMarshalledSiteView,
    SpectreMarshalledUser, SpectreMarshalledUserView, SpectreTimestamp, SPECTRE_FORMAT_DEFAULT,
};
use crate::types::{
    SpectreAlgorithm, SpectreCounter, SpectreKeyPurpose, SpectreResultType,
    SPECTRE_ALGORITHM_CURRENT, SPECTRE_ALGORITHM_FIRST, SPECTRE_ALGORITHM_LAST,
};
use crate::util::{parse_bool, spec_parse_bool};
use vstd::prelude::*;
use vstd::string::StringSliceAdditionalSpecFns;
use vstd::utf8::encode_utf8;

verus! {

/// The arguments of a request, as the command line gives them or the user
/// types them. They hold the secret, so they cannot be printed.
pub struct SpectreArguments {
    /// The user's full name.
    pub user_name: String,
    /// Whether the user may confirm an old secret to replace it by a new one.
    pub allow_password_update: bool,
    /// The user's personal secret.
    pub user_secret: String,
    /// The site for which a credential is asked.
    pub site_name: String,
    /// The word for the result type.
    pub result_type: String,
    /// The login name, the key size or the personal password.
    pub result_param: Option<String>,
    /// The counter of the credential.
    pub counter: SpectreCounter,
    /// The algorithm version, if one is given.
    pub algorithm: Option<SpectreAlgorithm>,
    /// The word for the key purpose.
    pub purpose: String,
    /// The context of the purpose, such as the keyword of a question.
    pub context: Option<String>,
    /// The word for the file format, if one is given.
    pub format: Option<String>,
    /// The word for the file format that allows no other, if one is given.
    pub format_fixed: Option<String>,
    /// The word for whether the profile is saved redacted.
    pub redacted: String,
    /// How often more output was asked for.
    pub verbose: u8,
    /// How often less output was asked for.
    pub quiet: u8,
    /// Whether the credential is printed without a newline.
    pub no_newline: bool,
}

/// The arguments of a request as contracts speak of them.
pub struct SpectreArgumentsView {
    pub user_name: Seq<char>,
    pub allow_password_update: bool,
    pub user_secret: Seq<char>,
    pub site_name: Seq<char>,
    pub result_type: Seq<char>,
    pub result_param: Option<Seq<char>>,
    pub counter: SpectreCounter,
    pub algorithm: Option<SpectreAlgorithm>,
    pub purpose: Seq<char>,
    pub context: Option<Seq<char>>,
    pub format: Option<Seq<char>>,
    pub format_fixed: Option<Seq<char>>,
    pub redacted: Seq<char>,
    pub verbose: u8,
    pub quiet: u8,
    pub no_newline: bool,
}

impl View for SpectreArguments {
    type V = SpectreArgumentsView;

    open spec fn view(&self) -> SpectreArgumentsView {
        SpectreArgumentsView {
            user_name: self.user_name@,
            allow_password_update: self.allow_password_update,
            user_secret: self.user_secret@,
            site_name: self.site_name@,
            result_type: self.result_type@,
            result_param: spec_text(self.result_param),
            counter: self.counter,
            algorithm: self.algorithm,
            purpose: self.purpose@,
            context: spec_text(self.context),
            format: spec_text(self.format),
            format_fixed: spec_text(self.format_fixed),
            redacted: self.redacted@,
            verbose: self.verbose,
            quiet: self.quiet,
            no_newline: self.no_newline,
        }
    }
}

/// A request that is ready to run: every word is read, every field is there.
/// It holds the secret, so it cannot be printed.
pub struct SpectreOperation {
    pub user_name: String,
    pub user_secret: String,
    pub site_name: String,
    pub result_type: SpectreResultType,
    pub result_param: Option<String>,
    pub counter: SpectreCounter,
    pub algorithm: SpectreAlgorithm,
    pub purpose: SpectreKeyPurpose,
    pub context: Option<String>,
    pub format: SpectreFormat,
    pub redacted: bool,
    pub no_newline: bool,
    pub allow_password_update: bool,
    pub verbosity: i8,
}

/// A request as contracts speak of it.
pub struct SpectreOperationView {
    pub user_name: Seq<char>,
    pub user_secret: Seq<char>,
    pub site_name: Seq<char>,
    pub result_type: SpectreResultType,
    pub result_param: Option<Seq<char>>,
    pub counter: SpectreCounter,
    pub algorithm: SpectreAlgorithm,
    pub purpose: SpectreKeyPurpose,
    pub context: Option<Seq<char>>,
    pub format: SpectreFormat,
    pub redacted: bool,
    pub no_newline: bool,
    pub allow_password_update: bool,
    pub verbosity: i8,
}

impl View for SpectreOperation {
    type V = SpectreOperationView;

    open spec fn view(&self) -> SpectreOperationView {
        SpectreOperationView {
            user_name: self.user_name@,
            user_secret: self.user_secret@,
            site_name: self.site_name@,
            result_type: self.result_type,
            result_param: spec_text(self.result_param),
            counter: self.counter,
            algorithm: self.algorithm,
            purpose: self.purpose,
            context: spec_text(self.context),
            format: self.format,
            redacted: self.redacted,
            no_newline: self.no_newline,
            allow_password_update: self.allow_password_update,
            verbosity: self.verbosity,
        }
    }
}

/// The verbosity of a request: how often more output was asked for, less how
/// often less was asked for, kept within the range of `i8`.
pub open spec fn spec_verbosity(verbose: u8, quiet: u8) -> i8 {
    if verbose - quiet > 127 {
        127i8
    } else if verbose - quiet < -128 {
        -128i8
    } else {
        (verbose - quiet) as i8
    }
}

/// The verbosity of a request.
pub fn spectre_verbosity(verbose: u8, quiet: u8) -> (r: i8)
    ensures
        r == spec_verbosity(verbose, quiet),
{
    let delta: i16 = verbose as i16 - quiet as i16;
    if delta > 127 {
        127
    } else if delta < -128 {
        -128
    } else {
        delta as i8
    }
}

/// Which name a request is made under, and whether the secret may be
/// replaced: the name given for an update, with leave to update; else the
/// plain name, without.
pub fn spectre_user_name_choice(
    user_name: Option<String>,
    user_name_update: Option<String>,
) -> (r: (Option<String>, bool))
    ensures
        user_name_update is Some ==> r.0 == user_name_update && r.1,
        user_name_update is None ==> r.0 == user_name && !r.1,
{
    match user_name_update {
        Some(name) => (Some(name), true),
        None => (user_name, false),
    }
}

/// Refuses an empty field: the error names the field.
pub fn spectre_require_field(value: &str, field: &str) -> (r: Result<(), SpectreError>)
    ensures
        value@.len() > 0 ==> r is Ok,
        value@.len() == 0 ==> (r matches Err(e) && e@ == SpectreErrorView::MissingField(field@)),
{
    if value.is_empty() {
        Err(SpectreError::MissingField(field.to_owned()))
    } else {
        Ok(())
    }
}

/// The format of a request: that of the word that allows no other, else that
/// of the plain word, else the default. A word that names no format is handed
/// back in the error.
pub open spec fn spec_format_choice(
    format_fixed: Option<Seq<char>>,
    format: Option<Seq<char>>,
) -> Result<SpectreFormat, SpectreErrorView> {
    let word = if format_fixed is Some {
        format_fixed
    } else {
        format
    };
    match word {
        Some(w) => match SpectreFormat::spec_parse(w) {
            Some(f) => Ok(f),
            None => Err(SpectreErrorView::InvalidFileFormat(w)),
        },
        None => Ok(SPECTRE_FORMAT_DEFAULT),
    }
}

/// The format of a request.
pub fn spectre_format_choice(format_fixed: Option<&str>, format: Option<&str>) -> (r: Result<
    SpectreFormat,
    SpectreError,
>)
    ensures
        match spec_format_choice(spec_param(format_fixed), spec_param(format)) {
            Ok(f) => r == Ok::<SpectreFormat, SpectreError>(f),
            Err(e) => r matches Err(err) && err@ == e,
        },
{
    let word = match format_fixed {
        Some(w) => Some(w),
        None => format,
    };
    match word {
        Some(w) => match SpectreFormat::parse(w) {
            Some(f) => Ok(f),
            None => Err(SpectreError::InvalidFileFormat(w.to_owned())),
        },
        None => Ok(SPECTRE_FORMAT_DEFAULT),
    }
}

/// The algorithm of a request: the one given, else the current one. One
/// outside the supported range is refused.
pub open spec fn spec_algorithm_choice(algorithm: Option<SpectreAlgorithm>) -> Result<
    SpectreAlgorithm,
    SpectreErrorView,
> {
    let version = match algorithm {
        Some(v) => v,
        None => SPECTRE_ALGORITHM_CURRENT,
    };
    if SPECTRE_ALGORITHM_FIRST <= version <= SPECTRE_ALGORITHM_LAST {
        Ok(version)
    } else {
        Err(SpectreErrorView::InvalidAlgorithm(version))
    }
}

/// The algorithm of a request.
pub fn spectre_algorithm_choice(algorithm: Option<SpectreAlgorithm>) -> (r: Result<
    SpectreAlgorithm,
    SpectreError,
>)
    ensures
        match spec_algorithm_choice(algorithm) {
            Ok(v) => r == Ok::<SpectreAlgorithm, SpectreError>(v),
            Err(e) => r matches Err(err) && err@ == e,
        },
{
    let version = match algorithm {
        Some(v) => v,
        None => SPECTRE_ALGORITHM_CURRENT,
    };
    if !(SPECTRE_ALGORITHM_FIRST <= version && version <= SPECTRE_ALGORITHM_LAST) {
        return Err(SpectreError::InvalidAlgorithm(version));
    }
    Ok(version)
}

/// What the arguments of a request resolve to. The first fault decides the
/// error: an empty user name, an empty secret, an empty site name, a word
/// that names no result type, one that names no key purpose, one that names
/// no format, an unsupported algorithm.
pub open spec fn spec_resolve(args: SpectreArgumentsView) -> Result<
    SpectreOperationView,
    SpectreErrorView,
> {
    if args.user_name.len() == 0 {
        Err(SpectreErrorView::MissingField("user name"@))
    } else if args.user_secret.len() == 0 {
        Err(SpectreErrorView::MissingField("personal secret"@))
    } else if args.site_name.len() == 0 {
        Err(SpectreErrorView::MissingField("site name"@))
    } else if SpectreResultType::spec_parse(args.result_type) is None {
        Err(SpectreErrorView::InvalidResultType(args.result_type))
    } else if SpectreKeyPurpose::spec_parse(args.purpose) is None {
        Err(SpectreErrorView::InvalidKeyPurpose(args.purpose))
    } else {
        match spec_format_choice(args.format_fixed, args.format) {
            Err(e) => Err(e),
            Ok(format) => match spec_algorithm_choice(args.algorithm) {
                Err(e) => Err(e),
                Ok(algorithm) => Ok(
                    SpectreOperationView {
                        user_name: args.user_name,
                        user_secret: args.user_secret,
                        site_name: args.site_name,
                        result_type: SpectreResultType::spec_parse(args.result_type)->0,
                        result_param: args.result_param,
                        counter: args.counter,
                        algorithm,
                        purpose: SpectreKeyPurpose::spec_parse(args.purpose)->0,
                        context: args.context,
                        format,
                        redacted: spec_parse_bool(args.redacted),
                        no_newline: args.no_newline,
                        allow_password_update: args.allow_password_update,
                        verbosity: spec_verbosity(args.verbose, args.quiet),
                    },
                ),
            },
        }
    }
}

/// The borrowed text of an optional text.
fn text_ref(text: &Option<String>) -> (r: Option<&str>)
    ensures
        spec_param(r) == spec_text(*text),
{
    match text {
        Some(s) => Some(s.as_str()),
        None => None,
    }
}

impl SpectreOperation {
    /// Resolves the arguments of a request into an operation, or says what is
    /// wrong with them.
    pub fn resolve(args: SpectreArguments) -> (r: Result<SpectreOperation, SpectreError>)
        ensures
            result_view(r) == spec_resolve(args@),
    {
        let verbosity = spectre_verbosity(args.verbose, args.quiet);
        match spectre_require_field(args.user_name.as_str(), "user name") {
            Ok(()) => {},
            Err(e) => {
                return Err(e);
            },
        }
        match spectre_require_field(args.user_secret.as_str(), "personal secret") {
            Ok(()) => {},
            Err(e) => {
                return Err(e);
            },
        }
        match spectre_require_field(args.site_name.as_str(), "site name") {
            Ok(()) => {},
            Err(e) => {
                return Err(e);
            },
        }
        let result_type = match SpectreResultType::parse(args.result_type.as_str()) {
            Ok(result_type) => result_type,
            Err(e) => {
                return Err(e);
            },
        };
        let purpose = match SpectreKeyPurpose::parse(args.purpose.as_str()) {
            Ok(purpose) => purpose,
            Err(e) => {
                return Err(e);
            },
        };
        let format = match spectre_format_choice(
            text_ref(&args.format_fixed),
            text_ref(&args.format),
        ) {
            Ok(format) => format,
            Err(e) => {
                return Err(e);
            },
        };
        let redacted = parse_bool(args.redacted.as_str());
        let algorithm = match spectre_algorithm_choice(args.algorithm) {
            Ok(algorithm) => algorithm,
            Err(e) => {
                return Err(e);
            },
        };
        Ok(
            SpectreOperation {
                user_name: args.user_name,
                user_secret: args.user_secret,
                site_name: args.site_name,
                result_type,
                result_param: args.result_param,
                counter: args.counter,
                algorithm,
                purpose,
                context: args.context,
                format,
                redacted,
                no_newline: args.no_newline,
                allow_password_update: args.allow_password_update,
                verbosity,
            },
        )
    }
}

/// What a credential is called, by its purpose.
pub open spec fn spec_purpose_label(purpose: SpectreKeyPurpose) -> Seq<char> {
    match purpose {
        SpectreKeyPurpose::Authentication => "password"@,
        SpectreKeyPurpose::Identification => "login"@,
        SpectreKeyPurpose::Recovery => "answer"@,
    }
}

/// What a credential is called, by its purpose.
pub fn spectre_purpose_label(purpose: SpectreKeyPurpose) -> (r: &'static str)
    ensures
        r@ == spec_purpose_label(purpose),
{
    match purpose {
        SpectreKeyPurpose::Authentication => "password",
        SpectreKeyPurpose::Identification => "login",
        SpectreKeyPurpose::Recovery => "answer",
    }
}

/// The bytes of an optional text in UTF-8; no text gives no bytes.
pub open spec fn spec_text_bytes(text: Option<Seq<char>>) -> Seq<u8> {
    match text {
        Some(t) => encode_utf8(t),
        None => Seq::empty(),
    }
}

impl SpectreOperationView {
    /// The keyword of the question that the request speaks of: its context,
    /// or the empty keyword of the default question.
    pub open spec fn keyword(self) -> Seq<char> {
        match self.context {
            Some(c) => c,
            None => ""@,
        }
    }

    /// Whether the request hands in a plaintext to be kept encrypted.
    pub open spec fn encrypts(self) -> bool {
        self.result_type.spec_is_stateful() && self.result_param is Some
    }

    /// The state under which the request's plaintext is kept.
    pub open spec fn state(self, key_data: Seq<u8>) -> Seq<char> {
        spec_site_state(
            key_data,
            encode_utf8(self.site_name),
            spec_text_bytes(self.result_param),
            self.counter,
            self.purpose,
            spec_text_bytes(self.context),
        )
    }

    /// The parameter with which the request's credential is generated: the
    /// state where a plaintext was encrypted, else the parameter given.
    pub open spec fn final_param(self, key_data: Seq<u8>) -> Option<Seq<char>> {
        if self.encrypts() {
            Some(self.state(key_data))
        } else {
            self.result_param
        }
    }

    /// The site that the request works on: the user's first site of that
    /// name, or a fresh one.
    pub open spec fn site_of(
        self,
        user: SpectreMarshalledUserView,
        now: SpectreTimestamp,
    ) -> SpectreMarshalledSiteView {
        match user.find_site(self.site_name) {
            Some(site) => site,
            None => SpectreMarshalledSiteView::fresh(
                self.site_name,
                self.result_type,
                self.counter,
                self.algorithm,
                now,
            ),
        }
    }

    /// The site with the settings of the request. A request without a result
    /// type changes nothing. For authentication the site takes the result type
    /// and the counter; for identification the login type; for recovery the
    /// question with the request's keyword takes the result type, and is added
    /// where it was not there.
    pub open spec fn with_settings(
        self,
        site: SpectreMarshalledSiteView,
    ) -> SpectreMarshalledSiteView {
        if self.result_type == SpectreResultType::ResultNone {
            site
        } else {
            match self.purpose {
                SpectreKeyPurpose::Authentication => SpectreMarshalledSiteView {
                    result_type: self.result_type,
                    counter: self.counter,
                    ..site
                },
                SpectreKeyPurpose::Identification => SpectreMarshalledSiteView {
                    login_type: self.result_type,
                    ..site
                },
                SpectreKeyPurpose::Recovery => {
                    let question = match site.find_question(self.keyword()) {
                        Some(q) => q,
                        None => SpectreMarshalledQuestionView {
                            keyword: self.keyword(),
                            question_type: self.result_type,
                            state: None,
                        },
                    };
                    site.add_question(
                        SpectreMarshalledQuestionView {
                            question_type: self.result_type,
                            ..question
                        },
                    )
                },
            }
        }
    }

    /// The site with a state kept in the slot of the request's purpose: the
    /// result state, the login state, or the state of the question with the
    /// request's keyword, if there is such a question.
    pub open spec fn with_state(
        self,
        site: SpectreMarshalledSiteView,
        state: Seq<char>,
    ) -> SpectreMarshalledSiteView {
        match self.purpose {
            SpectreKeyPurpose::Authentication => SpectreMarshalledSiteView {
                result_state: Some(state),
                ..site
            },
            SpectreKeyPurpose::Identification => SpectreMarshalledSiteView {
                login_state: Some(state),
                ..site
            },
            SpectreKeyPurpose::Recovery => match crate::models::spec_first_match(
                crate::models::spec_keywords(site.questions),
                self.keyword(),
            ) {
                Some(i) => site.set_question(
                    i,
                    SpectreMarshalledQuestionView { state: Some(state), ..site.questions[i] },
                ),
                None => site,
            },
        }
    }

    /// The site as the request leaves it, before it is counted as used.
    pub open spec fn site_after(
        self,
        user: SpectreMarshalledUserView,
        key_data: Seq<u8>,
        now: SpectreTimestamp,
    ) -> SpectreMarshalledSiteView {
        let site = self.with_settings(self.site_of(user, now));
        if self.encrypts() {
            self.with_state(site, self.state(key_data))
        } else {
            site
        }
    }

    /// The credential of the request, or why there is none.
    pub open spec fn result(self, key_data: Seq<u8>) -> Result<Seq<char>, SpectreErrorView> {
        spec_site_result(
            key_data,
            encode_utf8(self.site_name),
            self.result_type,
            self.final_param(key_data),
            self.counter,
            self.purpose,
            spec_text_bytes(self.context),
        )
    }

    /// The user as the request leaves it: redacted as the request says, used
    /// now, with the request's site used once more, now.
    pub open spec fn user_after(
        self,
        user: SpectreMarshalledUserView,
        key_data: Seq<u8>,
        now: SpectreTimestamp,
    ) -> SpectreMarshalledUserView {
        let site = self.site_after(user, key_data, now);
        let used = SpectreMarshalledSiteView {
            uses: if site.uses == u32::MAX {
                site.uses
            } else {
                (site.uses + 1) as u32
            },
            last_used: now,
            ..site
        };
        SpectreMarshalledUserView { redacted: self.redacted, last_used: now, ..user }.add_site(used)
    }
}

/// Runs a request on a profile and returns the credential to print.
///
/// The request's site is found in the profile or made; it takes the settings
/// of the request; a plaintext handed in for a stateful result type is
/// encrypted, kept in the site, and takes the place of the request's
/// parameter; the credential is generated, which for a stateful type is the
/// plaintext that the state decrypts to; the site is counted as used, a use
/// count at its maximum staying there, and put back into the profile. Where no
/// credential can be generated, the profile and the request stay as they were.
pub fn spectre_operation_apply(
    op: &mut SpectreOperation,
    user: &mut SpectreMarshalledUser,
    user_key: &SpectreUserKey,
    now: SpectreTimestamp,
) -> (r: Result<String, SpectreError>)
    ensures
        result_view(r) == old(op)@.result(user_key.key_data@),
        r is Ok ==> final(user)@ == old(op)@.user_after(old(user)@, user_key.key_data@, now),
        r is Ok ==> final(op)@ == (SpectreOperationView {
            result_param: old(op)@.final_param(user_key.key_data@),
            ..old(op)@
        }),
        r is Err ==> final(user)@ == old(user)@ && final(op)@ == old(op)@,
        r is Ok && old(user)@.wf() ==> final(user)@.wf(),
        old(op)@.encrypts() ==> result_view(r) == Ok::<Seq<char>, SpectreErrorView>(
            old(op)@.result_param->0,
        ),
{
    let ghost op0 = op@;
    let ghost user0 = user@;
    let ghost key_data = user_key.key_data@;

    let mut site = match user.find_site(op.site_name.as_str()) {
        Some(existing) => existing.clone(),
        None => SpectreMarshalledSite::new_at(
            op.site_name.clone(),
            op.result_type,
            op.counter,
            op.algorithm,
            now,
        ),
    };
    if op.result_type != SpectreResultType::ResultNone {
        match op.purpose {
            SpectreKeyPurpose::Authentication => {
                site.result_type = op.result_type;
                site.counter = op.counter;
            },
            SpectreKeyPurpose::Identification => {
                site.login_type = op.result_type;
            },
            SpectreKeyPurpose::Recovery => {
                let keyword = match text_ref(&op.context) {
                    Some(c) => c,
                    None => "",
                };
                let mut question = match site.find_question(keyword) {
                    Some(q) => q.clone(),
                    None => SpectreMarshalledQuestion::new(keyword.to_owned(), op.result_type),
                };
                question.question_type = op.result_type;
                site.add_question(question);
            },
        }
    }
    let ghost settled = site@;

    if op.result_type.is_stateful() {
        if let Some(plaintext) = text_ref(&op.result_param) {
            let state = match spectre_site_state(
                user_key,
                op.site_name.as_str(),
                op.result_type,
                plaintext,
                op.counter,
                op.purpose,
                text_ref(&op.context),
            ) {
                Ok(state) => state,
                Err(e) => {
                    return Err(e);
                },
            };
            match op.purpose {
                SpectreKeyPurpose::Authentication => {
                    site.result_state = Some(state.clone());
                },
                SpectreKeyPurpose::Identification => {
                    site.login_state = Some(state.clone());
                },
                SpectreKeyPurpose::Recovery => {
                    let keyword = match text_ref(&op.context) {
                        Some(c) => c,
                        None => "",
                    };
                    if let Some(question) = site.find_question_mut(keyword) {
                        question.state = Some(state.clone());
                    }
                },
            }
            op.result_param = Some(state);
        }
    }
    assert(site@ == op0.site_after(user0, key_data, now));
    assert(crate::models::spec_keywords(site@.questions) =~= crate::models::spec_keywords(
        settled.questions,
    ));

    proof {
        // A plaintext that was just encrypted decrypts back to itself.
        if op0.encrypts() {
            lemma_state_round_trip(
                spec_site_key(
                    key_data,
                    op0.purpose,
                    encode_utf8(op0.site_name),
                    op0.counter,
                    spec_text_bytes(op0.context),
                ),
                op0.result_param->0,
            );
        }
    }
    let result = match spectre_site_result(
        user_key,
        op.site_name.as_str(),
        op.result_type,
        text_ref(&op.result_param),
        op.counter,
        op.purpose,
        text_ref(&op.context),
    ) {
        Ok(result) => result,
        Err(e) => {
            return Err(e);
        },
    };

    site.uses = if site.uses == u32::MAX {
        site.uses
    } else {
        site.uses + 1
    };
    site.last_used = now;
    user.redacted = op.redacted;
    user.last_used = now;
    user.add_site(site);

    Ok(result)
}

/// How a request finds its profile.
#[derive(Debug)]
pub enum SpectreOpening {
    /// The profile is ready to be worked on.
    Ready(SpectreMarshalledUser),
    /// The secret is not the profile's, and the request may replace it: the
    /// old secret is needed to go on.
    NeedsOldSecret(SpectreMarshalledUser),
}

/// How a request finds its profile, as contracts speak of it.
pub enum SpectreOpeningView {
    Ready(SpectreMarshalledUserView),
    NeedsOldSecret(SpectreMarshalledUserView),
}

impl View for SpectreOpening {
    type V = SpectreOpeningView;

    open spec fn view(&self) -> SpectreOpeningView {
        match *self {
            SpectreOpening::Ready(user) => SpectreOpeningView::Ready(user@),
            SpectreOpening::NeedsOldSecret(user) => SpectreOpeningView::NeedsOldSecret(user@),
        }
    }
}

/// What a read gave: the user on file, no user where there is no file or the
/// request has none, or the error with which the read failed.
pub open spec fn spec_loaded(
    read: Option<Result<(SpectreMarshalledFile, Option<SpectreMarshalledUser>), SpectreError>>,
) -> Result<Option<SpectreMarshalledUserView>, SpectreErrorView> {
    match read {
        Some(Ok((_, Some(user)))) => Ok(Some(user@)),
        Some(Ok((_, None))) => Ok(None),
        Some(Err(e)) => Err(e@),
        None => Ok(None),
    }
}

/// How a request finds its profile. A read that failed ends the request with
/// its error. Without a user on file, a fresh user is made from the request's
/// name, the key's identicon and fingerprint, and the request's algorithm. A
/// user on file is authenticated with the request's secret: where the secret
/// is right the request goes on, with the identicon refreshed; a mismatch asks
/// for the old secret where the request may replace the secret, and is an
/// error where it may not; any other error ends the request.
pub open spec fn spec_operation_open(
    op: SpectreOperationView,
    key: crate::algorithm::SpectreUserKeyView,
    loaded: Result<Option<SpectreMarshalledUserView>, SpectreErrorView>,
    now: SpectreTimestamp,
) -> Result<SpectreOpeningView, SpectreErrorView> {
    match loaded {
        Err(e) => Err(e),
        Ok(None) => Ok(
            SpectreOpeningView::Ready(
                SpectreMarshalledUserView::fresh(
                    op.user_name,
                    crate::algorithm::spec_identicon_of_key(key.key_data),
                    key.key_id,
                    op.algorithm,
                    now,
                ),
            ),
        ),
        Ok(Some(user)) => match spec_marshal_auth(user, encode_utf8(op.user_secret)) {
            Ok(authenticated) => Ok(SpectreOpeningView::Ready(authenticated)),
            Err(SpectreErrorView::UserSecretMismatch) => if op.allow_password_update {
                Ok(SpectreOpeningView::NeedsOldSecret(user))
            } else {
                Err(SpectreErrorView::UserSecretMismatch)
            },
            Err(e) => Err(e),
        },
    }
}

/// Opens the profile of a request: `read` is what reading the profile's file
/// gave, or nothing where the request has no file. A file that could not be
/// read is left alone: the request ends with the error of the read.
pub fn spectre_operation_open(
    op: &SpectreOperation,
    user_key: &SpectreUserKey,
    read: Option<Result<(SpectreMarshalledFile, Option<SpectreMarshalledUser>), SpectreError>>,
    now: SpectreTimestamp,
) -> (r: Result<SpectreOpening, SpectreError>)
    requires
        user_key.wf(),
    ensures
        result_view(r) == spec_operation_open(op@, user_key@, spec_loaded(read), now),
{
    let loaded = match read {
        Some(Ok((_, loaded))) => loaded,
        Some(Err(e)) => {
            return Err(e);
        },
        None => None,
    };
    match loaded {
        Some(mut user) => {
            match spectre_marshal_auth(&mut user, op.user_secret.as_str()) {
                Ok(()) => Ok(SpectreOpening::Ready(user)),
                Err(SpectreError::UserSecretMismatch) => {
                    if op.allow_password_update {
                        Ok(SpectreOpening::NeedsOldSecret(user))
                    } else {
                        Err(SpectreError::UserSecretMismatch)
                    }
                },
                Err(e) => Err(e),
            }
        },
        None => {
            let identicon = crate::algorithm::spectre_identicon_of_key(user_key);
            Ok(
                SpectreOpening::Ready(
                    SpectreMarshalledUser::new_at(
                        op.user_name.clone(),
                        identicon,
                        user_key.key_id,
                        op.algorithm,
                        now,
                    ),
                ),
            )
        },
    }
}

/// The profile after its secret was replaced: authenticated with the old
/// secret, it takes the fingerprint and the identicon of the new key.
pub open spec fn spec_operation_rotate(
    key: crate::algorithm::SpectreUserKeyView,
    user: SpectreMarshalledUserView,
    old_secret: Seq<u8>,
) -> Result<SpectreMarshalledUserView, SpectreErrorView> {
    match spec_marshal_auth(user, old_secret) {
        Ok(authenticated) => Ok(
            SpectreMarshalledUserView {
                key_id: key.key_id,
                identicon: crate::algorithm::spec_identicon_of_key(key.key_data),
                ..authenticated
            },
        ),
        Err(e) => Err(e),
    }
}

/// Replaces the secret of a profile: the profile must authenticate with the
/// old secret, and is then bound to the key of the new one.
pub fn spectre_operation_rotate(
    user_key: &SpectreUserKey,
    user: SpectreMarshalledUser,
    old_secret: &str,
) -> (r: Result<SpectreMarshalledUser, SpectreError>)
    requires
        user_key.wf(),
    ensures
        result_view(r) == spec_operation_rotate(user_key@, user@, old_secret.spec_bytes()),
{
    let mut user = user;
    match spectre_marshal_auth(&mut user, old_secret) {
        Ok(()) => {},
        Err(e) => {
            return Err(e);
        },
    }
    user.key_id = user_key.key_id;
    user.identicon = crate::algorithm::spectre_identicon_of_key(user_key);
    Ok(user)
}

/// Whether a request keeps a file: every format but the one that persists
/// nothing has one.
pub fn spectre_operation_has_file(op: &SpectreOperation) -> (r: bool)
    ensures
        r == (op.format != SpectreFormat::FormatNone),
{
    op.format != SpectreFormat::FormatNone
}

} // verus!
