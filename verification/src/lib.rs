//! Spectre: a stateless, deterministic password manager.
//!
//! A site credential is derived from a user's full name, a personal secret and
//! a site name. The derivation is reproducible anywhere and stores nothing.

pub mod algorithm;
pub mod error;
pub mod lemmas;
pub mod marshal;
pub mod models;
pub mod operation;
pub mod primitives;
pub mod session;
pub mod text;
pub mod types;
pub mod util;

pub use algorithm::{
    spectre_identicon, spectre_identicon_of_key, spectre_identicon_render, spectre_site_key,
    spectre_site_plaintext_with_key, spectre_site_result, spectre_site_result_with_key,
    spectre_site_state, spectre_site_state_with_key, spectre_user_key, SpectreUserKey,
};
pub use error::SpectreError;
pub use marshal::{
    spectre_marshal_auth, spectre_marshal_read, spectre_marshal_redact, spectre_marshal_write,
    spectre_profile_dir, spectre_user_file_name, spectre_user_path, spectre_user_path_in,
    SpectreMarshalInput,
};
pub use models::{
    SpectreFormat, SpectreMarshalError, SpectreMarshalErrorType, SpectreMarshalledFile,
    SpectreMarshalledQuestion, SpectreMarshalledSite, SpectreMarshalledUser, SpectreTimestamp,
    SPECTRE_FORMAT_DEFAULT, SPECTRE_FORMAT_FIRST, SPECTRE_FORMAT_LAST,
};
pub use operation::{
    spectre_algorithm_choice, spectre_format_choice, spectre_operation_apply,
    spectre_operation_has_file, spectre_operation_open, spectre_operation_rotate,
    spectre_purpose_label, spectre_require_field, spectre_user_name_choice, spectre_verbosity,
    SpectreArguments, SpectreOpening, SpectreOperation,
};
pub use session::{
    spectre_counter_down, spectre_counter_up, spectre_name_valid, spectre_secret_valid,
    spectre_session_output, spectre_site_valid, SpectreCachedKey, SpectreCoordinator,
    SpectreKeyCache, SpectreKeyRequest, SpectreKeyStep, SpectreOutput, WorkerMessage,
};
pub use types::{
    char_class_for_template, SpectreAlgorithm, SpectreCounter, SpectreKeyPurpose,
    SpectreResultType, SPECTRE_ALGORITHM_CURRENT, SPECTRE_ALGORITHM_FIRST,
    SPECTRE_ALGORITHM_LAST, SPECTRE_COUNTER_DEFAULT, SPECTRE_COUNTER_FIRST,
    SPECTRE_COUNTER_INITIAL, SPECTRE_COUNTER_LAST, SPECTRE_RESULT_DEFAULT_RESULT,
};
pub use util::{parse_bool, zero_bytes, zero_string};
