//! Result types, key purposes, and the template and character-class tables
//! that drive the assembly of a credential.

use crate::error::{SpectreError, SpectreErrorView};
use std::str::FromStr;
use vstd::prelude::*;

verus! {

/// The oldest algorithm version that is accepted.
pub const SPECTRE_ALGORITHM_FIRST: u32 = 0;

/// The algorithm version that new profiles get.
pub const SPECTRE_ALGORITHM_CURRENT: u32 = 3;

/// The newest algorithm version that is accepted.
pub const SPECTRE_ALGORITHM_LAST: u32 = 3;

/// The counter of a site's first credential.
pub const SPECTRE_COUNTER_DEFAULT: u32 = 1;

/// The reserved counter that stands for "initial".
pub const SPECTRE_COUNTER_INITIAL: u32 = 0;

/// The smallest counter.
pub const SPECTRE_COUNTER_FIRST: u32 = 0;

/// The largest counter.
pub const SPECTRE_COUNTER_LAST: u32 = 0xffff_ffff;

/// An algorithm version.
pub type SpectreAlgorithm = u32;

/// A site counter.
pub type SpectreCounter = u32;

/// What a derived key is for. Each purpose has its own salt scope, so one site
/// yields three independent families of credentials.
#[derive(Debug, Clone, Copy, PartialEq, Eq, Structural)]
pub enum SpectreKeyPurpose {
    /// The credential that signs the user in.
    Authentication,
    /// The login name.
    Identification,
    /// The answer to a recovery question.
    Recovery,
}

impl SpectreKeyPurpose {
    /// The purpose's full name.
    pub open spec fn spec_name(self) -> Seq<char> {
        match self {
            SpectreKeyPurpose::Authentication => "authentication"@,
            SpectreKeyPurpose::Identification => "identification"@,
            SpectreKeyPurpose::Recovery => "recovery"@,
        }
    }

    /// The salt scope that the purpose mixes into a site key.
    pub open spec fn spec_scope(self) -> Seq<char> {
        match self {
            SpectreKeyPurpose::Authentication => "com.lyndir.masterpassword"@,
            SpectreKeyPurpose::Identification => "com.lyndir.masterpassword.login"@,
            SpectreKeyPurpose::Recovery => "com.lyndir.masterpassword.answer"@,
        }
    }

    /// The purpose that a word on the command line names, if it names one.
    pub open spec fn spec_parse(s: Seq<char>) -> Option<SpectreKeyPurpose> {
        if s == "a"@ || s == "auth"@ || s == "authentication"@ {
            Some(SpectreKeyPurpose::Authentication)
        } else if s == "i"@ || s == "ident"@ || s == "identification"@ {
            Some(SpectreKeyPurpose::Identification)
        } else if s == "r"@ || s == "rec"@ || s == "recovery"@ {
            Some(SpectreKeyPurpose::Recovery)
        } else {
            None
        }
    }

    /// The full name of the purpose.
    pub fn name(&self) -> (r: &'static str)
        ensures
            r@ == self.spec_name(),
    {
        match self {
            SpectreKeyPurpose::Authentication => "authentication",
            SpectreKeyPurpose::Identification => "identification",
            SpectreKeyPurpose::Recovery => "recovery",
        }
    }

    /// The salt scope of the purpose.
    pub fn scope(&self) -> (r: &'static str)
        ensures
            r@ == self.spec_scope(),
    {
        match self {
            SpectreKeyPurpose::Authentication => "com.lyndir.masterpassword",
            SpectreKeyPurpose::Identification => "com.lyndir.masterpassword.login",
            SpectreKeyPurpose::Recovery => "com.lyndir.masterpassword.answer",
        }
    }

    /// Reads a purpose from a word: `a`, `auth` or `authentication`; `i`,
    /// `ident` or `identification`; `r`, `rec` or `recovery`. Any other word is
    /// handed back in the error.
    pub fn parse(s: &str) -> (r: Result<SpectreKeyPurpose, SpectreError>)
        ensures
            match SpectreKeyPurpose::spec_parse(s@) {
                Some(p) => r == Ok::<SpectreKeyPurpose, SpectreError>(p),
                None => r matches Err(e) && e@ == SpectreErrorView::InvalidKeyPurpose(s@),
            },
    {
        if s.eq("a") || s.eq("auth") || s.eq("authentication") {
            Ok(SpectreKeyPurpose::Authentication)
        } else if s.eq("i") || s.eq("ident") || s.eq("identification") {
            Ok(SpectreKeyPurpose::Identification)
        } else if s.eq("r") || s.eq("rec") || s.eq("recovery") {
            Ok(SpectreKeyPurpose::Recovery)
        } else {
            Err(SpectreError::InvalidKeyPurpose(s.to_owned()))
        }
    }
}

impl FromStr for SpectreKeyPurpose {
    type Err = SpectreError;

    /// Reads a purpose from a word, as `parse` does.
    fn from_str(s: &str) -> (r: Result<SpectreKeyPurpose, SpectreError>)
        ensures
            match SpectreKeyPurpose::spec_parse(s@) {
                Some(p) => r == Ok::<SpectreKeyPurpose, SpectreError>(p),
                None => r matches Err(e) && e@ == SpectreErrorView::InvalidKeyPurpose(s@),
            },
    {
        SpectreKeyPurpose::parse(s)
    }
}

/// What kind of credential is asked for. The template-based types assemble the
/// credential from a site key; the stateful types keep one that the user
/// supplied.
#[derive(Debug, Clone, Copy, PartialEq, Eq, Structural)]
pub enum SpectreResultType {
    /// 20 characters, mostly free.
    MaximumSecurityPassword,
    /// 14 characters in pronounceable blocks.
    LongPassword,
    /// 8 characters.
    MediumPassword,
    /// 8 letters and digits.
    BasicPassword,
    /// 4 characters.
    ShortPassword,
    /// 4 digits.
    PIN,
    /// 9 lower-case letters.
    Name,
    /// Lower-case words with spaces between them.
    Phrase,
    /// A password that the user chose, kept encrypted.
    PersonalPassword,
    /// A key derived for the site.
    DeriveKey,
    /// No credential.
    ResultNone,
}

impl Default for SpectreResultType {
    fn default() -> (r: SpectreResultType)
        ensures
            r == SpectreResultType::ResultNone,
    {
        SpectreResultType::ResultNone
    }
}

impl SpectreResultType {
    /// The short name of the type.
    pub open spec fn spec_short_name(self) -> Seq<char> {
        match self {
            SpectreResultType::MaximumSecurityPassword => "maximum"@,
            SpectreResultType::LongPassword => "long"@,
            SpectreResultType::MediumPassword => "medium"@,
            SpectreResultType::BasicPassword => "basic"@,
            SpectreResultType::ShortPassword => "short"@,
            SpectreResultType::PIN => "pin"@,
            SpectreResultType::Name => "name"@,
            SpectreResultType::Phrase => "phrase"@,
            SpectreResultType::DeriveKey => "key"@,
            SpectreResultType::PersonalPassword => "personal"@,
            SpectreResultType::ResultNone => "none"@,
        }
    }

    /// Whether the credential is one that the user supplied.
    pub open spec fn spec_is_stateful(self) -> bool {
        self == SpectreResultType::PersonalPassword || self == SpectreResultType::DeriveKey
    }

    /// The templates of the type, in the order in which a site key's first
    /// byte selects among them. The stateful types and `ResultNone` have none.
    pub open spec fn spec_template(self) -> Seq<Seq<char>> {
        match self {
            SpectreResultType::MaximumSecurityPassword => seq![
                "anoxxxxxxxxxxxxxxxxx"@,
                "axxxxxxxxxxxxxxxxxno"@,
            ],
            SpectreResultType::LongPassword => seq![
                "CvcvnoCvcvCvcv"@,
                "CvcvCvcvnoCvcv"@,
                "CvcvCvcvCvcvno"@,
                "CvccnoCvcvCvcv"@,
                "CvccCvcvnoCvcv"@,
                "CvccCvcvCvcvno"@,
                "CvcvnoCvccCvcv"@,
                "CvcvCvccnoCvcv"@,
                "CvcvCvccCvcvno"@,
                "CvcvnoCvcvCvcc"@,
                "CvcvCvcvnoCvcc"@,
                "CvcvCvcvCvccno"@,
                "CvccnoCvccCvcv"@,
                "CvccCvccnoCvcv"@,
                "CvccCvccCvcvno"@,
                "CvcvnoCvccCvcc"@,
                "CvcvCvccnoCvcc"@,
                "CvcvCvccCvccno"@,
                "CvccnoCvcvCvcc"@,
                "CvccCvcvnoCvcc"@,
                "CvccCvcvCvccno"@,
            ],
            SpectreResultType::MediumPassword => seq!["CvcnoCvc"@, "CvcCvcno"@],
            SpectreResultType::BasicPassword => seq!["aaanaaan"@, "aannaaan"@, "aaannaaa"@],
            SpectreResultType::ShortPassword => seq!["Cvcn"@],
            SpectreResultType::PIN => seq!["nnnn"@],
            SpectreResultType::Name => seq!["cvccvcvcv"@],
            SpectreResultType::Phrase => seq![
                "cvcc cvc cvccvcv cvc"@,
                "cvc cvccvcvcv cvcv"@,
                "cv cvccv cvc cvcvccv"@,
            ],
            _ => Seq::empty(),
        }
    }

    /// The type that a word on the command line names, if it names one.
    pub open spec fn spec_parse(s: Seq<char>) -> Option<SpectreResultType> {
        if s == "x"@ || s == "max"@ || s == "maximum"@ {
            Some(SpectreResultType::MaximumSecurityPassword)
        } else if s == "l"@ || s == "long"@ {
            Some(SpectreResultType::LongPassword)
        } else if s == "m"@ || s == "medium"@ {
            Some(SpectreResultType::MediumPassword)
        } else if s == "b"@ || s == "basic"@ {
            Some(SpectreResultType::BasicPassword)
        } else if s == "s"@ || s == "short"@ {
            Some(SpectreResultType::ShortPassword)
        } else if s == "i"@ || s == "pin"@ {
            Some(SpectreResultType::PIN)
        } else if s == "n"@ || s == "name"@ {
            Some(SpectreResultType::Name)
        } else if s == "p"@ || s == "phrase"@ {
            Some(SpectreResultType::Phrase)
        } else if s == "K"@ || s == "key"@ {
            Some(SpectreResultType::DeriveKey)
        } else if s == "P"@ || s == "personal"@ {
            Some(SpectreResultType::PersonalPassword)
        } else {
            None
        }
    }

    /// The short name of the type.
    pub fn short_name(&self) -> (r: &'static str)
        ensures
            r@ == self.spec_short_name(),
    {
        match self {
            SpectreResultType::MaximumSecurityPassword => "maximum",
            SpectreResultType::LongPassword => "long",
            SpectreResultType::MediumPassword => "medium",
            SpectreResultType::BasicPassword => "basic",
            SpectreResultType::ShortPassword => "short",
            SpectreResultType::PIN => "pin",
            SpectreResultType::Name => "name",
            SpectreResultType::Phrase => "phrase",
            SpectreResultType::DeriveKey => "key",
            SpectreResultType::PersonalPassword => "personal",
            SpectreResultType::ResultNone => "none",
        }
    }

    /// Whether the credential is one that the user supplied, kept encrypted,
    /// rather than one assembled from a template.
    pub fn is_stateful(&self) -> (r: bool)
        ensures
            r == self.spec_is_stateful(),
    {
        match self {
            SpectreResultType::PersonalPassword => true,
            SpectreResultType::DeriveKey => true,
            _ => false,
        }
    }

    /// The templates of the type, in the order in which a site key's first byte
    /// selects among them.
    pub fn template(&self) -> (r: &'static [&'static str])
        ensures
            r@.len() == self.spec_template().len(),
            forall|i: int| 0 <= i < r@.len() ==> (#[trigger] r@[i])@ == self.spec_template()[i],
    {
        match self {
            SpectreResultType::MaximumSecurityPassword => &[
                "anoxxxxxxxxxxxxxxxxx",
                "axxxxxxxxxxxxxxxxxno",
            ],
            SpectreResultType::LongPassword => &[
                "CvcvnoCvcvCvcv",
                "CvcvCvcvnoCvcv",
                "CvcvCvcvCvcvno",
                "CvccnoCvcvCvcv",
                "CvccCvcvnoCvcv",
                "CvccCvcvCvcvno",
                "CvcvnoCvccCvcv",
                "CvcvCvccnoCvcv",
                "CvcvCvccCvcvno",
                "CvcvnoCvcvCvcc",
                "CvcvCvcvnoCvcc",
                "CvcvCvcvCvccno",
                "CvccnoCvccCvcv",
                "CvccCvccnoCvcv",
                "CvccCvccCvcvno",
                "CvcvnoCvccCvcc",
                "CvcvCvccnoCvcc",
                "CvcvCvccCvccno",
                "CvccnoCvcvCvcc",
                "CvccCvcvnoCvcc",
                "CvccCvcvCvccno",
            ],
            SpectreResultType::MediumPassword => &["CvcnoCvc", "CvcCvcno"],
            SpectreResultType::BasicPassword => &["aaanaaan", "aannaaan", "aaannaaa"],
            SpectreResultType::ShortPassword => &["Cvcn"],
            SpectreResultType::PIN => &["nnnn"],
            SpectreResultType::Name => &["cvccvcvcv"],
            SpectreResultType::Phrase => &[
                "cvcc cvc cvccvcv cvc",
                "cvc cvccvcvcv cvcv",
                "cv cvccv cvc cvcvccv",
            ],
            _ => &[],
        }
    }

    /// Reads a result type from a word: `x`, `max` or `maximum`; `l` or
    /// `long`; `m` or `medium`; `b` or `basic`; `s` or `short`; `i` or `pin`;
    /// `n` or `name`; `p` or `phrase`; `K` or `key`; `P` or `personal`. Any
    /// other word is handed back in the error.
    pub fn parse(s: &str) -> (r: Result<SpectreResultType, SpectreError>)
        ensures
            match SpectreResultType::spec_parse(s@) {
                Some(t) => r == Ok::<SpectreResultType, SpectreError>(t),
                None => r matches Err(e) && e@ == SpectreErrorView::InvalidResultType(s@),
            },
    {
        if s.eq("x") || s.eq("max") || s.eq("maximum") {
            Ok(SpectreResultType::MaximumSecurityPassword)
        } else if s.eq("l") || s.eq("long") {
            Ok(SpectreResultType::LongPassword)
        } else if s.eq("m") || s.eq("medium") {
            Ok(SpectreResultType::MediumPassword)
        } else if s.eq("b") || s.eq("basic") {
            Ok(SpectreResultType::BasicPassword)
        } else if s.eq("s") || s.eq("short") {
            Ok(SpectreResultType::ShortPassword)
        } else if s.eq("i") || s.eq("pin") {
            Ok(SpectreResultType::PIN)
        } else if s.eq("n") || s.eq("name") {
            Ok(SpectreResultType::Name)
        } else if s.eq("p") || s.eq("phrase") {
            Ok(SpectreResultType::Phrase)
        } else if s.eq("K") || s.eq("key") {
            Ok(SpectreResultType::DeriveKey)
        } else if s.eq("P") || s.eq("personal") {
            Ok(SpectreResultType::PersonalPassword)
        } else {
            Err(SpectreError::InvalidResultType(s.to_owned()))
        }
    }
}

impl FromStr for SpectreResultType {
    type Err = SpectreError;

    /// Reads a result type from a word, as `parse` does.
    fn from_str(s: &str) -> (r: Result<SpectreResultType, SpectreError>)
        ensures
            match SpectreResultType::spec_parse(s@) {
                Some(t) => r == Ok::<SpectreResultType, SpectreError>(t),
                None => r matches Err(e) && e@ == SpectreErrorView::InvalidResultType(s@),
            },
    {
        SpectreResultType::parse(s)
    }
}

/// The result type of a request that names none.
pub const SPECTRE_RESULT_DEFAULT_RESULT: SpectreResultType = SpectreResultType::LongPassword;

/// The characters that may stand where a template has the token `c`, in the
/// order in which a site key's byte selects among them. A character that is no
/// token has the empty class and is kept as it is.
pub open spec fn spec_char_class(c: char) -> Seq<char> {
    if c == 'V' {
        seq!['A', 'E', 'I', 'O', 'U']
    } else if c == 'C' {
        seq![
            'B', 'C', 'D', 'F', 'G', 'H', 'J', 'K', 'L', 'M', 'N', 'P', 'Q', 'R', 'S', 'T', 'V',
            'W', 'X', 'Y', 'Z',
        ]
    } else if c == 'v' {
        seq!['a', 'e', 'i', 'o', 'u']
    } else if c == 'c' {
        seq![
            'b', 'c', 'd', 'f', 'g', 'h', 'j', 'k', 'l', 'm', 'n', 'p', 'q', 'r', 's', 't', 'v',
            'w', 'x', 'y', 'z',
        ]
    } else if c == 'A' {
        seq![
            'A', 'B', 'C', 'D', 'E', 'F', 'G', 'H', 'I', 'J', 'K', 'L', 'M', 'N', 'O', 'P', 'Q',
            'R', 'S', 'T', 'U', 'V', 'W', 'X', 'Y', 'Z',
        ]
    } else if c == 'a' || c == 'x' {
        seq![
            'a', 'b', 'c', 'd', 'e', 'f', 'g', 'h', 'i', 'j', 'k', 'l', 'm', 'n', 'o', 'p', 'q',
            'r', 's', 't', 'u', 'v', 'w', 'x', 'y', 'z',
        ]
    } else if c == 'n' {
        seq!['0', '1', '2', '3', '4', '5', '6', '7', '8', '9']
    } else if c == 'o' {
        seq![
            '@', '&', '%', '?', ',', '=', '[', ']', '_', ':', '-', '+', '*', '$', '#', '!', '\'',
            '^', '~', ';', '(', ')', '/', '.',
        ]
    } else if c == ' ' {
        seq![' ']
    } else {
        Seq::empty()
    }
}

/// The character class of a template character, in the order in which a site
/// key's byte selects among its members; empty for a character that is no token.
pub fn char_class_for_template(c: char) -> (r: &'static [char])
    ensures
        r@ == spec_char_class(c),
{
    let r: &'static [char] = match c {
        'V' => &['A', 'E', 'I', 'O', 'U'],
        'C' => &[
            'B', 'C', 'D', 'F', 'G', 'H', 'J', 'K', 'L', 'M', 'N', 'P', 'Q', 'R', 'S', 'T', 'V',
            'W', 'X', 'Y', 'Z',
        ],
        'v' => &['a', 'e', 'i', 'o', 'u'],
        'c' => &[
            'b', 'c', 'd', 'f', 'g', 'h', 'j', 'k', 'l', 'm', 'n', 'p', 'q', 'r', 's', 't', 'v',
            'w', 'x', 'y', 'z',
        ],
        'A' => &[
            'A', 'B', 'C', 'D', 'E', 'F', 'G', 'H', 'I', 'J', 'K', 'L', 'M', 'N', 'O', 'P', 'Q',
            'R', 'S', 'T', 'U', 'V', 'W', 'X', 'Y', 'Z',
        ],
        'a' => &[
            'a', 'b', 'c', 'd', 'e', 'f', 'g', 'h', 'i', 'j', 'k', 'l', 'm', 'n', 'o', 'p', 'q',
            'r', 's', 't', 'u', 'v', 'w', 'x', 'y', 'z',
        ],
        'n' => &['0', '1', '2', '3', '4', '5', '6', '7', '8', '9'],
        'o' => &[
            '@', '&', '%', '?', ',', '=', '[', ']', '_', ':', '-', '+', '*', '$', '#', '!', '\'',
            '^', '~', ';', '(', ')', '/', '.',
        ],
        'x' => &[
            'a', 'b', 'c', 'd', 'e', 'f', 'g', 'h', 'i', 'j', 'k', 'l', 'm', 'n', 'o', 'p', 'q',
            'r', 's', 't', 'u', 'v', 'w', 'x', 'y', 'z',
        ],
        ' ' => &[' '],
        _ => &[],
    };
    r
}

} // verus!
