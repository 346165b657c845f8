//! The persisted profile of a user: the user, the sites, and the recovery
//! questions of each site, with the lookups and insertions that keep names
//! unique and the order of insertion.

use crate::types::{SpectreAlgorithm, SpectreCounter, SpectreResultType};
use vstd::prelude::*;

verus! {

/// A moment in time: whole seconds since 1970-01-01 00:00:00 UTC, and the
/// nanoseconds after that second.
#[derive(Debug, Clone, Copy, PartialEq, Eq, Structural)]
pub struct SpectreTimestamp {
    pub seconds: i64,
    pub nanos: u32,
}

/// The moment of the system clock (`std::time::SystemTime::now`), turned into
/// a `chrono::DateTime<Utc>` and read as seconds (`timestamp`) and nanoseconds
/// (`timestamp_subsec_nanos`). The conversion also takes a clock that stands
/// before 1970. The moment is the clock's, so nothing is promised of it.
#[verifier::external_body]
pub(crate) fn spectre_now() -> SpectreTimestamp {
    let now: chrono::DateTime<chrono::Utc> = std::time::SystemTime::now().into();
    SpectreTimestamp { seconds: now.timestamp(), nanos: now.timestamp_subsec_nanos() }
}

/// The format of a profile file.
#[derive(Debug, Clone, Copy, PartialEq, Eq, Structural)]
pub enum SpectreFormat {
    /// Nothing is persisted.
    FormatNone,
    /// The legacy flat format.
    Flat,
    /// JSON, the canonical format.
    JSON,
}

impl SpectreFormat {
    /// The format that a word on the command line names, if it names one.
    pub open spec fn spec_parse(s: Seq<char>) -> Option<SpectreFormat> {
        if s == "n"@ || s == "none"@ {
            Some(SpectreFormat::FormatNone)
        } else if s == "f"@ || s == "flat"@ {
            Some(SpectreFormat::Flat)
        } else if s == "j"@ || s == "json"@ {
            Some(SpectreFormat::JSON)
        } else {
            None
        }
    }

    /// The name of the format.
    pub open spec fn spec_name(self) -> Seq<char> {
        match self {
            SpectreFormat::FormatNone => "none"@,
            SpectreFormat::Flat => "flat"@,
            SpectreFormat::JSON => "json"@,
        }
    }

    /// The extension of the format's files; empty where nothing is persisted.
    pub open spec fn spec_extension(self) -> Seq<char> {
        match self {
            SpectreFormat::FormatNone => ""@,
            SpectreFormat::Flat => "mpsites"@,
            SpectreFormat::JSON => "json"@,
        }
    }

    /// Reads a format from a word: `n` or `none`, `f` or `flat`, `j` or `json`.
    pub fn parse(s: &str) -> (r: Option<SpectreFormat>)
        ensures
            r == SpectreFormat::spec_parse(s@),
    {
        if s.eq("n") || s.eq("none") {
            Some(SpectreFormat::FormatNone)
        } else if s.eq("f") || s.eq("flat") {
            Some(SpectreFormat::Flat)
        } else if s.eq("j") || s.eq("json") {
            Some(SpectreFormat::JSON)
        } else {
            None
        }
    }

    /// The name of the format: `none`, `flat` or `json`.
    pub fn name(&self) -> (r: &'static str)
        ensures
            r@ == self.spec_name(),
    {
        match self {
            SpectreFormat::FormatNone => "none",
            SpectreFormat::Flat => "flat",
            SpectreFormat::JSON => "json",
        }
    }

    /// The extension of the format's files: `mpsites` for the flat format, `json`
    /// for JSON, and none where nothing is persisted.
    pub fn extension(&self) -> (r: &'static str)
        ensures
            r@ == self.spec_extension(),
    {
        match self {
            SpectreFormat::FormatNone => "",
            SpectreFormat::Flat => "mpsites",
            SpectreFormat::JSON => "json",
        }
    }
}

/// The format of a profile that names none.
pub const SPECTRE_FORMAT_DEFAULT: SpectreFormat = SpectreFormat::JSON;

/// The first format that is persisted.
pub const SPECTRE_FORMAT_FIRST: SpectreFormat = SpectreFormat::Flat;

/// The last format that is persisted.
pub const SPECTRE_FORMAT_LAST: SpectreFormat = SpectreFormat::JSON;

/// How reading or writing a profile ended.
#[derive(Debug, Clone, Copy, PartialEq, Eq, Structural)]
pub enum SpectreMarshalErrorType {
    Success,
    ErrorUserSecret,
    ErrorFormat,
    ErrorMissing,
    ErrorIllegal,
}

/// The outcome of reading or writing a profile, with a message for the user.
#[derive(Debug)]
pub struct SpectreMarshalError {
    pub error_type: SpectreMarshalErrorType,
    pub message: String,
}

impl Clone for SpectreMarshalError {
    fn clone(&self) -> (r: SpectreMarshalError)
        ensures
            r.error_type == self.error_type,
            r.message@ == self.message@,
    {
        SpectreMarshalError { error_type: self.error_type, message: self.message.clone() }
    }
}

impl Default for SpectreMarshalError {
    fn default() -> (r: SpectreMarshalError)
        ensures
            r.error_type == SpectreMarshalErrorType::Success,
            r.message@ == Seq::<char>::empty(),
    {
        SpectreMarshalError { error_type: SpectreMarshalErrorType::Success, message: String::new() }
    }
}

/// What is known of a profile file besides the user in it.
#[derive(Debug)]
pub struct SpectreMarshalledFile {
    pub format: SpectreFormat,
    pub redacted: bool,
    pub date: SpectreTimestamp,
    pub error: SpectreMarshalError,
}

impl Clone for SpectreMarshalledFile {
    fn clone(&self) -> (r: SpectreMarshalledFile)
        ensures
            r.format == self.format,
            r.redacted == self.redacted,
            r.date == self.date,
            r.error.error_type == self.error.error_type,
            r.error.message@ == self.error.message@,
    {
        SpectreMarshalledFile {
            format: self.format,
            redacted: self.redacted,
            date: self.date,
            error: self.error.clone(),
        }
    }
}

impl SpectreMarshalledFile {
    /// The record of a file of the given format, read or written at `date`
    /// without an error.
    pub fn new_at(
        format: SpectreFormat,
        redacted: bool,
        date: SpectreTimestamp,
    ) -> (r: SpectreMarshalledFile)
        ensures
            r.format == format,
            r.redacted == redacted,
            r.date == date,
            r.error.error_type == SpectreMarshalErrorType::Success,
            r.error.message@ == Seq::<char>::empty(),
    {
        SpectreMarshalledFile { format, redacted, date, error: SpectreMarshalError::default() }
    }

    /// The record of a file of the given format, dated now.
    pub fn new(format: SpectreFormat, redacted: bool) -> (r: SpectreMarshalledFile)
        ensures
            r.format == format,
            r.redacted == redacted,
            r.error.error_type == SpectreMarshalErrorType::Success,
            r.error.message@ == Seq::<char>::empty(),
    {
        SpectreMarshalledFile::new_at(format, redacted, spectre_now())
    }
}

/// The characters of an optional text.
pub open spec fn spec_text(text: Option<String>) -> Option<Seq<char>> {
    match text {
        Some(s) => Some(s@),
        None => None,
    }
}

/// Whether `i` is the first place at which `names` holds `name`.
pub open spec fn is_first_match(names: Seq<Seq<char>>, name: Seq<char>, i: int) -> bool {
    &&& 0 <= i < names.len()
    &&& names[i] == name
    &&& forall|j: int| 0 <= j < i ==> names[j] != name
}

/// The first place at which `names` holds `name`, if it holds it at all.
pub open spec fn spec_first_match(names: Seq<Seq<char>>, name: Seq<char>) -> Option<int> {
    if exists|i: int| is_first_match(names, name, i) {
        Some(choose|i: int| is_first_match(names, name, i))
    } else {
        None
    }
}

/// Whether no name occurs twice.
pub open spec fn names_unique(names: Seq<Seq<char>>) -> bool {
    forall|i: int, j: int| 0 <= i < j < names.len() ==> names[i] != names[j]
}

/// A first match is the only one.
pub proof fn lemma_first_match(names: Seq<Seq<char>>, name: Seq<char>, i: int)
    requires
        is_first_match(names, name, i),
    ensures
        spec_first_match(names, name) == Some(i),
{
}

/// Where nothing matches, there is no first match.
pub proof fn lemma_no_match(names: Seq<Seq<char>>, name: Seq<char>)
    requires
        forall|j: int| 0 <= j < names.len() ==> names[j] != name,
    ensures
        spec_first_match(names, name) is None,
{
}

/// Where something matches, something matches first.
pub proof fn lemma_match_has_first(names: Seq<Seq<char>>, name: Seq<char>, j: int)
    requires
        0 <= j < names.len(),
        names[j] == name,
    ensures
        spec_first_match(names, name) matches Some(i) && 0 <= i <= j && is_first_match(
            names,
            name,
            i,
        ),
    decreases j,
{
    if exists|k: int| 0 <= k < j && names[k] == name {
        let k = choose|k: int| 0 <= k < j && names[k] == name;
        lemma_match_has_first(names, name, k);
    } else {
        lemma_first_match(names, name, j);
    }
}

/// A copy of an optional text.
fn clone_text(text: &Option<String>) -> (r: Option<String>)
    ensures
        spec_text(r) == spec_text(*text),
{
    match text {
        Some(s) => Some(s.clone()),
        None => None,
    }
}

/// A recovery question of a site. An empty keyword stands for the default
/// question.
#[derive(Debug)]
pub struct SpectreMarshalledQuestion {
    pub keyword: String,
    pub question_type: SpectreResultType,
    pub state: Option<String>,
}

/// A recovery question as contracts speak of it.
pub struct SpectreMarshalledQuestionView {
    pub keyword: Seq<char>,
    pub question_type: SpectreResultType,
    pub state: Option<Seq<char>>,
}

impl View for SpectreMarshalledQuestion {
    type V = SpectreMarshalledQuestionView;

    open spec fn view(&self) -> SpectreMarshalledQuestionView {
        SpectreMarshalledQuestionView {
            keyword: self.keyword@,
            question_type: self.question_type,
            state: spec_text(self.state),
        }
    }
}

impl SpectreMarshalledQuestion {
    /// A question without a stored state.
    pub fn new(keyword: String, question_type: SpectreResultType) -> (r: SpectreMarshalledQuestion)
        ensures
            r@ == (SpectreMarshalledQuestionView { keyword: keyword@, question_type, state: None }),
    {
        SpectreMarshalledQuestion { keyword, question_type, state: None }
    }
}

impl Clone for SpectreMarshalledQuestion {
    fn clone(&self) -> (r: SpectreMarshalledQuestion)
        ensures
            r@ == self@,
    {
        SpectreMarshalledQuestion {
            keyword: self.keyword.clone(),
            question_type: self.question_type,
            state: clone_text(&self.state),
        }
    }
}

/// The views of a list of questions, in order.
pub open spec fn spec_questions(questions: Seq<SpectreMarshalledQuestion>) -> Seq<
    SpectreMarshalledQuestionView,
> {
    Seq::new(questions.len(), |i: int| questions[i]@)
}

/// The keywords of a list of questions, in order.
pub open spec fn spec_keywords(questions: Seq<SpectreMarshalledQuestionView>) -> Seq<Seq<char>> {
    Seq::new(questions.len(), |i: int| questions[i].keyword)
}

/// A copy of a list of questions.
fn clone_questions(questions: &Vec<SpectreMarshalledQuestion>) -> (r: Vec<
    SpectreMarshalledQuestion,
>)
    ensures
        spec_questions(r@) == spec_questions(questions@),
{
    let mut r: Vec<SpectreMarshalledQuestion> = Vec::new();
    let n: usize = questions.len();
    let mut i: usize = 0;
    while i < n
        invariant
            i <= n,
            n == questions@.len(),
            r@.len() == i,
            forall|j: int| 0 <= j < i ==> r@[j]@ == questions@[j]@,
        decreases n - i,
    {
        r.push(questions[i].clone());
        i += 1;
    }
    r
}

/// A site of a user, with the settings of its credential, its usage, and its
/// recovery questions in the order in which they were added.
#[derive(Debug)]
pub struct SpectreMarshalledSite {
    pub site_name: String,
    pub result_type: SpectreResultType,
    pub result_state: Option<String>,
    pub counter: SpectreCounter,
    pub algorithm: SpectreAlgorithm,
    pub login_type: SpectreResultType,
    pub login_state: Option<String>,
    pub url: Option<String>,
    pub uses: u32,
    pub last_used: SpectreTimestamp,
    pub questions: Vec<SpectreMarshalledQuestion>,
}

/// A site as contracts speak of it.
pub struct SpectreMarshalledSiteView {
    pub site_name: Seq<char>,
    pub result_type: SpectreResultType,
    pub result_state: Option<Seq<char>>,
    pub counter: SpectreCounter,
    pub algorithm: SpectreAlgorithm,
    pub login_type: SpectreResultType,
    pub login_state: Option<Seq<char>>,
    pub url: Option<Seq<char>>,
    pub uses: u32,
    pub last_used: SpectreTimestamp,
    pub questions: Seq<SpectreMarshalledQuestionView>,
}

impl View for SpectreMarshalledSite {
    type V = SpectreMarshalledSiteView;

    open spec fn view(&self) -> SpectreMarshalledSiteView {
        SpectreMarshalledSiteView {
            site_name: self.site_name@,
            result_type: self.result_type,
            result_state: spec_text(self.result_state),
            counter: self.counter,
            algorithm: self.algorithm,
            login_type: self.login_type,
            login_state: spec_text(self.login_state),
            url: spec_text(self.url),
            uses: self.uses,
            last_used: self.last_used,
            questions: spec_questions(self.questions@),
        }
    }
}

impl Clone for SpectreMarshalledSite {
    fn clone(&self) -> (r: SpectreMarshalledSite)
        ensures
            r@ == self@,
    {
        SpectreMarshalledSite {
            site_name: self.site_name.clone(),
            result_type: self.result_type,
            result_state: clone_text(&self.result_state),
            counter: self.counter,
            algorithm: self.algorithm,
            login_type: self.login_type,
            login_state: clone_text(&self.login_state),
            url: clone_text(&self.url),
            uses: self.uses,
            last_used: self.last_used,
            questions: clone_questions(&self.questions),
        }
    }
}

impl SpectreMarshalledSiteView {
    /// A site that was never used: no state, no login type, no address, no
    /// questions.
    pub open spec fn fresh(
        site_name: Seq<char>,
        result_type: SpectreResultType,
        counter: SpectreCounter,
        algorithm: SpectreAlgorithm,
        last_used: SpectreTimestamp,
    ) -> SpectreMarshalledSiteView {
        SpectreMarshalledSiteView {
            site_name,
            result_type,
            result_state: None,
            counter,
            algorithm,
            login_type: SpectreResultType::ResultNone,
            login_state: None,
            url: None,
            uses: 0,
            last_used,
            questions: Seq::empty(),
        }
    }

    /// The site's keywords are unique.
    pub open spec fn wf(self) -> bool {
        names_unique(spec_keywords(self.questions))
    }

    /// The site with `question` in it: in the place of the first question
    /// with the same keyword, or at the end where there is none.
    pub open spec fn add_question(
        self,
        question: SpectreMarshalledQuestionView,
    ) -> SpectreMarshalledSiteView {
        match spec_first_match(spec_keywords(self.questions), question.keyword) {
            Some(i) => SpectreMarshalledSiteView {
                questions: self.questions.update(i, question),
                ..self
            },
            None => SpectreMarshalledSiteView { questions: self.questions.push(question), ..self },
        }
    }

    /// The site with `question` in place `i`.
    pub open spec fn set_question(
        self,
        i: int,
        question: SpectreMarshalledQuestionView,
    ) -> SpectreMarshalledSiteView {
        SpectreMarshalledSiteView { questions: self.questions.update(i, question), ..self }
    }

    /// The first question with the keyword, if there is one.
    pub open spec fn find_question(self, keyword: Seq<char>) -> Option<
        SpectreMarshalledQuestionView,
    > {
        match spec_first_match(spec_keywords(self.questions), keyword) {
            Some(i) => Some(self.questions[i]),
            None => None,
        }
    }
}

impl SpectreMarshalledSite {
    /// A site that was never used, last used at `now`.
    pub fn new_at(
        site_name: String,
        result_type: SpectreResultType,
        counter: SpectreCounter,
        algorithm: SpectreAlgorithm,
        now: SpectreTimestamp,
    ) -> (r: SpectreMarshalledSite)
        ensures
            r@ == SpectreMarshalledSiteView::fresh(
                site_name@,
                result_type,
                counter,
                algorithm,
                now,
            ),
    {
        let r = SpectreMarshalledSite {
            site_name,
            result_type,
            result_state: None,
            counter,
            algorithm,
            login_type: SpectreResultType::ResultNone,
            login_state: None,
            url: None,
            uses: 0,
            last_used: now,
            questions: Vec::new(),
        };
        assert(r@.questions =~= Seq::empty());
        r
    }

    /// A site that was never used, last used now.
    pub fn new(
        site_name: String,
        result_type: SpectreResultType,
        counter: SpectreCounter,
        algorithm: SpectreAlgorithm,
    ) -> (r: SpectreMarshalledSite)
        ensures
            r@ == SpectreMarshalledSiteView::fresh(
                site_name@,
                result_type,
                counter,
                algorithm,
                r.last_used,
            ),
    {
        SpectreMarshalledSite::new_at(site_name, result_type, counter, algorithm, spectre_now())
    }

    /// The place of the first question with the keyword.
    fn question_index(&self, keyword: &str) -> (r: Option<usize>)
        ensures
            match r {
                Some(i) => {
                    &&& is_first_match(spec_keywords(self@.questions), keyword@, i as int)
                    &&& spec_first_match(spec_keywords(self@.questions), keyword@) == Some(
                        i as int,
                    )
                },
                None => {
                    &&& forall|j: int|
                        0 <= j < self.questions@.len() ==> spec_keywords(self@.questions)[j]
                            != keyword@
                    &&& spec_first_match(spec_keywords(self@.questions), keyword@) is None
                },
            },
    {
        let ghost keywords = spec_keywords(self@.questions);
        let n: usize = self.questions.len();
        let mut i: usize = 0;
        while i < n
            invariant
                i <= n,
                n == self.questions@.len(),
                keywords == spec_keywords(self@.questions),
                forall|j: int| 0 <= j < i ==> keywords[j] != keyword@,
            decreases n - i,
        {
            if self.questions[i].keyword.as_str().eq(keyword) {
                proof {
                    lemma_first_match(keywords, keyword@, i as int);
                }
                return Some(i);
            }
            i += 1;
        }
        proof {
            lemma_no_match(keywords, keyword@);
        }
        None
    }

    /// Puts a question into the site: in the place of the first question with
    /// the same keyword, or at the end where there is none.
    pub fn add_question(&mut self, question: SpectreMarshalledQuestion)
        ensures
            final(self)@ == old(self)@.add_question(question@),
            old(self)@.wf() ==> final(self)@.wf(),
    {
        let ghost before = self@;
        let ghost keywords = spec_keywords(before.questions);
        match self.question_index(question.keyword.as_str()) {
            Some(i) => {
                self.questions.set(i, question);
                assert(self@.questions =~= before.questions.update(i as int, question@));
                assert(spec_keywords(self@.questions) =~= keywords);
            },
            None => {
                self.questions.push(question);
                assert(self@.questions =~= before.questions.push(question@));
                assert(spec_keywords(self@.questions) =~= keywords.push(question@.keyword));
            },
        }
    }

    /// The first question with the keyword.
    pub fn find_question(&self, keyword: &str) -> (r: Option<&SpectreMarshalledQuestion>)
        ensures
            match r {
                Some(question) => self@.find_question(keyword@) == Some(question@),
                None => self@.find_question(keyword@) is None,
            },
    {
        match self.question_index(keyword) {
            Some(i) => Some(&self.questions[i]),
            None => None,
        }
    }

    /// The first question with the keyword, to be changed in place. What the
    /// caller writes through the reference takes the question's place in the
    /// site; nothing else changes.
    pub fn find_question_mut(&mut self, keyword: &str) -> (r: Option<
        &mut SpectreMarshalledQuestion,
    >)
        ensures
            match r {
                Some(question) => {
                    &&& old(self)@.find_question(keyword@) == Some(question@)
                    &&& spec_first_match(
                        spec_keywords(old(self)@.questions),
                        keyword@,
                    ) matches Some(i) && final(self)@ == old(self)@.set_question(
                        i,
                        final(question)@,
                    )
                },
                None => {
                    &&& old(self)@.find_question(keyword@) is None
                    &&& final(self)@ == old(self)@
                },
            },
    {
        match self.question_index(keyword) {
            Some(i) => {
                let ghost before = self.questions@;
                let question = &mut self.questions[i];
                assert(spec_questions(before.update(i as int, *final(question))) =~= spec_questions(
                    before,
                ).update(i as int, final(question)@));
                Some(question)
            },
            None => None,
        }
    }
}

/// The views of a list of sites, in order.
pub open spec fn spec_sites(sites: Seq<SpectreMarshalledSite>) -> Seq<SpectreMarshalledSiteView> {
    Seq::new(sites.len(), |i: int| sites[i]@)
}

/// The names of a list of sites, in order.
pub open spec fn spec_site_names(sites: Seq<SpectreMarshalledSiteView>) -> Seq<Seq<char>> {
    Seq::new(sites.len(), |i: int| sites[i].site_name)
}

/// A copy of a list of sites.
fn clone_sites(sites: &Vec<SpectreMarshalledSite>) -> (r: Vec<SpectreMarshalledSite>)
    ensures
        spec_sites(r@) == spec_sites(sites@),
{
    let mut r: Vec<SpectreMarshalledSite> = Vec::new();
    let n: usize = sites.len();
    let mut i: usize = 0;
    while i < n
        invariant
            i <= n,
            n == sites@.len(),
            r@.len() == i,
            forall|j: int| 0 <= j < i ==> r@[j]@ == sites@[j]@,
        decreases n - i,
    {
        r.push(sites[i].clone());
        i += 1;
    }
    r
}

/// The profile of a user: who they are, the fingerprint of their key, and
/// their sites in the order in which they were added.
#[derive(Debug)]
pub struct SpectreMarshalledUser {
    pub user_name: String,
    pub identicon: [u8; 4],
    pub key_id: [u8; 32],
    pub algorithm: SpectreAlgorithm,
    pub redacted: bool,
    pub login_type: SpectreResultType,
    pub login_state: Option<String>,
    pub last_used: SpectreTimestamp,
    pub sites: Vec<SpectreMarshalledSite>,
}

/// A user as contracts speak of it.
pub struct SpectreMarshalledUserView {
    pub user_name: Seq<char>,
    pub identicon: Seq<u8>,
    pub key_id: Seq<u8>,
    pub algorithm: SpectreAlgorithm,
    pub redacted: bool,
    pub login_type: SpectreResultType,
    pub login_state: Option<Seq<char>>,
    pub last_used: SpectreTimestamp,
    pub sites: Seq<SpectreMarshalledSiteView>,
}

impl View for SpectreMarshalledUser {
    type V = SpectreMarshalledUserView;

    open spec fn view(&self) -> SpectreMarshalledUserView {
        SpectreMarshalledUserView {
            user_name: self.user_name@,
            identicon: self.identicon@,
            key_id: self.key_id@,
            algorithm: self.algorithm,
            redacted: self.redacted,
            login_type: self.login_type,
            login_state: spec_text(self.login_state),
            last_used: self.last_used,
            sites: spec_sites(self.sites@),
        }
    }
}

impl Clone for SpectreMarshalledUser {
    fn clone(&self) -> (r: SpectreMarshalledUser)
        ensures
            r@ == self@,
    {
        SpectreMarshalledUser {
            user_name: self.user_name.clone(),
            identicon: self.identicon,
            key_id: self.key_id,
            algorithm: self.algorithm,
            redacted: self.redacted,
            login_type: self.login_type,
            login_state: clone_text(&self.login_state),
            last_used: self.last_used,
            sites: clone_sites(&self.sites),
        }
    }
}

impl SpectreMarshalledUserView {
    /// A user without sites, redacted, with no login type.
    pub open spec fn fresh(
        user_name: Seq<char>,
        identicon: Seq<u8>,
        key_id: Seq<u8>,
        algorithm: SpectreAlgorithm,
        last_used: SpectreTimestamp,
    ) -> SpectreMarshalledUserView {
        SpectreMarshalledUserView {
            user_name,
            identicon,
            key_id,
            algorithm,
            redacted: true,
            login_type: SpectreResultType::ResultNone,
            login_state: None,
            last_used,
            sites: Seq::empty(),
        }
    }

    /// The user's site names are unique, and so are the keywords of each site.
    pub open spec fn wf(self) -> bool {
        &&& names_unique(spec_site_names(self.sites))
        &&& forall|i: int| 0 <= i < self.sites.len() ==> (#[trigger] self.sites[i]).wf()
    }

    /// The user with `site` in it: in the place of the first site with the
    /// same name, or at the end where there is none.
    pub open spec fn add_site(self, site: SpectreMarshalledSiteView) -> SpectreMarshalledUserView {
        match spec_first_match(spec_site_names(self.sites), site.site_name) {
            Some(i) => SpectreMarshalledUserView { sites: self.sites.update(i, site), ..self },
            None => SpectreMarshalledUserView { sites: self.sites.push(site), ..self },
        }
    }

    /// The user with `site` in place `i`.
    pub open spec fn set_site(
        self,
        i: int,
        site: SpectreMarshalledSiteView,
    ) -> SpectreMarshalledUserView {
        SpectreMarshalledUserView { sites: self.sites.update(i, site), ..self }
    }

    /// The first site with the name, if there is one.
    pub open spec fn find_site(self, site_name: Seq<char>) -> Option<SpectreMarshalledSiteView> {
        match spec_first_match(spec_site_names(self.sites), site_name) {
            Some(i) => Some(self.sites[i]),
            None => None,
        }
    }
}

impl SpectreMarshalledUser {
    /// A user without sites, last used at `now`.
    pub fn new_at(
        user_name: String,
        identicon: [u8; 4],
        key_id: [u8; 32],
        algorithm: SpectreAlgorithm,
        now: SpectreTimestamp,
    ) -> (r: SpectreMarshalledUser)
        ensures
            r@ == SpectreMarshalledUserView::fresh(user_name@, identicon@, key_id@, algorithm, now),
            r@.wf(),
    {
        let r = SpectreMarshalledUser {
            user_name,
            identicon,
            key_id,
            algorithm,
            redacted: true,
            login_type: SpectreResultType::ResultNone,
            login_state: None,
            last_used: now,
            sites: Vec::new(),
        };
        assert(r@.sites =~= Seq::empty());
        r
    }

    /// A user without sites, last used now.
    pub fn new(
        user_name: String,
        identicon: [u8; 4],
        key_id: [u8; 32],
        algorithm: SpectreAlgorithm,
    ) -> (r: SpectreMarshalledUser)
        ensures
            r@ == SpectreMarshalledUserView::fresh(
                user_name@,
                identicon@,
                key_id@,
                algorithm,
                r.last_used,
            ),
            r@.wf(),
    {
        SpectreMarshalledUser::new_at(user_name, identicon, key_id, algorithm, spectre_now())
    }

    /// The place of the first site with the name.
    fn site_index(&self, site_name: &str) -> (r: Option<usize>)
        ensures
            match r {
                Some(i) => {
                    &&& is_first_match(spec_site_names(self@.sites), site_name@, i as int)
                    &&& spec_first_match(spec_site_names(self@.sites), site_name@) == Some(i as int)
                },
                None => {
                    &&& forall|j: int|
                        0 <= j < self.sites@.len() ==> spec_site_names(self@.sites)[j]
                            != site_name@
                    &&& spec_first_match(spec_site_names(self@.sites), site_name@) is None
                },
            },
    {
        let ghost names = spec_site_names(self@.sites);
        let n: usize = self.sites.len();
        let mut i: usize = 0;
        while i < n
            invariant
                i <= n,
                n == self.sites@.len(),
                names == spec_site_names(self@.sites),
                forall|j: int| 0 <= j < i ==> names[j] != site_name@,
            decreases n - i,
        {
            if self.sites[i].site_name.as_str().eq(site_name) {
                proof {
                    lemma_first_match(names, site_name@, i as int);
                }
                return Some(i);
            }
            i += 1;
        }
        proof {
            lemma_no_match(names, site_name@);
        }
        None
    }

    /// Puts a site into the profile: in the place of the first site with the
    /// same name, or at the end where there is none.
    pub fn add_site(&mut self, site: SpectreMarshalledSite)
        ensures
            final(self)@ == old(self)@.add_site(site@),
            old(self)@.wf() && site@.wf() ==> final(self)@.wf(),
    {
        let ghost before = self@;
        let ghost names = spec_site_names(before.sites);
        match self.site_index(site.site_name.as_str()) {
            Some(i) => {
                self.sites.set(i, site);
                assert(self@.sites =~= before.sites.update(i as int, site@));
                assert(spec_site_names(self@.sites) =~= names);
            },
            None => {
                self.sites.push(site);
                assert(self@.sites =~= before.sites.push(site@));
                assert(spec_site_names(self@.sites) =~= names.push(site@.site_name));
            },
        }
    }

    /// The first site with the name.
    pub fn find_site(&self, site_name: &str) -> (r: Option<&SpectreMarshalledSite>)
        ensures
            match r {
                Some(site) => self@.find_site(site_name@) == Some(site@),
                None => self@.find_site(site_name@) is None,
            },
    {
        match self.site_index(site_name) {
            Some(i) => Some(&self.sites[i]),
            None => None,
        }
    }

    /// The first site with the name, to be changed in place. What the caller
    /// writes through the reference takes the site's place in the profile;
    /// nothing else changes.
    pub fn find_site_mut(&mut self, site_name: &str) -> (r: Option<&mut SpectreMarshalledSite>)
        ensures
            match r {
                Some(site) => {
                    &&& old(self)@.find_site(site_name@) == Some(site@)
                    &&& spec_first_match(
                        spec_site_names(old(self)@.sites),
                        site_name@,
                    ) matches Some(i) && final(self)@ == old(self)@.set_site(i, final(site)@)
                },
                None => {
                    &&& old(self)@.find_site(site_name@) is None
                    &&& final(self)@ == old(self)@
                },
            },
    {
        match self.site_index(site_name) {
            Some(i) => {
                let ghost before = self.sites@;
                let site = &mut self.sites[i];
                assert(spec_sites(before.update(i as int, *final(site))) =~= spec_sites(
                    before,
                ).update(i as int, final(site)@));
                Some(site)
            },
            None => None,
        }
    }
}

/// A site that was put into a profile is the site that is found under its
/// name.
pub proof fn lemma_add_site_then_find(
    user: SpectreMarshalledUserView,
    site: SpectreMarshalledSiteView,
)
    ensures
        user.add_site(site).find_site(site.site_name) == Some(site),
{
    let names = spec_site_names(user.sites);
    let after = user.add_site(site);
    let names_after = spec_site_names(after.sites);
    match spec_first_match(names, site.site_name) {
        Some(i) => {
            assert(names_after =~= names);
            lemma_first_match(names_after, site.site_name, i);
        },
        None => {
            assert forall|j: int| 0 <= j < names.len() implies names[j] != site.site_name by {
                if names[j] == site.site_name {
                    lemma_match_has_first(names, site.site_name, j);
                }
            }
            assert(names_after =~= names.push(site.site_name));
            lemma_first_match(names_after, site.site_name, names.len() as int);
        },
    }
}

/// Putting a site into a profile changes nothing of what is found under
/// another name.
pub proof fn lemma_add_site_keeps_others(
    user: SpectreMarshalledUserView,
    site: SpectreMarshalledSiteView,
    other: Seq<char>,
)
    requires
        other != site.site_name,
    ensures
        user.add_site(site).find_site(other) == user.find_site(other),
{
    let names = spec_site_names(user.sites);
    let after = user.add_site(site);
    let names_after = spec_site_names(after.sites);
    match spec_first_match(names, site.site_name) {
        Some(i) => {
            assert(names_after =~= names);
        },
        None => {
            assert(names_after =~= names.push(site.site_name));
            match spec_first_match(names, other) {
                Some(k) => {
                    lemma_first_match(names_after, other, k);
                },
                None => {
                    assert forall|j: int| 0 <= j < names_after.len() implies names_after[j]
                        != other by {
                        if j < names.len() && names[j] == other {
                            lemma_match_has_first(names, other, j);
                        }
                    }
                    lemma_no_match(names_after, other);
                },
            }
        },
    }
}

/// A question that was put into a site is the question that is found under
/// its keyword.
pub proof fn lemma_add_question_then_find(
    site: SpectreMarshalledSiteView,
    question: SpectreMarshalledQuestionView,
)
    ensures
        site.add_question(question).find_question(question.keyword) == Some(question),
{
    let names = spec_keywords(site.questions);
    let after = site.add_question(question);
    let names_after = spec_keywords(after.questions);
    match spec_first_match(names, question.keyword) {
        Some(i) => {
            assert(names_after =~= names);
            lemma_first_match(names_after, question.keyword, i);
        },
        None => {
            assert forall|j: int| 0 <= j < names.len() implies names[j] != question.keyword by {
                if names[j] == question.keyword {
                    lemma_match_has_first(names, question.keyword, j);
                }
            }
            assert(names_after =~= names.push(question.keyword));
            lemma_first_match(names_after, question.keyword, names.len() as int);
        },
    }
}

} // verus!
