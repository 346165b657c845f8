//! The interactive session: the thresholds that keep short inputs from starting a
//! derivation, the single-slot cache of the user key, the messages exchanged
//! with a background worker, and the coordinator that keeps at most one
//! derivation in flight.

use crate::algorithm::{
    spec_identicon_of_key, spec_identicon_render, spec_site_result, spec_user_key,
    spectre_identicon_of_key, spectre_identicon_render, spectre_site_result, spectre_user_key,
    SpectreUserKey, SpectreUserKeyView, SPECTRE_DK_LEN,
};
use crate::error::{SpectreError, SpectreErrorView};
use crate::types::{
    SpectreAlgorithm, SpectreCounter, SpectreKeyPurpose, SpectreResultType,
    SPECTRE_ALGORITHM_CURRENT, SPECTRE_COUNTER_DEFAULT, SPECTRE_COUNTER_LAST,
};
use vstd::prelude::*;
use vstd::string::StringSliceAdditionalSpecFns;
use vstd::utf8::encode_utf8;

verus! {

/// The least length of a name, in bytes, for which a key is derived.
pub const SPECTRE_NAME_MIN: usize = 3;

/// The least length of a secret, in bytes, for which a key is derived.
pub const SPECTRE_SECRET_MIN: usize = 4;

/// The least length of a site name, in bytes, for which a credential is
/// generated.
pub const SPECTRE_SITE_MIN: usize = 3;

/// Whether a name and a secret are long enough for a key to be derived.
pub open spec fn spec_key_inputs_valid(name: Seq<char>, secret: Seq<char>) -> bool {
    encode_utf8(name).len() >= SPECTRE_NAME_MIN && encode_utf8(secret).len() >= SPECTRE_SECRET_MIN
}

/// Whether a name, a secret and a site name are long enough for a credential
/// to be generated.
pub open spec fn spec_inputs_valid(name: Seq<char>, secret: Seq<char>, site: Seq<char>) -> bool {
    spec_key_inputs_valid(name, secret) && encode_utf8(site).len() >= SPECTRE_SITE_MIN
}

/// Whether a name has at least 3 bytes.
pub fn spectre_name_valid(name: &str) -> (r: bool)
    ensures
        r == (name.spec_bytes().len() >= SPECTRE_NAME_MIN),
{
    name.as_bytes().len() >= SPECTRE_NAME_MIN
}

/// Whether a secret has at least 4 bytes.
pub fn spectre_secret_valid(secret: &str) -> (r: bool)
    ensures
        r == (secret.spec_bytes().len() >= SPECTRE_SECRET_MIN),
{
    secret.as_bytes().len() >= SPECTRE_SECRET_MIN
}

/// Whether a site name has at least 3 bytes.
pub fn spectre_site_valid(site: &str) -> (r: bool)
    ensures
        r == (site.spec_bytes().len() >= SPECTRE_SITE_MIN),
{
    site.as_bytes().len() >= SPECTRE_SITE_MIN
}

/// A message between the session and its background worker.
pub enum WorkerMessage {
    /// The request to derive the user key of a name and a secret.
    GenerateKey { name: String, secret: String },
    /// The key that was derived.
    KeyResult { key_id: Vec<u8>, key_data: Vec<u8>, algorithm: SpectreAlgorithm },
    /// Why no key was derived.
    KeyError { error: String },
}

/// A message as contracts speak of it.
pub enum WorkerMessageView {
    GenerateKey { name: Seq<char>, secret: Seq<char> },
    KeyResult { key_id: Seq<u8>, key_data: Seq<u8>, algorithm: SpectreAlgorithm },
    KeyError { error: Seq<char> },
}

impl View for WorkerMessage {
    type V = WorkerMessageView;

    open spec fn view(&self) -> WorkerMessageView {
        match *self {
            WorkerMessage::GenerateKey { name, secret } => WorkerMessageView::GenerateKey {
                name: name@,
                secret: secret@,
            },
            WorkerMessage::KeyResult { key_id, key_data, algorithm } => {
                WorkerMessageView::KeyResult { key_id: key_id@, key_data: key_data@, algorithm }
            },
            WorkerMessage::KeyError { error } => WorkerMessageView::KeyError { error: error@ },
        }
    }
}

impl WorkerMessageView {
    /// The key that a message carries: that of a key result whose fingerprint
    /// has 32 bytes and whose key has 64. Any other message carries none.
    pub open spec fn to_spectre_key(self) -> Option<SpectreUserKeyView> {
        match self {
            WorkerMessageView::KeyResult { key_id, key_data, algorithm } => if key_id.len() == 32
                && key_data.len() == SPECTRE_DK_LEN {
                Some(SpectreUserKeyView { key_id, key_data, algorithm })
            } else {
                None
            },
            _ => None,
        }
    }

    /// The key result that carries a key.
    pub open spec fn from_spectre_key(key: SpectreUserKeyView) -> WorkerMessageView {
        WorkerMessageView::KeyResult {
            key_id: key.key_id,
            key_data: key.key_data,
            algorithm: key.algorithm,
        }
    }
}

/// A copy of a byte string.
fn copy_bytes(bytes: &[u8]) -> (r: Vec<u8>)
    ensures
        r@ == bytes@,
{
    let mut r: Vec<u8> = Vec::new();
    let n: usize = bytes.len();
    let mut i: usize = 0;
    while i < n
        invariant
            i <= n,
            n == bytes@.len(),
            r@ == bytes@.take(i as int),
        decreases n - i,
    {
        r.push(bytes[i]);
        i += 1;
    }
    r
}

impl WorkerMessage {
    /// The key that the message carries. A key result whose fingerprint has
    /// not 32 bytes, or whose key has not 64, carries none: it is a fault of
    /// the worker.
    pub fn to_spectre_key(&self) -> (r: Option<SpectreUserKey>)
        ensures
            match self@.to_spectre_key() {
                Some(key) => r matches Some(k) && k@ == key && k.wf(),
                None => r is None,
            },
    {
        match self {
            WorkerMessage::KeyResult { key_id, key_data, algorithm } => {
                if key_id.len() == 32 && key_data.len() == SPECTRE_DK_LEN {
                    let mut key_id_array = [0u8; 32];
                    let mut i: usize = 0;
                    while i < 32
                        invariant
                            i <= 32,
                            key_id@.len() == 32,
                            forall|j: int| 0 <= j < i ==> key_id_array@[j] == key_id@[j],
                        decreases 32 - i,
                    {
                        key_id_array[i] = key_id[i];
                        i += 1;
                    }
                    assert(key_id_array@ =~= key_id@);
                    Some(
                        SpectreUserKey {
                            key_id: key_id_array,
                            key_data: copy_bytes(key_data.as_slice()),
                            algorithm: *algorithm,
                        },
                    )
                } else {
                    None
                }
            },
            _ => None,
        }
    }

    /// Whether the message answers a request: a key result and a key error
    /// do, a request does not.
    pub fn is_answer(&self) -> (r: bool)
        ensures
            r == !(self@ is GenerateKey),
    {
        match self {
            WorkerMessage::GenerateKey { .. } => false,
            _ => true,
        }
    }

    /// The key result that carries a key.
    pub fn from_spectre_key(key: &SpectreUserKey) -> (r: WorkerMessage)
        ensures
            r@ == WorkerMessageView::from_spectre_key(key@),
    {
        WorkerMessage::KeyResult {
            key_id: copy_bytes(key.key_id.as_slice()),
            key_data: copy_bytes(key.key_data.as_slice()),
            algorithm: key.algorithm,
        }
    }
}

/// A well-formed key survives the way to the worker's message and back.
pub proof fn lemma_worker_message_round_trip(key: SpectreUserKey)
    requires
        key.wf(),
    ensures
        WorkerMessageView::from_spectre_key(key@).to_spectre_key() == Some(key@),
{
}

/// What the cache holds: a user key, with the name and the secret that it was
/// derived from.
pub struct SpectreCachedKey {
    pub name: String,
    pub secret: String,
    pub key: SpectreUserKey,
}

/// A cached key as contracts speak of it.
pub struct SpectreCachedKeyView {
    pub name: Seq<char>,
    pub secret: Seq<char>,
    pub key: SpectreUserKeyView,
}

impl View for SpectreCachedKey {
    type V = SpectreCachedKeyView;

    open spec fn view(&self) -> SpectreCachedKeyView {
        SpectreCachedKeyView { name: self.name@, secret: self.secret@, key: self.key@ }
    }
}

/// The cache of the user key: one slot, so that no more than one key is ever
/// held in memory.
pub struct SpectreKeyCache {
    pub slot: Option<SpectreCachedKey>,
}

impl View for SpectreKeyCache {
    type V = Option<SpectreCachedKeyView>;

    open spec fn view(&self) -> Option<SpectreCachedKeyView> {
        match self.slot {
            Some(cached) => Some(cached@),
            None => None,
        }
    }
}

/// The key that a cache holds for a name and a secret: the one in its slot,
/// where both the name and the secret are those of the slot.
pub open spec fn spec_cache_lookup(
    cache: Option<SpectreCachedKeyView>,
    name: Seq<char>,
    secret: Seq<char>,
) -> Option<SpectreUserKeyView> {
    match cache {
        Some(cached) => if cached.name == name && cached.secret == secret {
            Some(cached.key)
        } else {
            None
        },
        None => None,
    }
}

/// Whether a cache holds, if it holds anything, the key that is derived from
/// the name and the secret in its slot, under the current algorithm.
pub open spec fn spec_cache_coherent(cache: Option<SpectreCachedKeyView>) -> bool {
    match cache {
        Some(cached) => Ok::<SpectreUserKeyView, SpectreErrorView>(cached.key) == spec_user_key(
            encode_utf8(cached.name),
            encode_utf8(cached.secret),
            SPECTRE_ALGORITHM_CURRENT,
        ),
        None => true,
    }
}

impl SpectreKeyCache {
    /// An empty cache.
    pub fn new() -> (r: SpectreKeyCache)
        ensures
            r@ is None,
    {
        SpectreKeyCache { slot: None }
    }

    /// The key for a name and a secret, if the cache holds it.
    pub fn lookup(&self, name: &str, secret: &str) -> (r: Option<SpectreUserKey>)
        ensures
            match spec_cache_lookup(self@, name@, secret@) {
                Some(key) => r matches Some(k) && k@ == key,
                None => r is None,
            },
    {
        match &self.slot {
            Some(cached) => {
                if cached.name.as_str().eq(name) && cached.secret.as_str().eq(secret) {
                    Some(cached.key.clone())
                } else {
                    None
                }
            },
            None => None,
        }
    }

    /// Whether a key for a name and a secret has yet to be derived.
    pub fn needs_computation(&self, name: &str, secret: &str) -> (r: bool)
        ensures
            r == (spec_cache_lookup(self@, name@, secret@) is None),
    {
        match &self.slot {
            Some(cached) => !(cached.name.as_str().eq(name) && cached.secret.as_str().eq(secret)),
            None => true,
        }
    }

    /// Empties the cache, wiping the key that it held.
    pub fn clear(&mut self)
        ensures
            final(self)@ is None,
    {
        match self.slot.take() {
            Some(mut cached) => {
                cached.key.zeroize();
                crate::util::zero_string(&mut cached.secret);
            },
            None => {},
        }
    }

    /// Puts a key into the cache's one slot, wiping the key that was there.
    pub fn store(&mut self, name: String, secret: String, key: SpectreUserKey)
        ensures
            final(self)@ == Some(SpectreCachedKeyView { name: name@, secret: secret@, key: key@ }),
    {
        self.clear();
        self.slot = Some(SpectreCachedKey { name, secret, key });
    }

    /// The key for a name and a secret: the cached one on a hit; on a miss the
    /// key is derived under the current algorithm and takes the slot.
    pub fn get_or_derive(&mut self, name: &str, secret: &str) -> (r: Result<
        SpectreUserKey,
        SpectreError,
    >)
        ensures
            match spec_cache_lookup(old(self)@, name@, secret@) {
                Some(key) => r matches Ok(k) && k@ == key && final(self)@ == old(self)@,
                None => r matches Ok(k) && Ok::<SpectreUserKeyView, SpectreErrorView>(k@)
                    == spec_user_key(
                    name.spec_bytes(),
                    secret.spec_bytes(),
                    SPECTRE_ALGORITHM_CURRENT,
                ) && final(self)@ == Some(
                    SpectreCachedKeyView { name: name@, secret: secret@, key: k@ },
                ),
            },
            spec_cache_coherent(old(self)@) ==> spec_cache_coherent(final(self)@),
    {
        match self.lookup(name, secret) {
            Some(key) => Ok(key),
            None => {
                let key = match spectre_user_key(name, secret, SPECTRE_ALGORITHM_CURRENT) {
                    Ok(key) => key,
                    Err(e) => {
                        return Err(e);
                    },
                };
                self.store(name.to_owned(), secret.to_owned(), key.clone());
                Ok(key)
            },
        }
    }
}

/// A coherent cache is transparent: what it answers for a name and a secret is
/// the key that a derivation gives.
pub proof fn lemma_cache_transparent(
    cache: Option<SpectreCachedKeyView>,
    name: Seq<char>,
    secret: Seq<char>,
)
    requires
        spec_cache_coherent(cache),
        spec_cache_lookup(cache, name, secret) is Some,
    ensures
        Ok::<SpectreUserKeyView, SpectreErrorView>(spec_cache_lookup(cache, name, secret)->0)
            == spec_user_key(encode_utf8(name), encode_utf8(secret), SPECTRE_ALGORITHM_CURRENT),
{
}

/// A request for a key that was sent to the worker and is not yet answered.
pub struct SpectreKeyRequest {
    /// The stamp that tells the request's answer from a stale one.
    pub stamp: u64,
    pub name: String,
    pub secret: String,
}

/// A request in flight as contracts speak of it.
pub struct SpectreKeyRequestView {
    pub stamp: u64,
    pub name: Seq<char>,
    pub secret: Seq<char>,
}

impl View for SpectreKeyRequest {
    type V = SpectreKeyRequestView;

    open spec fn view(&self) -> SpectreKeyRequestView {
        SpectreKeyRequestView { stamp: self.stamp, name: self.name@, secret: self.secret@ }
    }
}

/// The coordinator of background derivations. It owns the key cache, keeps at
/// most one request to the worker in flight, and stamps each request so that
/// an answer that comes late is told from the one that is awaited.
pub struct SpectreCoordinator {
    pub cache: SpectreKeyCache,
    /// Whether a derivation is under way; shown to the user.
    pub computing: bool,
    /// The stamp of the last request that was sent.
    pub issued: u64,
    /// The request in flight, if there is one.
    pub pending: Option<SpectreKeyRequest>,
}

/// A coordinator as contracts speak of it.
pub struct SpectreCoordinatorView {
    pub cache: Option<SpectreCachedKeyView>,
    pub computing: bool,
    pub issued: u64,
    pub pending: Option<SpectreKeyRequestView>,
}

impl View for SpectreCoordinator {
    type V = SpectreCoordinatorView;

    open spec fn view(&self) -> SpectreCoordinatorView {
        SpectreCoordinatorView {
            cache: self.cache@,
            computing: self.computing,
            issued: self.issued,
            pending: match self.pending {
                Some(request) => Some(request@),
                None => None,
            },
        }
    }
}

/// What the caller of the coordinator does next.
pub enum SpectreKeyStep {
    /// The name or the secret is too short: no derivation is attempted.
    Refused,
    /// The key is there.
    Ready(SpectreUserKey),
    /// The worker failed; the key was derived on the calling thread instead.
    Recovered(SpectreUserKey),
    /// A request is in flight: ask again when it is answered.
    Wait,
    /// The answer belongs to no request in flight: it is dropped.
    Stale,
    /// Send this request to the worker and hand its answer back with the stamp.
    Ask { stamp: u64, message: WorkerMessage },
    /// No key could be derived.
    Failed(SpectreError),
}

/// A step as contracts speak of it.
pub enum SpectreKeyStepView {
    Refused,
    Ready(SpectreUserKeyView),
    Recovered(SpectreUserKeyView),
    Wait,
    Stale,
    Ask { stamp: u64, message: WorkerMessageView },
    Failed(SpectreErrorView),
}

impl View for SpectreKeyStep {
    type V = SpectreKeyStepView;

    open spec fn view(&self) -> SpectreKeyStepView {
        match *self {
            SpectreKeyStep::Refused => SpectreKeyStepView::Refused,
            SpectreKeyStep::Ready(key) => SpectreKeyStepView::Ready(key@),
            SpectreKeyStep::Recovered(key) => SpectreKeyStepView::Recovered(key@),
            SpectreKeyStep::Wait => SpectreKeyStepView::Wait,
            SpectreKeyStep::Stale => SpectreKeyStepView::Stale,
            SpectreKeyStep::Ask { stamp, message } => SpectreKeyStepView::Ask {
                stamp,
                message: message@,
            },
            SpectreKeyStep::Failed(e) => SpectreKeyStepView::Failed(e@),
        }
    }
}

impl SpectreCoordinatorView {
    /// The flag says that a derivation is under way exactly while a request is
    /// in flight, and the request in flight is the last that was sent.
    pub open spec fn wf(self) -> bool {
        &&& self.computing == (self.pending is Some)
        &&& self.pending matches Some(request) ==> request.stamp == self.issued
    }

    /// The coordinator after a key took the slot of the cache and nothing is
    /// in flight any more.
    pub open spec fn settled(
        self,
        name: Seq<char>,
        secret: Seq<char>,
        key: SpectreUserKeyView,
    ) -> SpectreCoordinatorView {
        SpectreCoordinatorView {
            cache: Some(SpectreCachedKeyView { name, secret, key }),
            computing: false,
            pending: None,
            ..self
        }
    }

    /// What a request for a key leads to, and how it leaves the coordinator.
    ///
    /// Inputs that are too short are refused. A cached key is handed out. While a
    /// request is in flight, a new one waits. Otherwise the worker is asked,
    /// under the next stamp, where there is a worker and a stamp left; where
    /// not, the key is derived on the calling thread and cached.
    pub open spec fn request(self, name: Seq<char>, secret: Seq<char>, worker_ready: bool) -> (
        SpectreCoordinatorView,
        SpectreKeyStepView,
    ) {
        if !spec_key_inputs_valid(name, secret) {
            (self, SpectreKeyStepView::Refused)
        } else if spec_cache_lookup(self.cache, name, secret) is Some {
            (self, SpectreKeyStepView::Ready(spec_cache_lookup(self.cache, name, secret)->0))
        } else if self.pending is Some {
            (self, SpectreKeyStepView::Wait)
        } else if worker_ready && self.issued < u64::MAX {
            let stamp = (self.issued + 1) as u64;
            (
                SpectreCoordinatorView {
                    computing: true,
                    issued: stamp,
                    pending: Some(SpectreKeyRequestView { stamp, name, secret }),
                    ..self
                },
                SpectreKeyStepView::Ask {
                    stamp,
                    message: WorkerMessageView::GenerateKey { name, secret },
                },
            )
        } else {
            match spec_user_key(encode_utf8(name), encode_utf8(secret), SPECTRE_ALGORITHM_CURRENT) {
                Ok(key) => (self.settled(name, secret, key), SpectreKeyStepView::Ready(key)),
                Err(e) => (self, SpectreKeyStepView::Failed(e)),
            }
        }
    }

    /// What an answer of the worker leads to, and how it leaves the
    /// coordinator. `response` is the worker's message, or nothing where the
    /// channel failed or timed out.
    ///
    /// An answer whose stamp is not that of the request in flight is stale and
    /// changes nothing. The awaited answer ends the request: a key result of
    /// the right lengths is cached; any other answer, or none, makes the
    /// coordinator derive the key on the calling thread and cache that.
    pub open spec fn respond(self, stamp: u64, response: Option<WorkerMessageView>) -> (
        SpectreCoordinatorView,
        SpectreKeyStepView,
    ) {
        match self.pending {
            Some(request) if request.stamp == stamp => {
                let carried = match response {
                    Some(message) => message.to_spectre_key(),
                    None => None,
                };
                match carried {
                    Some(key) => (
                        self.settled(request.name, request.secret, key),
                        SpectreKeyStepView::Ready(key),
                    ),
                    None => match spec_user_key(
                        encode_utf8(request.name),
                        encode_utf8(request.secret),
                        SPECTRE_ALGORITHM_CURRENT,
                    ) {
                        Ok(key) => (
                            self.settled(request.name, request.secret, key),
                            SpectreKeyStepView::Recovered(key),
                        ),
                        Err(e) => (
                            SpectreCoordinatorView { computing: false, pending: None, ..self },
                            SpectreKeyStepView::Failed(e),
                        ),
                    },
                }
            },
            _ => (self, SpectreKeyStepView::Stale),
        }
    }
}

impl SpectreCoordinator {
    /// A coordinator with an empty cache and nothing in flight.
    pub fn new() -> (r: SpectreCoordinator)
        ensures
            r@ == (SpectreCoordinatorView {
                cache: None,
                computing: false,
                issued: 0,
                pending: None,
            }),
            r@.wf(),
    {
        SpectreCoordinator {
            cache: SpectreKeyCache::new(),
            computing: false,
            issued: 0,
            pending: None,
        }
    }

    /// Asks for the key of a name and a secret. `worker_ready` says whether
    /// there is a worker to send a request to.
    pub fn request(
        &mut self,
        name: &str,
        secret: &str,
        worker_ready: bool,
    ) -> (step: SpectreKeyStep)
        ensures
            (final(self)@, step@) == old(self)@.request(name@, secret@, worker_ready),
            old(self)@.wf() ==> final(self)@.wf(),
            old(self)@.pending is Some ==> !(step is Ask) && final(self)@ == old(self)@,
    {
        if !(spectre_name_valid(name) && spectre_secret_valid(secret)) {
            return SpectreKeyStep::Refused;
        }
        if let Some(key) = self.cache.lookup(name, secret) {
            return SpectreKeyStep::Ready(key);
        }
        if self.pending.is_some() {
            return SpectreKeyStep::Wait;
        }
        if worker_ready && self.issued < u64::MAX {
            let stamp: u64 = self.issued + 1;
            self.issued = stamp;
            self.pending = Some(
                SpectreKeyRequest { stamp, name: name.to_owned(), secret: secret.to_owned() },
            );
            self.computing = true;
            return SpectreKeyStep::Ask {
                stamp,
                message: WorkerMessage::GenerateKey {
                    name: name.to_owned(),
                    secret: secret.to_owned(),
                },
            };
        }
        match spectre_user_key(name, secret, SPECTRE_ALGORITHM_CURRENT) {
            Ok(key) => {
                self.cache.store(name.to_owned(), secret.to_owned(), key.clone());
                self.computing = false;
                SpectreKeyStep::Ready(key)
            },
            Err(e) => SpectreKeyStep::Failed(e),
        }
    }

    /// Takes an answer of the worker: `response` is its message, or nothing
    /// where the channel failed or timed out.
    pub fn respond(
        &mut self,
        stamp: u64,
        response: Option<&WorkerMessage>,
    ) -> (step: SpectreKeyStep)
        ensures
            (final(self)@, step@) == old(self)@.respond(
                stamp,
                match response {
                    Some(message) => Some(message@),
                    None => None,
                },
            ),
            old(self)@.wf() ==> final(self)@.wf(),
            !(old(self)@.pending matches Some(request) && request.stamp == stamp) ==> step is Stale
                && final(self)@ == old(self)@,
    {
        let awaited = match &self.pending {
            Some(request) => request.stamp == stamp,
            None => false,
        };
        if !awaited {
            return SpectreKeyStep::Stale;
        }
        let mut request = match self.pending.take() {
            Some(request) => request,
            None => {
                return SpectreKeyStep::Stale;
            },
        };
        self.computing = false;
        let carried = match response {
            Some(message) => message.to_spectre_key(),
            None => None,
        };
        match carried {
            Some(key) => {
                self.cache.store(request.name, request.secret, key.clone());
                SpectreKeyStep::Ready(key)
            },
            None => match spectre_user_key(
                request.name.as_str(),
                request.secret.as_str(),
                SPECTRE_ALGORITHM_CURRENT,
            ) {
                Ok(key) => {
                    self.cache.store(request.name, request.secret, key.clone());
                    SpectreKeyStep::Recovered(key)
                },
                Err(e) => {
                    // The secret goes no further: it is wiped here.
                    crate::util::zero_string(&mut request.secret);
                    SpectreKeyStep::Failed(e)
                },
            },
        }
    }
}

/// What the session shows: the credential and the identicon, both empty where
/// there is nothing to show.
pub struct SpectreOutput {
    pub password: String,
    pub identicon: String,
}

/// What the session shows for its inputs and the key that it has, if it has
/// one. Inputs that are too short, no key, a key that is not well formed, and a
/// result type without a credential all show nothing. Otherwise the
/// credential is that of the site for authentication, with the default counter
/// and no context, and the identicon is that of the key.
pub open spec fn spec_session_output(
    name: Seq<char>,
    secret: Seq<char>,
    site: Seq<char>,
    result_type: SpectreResultType,
    key: Option<SpectreUserKeyView>,
) -> (Seq<char>, Seq<char>) {
    if !spec_inputs_valid(name, secret, site) {
        (Seq::empty(), Seq::empty())
    } else {
        match key {
            Some(key) if key.key_data.len() == SPECTRE_DK_LEN => match spec_site_result(
                key.key_data,
                encode_utf8(site),
                result_type,
                None,
                SPECTRE_COUNTER_DEFAULT,
                SpectreKeyPurpose::Authentication,
                Seq::empty(),
            ) {
                Ok(password) => (
                    password,
                    spec_identicon_render(spec_identicon_of_key(key.key_data)),
                ),
                Err(_) => (Seq::empty(), Seq::empty()),
            },
            _ => (Seq::empty(), Seq::empty()),
        }
    }
}

/// What the session shows for its inputs and the key that it has.
pub fn spectre_session_output(
    name: &str,
    secret: &str,
    site: &str,
    result_type: SpectreResultType,
    key: Option<&SpectreUserKey>,
) -> (out: SpectreOutput)
    ensures
        (out.password@, out.identicon@) == spec_session_output(
            name@,
            secret@,
            site@,
            result_type,
            match key {
                Some(k) => Some(k@),
                None => None,
            },
        ),
{
    if !(spectre_name_valid(name) && spectre_secret_valid(secret) && spectre_site_valid(site)) {
        return SpectreOutput { password: String::new(), identicon: String::new() };
    }
    let key = match key {
        Some(key) => key,
        None => {
            return SpectreOutput { password: String::new(), identicon: String::new() };
        },
    };
    if !key.is_wf() {
        return SpectreOutput { password: String::new(), identicon: String::new() };
    }
    match spectre_site_result(
        key,
        site,
        result_type,
        None,
        SPECTRE_COUNTER_DEFAULT,
        SpectreKeyPurpose::Authentication,
        None,
    ) {
        Ok(password) => SpectreOutput {
            password,
            identicon: spectre_identicon_render(spectre_identicon_of_key(key)),
        },
        Err(_) => SpectreOutput { password: String::new(), identicon: String::new() },
    }
}

/// The next counter of a site: one more, and the largest counter stays.
pub fn spectre_counter_up(counter: SpectreCounter) -> (r: SpectreCounter)
    ensures
        counter < SPECTRE_COUNTER_LAST ==> r == counter + 1,
        counter == SPECTRE_COUNTER_LAST ==> r == counter,
{
    if counter < SPECTRE_COUNTER_LAST {
        counter + 1
    } else {
        counter
    }
}

/// The counter of a site before this one: one less, and never below the
/// default counter.
pub fn spectre_counter_down(counter: SpectreCounter) -> (r: SpectreCounter)
    ensures
        counter > SPECTRE_COUNTER_DEFAULT ==> r == counter - 1,
        counter <= SPECTRE_COUNTER_DEFAULT ==> r == counter,
{
    if counter > SPECTRE_COUNTER_DEFAULT {
        counter - 1
    } else {
        counter
    }
}

} // verus!
