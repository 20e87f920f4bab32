//! The shortening core: identifier generation, API-key gated rate limiting,
//! URL validation with loop prevention, and persistence, against any
//! [`KeyValueStore`].

use vstd::prelude::*;
use vstd::string::StringExecFns;

use crate::errors::ErrorKind;
use crate::errors::ShortenerError;
use crate::store::Entry;
use crate::store::KeyValueStore;
use crate::store::StoreModel;
use crate::store::counter_slot_free;
use crate::urls::is_link_loop;
use crate::urls::normalize_url;
use crate::urls::normalized_url;
use crate::urls::parse_url_host;
use crate::urls::url_host;

verus! {

/// The store key under which an API key's validity flag lives.
pub open spec fn api_flag_key(k: Seq<char>) -> Seq<char> {
    "API_KEY_"@ + k
}

/// The store key under which an API key's rate counter lives.
pub open spec fn api_rate_key(k: Seq<char>) -> Seq<char> {
    "RATE_API_KEY_"@ + k
}

/// Whether the model holds a true validity flag for API key `k`.
pub open spec fn flag_valid(m: StoreModel, k: Seq<char>) -> bool {
    m.data.contains_key(api_flag_key(k)) && m.data[api_flag_key(k)] == Entry::Flag(true)
}

/// The value of the counter at `key` in model `m`, with 0 for an absent or
/// non-counter entry.
pub open spec fn counter_value(m: StoreModel, key: Seq<char>) -> int {
    if m.data.contains_key(key) {
        match m.data[key] {
            Entry::Counter(c) => c as int,
            _ => 0,
        }
    } else {
        0
    }
}

/// Whether `n` is the post-increment value of the counter at `key` in `m`:
/// one more than a stored counter, or 1 where no entry was stored.
pub open spec fn counter_after(m: StoreModel, key: Seq<char>, n: i64) -> bool {
    &&& m.data.contains_key(key) ==> (m.data[key] matches Entry::Counter(c) && n == c + 1)
    &&& !m.data.contains_key(key) ==> n == 1
}

/// The data change of one rate-counting step for API key `k`: its counter is
/// incremented to `n` and nothing else changes.
pub open spec fn rate_incremented(m0: StoreModel, m1: StoreModel, k: Seq<char>, n: i64) -> bool {
    &&& counter_after(m0, api_rate_key(k), n)
    &&& m1.data == m0.data.insert(api_rate_key(k), Entry::Counter(n))
}

/// One full rate-counting step for API key `k`: the counter is incremented
/// to `n`, and the window's time-to-live is set exactly when this step
/// created the counter.
pub open spec fn rate_step(m0: StoreModel, m1: StoreModel, k: Seq<char>, period: u64, n: i64) -> bool {
    &&& rate_incremented(m0, m1, k, n)
    &&& if m0.data.contains_key(api_rate_key(k)) {
        m1.ttls == m0.ttls
    } else {
        m1.ttls == m0.ttls.insert(api_rate_key(k), period)
    }
}

/// The expiry is set exactly once per window: a rate-counting step sets the
/// window's time-to-live when it creates the counter, and leaves every
/// time-to-live untouched when the counter already exists.
pub proof fn lemma_ttl_set_only_at_window_creation(
    m0: StoreModel,
    m1: StoreModel,
    k: Seq<char>,
    period: u64,
    n: i64,
)
    requires
        rate_step(m0, m1, k, period, n),
    ensures
        m0.data.contains_key(api_rate_key(k)) ==> m1.ttls == m0.ttls,
        !m0.data.contains_key(api_rate_key(k)) ==> m1.ttls == m0.ttls.insert(
            api_rate_key(k),
            period,
        ),
{
}

/// What a successful verification of API key `k` does to the store: the
/// key's flag must be valid, and with rate limiting enabled the counter
/// advances by one step within the limit.
pub open spec fn keyed_auth_transition(
    m0: StoreModel,
    m1: StoreModel,
    k: Seq<char>,
    period: u64,
    limit: i64,
) -> bool {
    &&& flag_valid(m0, k)
    &&& limit <= 0 ==> m1 == m0
    &&& limit > 0 ==> exists|n: i64| #[trigger] rate_step(m0, m1, k, period, n) && n <= limit
}

/// What a successful API-key verification does to the store: nothing at all
/// without a key; with one, a [`keyed_auth_transition`].
pub open spec fn auth_transition(
    m0: StoreModel,
    m1: StoreModel,
    key: Option<Seq<char>>,
    period: u64,
    limit: i64,
) -> bool {
    &&& key is None ==> m1 == m0
    &&& key matches Some(k) ==> keyed_auth_transition(m0, m1, k, period, limit)
}

/// The view of an API-key argument.
pub open spec fn key_view(k: Option<&str>) -> Option<Seq<char>> {
    match k {
        Some(s) => Some(s@),
        None => None,
    }
}

/// Whether `q` has the shape of a generated identifier: the configured
/// length, every character from the configured alphabet.
pub open spec fn candidate_id(q: Seq<char>, len: usize, alphabet: Seq<char>) -> bool {
    &&& q.len() == len
    &&& forall|i: int| 0 <= i < q.len() ==> alphabet.contains(q[i])
}

/// Whether the identifier space is free in model `m`: no stored key has the
/// shape of a generated identifier.
pub open spec fn id_space_free(m: StoreModel, len: usize, alphabet: Seq<char>) -> bool {
    forall|q: Seq<char>| #[trigger] m.data.contains_key(q) ==> !candidate_id(q, len, alphabet)
}

/// Whether API-key verification against model `m` cannot fail: there is no
/// key, or its flag is valid and, with rate limiting enabled, its counter is
/// a free slot still below the limit.
pub open spec fn auth_succeeds(m: StoreModel, key: Option<Seq<char>>, limit: i64) -> bool {
    key matches Some(k) ==> {
        &&& flag_valid(m, k)
        &&& limit > 0 ==> counter_slot_free(m, api_rate_key(k)) && counter_value(
            m,
            api_rate_key(k),
        ) < limit
    }
}

/// Whether the key's rate-counter key cannot collide with a generated
/// identifier (it differs in length, or holds a character outside the
/// alphabet).
pub open spec fn rate_key_outside_id_space(
    key: Option<Seq<char>>,
    len: usize,
    alphabet: Seq<char>,
) -> bool {
    key matches Some(k) ==> !candidate_id(api_rate_key(k), len, alphabet)
}

/// Looking an identifier up in a store that holds it yields exactly the URL
/// that was stored under it: a successful `shorten` leaves the store with
/// `res.id` mapped to `res.url`, and `lookup` answers [`spec_lookup`] on a
/// reliable store.
pub proof fn lemma_lookup_after_shorten(m: StoreModel, id: Seq<char>, url: Seq<char>)
    requires
        m.data.contains_key(id),
        m.data[id] == Entry::Text(url),
    ensures
        spec_lookup(m, id) == Some(url),
{
}

/// What a `lookup` against a store in state `m` yields.
pub open spec fn spec_lookup(m: StoreModel, id: Seq<char>) -> Option<Seq<char>> {
    if m.data.contains_key(id) {
        match m.data[id] {
            Entry::Text(u) => Some(u),
            _ => None,
        }
    } else {
        None
    }
}

/// A successful shortening: the generated identifier and the normalized URL
/// stored under it.
pub struct ShortenerResult {
    pub id: String,
    pub url: String,
}

/// The configuration a [`Shortener`] was built with.
pub struct ShortenerConfig {
    pub id_length: usize,
    pub id_alphabet: Seq<char>,
    pub max_attempts: u8,
    pub rate_limit_period: u64,
    pub rate_limit: i64,
}

/// Relies on `nanoid::format` with `nanoid::rngs::default`: the result has
/// exactly `length` characters, each drawn from `alphabet`. The bounds keep
/// out the inputs on which `nanoid::format` panics (an alphabet of more than
/// 255 symbols) or need not terminate (an empty or non-ASCII alphabet, or a
/// zero length).
#[verifier::external_body]
fn random_id(length: usize, alphabet: &Vec<char>) -> (r: String)
    requires
        1 <= alphabet@.len() <= 255,
        forall|i: int| 0 <= i < alphabet@.len() ==> (alphabet@[i] as u32) < 128,
        length >= 1,
    ensures
        r@.len() == length,
        forall|i: int| 0 <= i < r@.len() ==> alphabet@.contains(r@[i]),
{
    nanoid::format(nanoid::rngs::default, alphabet.as_slice(), length)
}

/// The shortening core. It resolves identifiers with `lookup` and assigns
/// them with `shorten`, talking to the backing store `S`.
pub struct Shortener<S: KeyValueStore> {
    id_length: usize,
    id_alphabet: Vec<char>,
    id_generation_max_attempts: u8,
    store: S,
    rate_limit_period: u64,
    rate_limit: i64,
}

impl<S: KeyValueStore> Shortener<S> {
    /// The configuration this shortener was built with.
    pub closed spec fn cfg(&self) -> ShortenerConfig {
        ShortenerConfig {
            id_length: self.id_length,
            id_alphabet: self.id_alphabet@,
            max_attempts: self.id_generation_max_attempts,
            rate_limit_period: self.rate_limit_period,
            rate_limit: self.rate_limit,
        }
    }

    /// The abstract state of the backing store.
    pub closed spec fn store_model(&self) -> StoreModel {
        self.store.model()
    }

    /// Whether the backing store never fails.
    pub closed spec fn store_reliable(&self) -> bool {
        self.store.reliable()
    }

    /// Whether nothing on the way to the URL checks can fail: the store is
    /// reliable, at least one generation attempt is allowed, the identifier
    /// space is free, verification of `key` cannot fail, and the rate key
    /// cannot be mistaken for an identifier. Under this, `shorten`'s outcome
    /// is decided by the URL alone.
    pub open spec fn unobstructed(&self, key: Option<Seq<char>>) -> bool {
        &&& self.store_reliable()
        &&& self.cfg().max_attempts >= 1
        &&& id_space_free(self.store_model(), self.cfg().id_length, self.cfg().id_alphabet)
        &&& auth_succeeds(self.store_model(), key, self.cfg().rate_limit)
        &&& rate_key_outside_id_space(key, self.cfg().id_length, self.cfg().id_alphabet)
    }

    /// A workable configuration: a non-empty ASCII alphabet of at most 255
    /// symbols, and a positive identifier length.
    pub open spec fn wf(&self) -> bool {
        &&& 1 <= self.cfg().id_alphabet.len() <= 255
        &&& forall|i: int|
            0 <= i < self.cfg().id_alphabet.len() ==> (self.cfg().id_alphabet[i] as u32) < 128
        &&& self.cfg().id_length >= 1
    }

    /// Creates a new shortener over the given store.
    ///
    /// `id_length` is the length of every generated identifier,
    /// `id_alphabet` the symbols it is drawn from (duplicates allowed, to
    /// bias the distribution), `id_generation_max_attempts` the number of
    /// draws before a collision is given up on, `rate_limit_period` the
    /// rate-limiting window in seconds, and `rate_limit` the number of calls
    /// allowed per window (a non-positive value disables rate limiting).
    pub fn new(
        id_length: usize,
        id_alphabet: Vec<char>,
        id_generation_max_attempts: u8,
        store: S,
        rate_limit_period: u64,
        rate_limit: i64,
    ) -> (s: Shortener<S>)
        requires
            1 <= id_alphabet@.len() <= 255,
            forall|i: int| 0 <= i < id_alphabet@.len() ==> (id_alphabet@[i] as u32) < 128,
            id_length >= 1,
        ensures
            s.wf(),
            s.cfg() == (ShortenerConfig {
                id_length,
                id_alphabet: id_alphabet@,
                max_attempts: id_generation_max_attempts,
                rate_limit_period,
                rate_limit,
            }),
            s.store_model() == store.model(),
            s.store_reliable() == store.reliable(),
    {
        Shortener { id_length, id_alphabet, id_generation_max_attempts, store, rate_limit_period, rate_limit }
    }

    /// Looks a URL up by identifier. A miss and a store failure both answer
    /// `None`: for a redirect there is nothing else to do with either.
    pub fn lookup(&mut self, id: &str) -> (r: Option<String>)
        ensures
            final(self).cfg() == old(self).cfg(),
            final(self).store_model() == old(self).store_model(),
            final(self).store_reliable() == old(self).store_reliable(),
            r matches Some(u) ==> old(self).store_model().data.contains_key(id@)
                && old(self).store_model().data[id@] == Entry::Text(u@),
            old(self).store_reliable() ==> r.deep_view() == spec_lookup(
                old(self).store_model(),
                id@,
            ),
    {
        match self.store.get_string(id) {
            Ok(Some(u)) => Some(u),
            Ok(None) => None,
            Err(_) => None,
        }
    }

    /// Verifies an API key and counts the call against its rate window.
    ///
    /// The flag at `API_KEY_<key>` must be true; with rate limiting enabled,
    /// the counter at `RATE_API_KEY_<key>` is incremented, its window's
    /// time-to-live is set exactly when this call created the counter, and a
    /// post-increment value above the limit fails the call. Store failures
    /// on this path read as an invalid key.
    fn verify_api_key(&mut self, api_key: &str) -> (r: Result<(), ShortenerError>)
        requires
            old(self).wf(),
        ensures
            final(self).cfg() == old(self).cfg(),
            final(self).store_reliable() == old(self).store_reliable(),
            r is Ok ==> auth_transition(
                old(self).store_model(),
                final(self).store_model(),
                Some(api_key@),
                old(self).cfg().rate_limit_period,
                old(self).cfg().rate_limit,
            ),
            r is Ok ==> forall|q: Seq<char>|
                #[trigger] final(self).store_model().data.contains_key(q) ==> old(
                    self,
                ).store_model().data.contains_key(q) || q == api_rate_key(api_key@),
            r matches Err(e) ==> {
                &&& e.kind == ErrorKind::InvalidApiKey || e.kind == ErrorKind::RateLimitExceeded
                &&& e.kind == ErrorKind::RateLimitExceeded ==> {
                    &&& flag_valid(old(self).store_model(), api_key@)
                    &&& old(self).cfg().rate_limit > 0
                    &&& e.cause is None
                    &&& exists|n: i64|
                        #[trigger] rate_step(
                            old(self).store_model(),
                            final(self).store_model(),
                            api_key@,
                            old(self).cfg().rate_limit_period,
                            n,
                        ) && n > old(self).cfg().rate_limit
                }
                &&& e.kind == ErrorKind::InvalidApiKey ==> {
                    &&& (e.cause is None ==> !flag_valid(old(self).store_model(), api_key@)
                        && final(self).store_model() == old(self).store_model())
                    &&& (e.cause is Some ==> final(self).store_model() == old(self).store_model()
                        || (!old(self).store_model().data.contains_key(api_rate_key(api_key@))
                            && final(self).store_model().data == old(
                            self,
                        ).store_model().data.insert(api_rate_key(api_key@), Entry::Counter(1))
                            && final(self).store_model().ttls == old(self).store_model().ttls))
                }
            },
            old(self).store_reliable() ==> {
                &&& !flag_valid(old(self).store_model(), api_key@) ==> (r matches Err(e)
                    && e.kind == ErrorKind::InvalidApiKey && e.cause is None)
                &&& (r matches Err(e) && e.kind == ErrorKind::InvalidApiKey
                    ==> final(self).store_model() == old(self).store_model())
                &&& flag_valid(old(self).store_model(), api_key@) && old(self).cfg().rate_limit
                    <= 0 ==> r is Ok
                &&& flag_valid(old(self).store_model(), api_key@) && old(self).cfg().rate_limit > 0
                    && counter_slot_free(old(self).store_model(), api_rate_key(api_key@)) ==> {
                    if counter_value(old(self).store_model(), api_rate_key(api_key@)) >= old(
                        self,
                    ).cfg().rate_limit {
                        r matches Err(e) && e.kind == ErrorKind::RateLimitExceeded
                    } else {
                        r is Ok
                    }
                }
            },
    {
        let flag_key = String::from_str("API_KEY_").concat(api_key);
        let flag = match self.store.get_bool(flag_key.as_str()) {
            Ok(Some(b)) => b,
            Ok(None) => false,
            Err(err) => {
                return Err(ShortenerError::new_with_cause(ErrorKind::InvalidApiKey, err));
            },
        };
        if !flag {
            return Err(ShortenerError::new(ErrorKind::InvalidApiKey));
        }
        if self.rate_limit <= 0 {
            return Ok(());
        }
        let rate_key = String::from_str("RATE_API_KEY_").concat(api_key);
        let existed = match self.store.has_key(rate_key.as_str()) {
            Ok(b) => b,
            Err(err) => {
                return Err(ShortenerError::new_with_cause(ErrorKind::InvalidApiKey, err));
            },
        };
        let count = match self.store.increment(rate_key.as_str()) {
            Ok(n) => n,
            Err(err) => {
                return Err(ShortenerError::new_with_cause(ErrorKind::InvalidApiKey, err));
            },
        };
        if !existed {
            match self.store.expire(rate_key.as_str(), self.rate_limit_period) {
                Ok(()) => {},
                Err(err) => {
                    proof {
                        assert(count == 1);
                        assert(self.store_model().data == old(self).store_model().data.insert(
                            api_rate_key(api_key@),
                            Entry::Counter(1),
                        ));
                    }
                    return Err(ShortenerError::new_with_cause(ErrorKind::InvalidApiKey, err));
                },
            }
        }
        proof {
            assert(rate_step(
                old(self).store_model(),
                self.store_model(),
                api_key@,
                old(self).cfg().rate_limit_period,
                count,
            ));
        }
        if count > self.rate_limit {
            return Err(ShortenerError::new(ErrorKind::RateLimitExceeded));
        }
        proof {
            assert(keyed_auth_transition(
                old(self).store_model(),
                self.store_model(),
                api_key@,
                old(self).cfg().rate_limit_period,
                old(self).cfg().rate_limit,
            ));
        }
        Ok(())
    }

    /// Draws random identifiers until one is free in the store, up to the
    /// configured number of attempts. A store failure on the existence check
    /// counts the candidate as free (failing open favours availability).
    fn generate_id(&mut self) -> (r: Result<String, ShortenerError>)
        requires
            old(self).wf(),
        ensures
            final(self).cfg() == old(self).cfg(),
            final(self).store_model() == old(self).store_model(),
            final(self).store_reliable() == old(self).store_reliable(),
            r matches Ok(id) ==> {
                &&& id@.len() == old(self).cfg().id_length
                &&& forall|i: int|
                    0 <= i < id@.len() ==> old(self).cfg().id_alphabet.contains(id@[i])
                &&& old(self).cfg().max_attempts >= 1
                &&& old(self).store_reliable() ==> !old(self).store_model().data.contains_key(id@)
            },
            r matches Err(e) ==> e.kind == ErrorKind::IdGenerationExhausted && e.cause is None,
            old(self).store_reliable() && old(self).cfg().max_attempts >= 1 && id_space_free(
                old(self).store_model(),
                old(self).cfg().id_length,
                old(self).cfg().id_alphabet,
            ) ==> r is Ok,
    {
        let mut attempt: u8 = 0;
        while attempt < self.id_generation_max_attempts
            invariant
                self.wf(),
                self.cfg() == old(self).cfg(),
                self.store_model() == old(self).store_model(),
                self.store_reliable() == old(self).store_reliable(),
                old(self).store_reliable() && id_space_free(
                    old(self).store_model(),
                    old(self).cfg().id_length,
                    old(self).cfg().id_alphabet,
                ) ==> attempt == 0,
            decreases self.id_generation_max_attempts - attempt,
        {
            let id = random_id(self.id_length, &self.id_alphabet);
            let free = match self.store.has_key(id.as_str()) {
                Ok(b) => !b,
                Err(_) => true,
            };
            if free {
                return Ok(id);
            }
            proof {
                // with a reliable store and a free identifier space the
                // existence check cannot have answered true
                if old(self).store_reliable() && id_space_free(
                    old(self).store_model(),
                    old(self).cfg().id_length,
                    old(self).cfg().id_alphabet,
                ) {
                    assert(candidate_id(id@, old(self).cfg().id_length, old(self).cfg().id_alphabet));
                    assert(false);
                }
            }
            attempt = attempt + 1;
        }
        Err(ShortenerError::new(ErrorKind::IdGenerationExhausted))
    }

    /// Shortens a URL: verifies the API key if one is given, generates a
    /// free identifier, normalizes and parses the URL, refuses a link back
    /// into the requesting host, and stores the identifier.
    pub fn shorten(&mut self, api_key: &Option<&str>, host: Option<&str>, url: &str) -> (r: Result<
        ShortenerResult,
        ShortenerError,
    >)
        requires
            old(self).wf(),
        ensures
            final(self).cfg() == old(self).cfg(),
            final(self).store_reliable() == old(self).store_reliable(),
            r matches Ok(res) ==> {
                &&& res.url@ == normalized_url(url@)
                &&& res.id@.len() == old(self).cfg().id_length
                &&& forall|i: int|
                    0 <= i < res.id@.len() ==> old(self).cfg().id_alphabet.contains(res.id@[i])
                &&& url_host(normalized_url(url@)) matches Some(h) && (host matches Some(hh)
                    ==> h != Some(hh@))
                &&& exists|mid: StoreModel|
                    #[trigger] auth_transition(
                        old(self).store_model(),
                        mid,
                        key_view(*api_key),
                        old(self).cfg().rate_limit_period,
                        old(self).cfg().rate_limit,
                    ) && final(self).store_model().data == mid.data.insert(
                        res.id@,
                        Entry::Text(normalized_url(url@)),
                    ) && final(self).store_model().ttls == mid.ttls && (old(self).store_reliable()
                        ==> !mid.data.contains_key(res.id@))
                &&& final(self).store_model().data.contains_key(res.id@)
                &&& final(self).store_model().data[res.id@] == Entry::Text(res.url@)
            },
            r matches Err(e) ==> match e.kind {
                ErrorKind::InvalidApiKey => *api_key matches Some(k) && {
                    &&& (e.cause is None ==> !flag_valid(old(self).store_model(), k@)
                        && final(self).store_model() == old(self).store_model())
                    &&& (e.cause is Some ==> final(self).store_model() == old(self).store_model()
                        || (!old(self).store_model().data.contains_key(api_rate_key(k@))
                            && final(self).store_model().data == old(
                            self,
                        ).store_model().data.insert(api_rate_key(k@), Entry::Counter(1))
                            && final(self).store_model().ttls == old(self).store_model().ttls))
                },
                ErrorKind::RateLimitExceeded => *api_key matches Some(k) && {
                    &&& flag_valid(old(self).store_model(), k@)
                    &&& old(self).cfg().rate_limit > 0
                    &&& e.cause is None
                    &&& exists|n: i64|
                        #[trigger] rate_step(
                            old(self).store_model(),
                            final(self).store_model(),
                            k@,
                            old(self).cfg().rate_limit_period,
                            n,
                        ) && n > old(self).cfg().rate_limit
                },
                ErrorKind::IdGenerationExhausted => auth_transition(
                    old(self).store_model(),
                    final(self).store_model(),
                    key_view(*api_key),
                    old(self).cfg().rate_limit_period,
                    old(self).cfg().rate_limit,
                ) && e.cause is None,
                ErrorKind::InvalidUrl => auth_transition(
                    old(self).store_model(),
                    final(self).store_model(),
                    key_view(*api_key),
                    old(self).cfg().rate_limit_period,
                    old(self).cfg().rate_limit,
                ) && url_host(normalized_url(url@)) is None && e.cause is None,
                ErrorKind::LinkLoop => auth_transition(
                    old(self).store_model(),
                    final(self).store_model(),
                    key_view(*api_key),
                    old(self).cfg().rate_limit_period,
                    old(self).cfg().rate_limit,
                ) && (host matches Some(hh) && url_host(normalized_url(url@)) == Some(Some(hh@)))
                    && e.cause is None,
                ErrorKind::StorageError => auth_transition(
                    old(self).store_model(),
                    final(self).store_model(),
                    key_view(*api_key),
                    old(self).cfg().rate_limit_period,
                    old(self).cfg().rate_limit,
                ) && url_host(normalized_url(url@)) is Some && e.cause is Some,
            },
            old(self).store_reliable() ==> {
                &&& *api_key matches Some(k) ==> {
                    &&& !flag_valid(old(self).store_model(), k@) ==> (r matches Err(e) && e.kind
                        == ErrorKind::InvalidApiKey && e.cause is None)
                    &&& flag_valid(old(self).store_model(), k@) && old(self).cfg().rate_limit > 0
                        && counter_slot_free(old(self).store_model(), api_rate_key(k@))
                        && counter_value(old(self).store_model(), api_rate_key(k@)) >= old(
                        self,
                    ).cfg().rate_limit ==> (r matches Err(e) && e.kind
                        == ErrorKind::RateLimitExceeded)
                }
                &&& (r matches Err(e) && e.kind == ErrorKind::InvalidApiKey
                    ==> final(self).store_model() == old(self).store_model())
                &&& r matches Err(e) ==> e.kind != ErrorKind::StorageError
            },
            old(self).unobstructed(key_view(*api_key)) ==> {
                &&& url_host(normalized_url(url@)) is None ==> (r matches Err(e) && e.kind
                    == ErrorKind::InvalidUrl)
                &&& (url_host(normalized_url(url@)) matches Some(h) && (host matches Some(hh)
                    ==> h != Some(hh@))) ==> r is Ok
                &&& (host matches Some(hh) && url_host(normalized_url(url@)) == Some(Some(hh@)))
                    ==> (r matches Err(e) && e.kind == ErrorKind::LinkLoop)
            },
    {
        match api_key {
            Some(k) => {
                match self.verify_api_key(k) {
                    Ok(()) => {},
                    Err(e) => {
                        return Err(e);
                    },
                }
            },
            None => {},
        }
        let id = match self.generate_id() {
            Ok(id) => id,
            Err(e) => {
                proof {
                    // an unobstructed call cannot exhaust the identifier
                    // space: after the auth step it is still free
                    if old(self).unobstructed(key_view(*api_key)) {
                        assert forall|q: Seq<char>| #[trigger] self.store_model().data.contains_key(
                            q,
                        ) implies !candidate_id(
                            q,
                            old(self).cfg().id_length,
                            old(self).cfg().id_alphabet,
                        ) by {
                            if old(self).store_model().data.contains_key(q) {
                            } else {
                                match *api_key {
                                    Some(k) => {
                                        assert(q == api_rate_key(k@));
                                    },
                                    None => {},
                                }
                            }
                        }
                        assert(id_space_free(
                            self.store_model(),
                            old(self).cfg().id_length,
                            old(self).cfg().id_alphabet,
                        ));
                    }
                }
                return Err(e);
            },
        };
        let norm = normalize_url(url);
        let parsed = match parse_url_host(norm.as_str()) {
            Some(h) => h,
            None => {
                return Err(ShortenerError::new(ErrorKind::InvalidUrl));
            },
        };
        if is_link_loop(&parsed, &host) {
            return Err(ShortenerError::new(ErrorKind::LinkLoop));
        }
        let ghost mid = self.store_model();
        match self.store.set(id.as_str(), norm.as_str()) {
            Ok(()) => {
                proof {
                    assert(auth_transition(
                        old(self).store_model(),
                        mid,
                        key_view(*api_key),
                        old(self).cfg().rate_limit_period,
                        old(self).cfg().rate_limit,
                    ));
                }
                Ok(ShortenerResult { id, url: norm })
            },
            Err(err) => Err(ShortenerError::new_with_cause(ErrorKind::StorageError, err)),
        }
    }
}

} // verus!
