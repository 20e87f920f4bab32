//! Behaviour tests driven by a scripted store double: each store method
//! replays a queue of canned answers and panics on an unexpected or
//! exhausted call.

use shorty::ErrorKind;
use shorty::KeyValueStore;
use shorty::Shortener;
use shorty::StoreError;

pub struct StubRedisFacade {
    get_string_answers: Vec<Result<Option<String>, StoreError>>,
    get_bool_answers: Vec<Result<Option<bool>, StoreError>>,
    exists_answers: Vec<Result<bool, StoreError>>,
    set_answers: Vec<Result<(), StoreError>>,
    incr_answers: Vec<Result<i64, StoreError>>,
    expire_answers: Vec<Result<(), StoreError>>,
}

impl StubRedisFacade {
    fn new() -> Self {
        StubRedisFacade {
            get_string_answers: vec![],
            get_bool_answers: vec![],
            exists_answers: vec![],
            set_answers: vec![],
            incr_answers: vec![],
            expire_answers: vec![],
        }
    }
}

fn next_answer<T>(queue: &mut Vec<T>, method: &str) -> T {
    if queue.is_empty() {
        panic!("unexpected {} call", method);
    }
    queue.remove(0)
}

impl KeyValueStore for StubRedisFacade {
    // ghost-only items of the trait; never called at run time
    fn model(&self) -> shorty::StoreModel {
        unreachable!()
    }

    fn reliable(&self) -> bool {
        unreachable!()
    }

    fn get_string(&mut self, _key: &str) -> Result<Option<String>, StoreError> {
        next_answer(&mut self.get_string_answers, "get_string")
    }

    fn get_bool(&mut self, _key: &str) -> Result<Option<bool>, StoreError> {
        next_answer(&mut self.get_bool_answers, "get_bool")
    }

    fn has_key(&mut self, _key: &str) -> Result<bool, StoreError> {
        next_answer(&mut self.exists_answers, "exists")
    }

    fn increment(&mut self, _key: &str) -> Result<i64, StoreError> {
        next_answer(&mut self.incr_answers, "increment")
    }

    fn expire(&mut self, _key: &str, _seconds: u64) -> Result<(), StoreError> {
        next_answer(&mut self.expire_answers, "expire")
    }

    fn set(&mut self, _key: &str, _value: &str) -> Result<(), StoreError> {
        next_answer(&mut self.set_answers, "set")
    }
}

#[test]
fn test_lookup() {
    let mut redis = StubRedisFacade::new();
    redis.get_string_answers.push(Ok(Some(String::from("test url"))));

    let mut shortener = Shortener::new(10, vec!['a', 'b', 'c'], 10, redis, 600, 10);
    assert_eq!(shortener.lookup("id").unwrap(), "test url");
}

#[test]
fn test_shorten_happy_path_first_call() {
    let mut redis = StubRedisFacade::new();
    // api key verification
    redis.get_bool_answers.push(Ok(Some(true)));
    redis.exists_answers.push(Ok(false));
    redis.incr_answers.push(Ok(1));
    redis.expire_answers.push(Ok(()));

    // id generation
    redis.exists_answers.push(Ok(false));

    // shortened url storage
    redis.set_answers.push(Ok(()));

    let mut shortener = Shortener::new(10, vec!['a', 'b', 'c'], 10, redis, 600, 10);
    let shorten_result = shortener
        .shorten(&Some("api key"), Some("with.lv"), "example.com")
        .unwrap();
    assert_eq!(10, shorten_result.id.len());
    assert_eq!("http://example.com", shorten_result.url);
}

#[test]
fn test_shorten_happy_path_no_rate_limit() {
    let mut redis = StubRedisFacade::new();
    // api key verification
    redis.get_bool_answers.push(Ok(Some(true)));

    // id generation
    redis.exists_answers.push(Ok(false));

    // shortened url storage
    redis.set_answers.push(Ok(()));

    let mut shortener = Shortener::new(10, vec!['a', 'b', 'c'], 10, redis, 600, -1);
    let shorten_result = shortener
        .shorten(&Some("api key"), Some("with.lv"), "example.com")
        .unwrap();
    assert_eq!(10, shorten_result.id.len());
    assert_eq!("http://example.com", shorten_result.url);
}

#[test]
fn test_shorten_happy_path_second_call() {
    let mut redis = StubRedisFacade::new();
    // api key verification
    redis.get_bool_answers.push(Ok(Some(true)));
    redis.exists_answers.push(Ok(true));
    redis.incr_answers.push(Ok(2));

    // id generation
    redis.exists_answers.push(Ok(false));

    // shortened url storage
    redis.set_answers.push(Ok(()));

    let mut shortener = Shortener::new(10, vec!['a', 'b', 'c'], 10, redis, 600, 10);
    let shorten_result = shortener
        .shorten(&Some("api key"), Some("with.lv"), "example.com")
        .unwrap();
    assert_eq!(10, shorten_result.id.len());
    assert_eq!("http://example.com", shorten_result.url);
}

#[test]
fn test_shorten_happy_path_no_api_key() {
    let mut redis = StubRedisFacade::new();
    // id generation
    redis.exists_answers.push(Ok(false));

    // shortened url storage
    redis.set_answers.push(Ok(()));

    let mut shortener = Shortener::new(10, vec!['a', 'b', 'c'], 10, redis, 600, 10);
    let shorten_result = shortener.shorten(&None, Some("with.lv"), "example.com").unwrap();
    assert_eq!(10, shorten_result.id.len());
    assert_eq!("http://example.com", shorten_result.url);
}

#[test]
fn test_shorten_unhappy_path_rate_limit_exceeded() {
    let rate_limit = 10;
    let mut redis = StubRedisFacade::new();
    // api key verification
    redis.get_bool_answers.push(Ok(Some(true)));
    redis.exists_answers.push(Ok(true));
    redis.incr_answers.push(Ok(rate_limit + 1));

    let mut shortener = Shortener::new(10, vec!['a', 'b', 'c'], 10, redis, 600, rate_limit);
    let shorten_result_err = shortener
        .shorten(&Some("api key"), Some("with.lv"), "example.com")
        .err()
        .unwrap();
    assert_eq!("Rate limit exceeded", shorten_result_err.message());
}

#[test]
fn test_shorten_unhappy_path_bad_url() {
    let mut redis = StubRedisFacade::new();
    // id generation
    redis.exists_answers.push(Ok(false));

    let mut shortener = Shortener::new(10, vec!['a', 'b', 'c'], 10, redis, 600, -1);
    let shorten_result_err = shortener
        .shorten(&None, Some("with.lv"), "wrong domain.com")
        .err()
        .unwrap();
    assert_eq!("Unable to parse url", shorten_result_err.message());
}

#[test]
fn test_shorten_unhappy_path_same_domain() {
    let mut redis = StubRedisFacade::new();
    // id generation
    redis.exists_answers.push(Ok(false));

    let mut shortener = Shortener::new(10, vec!['a', 'b', 'c'], 10, redis, 600, -1);
    let shorten_result_err = shortener
        .shorten(&None, Some("example.com"), "example.com")
        .err()
        .unwrap();
    assert_eq!("Link loop is not allowed", shorten_result_err.message());
}

#[test]
fn test_shorten_happy_path_rate_limit_expired() {
    let mut redis = StubRedisFacade::new();

    // api key verification
    redis.get_bool_answers.push(Ok(Some(true)));
    redis.exists_answers.push(Ok(true));
    redis.incr_answers.push(Ok(1));

    // id generation
    redis.exists_answers.push(Ok(false));

    // shortened url storage
    redis.set_answers.push(Ok(()));

    // api key verification
    redis.get_bool_answers.push(Ok(Some(true)));
    redis.exists_answers.push(Ok(false));
    redis.incr_answers.push(Ok(1));
    redis.expire_answers.push(Ok(()));

    // id generation
    redis.exists_answers.push(Ok(false));

    // shortened url storage
    redis.set_answers.push(Ok(()));

    let mut shortener = Shortener::new(10, vec!['a', 'b', 'c'], 10, redis, 600, 10);

    let shorten_result = shortener
        .shorten(&Some("api key"), Some("with.lv"), "example.com")
        .unwrap();
    assert_eq!(10, shorten_result.id.len());
    assert_eq!("http://example.com", shorten_result.url);

    let shorten_result = shortener
        .shorten(&Some("api key"), Some("with.lv"), "www.wikipedia.org")
        .unwrap();
    assert_eq!(10, shorten_result.id.len());
    assert_eq!("http://www.wikipedia.org", shorten_result.url);
}

#[test]
fn test_shorten_unhappy_path_invalid_api_key() {
    let mut redis = StubRedisFacade::new();

    // api key verification
    redis.get_bool_answers.push(Ok(Some(false)));

    let mut shortener = Shortener::new(10, vec!['a', 'b', 'c'], 10, redis, 600, 10);
    let shorten_result_err = shortener
        .shorten(&Some("api key"), Some("with.lv"), "example.com")
        .err()
        .unwrap();
    assert_eq!("Invalid API key", shorten_result_err.message());
}

#[test]
fn test_shorten_unhappy_path_too_many_attempts_generating_id() {
    let mut redis = StubRedisFacade::new();

    // id generation attempts
    redis.exists_answers.push(Ok(true));
    redis.exists_answers.push(Ok(true));

    let mut shortener = Shortener::new(10, vec!['a', 'b', 'c'], 2, redis, 600, 10);
    let shorten_result_err = shortener
        .shorten(&None, Some("with.lv"), "example.com")
        .err()
        .unwrap();
    assert_eq!(
        "Failed to generate an ID: too many attempts. Consider using a longer ID",
        shorten_result_err.message()
    );
}

#[test]
fn invalid_api_key_when_flag_is_absent() {
    let mut redis = StubRedisFacade::new();
    redis.get_bool_answers.push(Ok(None));

    let mut shortener = Shortener::new(10, vec!['a', 'b', 'c'], 10, redis, 600, 10);
    let err = shortener
        .shorten(&Some("bad-key"), Some("with.lv"), "example.com")
        .err()
        .unwrap();
    assert_eq!(ErrorKind::InvalidApiKey, err.kind);
    assert_eq!(None, err.cause);
}

#[test]
fn invalid_api_key_on_store_failure() {
    let mut redis = StubRedisFacade::new();
    redis.get_bool_answers.push(Err(StoreError::Unavailable));

    let mut shortener = Shortener::new(10, vec!['a', 'b', 'c'], 10, redis, 600, 10);
    let err = shortener
        .shorten(&Some("api key"), Some("with.lv"), "example.com")
        .err()
        .unwrap();
    assert_eq!(ErrorKind::InvalidApiKey, err.kind);
    assert_eq!(Some(StoreError::Unavailable), err.cause);
    assert_eq!("Invalid API key", err.message());
}

#[test]
fn storage_error_when_the_final_write_fails() {
    let mut redis = StubRedisFacade::new();
    redis.exists_answers.push(Ok(false));
    redis.set_answers.push(Err(StoreError::Unavailable));

    let mut shortener = Shortener::new(10, vec!['a', 'b', 'c'], 10, redis, 600, -1);
    let err = shortener.shorten(&None, Some("with.lv"), "example.com").err().unwrap();
    assert_eq!(ErrorKind::StorageError, err.kind);
    assert_eq!(Some(StoreError::Unavailable), err.cause);
    assert_eq!("Redis error", err.message());
}

#[test]
fn id_generation_failing_open_on_store_failure() {
    let mut redis = StubRedisFacade::new();
    // the existence check fails; the candidate counts as free
    redis.exists_answers.push(Err(StoreError::Unavailable));
    redis.set_answers.push(Ok(()));

    let mut shortener = Shortener::new(10, vec!['a', 'b', 'c'], 10, redis, 600, -1);
    let shorten_result = shortener.shorten(&None, Some("with.lv"), "example.com").unwrap();
    assert_eq!(10, shorten_result.id.len());
    assert_eq!("http://example.com", shorten_result.url);
}

#[test]
fn no_api_key_checks_without_an_api_key() {
    // only id-generation and storage answers are queued: any API-key or
    // rate-limit call would panic the double
    let mut redis = StubRedisFacade::new();
    redis.exists_answers.push(Ok(false));
    redis.set_answers.push(Ok(()));

    let mut shortener = Shortener::new(10, vec!['a', 'b', 'c'], 10, redis, 600, 10);
    let shorten_result = shortener.shorten(&None, Some("with.lv"), "example.com").unwrap();
    assert_eq!("http://example.com", shorten_result.url);
}

#[test]
fn expiry_is_not_set_again_within_a_window() {
    // the rate key already exists: no expire answer is queued, so an expire
    // call would panic the double
    let mut redis = StubRedisFacade::new();
    redis.get_bool_answers.push(Ok(Some(true)));
    redis.exists_answers.push(Ok(true));
    redis.incr_answers.push(Ok(5));
    redis.exists_answers.push(Ok(false));
    redis.set_answers.push(Ok(()));

    let mut shortener = Shortener::new(10, vec!['a', 'b', 'c'], 10, redis, 600, 10);
    let shorten_result = shortener
        .shorten(&Some("api key"), Some("with.lv"), "example.com")
        .unwrap();
    assert_eq!("http://example.com", shorten_result.url);
}
