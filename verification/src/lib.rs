//! Shorty: a verified URL-shortening core.
//!
//! The library assigns short identifiers to URLs and resolves them back,
//! with API-key gated rate limiting, URL normalization and loop prevention.
//! The backing key-value store is reached through the [`store::KeyValueStore`]
//! trait; [`memory_store::MemoryStore`] is an in-memory implementation.

mod config;
mod errors;
mod memory_store;
mod request;
mod shortener;
mod store;
mod urls;

pub use config::Config;
pub use config::default_id_alphabet;
pub use errors::ErrorKind;
pub use errors::ShortenerError;
pub use errors::StoreError;
pub use errors::message_of;
pub use memory_store::MemoryStore;
pub use request::ShortenRequest;
pub use shortener::Shortener;
pub use shortener::ShortenerConfig;
pub use shortener::ShortenerResult;
pub use shortener::api_flag_key;
pub use shortener::api_rate_key;
pub use shortener::auth_succeeds;
pub use shortener::auth_transition;
pub use shortener::candidate_id;
pub use shortener::counter_after;
pub use shortener::counter_value;
pub use shortener::flag_valid;
pub use shortener::id_space_free;
pub use shortener::key_view;
pub use shortener::keyed_auth_transition;
pub use shortener::lemma_lookup_after_shorten;
pub use shortener::lemma_ttl_set_only_at_window_creation;
pub use shortener::rate_incremented;
pub use shortener::rate_key_outside_id_space;
pub use shortener::rate_step;
pub use shortener::spec_lookup;
pub use store::Entry;
pub use store::KeyValueStore;
pub use store::StoreModel;
pub use store::StoreValue;
pub use store::counter_slot_free;
pub use urls::has_http_prefix;
pub use urls::host_view;
pub use urls::is_link_loop;
pub use urls::lemma_normalized_url_idempotent;
pub use urls::lemma_normalized_url_prefixes_scheme;
pub use urls::normalize_url;
pub use urls::normalized_url;
pub use urls::parse_url_host;
pub use urls::url_host;
