//! The configuration surface of the service.
//!
//! Loading values from the process environment is the embedding program's
//! business; this module holds the configuration record itself and its
//! defaults.

use vstd::prelude::*;

verus! {

/// The configuration of the service: where the store and the listener live,
/// and the shortening parameters handed to the core.
#[derive(Debug, Clone)]
pub struct Config {
    pub redis_host: String,
    pub redis_port: String,
    pub rate_limit_period: usize,
    pub rate_limit: i64,
    pub id_length: usize,
    pub id_alphabet: Vec<char>,
    pub id_generation_max_attempts: u8,
    pub api_key_mandatory: bool,
    pub host: String,
    pub port: String,
}

/// The default identifier alphabet: the 62 characters `a-z`, `A-Z`, `0-9`,
/// in that order.
pub fn default_id_alphabet() -> (r: Vec<char>)
    ensures
        r@.len() == 62,
        forall|i: int| 0 <= i < 26 ==> r@[i] == (((97 + i) as u8) as char),
        forall|i: int| 26 <= i < 52 ==> r@[i] == (((65 + (i - 26)) as u8) as char),
        forall|i: int| 52 <= i < 62 ==> r@[i] == (((48 + (i - 52)) as u8) as char),
        forall|i: int| 0 <= i < r@.len() ==> (r@[i] as u32) < 128,
{
    let mut r: Vec<char> = Vec::new();
    let mut b: u8 = 97;
    while b <= 122
        invariant
            97 <= b <= 123,
            r@.len() == b - 97,
            forall|i: int| 0 <= i < r@.len() ==> r@[i] == (((97 + i) as u8) as char),
            forall|i: int| 0 <= i < r@.len() ==> (r@[i] as u32) < 128,
        decreases 123 - b,
    {
        r.push(b as char);
        b = b + 1;
    }
    let mut c: u8 = 65;
    while c <= 90
        invariant
            65 <= c <= 91,
            r@.len() == 26 + (c - 65),
            forall|i: int| 0 <= i < 26 ==> r@[i] == (((97 + i) as u8) as char),
            forall|i: int| 26 <= i < r@.len() ==> r@[i] == (((65 + (i - 26)) as u8) as char),
            forall|i: int| 0 <= i < r@.len() ==> (r@[i] as u32) < 128,
        decreases 91 - c,
    {
        r.push(c as char);
        c = c + 1;
    }
    let mut d: u8 = 48;
    while d <= 57
        invariant
            48 <= d <= 58,
            r@.len() == 52 + (d - 48),
            forall|i: int| 0 <= i < 26 ==> r@[i] == (((97 + i) as u8) as char),
            forall|i: int| 26 <= i < 52 ==> r@[i] == (((65 + (i - 26)) as u8) as char),
            forall|i: int| 52 <= i < r@.len() ==> r@[i] == (((48 + (i - 52)) as u8) as char),
            forall|i: int| 0 <= i < r@.len() ==> (r@[i] as u32) < 128,
        decreases 58 - d,
    {
        r.push(d as char);
        d = d + 1;
    }
    r
}

impl Default for Config {
    /// The defaults: a local store and listener, a 600 second rate window of
    /// 10 calls, identifiers of 10 characters over the 62-character
    /// alphanumeric alphabet, 10 generation attempts, and a mandatory API
    /// key.
    fn default() -> (c: Config)
        ensures
            c.redis_host@ == "127.0.0.1"@,
            c.redis_port@ == "6379"@,
            c.rate_limit_period == 600,
            c.rate_limit == 10,
            c.id_length == 10,
            c.id_alphabet@.len() == 62,
            forall|i: int| 0 <= i < c.id_alphabet@.len() ==> (c.id_alphabet@[i] as u32) < 128,
            c.id_generation_max_attempts == 10,
            c.api_key_mandatory == true,
            c.host@ == "127.0.0.1"@,
            c.port@ == "8088"@,
    {
        Config {
            redis_host: "127.0.0.1".to_owned(),
            redis_port: "6379".to_owned(),
            rate_limit_period: 600,
            rate_limit: 10,
            id_length: 10,
            id_alphabet: default_id_alphabet(),
            id_generation_max_attempts: 10,
            api_key_mandatory: true,
            host: "127.0.0.1".to_owned(),
            port: "8088".to_owned(),
        }
    }
}

} // verus!
