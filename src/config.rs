//! Process configuration, from values read out of the environment.

use vstd::prelude::*;
use crate::domain::hash;

verus! {

/// The single administrator's credentials as configured.
#[derive(Clone, Debug)]
pub struct CredentialsConfig {
    pub username: String,
    pub password: String,
}

/// Paths of the certificate and key files that switch TLS on.
#[derive(Clone, Debug)]
pub struct Tls {
    pub cert: String,
    pub key: String,
}

/// Everything the server needs to start.
#[derive(Clone, Debug)]
pub struct Config {
    pub host: String,
    pub port: u16,
    pub workers: usize,
    pub tls: Option<Tls>,
    pub credentials: CredentialsConfig,
}

/// The configured credential that sessions are checked against.
pub struct CredentialsProvider {
    pub username: String,
    pub hashed_password: hash::Hash,
}

/// Port used when none is configured.
pub const DEFAULT_PORT: u16 = 8080;

/// The value of a string of decimal digits.
pub open spec fn digits_value(s: Seq<char>) -> int
    decreases s.len(),
{
    if s.len() == 0 {
        0
    } else {
        digits_value(s.drop_last()) * 10 + (s.last() as int - '0' as int)
    }
}

/// A non-empty string of decimal digits.
pub open spec fn all_digits(s: Seq<char>) -> bool {
    s.len() > 0 && forall|i: int| 0 <= i < s.len() ==> '0' <= #[trigger] s[i] && s[i] <= '9'
}

/// The digits of a port setting: the text after an optional leading `+`.
pub open spec fn port_digits(s: Seq<char>) -> Seq<char> {
    if s.len() > 0 && s[0] == '+' {
        s.drop_first()
    } else {
        s
    }
}

/// The port a text names: decimal digits, optionally after a `+`, with a
/// value that fits in 16 bits.
pub open spec fn port_of(s: Seq<char>) -> Option<u16> {
    let digits = port_digits(s);
    if all_digits(digits) && digits_value(digits) <= u16::MAX {
        Some(digits_value(digits) as u16)
    } else {
        None
    }
}

/// Reads a port number.
pub fn parse_port(text: &str) -> (r: Option<u16>)
    ensures
        r == port_of(text@),
{
    let len = text.unicode_len();
    let mut start: usize = 0;
    if len > 0 && text.get_char(0) == '+' {
        start = 1;
    }
    let ghost digits = port_digits(text@);
    assert(digits =~= text@.skip(start as int));
    if start == len {
        return None;
    }
    let mut value: u32 = 0;
    let mut i: usize = start;
    while i < len
        invariant
            len == text@.len(),
            start <= i <= len,
            digits =~= text@.skip(start as int),
            digits == port_digits(text@),
            forall|j: int| start <= j < i ==> '0' <= #[trigger] text@[j] && text@[j] <= '9',
            value == digits_value(text@.subrange(start as int, i as int)),
            value <= u16::MAX,
        decreases len - i,
    {
        let c = text.get_char(i);
        assert(text@.subrange(start as int, i + 1).drop_last() =~= text@.subrange(
            start as int,
            i as int,
        ));
        if c < '0' || c > '9' {
            assert(digits[i - start] == c);
            assert(!all_digits(digits));
            return None;
        }
        let d = (c as u32) - ('0' as u32);
        let next = value * 10 + d;
        if next > 65535 {
            proof {
                if all_digits(digits) {
                    lemma_digits_value_grows(digits, (i - start + 1) as int);
                    assert(digits.take(i - start + 1) =~= text@.subrange(start as int, i + 1));
                }
            }
            return None;
        }
        value = next;
        i = i + 1;
    }
    assert(text@.subrange(start as int, len as int) =~= digits);
    Some(value as u16)
}

/// The value of all the digits is at least that of any leading part.
proof fn lemma_digits_value_grows(s: Seq<char>, k: int)
    requires
        all_digits(s),
        0 <= k <= s.len(),
    ensures
        digits_value(s) >= digits_value(s.take(k)),
    decreases s.len(),
{
    if k < s.len() {
        assert(s.drop_last().len() > 0 || k == 0);
        if s.drop_last().len() > 0 {
            lemma_digits_value_grows(s.drop_last(), k);
            assert(s.drop_last().take(k) =~= s.take(k));
        } else {
            assert(s.take(0) =~= Seq::<char>::empty());
        }
        lemma_digits_value_nonneg(s.drop_last());
    } else {
        assert(s.take(k) =~= s);
    }
}

proof fn lemma_digits_value_nonneg(s: Seq<char>)
    requires
        forall|i: int| 0 <= i < s.len() ==> '0' <= #[trigger] s[i] && s[i] <= '9',
    ensures
        digits_value(s) >= 0,
    decreases s.len(),
{
    if s.len() > 0 {
        lemma_digits_value_nonneg(s.drop_last());
    }
}

/// The value a setting takes: the one given, or the default.
pub open spec fn or_default(v: Option<String>, default: Seq<char>) -> Seq<char> {
    match v {
        Some(s) => s@,
        None => default,
    }
}

fn given_or(v: Option<String>, default: &str) -> (r: String)
    ensures
        r@ == or_default(v, default@),
{
    match v {
        Some(s) => s,
        None => String::from_str(default),
    }
}

impl Config {
    /// Builds the configuration from the settings found: `HOST` defaults to
    /// `localhost`, `PORT` to 8080, `USERNAME` and `PASSWORD` to `admin`;
    /// TLS is on when both certificate and key are given. Fails when `PORT`
    /// is not a port number.
    pub fn from_values(
        host: Option<String>,
        port: Option<String>,
        workers: usize,
        tls_cert: Option<String>,
        tls_key: Option<String>,
        username: Option<String>,
        password: Option<String>,
    ) -> (r: Result<Config, String>)
        ensures
            match r {
                Ok(c) => {
                    &&& c.host@ == or_default(host, "localhost"@)
                    &&& match port {
                        Some(p) => port_of(p@) == Some(c.port),
                        None => c.port == DEFAULT_PORT,
                    }
                    &&& c.workers == workers
                    &&& (c.tls is Some <==> tls_cert is Some && tls_key is Some)
                    &&& (c.tls matches Some(t) ==> tls_cert matches Some(cert) && tls_key matches Some(key)
                        && t.cert@ == cert@ && t.key@ == key@)
                    &&& c.credentials.username@ == or_default(username, "admin"@)
                    &&& c.credentials.password@ == or_default(password, "admin"@)
                },
                Err(m) => port matches Some(p) && port_of(p@) is None && m@ == "PORT is not a port number"@,
            },
    {
        let port_number = match &port {
            Some(p) => match parse_port(p.as_str()) {
                Some(n) => n,
                None => {
                    return Err(String::from_str("PORT is not a port number"));
                },
            },
            None => DEFAULT_PORT,
        };
        let tls = match (tls_cert, tls_key) {
            (Some(cert), Some(key)) => Some(Tls { cert, key }),
            _ => None,
        };
        let credentials = CredentialsConfig {
            username: given_or(username, "admin"),
            password: given_or(password, "admin"),
        };
        Ok(Config { host: given_or(host, "localhost"), port: port_number, workers, tls, credentials })
    }
}

} // verus!
