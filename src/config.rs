//! Service configuration, built from optional settings with defaults.

use vstd::prelude::*;

use crate::text::{decimal, to_decimal};

verus! {

/// The value of the ASCII decimal digit `c`.
pub open spec fn digit_value(c: char) -> nat {
    (c as u32 - '0' as u32) as nat
}

/// `s` is one or more ASCII decimal digits.
pub open spec fn is_digits(s: Seq<char>) -> bool {
    s.len() > 0 && forall|i: int| 0 <= i < s.len() ==> '0' <= #[trigger] s[i] <= '9'
}

/// The number the decimal digits `s` stand for.
pub open spec fn digits_value(s: Seq<char>) -> nat
    decreases s.len(),
{
    if s.len() == 0 {
        0
    } else {
        digits_value(s.drop_last()) * 10 + digit_value(s.last())
    }
}

/// What `s` reads as an unsigned integer of at most `max`, as `str::parse`
/// reads it: an optional `+`, then one or more decimal digits.
pub open spec fn unsigned_of(s: Seq<char>, max: nat) -> Option<nat> {
    let d = if s.len() > 0 && s[0] == '+' {
        s.skip(1)
    } else {
        s
    };
    if is_digits(d) && digits_value(d) <= max {
        Some(digits_value(d))
    } else {
        None
    }
}

/// Reads `s` as an unsigned integer of at most `max`.
pub fn parse_unsigned(s: &str, max: u32) -> (r: Option<u32>)
    ensures
        match unsigned_of(s@, max as nat) {
            Some(v) => r == Some(v as u32),
            None => r is None,
        },
{
    let n = s.unicode_len();
    let start: usize = if n > 0 && s.get_char(0) == '+' {
        1
    } else {
        0
    };
    let ghost d = if s@.len() > 0 && s@[0] == '+' {
        s@.skip(1)
    } else {
        s@
    };
    if start == n {
        return None;
    }
    let mut value: u64 = 0;
    let mut i: usize = start;
    while i < n
        invariant
            n == s@.len(),
            start <= i <= n,
            start < n,
            d == s@.subrange(start as int, n as int),
            d == (if s@.len() > 0 && s@[0] == '+' {
                s@.skip(1)
            } else {
                s@
            }),
            value == digits_value(d.take(i - start)),
            value <= max,
            forall|k: int| 0 <= k < i - start ==> '0' <= #[trigger] d[k] <= '9',
        decreases n - i,
    {
        let c = s.get_char(i);
        if !('0' <= c && c <= '9') {
            proof {
                assert(d[i - start] == c);
                assert(!is_digits(d));
            }
            return None;
        }
        let digit = (c as u32 - '0' as u32) as u64;
        let next = value * 10 + digit;
        proof {
            let t = d.take(i - start + 1);
            assert(t.drop_last() =~= d.take(i - start));
            assert(t.last() == c);
            assert(digits_value(t) == next);
        }
        if next > max as u64 {
            proof {
                lemma_digits_value_grows(d, (i - start + 1) as int);
                assert(digits_value(d) > max || !is_digits(d));
            }
            return None;
        }
        value = next;
        i = i + 1;
    }
    proof {
        assert(d.take(n - start) =~= d);
    }
    Some(value as u32)
}

proof fn lemma_digits_value_grows(d: Seq<char>, k: int)
    requires
        0 <= k <= d.len(),
        forall|i: int| 0 <= i < d.len() ==> '0' <= #[trigger] d[i] <= '9' || i >= k,
    ensures
        digits_value(d.take(k)) <= digits_value(d) || !is_digits(d),
    decreases d.len() - k,
{
    if k < d.len() && is_digits(d) {
        let t1 = d.take(k + 1);
        assert(t1.drop_last() =~= d.take(k));
        lemma_digits_value_grows(d, k + 1);
    } else if k == d.len() {
        assert(d.take(k) =~= d);
    }
}

/// Database settings.
#[derive(Debug, Clone)]
pub struct DatabaseConfig {
    /// Connection URL.
    pub url: String,
    /// Largest number of pooled connections.
    pub max_connections: u32,
}

/// Pool size used when none, or none readable, is configured.
pub const DEFAULT_MAX_CONNECTIONS: u32 = 5;

impl DatabaseConfig {
    /// Settings from the URL and the configured pool size, if any; a missing
    /// or unreadable pool size falls back to `DEFAULT_MAX_CONNECTIONS`.
    pub fn from_settings(url: String, max_connections: Option<String>) -> (r: DatabaseConfig)
        ensures
            r.url == url,
            r.max_connections == match max_connections {
                Some(s) => match unsigned_of(s@, u32::MAX as nat) {
                    Some(v) => v,
                    None => DEFAULT_MAX_CONNECTIONS as nat,
                },
                None => DEFAULT_MAX_CONNECTIONS as nat,
            },
    {
        let max_connections = match &max_connections {
            Some(s) => match parse_unsigned(s.as_str(), u32::MAX) {
                Some(v) => v,
                None => DEFAULT_MAX_CONNECTIONS,
            },
            None => DEFAULT_MAX_CONNECTIONS,
        };
        DatabaseConfig { url, max_connections }
    }
}

/// Server settings.
#[derive(Debug, Clone)]
pub struct ServerConfig {
    /// Host to bind.
    pub host: String,
    /// Port to bind.
    pub port: u16,
}

/// Port used when none, or none readable, is configured.
pub const DEFAULT_PORT: u16 = 3000;

impl ServerConfig {
    /// Settings from the configured host and port, if any: host `0.0.0.0`
    /// and port `DEFAULT_PORT` by default, the default port also for one
    /// that does not read as a `u16`.
    pub fn from_settings(host: Option<String>, port: Option<String>) -> (r: ServerConfig)
        ensures
            r.host@ == match host {
                Some(h) => h@,
                None => "0.0.0.0"@,
            },
            r.port == match port {
                Some(p) => match unsigned_of(p@, u16::MAX as nat) {
                    Some(v) => v,
                    None => DEFAULT_PORT as nat,
                },
                None => DEFAULT_PORT as nat,
            },
    {
        let host = match host {
            Some(h) => h,
            None => String::from_str("0.0.0.0"),
        };
        let port = match &port {
            Some(p) => match parse_unsigned(p.as_str(), u16::MAX as u32) {
                Some(v) => v as u16,
                None => DEFAULT_PORT,
            },
            None => DEFAULT_PORT,
        };
        ServerConfig { host, port }
    }

    /// `host:port`.
    pub fn address(&self) -> (r: String)
        ensures
            r@ == self.host@ + ":"@ + decimal(self.port as nat),
    {
        let port = to_decimal(self.port as u64);
        self.host.clone().concat(":").concat(port.as_str())
    }
}

/// Settings of the whole service.
#[derive(Debug, Clone)]
pub struct AppConfig {
    pub database: DatabaseConfig,
    pub server: ServerConfig,
    /// Deployment environment, such as `development` or `production`.
    pub environment: String,
}

impl AppConfig {
    /// Settings from their parts; the environment is `development` unless
    /// one is configured.
    pub fn from_settings(
        database: DatabaseConfig,
        server: ServerConfig,
        environment: Option<String>,
    ) -> (r: AppConfig)
        ensures
            r.environment@ == match environment {
                Some(e) => e@,
                None => "development"@,
            },
    {
        let environment = match environment {
            Some(e) => e,
            None => String::from_str("development"),
        };
        AppConfig { database, server, environment }
    }

    /// Whether the environment is `development`.
    pub fn is_development(&self) -> (r: bool)
        ensures
            r == (self.environment@ == "development"@),
    {
        self.environment == String::from_str("development")
    }

    /// Whether the environment is `production`.
    pub fn is_production(&self) -> (r: bool)
        ensures
            r == (self.environment@ == "production"@),
    {
        self.environment == String::from_str("production")
    }
}

} // verus!
