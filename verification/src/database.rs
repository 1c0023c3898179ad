use vstd::prelude::*;

use crate::config::DatabaseConfig;
use crate::errors::ApiError;

verus! {

/// The decimal digit for `d` (which is below ten).
pub open spec fn digit_char(d: nat) -> char {
    if d == 0 {
        '0'
    } else if d == 1 {
        '1'
    } else if d == 2 {
        '2'
    } else if d == 3 {
        '3'
    } else if d == 4 {
        '4'
    } else if d == 5 {
        '5'
    } else if d == 6 {
        '6'
    } else if d == 7 {
        '7'
    } else if d == 8 {
        '8'
    } else {
        '9'
    }
}

/// The decimal rendering of `n`, most significant digit first, without
/// leading zeros.
pub open spec fn decimal(n: nat) -> Seq<char>
    decreases n,
{
    if n < 10 {
        seq![digit_char(n)]
    } else {
        decimal(n / 10) + seq![digit_char(n % 10)]
    }
}

/// Whether a character is a decimal digit.
pub open spec fn is_digit(c: char) -> bool {
    '0' <= c && c <= '9'
}

/// The number a sequence of decimal digits denotes.
pub open spec fn digits_value(s: Seq<char>) -> int
    decreases s.len(),
{
    if s.len() == 0 {
        0
    } else {
        digits_value(s.drop_last()) * 10 + (s.last() as int - '0' as int)
    }
}

proof fn lemma_digit_value(d: nat)
    requires
        d < 10,
    ensures
        is_digit(digit_char(d)),
        digit_char(d) as int - '0' as int == d,
{
}

/// The decimal rendering of `n` is made of digits, denotes `n`, and has no
/// leading zero (but for `0` itself).
pub proof fn lemma_decimal_denotes(n: nat)
    ensures
        decimal(n).len() >= 1,
        forall|i: int| 0 <= i < decimal(n).len() ==> is_digit(#[trigger] decimal(n)[i]),
        digits_value(decimal(n)) == n,
        decimal(n)[0] == '0' ==> n == 0,
    decreases n,
{
    lemma_digit_value(n % 10);
    if n < 10 {
        assert(decimal(n).drop_last() =~= Seq::<char>::empty());
        assert(digits_value(Seq::<char>::empty()) == 0);
        assert(decimal(n).last() == digit_char(n % 10));
    } else {
        lemma_decimal_denotes(n / 10);
        let s = decimal(n);
        assert(s.drop_last() =~= decimal(n / 10));
        assert(s[0] == decimal(n / 10)[0]);
        assert(s.last() == digit_char(n % 10));
        assert(digits_value(s) == digits_value(decimal(n / 10)) * 10 + (digit_char(n % 10) as int
            - '0' as int));
        assert(n == (n / 10) * 10 + n % 10);
        assert forall|i: int| 0 <= i < s.len() implies is_digit(#[trigger] s[i]) by {
            if i < s.len() - 1 {
                assert(s[i] == decimal(n / 10)[i]);
            }
        }
    }
}

fn digit_str(d: u64) -> (r: &'static str)
    requires
        d < 10,
    ensures
        r@ == seq![digit_char(d as nat)],
{
    proof {
        reveal_strlit("0");
        reveal_strlit("1");
        reveal_strlit("2");
        reveal_strlit("3");
        reveal_strlit("4");
        reveal_strlit("5");
        reveal_strlit("6");
        reveal_strlit("7");
        reveal_strlit("8");
        reveal_strlit("9");
    }
    if d == 0 {
        "0"
    } else if d == 1 {
        "1"
    } else if d == 2 {
        "2"
    } else if d == 3 {
        "3"
    } else if d == 4 {
        "4"
    } else if d == 5 {
        "5"
    } else if d == 6 {
        "6"
    } else if d == 7 {
        "7"
    } else if d == 8 {
        "8"
    } else {
        "9"
    }
}

/// Renders `n` in decimal.
pub fn decimal_string(n: u64) -> (r: String)
    ensures
        r@ == decimal(n as nat),
        r@.len() >= 1,
        forall|i: int| 0 <= i < r@.len() ==> is_digit(#[trigger] r@[i]),
        digits_value(r@) == n,
        r@[0] == '0' ==> n == 0,
    decreases n,
{
    proof {
        lemma_decimal_denotes(n as nat);
    }
    if n < 10 {
        String::from_str(digit_str(n))
    } else {
        let mut s = decimal_string(n / 10);
        s.append(digit_str(n % 10));
        s
    }
}

/// The connection URL for a configuration.
pub open spec fn spec_connection_url(c: DatabaseConfig) -> Seq<char> {
    "postgres://"@ + c.user@ + ":"@ + c.password@ + "@"@ + c.host@ + ":"@ + decimal(
        c.port as nat,
    ) + "/"@ + c.database@
}

/// Builds `postgres://{user}:{password}@{host}:{port}/{database}`.
pub fn connection_url(c: &DatabaseConfig) -> (r: String)
    ensures
        r@ == spec_connection_url(*c),
        exists|port: Seq<char>|
            digits_value(port) == c.port && port.len() >= 1 && (forall|i: int|
                0 <= i < port.len() ==> is_digit(#[trigger] port[i])) && (port[0] == '0' ==> c.port
                == 0) && r@ == "postgres://"@ + c.user@ + ":"@ + c.password@ + "@"@ + c.host@
                + ":"@ + port + "/"@ + c.database@,
{
    let mut url = String::from_str("postgres://");
    url.append(c.user());
    url.append(":");
    url.append(c.password());
    url.append("@");
    url.append(c.host());
    url.append(":");
    let port = decimal_string(c.port() as u64);
    proof {
        lemma_decimal_denotes(c.port as nat);
    }
    url.append(port.as_str());
    url.append("/");
    url.append(c.database());
    url
}

/// The settings of the database connection pool.
#[derive(Debug, Clone)]
pub struct PoolSettings {
    pub min_connections: u32,
    pub max_connections: u32,
    pub connect_timeout_secs: u64,
    pub acquire_timeout_secs: u64,
    pub idle_timeout_secs: u64,
    pub max_lifetime_secs: u64,
    pub sqlx_logging: bool,
    pub schema: String,
}

pub open spec fn spec_max(a: int, b: int) -> int {
    if a >= b {
        a
    } else {
        b
    }
}

/// The largest CPU count the pool sizing accepts: eight connections per CPU
/// must fit in a `u32`.
pub const MAX_POOL_CPUS: u32 = 536870911;

/// The pool settings for `cpus` CPUs and a schema search path.
pub open spec fn is_pool_for(p: PoolSettings, cpus: u32, schema: Seq<char>) -> bool {
    &&& p.min_connections == spec_max(cpus * 4, 10)
    &&& p.max_connections == spec_max(cpus * 8, 20)
    &&& p.connect_timeout_secs == 10
    &&& p.acquire_timeout_secs == 30
    &&& p.idle_timeout_secs == 300
    &&& p.max_lifetime_secs == 3600 * 24
    &&& p.sqlx_logging == false
    &&& p.schema@ == schema
}

/// Pool sizes for a machine with `cpus` CPUs: at least 10 and 20
/// connections, four and eight per CPU beyond that.
pub fn pool_settings(cpus: u32, schema: &str) -> (r: PoolSettings)
    requires
        cpus <= MAX_POOL_CPUS,
    ensures
        is_pool_for(r, cpus, schema@),
        r.min_connections >= 10 && r.min_connections >= 4 * cpus && (r.min_connections == 10
            || r.min_connections == 4 * cpus),
        r.max_connections >= 20 && r.max_connections >= 8 * cpus && (r.max_connections == 20
            || r.max_connections == 8 * cpus),
        r.connect_timeout_secs == 10 && r.acquire_timeout_secs == 30 && r.idle_timeout_secs == 300
            && r.max_lifetime_secs == 86400 && !r.sqlx_logging && r.schema@ == schema@,
{
    let four: u32 = cpus * 4;
    let eight: u32 = cpus * 8;
    let min_connections: u32 = if four >= 10 {
        four
    } else {
        10
    };
    let max_connections: u32 = if eight >= 20 {
        eight
    } else {
        20
    };
    PoolSettings {
        min_connections,
        max_connections,
        connect_timeout_secs: 10,
        acquire_timeout_secs: 30,
        idle_timeout_secs: 300,
        max_lifetime_secs: 3600 * 24,
        sqlx_logging: false,
        schema: String::from_str(schema),
    }
}

/// `num_cpus::get`: the number of logical CPUs available to this process.
/// Its documentation promises at least one; the value itself depends on the
/// machine and is not stated.
#[verifier::external_body]
fn available_cpus() -> (r: usize)
    ensures
        r >= 1,
{
    num_cpus::get()
}

/// A CPU count as the pool sizing sees it: the low 32 bits of the count.
pub open spec fn cpu_count_u32(n: usize) -> u32 {
    (n as int % 0x1_0000_0000) as u32
}

fn truncate_to_u32(n: usize) -> (r: u32)
    ensures
        r == cpu_count_u32(n),
{
    let wide: u64 = n as u64;
    let r: u32 = (wide % 0x1_0000_0000u64) as u32;
    r
}

/// Pool settings for a machine that reports `n` CPUs: the count is taken
/// modulo 2^32, and there is no pool when eight connections per CPU would
/// not fit in a `u32`.
pub fn pool_settings_for_count(n: usize, schema: &str) -> (r: Option<PoolSettings>)
    ensures
        r is Some <==> cpu_count_u32(n) <= MAX_POOL_CPUS,
        r matches Some(p) ==> is_pool_for(p, cpu_count_u32(n), schema@),
        r is Some <==> n as int % 0x1_0000_0000 <= 536870911,
        r matches Some(p) ==> ({
            let c = n as int % 0x1_0000_0000;
            &&& p.min_connections >= 10 && p.min_connections >= 4 * c
            &&& (p.min_connections == 10 || p.min_connections == 4 * c)
            &&& p.max_connections >= 20 && p.max_connections >= 8 * c
            &&& (p.max_connections == 20 || p.max_connections == 8 * c)
            &&& p.connect_timeout_secs == 10 && p.acquire_timeout_secs == 30
            &&& p.idle_timeout_secs == 300 && p.max_lifetime_secs == 86400
            &&& !p.sqlx_logging && p.schema@ == schema@
        }),
{
    let cpus: u32 = truncate_to_u32(n);
    if cpus <= MAX_POOL_CPUS {
        Some(pool_settings(cpus, schema))
    } else {
        None
    }
}

/// Pool settings for the machine this runs on (see
/// `pool_settings_for_count`); its CPU count is at least one.
pub fn machine_pool_settings(schema: &str) -> (r: Option<PoolSettings>)
    ensures
        exists|n: usize|
            n >= 1 && match r {
                Some(p) => cpu_count_u32(n) <= MAX_POOL_CPUS && is_pool_for(
                    p,
                    cpu_count_u32(n),
                    schema@,
                ),
                None => cpu_count_u32(n) > MAX_POOL_CPUS,
            },
{
    let n: usize = available_cpus();
    pool_settings_for_count(n, schema)
}

/// The server version read from the database, or the refusal when the
/// version query returned no row.
pub fn server_version(row: Option<String>) -> (r: Result<String, ApiError>)
    ensures
        match row {
            Some(v) => r == Ok::<String, ApiError>(v),
            None => r matches Err(e) && (e matches ApiError::Internal(m) && m@
                == "Failed to get database version"@),
        },
{
    match row {
        Some(v) => Ok(v),
        None => Err(ApiError::Internal(String::from_str("Failed to get database version"))),
    }
}

/// The pool never asks for fewer connections at most than at least: the
/// minimum size never exceeds the maximum size.
pub proof fn lemma_pool_min_le_max(cpus: u32)
    requires
        cpus <= MAX_POOL_CPUS,
    ensures
        spec_max(cpus * 4, 10) <= spec_max(cpus * 8, 20),
{
}

} // verus!
