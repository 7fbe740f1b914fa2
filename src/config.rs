//! Server settings: the port, the access token and the kind of store,
//! read from plain values that the caller took from the environment.

use vstd::prelude::*;

verus! {

/// Port used when none is configured.
pub const DEFAULT_PORT: u16 = 3000;

/// The kind of store the server keeps its entities in.
#[derive(Clone, Copy, Debug, PartialEq, Eq, Structural)]
pub enum DatabaseType {
    InMemory,
    Spacetime,
    Postgres,
}

/// Which store to use, and where it is.
#[derive(Debug)]
pub struct DatabaseConfig {
    pub db_type: DatabaseType,
    pub url: String,
}

/// The settings of the server.
#[derive(Debug)]
pub struct Config {
    pub access_token: Option<String>,
    pub port: u16,
    pub database: DatabaseConfig,
}

/// The value of the decimal digits `s`.
pub open spec fn digits_value(s: Seq<char>) -> int
    decreases s.len(),
{
    if s.len() == 0 {
        0
    } else {
        digits_value(s.drop_last()) * 10 + (s.last() as u32 - '0' as u32)
    }
}

/// Every character of `s` is an ASCII digit.
pub open spec fn all_digits(s: Seq<char>) -> bool {
    forall|i: int| 0 <= i < s.len() ==> '0' <= #[trigger] s[i] && s[i] <= '9'
}

/// The port that the text `s` gives, as `u16`'s `FromStr` reads it: an
/// optional `+`, then one or more digits, of value at most 65535.
pub open spec fn port_of_text(s: Seq<char>) -> Option<u16> {
    let d = if s.len() > 0 && s[0] == '+' { s.drop_first() } else { s };
    if d.len() > 0 && all_digits(d) && digits_value(d) <= 65535 {
        Some(digits_value(d) as u16)
    } else {
        None
    }
}

/// The decimal digit for `d`, below ten.
pub open spec fn digit_char(d: nat) -> char {
    if d == 0 {
        '0'
    } else if d == 1 {
        '1'
    } else if d == 2 {
        '2'
    } else if d == 3 {
        '3'
    } else if d == 4 {
        '4'
    } else if d == 5 {
        '5'
    } else if d == 6 {
        '6'
    } else if d == 7 {
        '7'
    } else if d == 8 {
        '8'
    } else {
        '9'
    }
}

/// The decimal digits of `n`, without leading zeros.
pub open spec fn decimal(n: nat) -> Seq<char>
    decreases n,
{
    if n < 10 {
        seq![digit_char(n)]
    } else {
        decimal(n / 10).push(digit_char(n % 10))
    }
}

/// The one-character text of the digit `d`.
fn digit_text(d: u16) -> (r: &'static str)
    requires
        d < 10,
    ensures
        r@ == seq![digit_char(d as nat)],
{
    proof {
        reveal_strlit("0");
        reveal_strlit("1");
        reveal_strlit("2");
        reveal_strlit("3");
        reveal_strlit("4");
        reveal_strlit("5");
        reveal_strlit("6");
        reveal_strlit("7");
        reveal_strlit("8");
        reveal_strlit("9");
    }
    if d == 0 {
        "0"
    } else if d == 1 {
        "1"
    } else if d == 2 {
        "2"
    } else if d == 3 {
        "3"
    } else if d == 4 {
        "4"
    } else if d == 5 {
        "5"
    } else if d == 6 {
        "6"
    } else if d == 7 {
        "7"
    } else if d == 8 {
        "8"
    } else {
        "9"
    }
}

/// Appends the decimal digits of `n` to `out`.
fn push_decimal(n: u16, out: &mut String)
    ensures
        final(out)@ == old(out)@ + decimal(n as nat),
    decreases n,
{
    if n >= 10 {
        push_decimal(n / 10, out);
    }
    out.append(digit_text(n % 10));
    proof {
        if n >= 10 {
            assert(decimal(n as nat) == decimal((n / 10) as nat).push(digit_char((n % 10) as nat)));
            assert(old(out)@ + decimal((n / 10) as nat) + seq![digit_char((n % 10) as nat)] =~= old(out)@
                + decimal(n as nat));
        } else {
            assert(decimal(n as nat) == seq![digit_char(n as nat)]);
        }
    }
}

proof fn lemma_digits_value_bound(s: Seq<char>, i: int)
    requires
        0 <= i <= s.len(),
        all_digits(s),
    ensures
        digits_value(s.take(i)) <= digits_value(s),
        0 <= digits_value(s.take(i)),
    decreases s.len() - i,
{
    if i < s.len() {
        lemma_digits_value_bound(s, i + 1);
        assert(s.take(i + 1).drop_last() =~= s.take(i));
        assert('0' <= s[i] && s[i] <= '9');
    } else {
        assert(s.take(i) =~= s);
    }
    lemma_digits_value_nonneg(s.take(i));
}

proof fn lemma_digits_value_nonneg(s: Seq<char>)
    requires
        all_digits(s),
    ensures
        0 <= digits_value(s),
    decreases s.len(),
{
    if s.len() > 0 {
        assert(all_digits(s.drop_last())) by {
            assert forall|i: int| 0 <= i < s.drop_last().len() implies '0' <= #[trigger] s.drop_last()[i] && s.drop_last()[i] <= '9' by {
                assert(s.drop_last()[i] == s[i]);
            }
        }
        lemma_digits_value_nonneg(s.drop_last());
        assert('0' <= s[s.len() - 1]);
    }
}

/// The port that the text gives, if it is one.
pub fn parse_port(text: &str) -> (r: Option<u16>)
    ensures
        r == port_of_text(text@),
{
    let s = crate::text::chars_of(text);
    let start: usize = if s.len() > 0 && s[0] == '+' { 1 } else { 0 };
    let ghost d = if s@.len() > 0 && s@[0] == '+' { s@.drop_first() } else { s@ };
    assert(d =~= s@.subrange(start as int, s@.len() as int));
    assert(s@ == text@);
    assert(port_of_text(text@) == (if d.len() > 0 && all_digits(d) && digits_value(d) <= 65535 {
        Some(digits_value(d) as u16)
    } else {
        None
    }));
    if start >= s.len() {
        return None;
    }
    let mut value: u32 = 0;
    let mut i: usize = start;
    while i < s.len()
        invariant
            start <= i <= s@.len(),
            d == s@.subrange(start as int, s@.len() as int),
            d.len() > 0,
            port_of_text(text@) == (if all_digits(d) && digits_value(d) <= 65535 {
                Some(digits_value(d) as u16)
            } else {
                None
            }),
            all_digits(d.take(i - start)),
            value == digits_value(d.take(i - start)),
            value <= 65535,
        decreases s@.len() - i,
    {
        let c = s[i];
        if c < '0' || c > '9' {
            assert(d[i - start] == c);
            assert(!all_digits(d));
            return None;
        }
        assert(d.take(i + 1 - start).drop_last() =~= d.take(i - start));
        assert(d.take(i + 1 - start)[i - start] == c);
        value = value * 10 + (c as u32 - '0' as u32);
        i = i + 1;
        assert(all_digits(d.take(i - start))) by {
            assert forall|k: int| 0 <= k < d.take(i - start).len() implies '0' <= #[trigger] d.take(i - start)[k] && d.take(i - start)[k] <= '9' by {
                if k < i - 1 - start {
                    assert(d.take(i - start)[k] == d.take(i - 1 - start)[k]);
                }
            }
        }
        if value > 65535 {
            proof {
                if all_digits(d) {
                    lemma_digits_value_bound(d, i - start);
                    assert(digits_value(d) > 65535);
                }
                assert(port_of_text(text@) is None);
            }
            return None;
        }
    }
    assert(d.take(i - start) =~= d);
    Some(value as u16)
}

/// The kind of store that a configured name selects: "spacetime",
/// "postgres", and the in-memory store for anything else.
pub open spec fn db_type_of_name(name: Seq<char>) -> DatabaseType {
    if name == "spacetime"@ {
        DatabaseType::Spacetime
    } else if name == "postgres"@ {
        DatabaseType::Postgres
    } else {
        DatabaseType::InMemory
    }
}

/// The kind of store that a configured name selects.
pub fn parse_db_type(name: &str) -> (r: DatabaseType)
    ensures
        r == db_type_of_name(name@),
{
    let n = crate::text::chars_of(name);
    if crate::text::same_chars(&n, &crate::text::chars_of("spacetime")) {
        DatabaseType::Spacetime
    } else if crate::text::same_chars(&n, &crate::text::chars_of("postgres")) {
        DatabaseType::Postgres
    } else {
        DatabaseType::InMemory
    }
}

/// The port that an optional setting gives: 3000 when unset.
pub open spec fn configured_port(port: Option<&str>) -> Option<u16> {
    match port {
        Some(p) => port_of_text(p@),
        None => Some(3000u16),
    }
}

/// The store kind that an optional setting selects: in-memory when unset.
pub open spec fn configured_db_type(name: Option<&str>) -> DatabaseType {
    match name {
        Some(t) => db_type_of_name(t@),
        None => DatabaseType::InMemory,
    }
}

/// The store address that an optional setting gives: "memory" when unset.
pub open spec fn configured_db_url(url: Option<String>) -> Seq<char> {
    match url {
        Some(u) => u@,
        None => "memory"@,
    }
}

impl DatabaseConfig {
    /// The in-memory store, at "memory".
    pub fn in_memory() -> (r: DatabaseConfig)
        ensures
            r.db_type == DatabaseType::InMemory,
            r.url@ == "memory"@,
    {
        DatabaseConfig { db_type: DatabaseType::InMemory, url: "memory".to_string() }
    }
}

impl Default for DatabaseConfig {
    fn default() -> (r: DatabaseConfig)
        ensures
            r.db_type == DatabaseType::InMemory,
            r.url@ == "memory"@,
    {
        DatabaseConfig::in_memory()
    }
}

impl Config {
    /// Settings from the values found, each `None` when not set: the port
    /// defaults to 3000, the store kind to in-memory, its address to
    /// "memory". `None` when a port is set that is not one.
    pub fn from_values(
        access_token: Option<String>,
        port: Option<&str>,
        db_type: Option<&str>,
        db_url: Option<String>,
    ) -> (r: Option<Config>)
        ensures
            configured_port(port) is None ==> r is None,
            configured_port(port) is Some ==> (r matches Some(c) && c.access_token == access_token
                && c.port == configured_port(port).unwrap()
                && c.database.db_type == configured_db_type(db_type)
                && c.database.url@ == configured_db_url(db_url)),
    {
        let port = match port {
            Some(p) => match parse_port(p) {
                Some(n) => n,
                None => {
                    return None;
                },
            },
            None => DEFAULT_PORT,
        };
        let db_type = match db_type {
            Some(t) => parse_db_type(t),
            None => DatabaseType::InMemory,
        };
        let url = match db_url {
            Some(u) => u,
            None => "memory".to_string(),
        };
        Some(Config { access_token, port, database: DatabaseConfig { db_type, url } })
    }

    /// The address the server listens on: all interfaces, at the port.
    pub fn server_address(&self) -> (r: String)
        ensures
            r@ == "0.0.0.0:"@ + decimal(self.port as nat),
    {
        let mut r = "0.0.0.0:".to_string();
        push_decimal(self.port, &mut r);
        r
    }
}

} // verus!
