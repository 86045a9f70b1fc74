//! Where the database is: its client settings, credentials and connection URL,
//! with the defaults the server falls back on.
use vstd::prelude::*;
use vstd::string::*;
use crate::text::{decimal, parse_unsigned, parse_unsigned_text, push_u64};
use vstd::arithmetic::div_mod::lemma_fundamental_div_mod_converse;

verus! {

/// The user and password the server logs in with.
pub struct DatabaseCredentials {
    pub username: String,
    pub password: String,
}

/// How to reach the database: protocol (`postgres`), `host:port` address and
/// database name.
pub struct DatabaseClient {
    pub protocol: String,
    pub address: String,
    pub name: String,
}

/// The connection URL `<protocol>://<user>:<password>@<address>/<name>`.
pub open spec fn database_url_text(
    protocol: Seq<char>,
    user: Seq<char>,
    password: Seq<char>,
    address: Seq<char>,
    name: Seq<char>,
) -> Seq<char> {
    protocol + "://"@ + user + ":"@ + password + "@"@ + address + "/"@ + name
}

impl DatabaseClient {
    /// A client for this protocol, address and database name.
    pub fn new(protocol: &str, address: &str, name: &str) -> (c: DatabaseClient)
        ensures
            c.protocol@ == protocol@,
            c.address@ == address@,
            c.name@ == name@,
    {
        DatabaseClient {
            protocol: String::from_str(protocol),
            address: String::from_str(address),
            name: String::from_str(name),
        }
    }

    /// The URL the server connects with.
    pub fn database_url(&self, credentials: &DatabaseCredentials) -> (url: String)
        ensures
            url@ == database_url_text(
                self.protocol@,
                credentials.username@,
                credentials.password@,
                self.address@,
                self.name@,
            ),
    {
        let mut s = self.protocol.clone();
        s.append("://");
        s.append(credentials.username.as_str());
        s.append(":");
        s.append(credentials.password.as_str());
        s.append("@");
        s.append(self.address.as_str());
        s.append("/");
        s.append(self.name.as_str());
        s
    }
}

/// What `str::parse::<u16>` returns for a text (`None` for its error).
pub open spec fn parsed_u16(s: Seq<char>) -> Option<u16> {
    match parse_unsigned(s, u16::MAX as int) {
        Some(v) => Some(v as u16),
        None => None,
    }
}

/// Parses a `u16` as `str::parse::<u16>` does: an optional `+` and decimal
/// digits whose value fits a `u16`; anything else is refused.
pub(crate) fn parse_u16(s: &str) -> (r: Option<u16>)
    ensures
        r == parsed_u16(s@),
{
    match parse_unsigned_text(s, 0xFFFF) {
        Some(v) => Some(v as u16),
        None => None,
    }
}

/// A port from its setting: the number it spells, else `default`.
pub open spec fn port_or(value: Option<Seq<char>>, default: u16) -> u16 {
    match value {
        Some(v) => match parsed_u16(v) {
            Some(p) => p,
            None => default,
        },
        None => default,
    }
}

/// A text setting, or its default when it is not set.
pub open spec fn text_or(value: Option<Seq<char>>, default: Seq<char>) -> Seq<char> {
    match value {
        Some(v) => v,
        None => default,
    }
}

/// The view of an optional setting.
pub open spec fn opt_view(value: Option<String>) -> Option<Seq<char>> {
    match value {
        Some(v) => Some(v@),
        None => None,
    }
}

pub(crate) fn string_or(value: Option<String>, default: &str) -> (r: String)
    ensures
        r@ == text_or(opt_view(value), default@),
{
    match value {
        Some(v) => v,
        None => String::from_str(default),
    }
}

pub(crate) fn port_setting(value: Option<String>, default: u16) -> (r: u16)
    ensures
        r == port_or(opt_view(value), default),
{
    match value {
        Some(v) => match parse_u16(v.as_str()) {
            Some(p) => p,
            None => default,
        },
        None => default,
    }
}

/// The database settings, from the values of `DB_PROTOCOL`, `DB_HOST`,
/// `DB_PORT`, `DB_NAME`, `DB_USER` and `DB_PASSWORD` (`None` when unset):
/// the client, with address `host:port`, and the credentials. Unset values
/// default to `postgres`, `localhost`, 5432, `living_landz`, `postgres`,
/// `postgres`; a port that does not parse is 5432.
pub fn database_settings(
    protocol: Option<String>,
    host: Option<String>,
    port: Option<String>,
    db_name: Option<String>,
    user: Option<String>,
    password: Option<String>,
) -> (r: (DatabaseClient, DatabaseCredentials))
    ensures
        r.0.protocol@ == text_or(opt_view(protocol), "postgres"@),
        r.0.address@ == text_or(opt_view(host), "localhost"@) + ":"@ + decimal(
            port_or(opt_view(port), 5432) as nat,
        ),
        r.0.name@ == text_or(opt_view(db_name), "living_landz"@),
        r.1.username@ == text_or(opt_view(user), "postgres"@),
        r.1.password@ == text_or(opt_view(password), "postgres"@),
{
    let protocol = string_or(protocol, "postgres");
    let mut address = string_or(host, "localhost");
    let port = port_setting(port, 5432);
    let db_name = string_or(db_name, "living_landz");
    let username = string_or(user, "postgres");
    let password = string_or(password, "postgres");
    address.append(":");
    push_u64(&mut address, port as u64);
    (
        DatabaseClient { protocol, address, name: db_name },
        DatabaseCredentials { username, password },
    )
}

/// How many rows one insert statement writes.
pub const INSERT_BATCH_SIZE: usize = 1000;

/// The batches, as `[start, end)` row ranges, that `len` rows are written in:
/// consecutive, each `batch` rows long but the last, which may be shorter.
pub fn batch_ranges(len: usize, batch: usize) -> (r: Vec<(usize, usize)>)
    requires
        batch > 0,
    ensures
        r@.len() == (len + batch - 1) / (batch as int),
        forall|i: int|
            0 <= i < r@.len() ==> (#[trigger] r@[i]).0 == i * batch && r@[i].1 == if (i + 1) * batch
                <= len {
                (i + 1) * batch
            } else {
                len as int
            },
{
    let mut r: Vec<(usize, usize)> = Vec::new();
    let mut start: usize = 0;
    assert(r@.len() * batch == 0);
    while start < len
        invariant
            batch > 0,
            start <= len,
            start == if r@.len() * batch <= len {
                r@.len() * batch
            } else {
                len as int
            },
            r@.len() > 0 ==> (r@.len() - 1) * batch < len,
            forall|i: int|
                0 <= i < r@.len() ==> (#[trigger] r@[i]).0 == i * batch && r@[i].1 == if (i + 1)
                    * batch <= len {
                    (i + 1) * batch
                } else {
                    len as int
                },
        decreases len - start,
    {
        let ghost n = r@.len() as int;
        assert(start == n * batch) by {
            if n * batch > len {
                assert(start == len);
            }
        }
        let end: usize = if len - start > batch { start + batch } else { len };
        assert((n + 1) * batch == n * batch + batch) by (nonlinear_arith);
        r.push((start, end));
        start = end;
    }
    proof {
        let n = r@.len() as int;
        let b = batch as int;
        let l = len as int;
        if n > 0 {
            assert(l <= n * b);
            assert((n - 1) * b == n * b - b) by (nonlinear_arith);
            let rem = l + b - 1 - n * b;
            assert(n * b + rem == l + b - 1);
            lemma_fundamental_div_mod_converse(l + b - 1, b, n, rem);
        } else {
            assert(l == 0);
            lemma_fundamental_div_mod_converse(l + b - 1, b, 0, b - 1);
        }
    }
    r
}

} // verus!
