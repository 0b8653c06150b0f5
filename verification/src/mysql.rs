use vstd::prelude::*;

use crate::preview_features::PreviewFeatures;

verus! {

/// What went wrong in a connector.
#[derive(Debug)]
pub enum ErrorKind {
    /// The database URL could not be read.
    InvalidDatabaseUrl { details: String, url: String },
}

/// An error of the query connector.
#[derive(Debug)]
pub struct ConnectorError {
    pub kind: ErrorKind,
}

impl ConnectorError {
    /// An error of the given kind.
    pub fn from_kind(kind: ErrorKind) -> (e: ConnectorError)
        ensures
            e.kind == kind,
    {
        ConnectorError { kind }
    }
}

/// What the connector knows of the MySQL database it talks to: the database
/// named in the URL, if any, and the server's version, once known.
#[derive(Debug)]
pub struct ConnectionInfo {
    pub dbname: Option<String>,
    pub version: Option<String>,
}

/// Seconds between two health checks of pooled connections.
pub const HEALTH_CHECK_INTERVAL_SECS: u64 = 15;

/// Whether a pooled connection is tested when it is checked out.
pub const TEST_ON_CHECK_OUT: bool = true;

/// The statement that selects the `mysql` database when the URL names none.
pub const USE_DEFAULT_DATABASE: &'static str = "USE mysql";

/// `p` stands in `s` at position `i`.
pub open spec fn occurs_at(s: Seq<char>, p: Seq<char>, i: int) -> bool {
    &&& 0 <= i
    &&& i + p.len() <= s.len()
    &&& s.subrange(i, i + p.len()) == p
}

/// `p` stands somewhere in `s`.
pub open spec fn contains_seq(s: Seq<char>, p: Seq<char>) -> bool {
    exists|i: int| occurs_at(s, p, i)
}

/// The name by which a Vitess server shows itself in its version.
pub open spec fn vitess_marker() -> Seq<char> {
    seq!['V', 'i', 't', 'e', 's', 's']
}

/// The connection selects the `mysql` database: the URL names no database,
/// and the server is not known to be Vitess, which routes queries by keyspace
/// and is used without a database.
pub open spec fn selects_default_database(dbname: Option<String>, version: Option<String>) -> bool {
    &&& dbname is None
    &&& !(version matches Some(v) && contains_seq(v@, vitess_marker()))
}

/// Whether `needle` stands in `haystack` at character position `i`.
fn occurs_at_exec(haystack: &str, n: usize, needle: &str, m: usize, i: usize) -> (b: bool)
    requires
        n == haystack@.len(),
        m == needle@.len(),
        i + m <= n,
    ensures
        b == occurs_at(haystack@, needle@, i as int),
{
    let mut j: usize = 0;
    while j < m
        invariant
            n == haystack@.len(),
            m == needle@.len(),
            i + m <= n,
            j <= m,
            forall|k: int| 0 <= k < j ==> haystack@[i + k] == needle@[k],
        decreases m - j,
    {
        if haystack.get_char(i + j) != needle.get_char(j) {
            assert(haystack@.subrange(i as int, i + m)[j as int] != needle@[j as int]);
            return false;
        }
        j = j + 1;
    }
    assert(haystack@.subrange(i as int, i + m) =~= needle@);
    true
}

/// Whether `needle` stands somewhere in `haystack`.
fn str_contains(haystack: &str, needle: &str) -> (b: bool)
    ensures
        b == contains_seq(haystack@, needle@),
{
    let n = haystack.unicode_len();
    let m = needle.unicode_len();
    if m > n {
        assert forall|i: int| !occurs_at(haystack@, needle@, i) by {}
        return false;
    }
    let last = n - m;
    let mut i: usize = 0;
    loop
        invariant
            n == haystack@.len(),
            m == needle@.len(),
            last == n - m,
            i <= last,
            forall|k: int| 0 <= k < i ==> !occurs_at(haystack@, needle@, k),
        ensures
            forall|k: int| 0 <= k <= last ==> !occurs_at(haystack@, needle@, k),
        decreases last - i,
    {
        if occurs_at_exec(haystack, n, needle, m, i) {
            return true;
        }
        if i == last {
            break;
        }
        i = i + 1;
    }
    assert forall|k: int| !occurs_at(haystack@, needle@, k) by {
        if occurs_at(haystack@, needle@, k) {
            assert(k <= last);
        }
    }
    false
}

/// Whether a connection must select the `mysql` database, given the database
/// named in the URL and the version the server reported.
pub fn needs_default_database(dbname: &Option<String>, version: &Option<String>) -> (b: bool)
    ensures
        b == selects_default_database(*dbname, *version),
{
    if dbname.is_some() {
        return false;
    }
    match version {
        Some(v) => {
            proof {
                reveal_strlit("Vitess");
            }
            let found = str_contains(v.as_str(), "Vitess");
            assert("Vitess"@ == vitess_marker());
            !found
        },
        None => true,
    }
}

/// Reads a database URL: `parsed` is the outcome of parsing `url` into a
/// connection info, with the parser's message on failure.
pub fn get_connection_info(url: &str, parsed: Result<ConnectionInfo, String>) -> (r: Result<
    ConnectionInfo,
    ConnectorError,
>)
    ensures
        parsed matches Ok(info) ==> r matches Ok(i) && i == info,
        parsed matches Err(details) ==> r matches Err(e) && e.kind matches ErrorKind::InvalidDatabaseUrl {
            details: d,
            url: u,
        } && d == details && u@ == url@,
{
    match parsed {
        Ok(info) => Ok(info),
        Err(details) => Err(
            ConnectorError::from_kind(
                ErrorKind::InvalidDatabaseUrl { details, url: String::from_str(url) },
            ),
        ),
    }
}

/// What a new connection needs: whether to select the `mysql` database
/// first, the connection info with the server's version set, and the preview
/// features the connection is opened with.
#[derive(Debug)]
pub struct ConnectionPlan {
    pub use_default_database: bool,
    pub connection_info: ConnectionInfo,
    pub features: PreviewFeatures,
}

/// How the connection pool is configured.
#[derive(Debug, Clone, Copy, PartialEq, Eq, Structural)]
pub struct PoolSettings {
    /// Seconds between two health checks of pooled connections.
    pub health_check_interval_secs: u64,
    /// Whether a pooled connection is tested when it is checked out.
    pub test_on_check_out: bool,
}

/// The MySQL query connector.
#[derive(Debug)]
pub struct Mysql {
    connection_info: ConnectionInfo,
    features: PreviewFeatures,
    pool_settings: PoolSettings,
}

impl Mysql {
    /// The connector's connection info.
    pub closed spec fn connection_info_spec(&self) -> ConnectionInfo {
        self.connection_info
    }

    /// The connector's preview features.
    pub closed spec fn features_spec(&self) -> PreviewFeatures {
        self.features
    }

    /// How the connector's pool is configured.
    pub closed spec fn pool_settings_spec(&self) -> PoolSettings {
        self.pool_settings
    }

    /// Get MySQL's preview features.
    pub fn features(&self) -> (f: PreviewFeatures)
        ensures
            f == self.features_spec(),
    {
        self.features
    }

    /// Builds the connector from a database URL: `parsed` is the outcome of
    /// parsing `url` into a connection info. The connector records how its
    /// pool is configured (a health check every 15 seconds, connections tested
    /// on check-out); the pool itself is not built here, so a failure of the
    /// pool's builder is not among the outcomes.
    pub fn from_source(url: &str, parsed: Result<ConnectionInfo, String>, features: PreviewFeatures) -> (r: Result<
        Mysql,
        ConnectorError,
    >)
        ensures
            parsed matches Ok(info) ==> r matches Ok(m) && m.connection_info_spec() == info
                && m.features_spec() == features && m.pool_settings_spec() == (PoolSettings {
                health_check_interval_secs: HEALTH_CHECK_INTERVAL_SECS,
                test_on_check_out: TEST_ON_CHECK_OUT,
            }),
            parsed matches Err(details) ==> r matches Err(e) && e.kind matches ErrorKind::InvalidDatabaseUrl {
                details: d,
                url: u,
            } && d == details && u@ == url@,
    {
        let connection_info = get_connection_info(url, parsed)?;
        let pool_settings = PoolSettings {
            health_check_interval_secs: HEALTH_CHECK_INTERVAL_SECS,
            test_on_check_out: TEST_ON_CHECK_OUT,
        };
        Ok(Mysql { connection_info, features, pool_settings })
    }

    /// What a new connection needs, once the server has reported `db_version`.
    /// The connector's own connection info is left as it is.
    pub fn plan_connection(&self, db_version: Option<String>) -> (p: ConnectionPlan)
        ensures
            p.use_default_database == selects_default_database(
                self.connection_info_spec().dbname,
                db_version,
            ),
            p.connection_info.dbname == self.connection_info_spec().dbname,
            p.connection_info.version == db_version,
            p.features == self.features_spec(),
    {
        let use_default_database = needs_default_database(&self.connection_info.dbname, &db_version);
        let dbname = match &self.connection_info.dbname {
            Some(name) => Some(name.clone()),
            None => None,
        };
        ConnectionPlan {
            use_default_database,
            connection_info: ConnectionInfo { dbname, version: db_version },
            features: self.features,
        }
    }

    /// The connector's name: `mysql`.
    pub fn name(&self) -> (n: &'static str)
        ensures
            n@ == seq!['m', 'y', 's', 'q', 'l'],
    {
        proof {
            reveal_strlit("mysql");
        }
        "mysql"
    }

    /// MySQL queries are not retried on transient errors.
    pub fn should_retry_on_transient_error(&self) -> (b: bool)
        ensures
            !b,
    {
        false
    }
}

/// A URL that names a database is used as it is: no connection selects the
/// `mysql` database, whatever the server's version.
pub proof fn lemma_named_database_is_kept(name: String, version: Option<String>)
    ensures
        !selects_default_database(Some(name), version),
{
}

/// A server whose version mentions Vitess is used without a database: no
/// connection selects the `mysql` database.
pub proof fn lemma_vitess_is_used_without_database(
    dbname: Option<String>,
    version: String,
    before: Seq<char>,
    after: Seq<char>,
)
    requires
        version@ == before + vitess_marker() + after,
    ensures
        !selects_default_database(dbname, Some(version)),
{
    let i = before.len() as int;
    assert(version@.subrange(i, i + vitess_marker().len()) =~= vitess_marker());
    assert(occurs_at(version@, vitess_marker(), i));
}

/// Without a database in the URL and with a server that does not mention
/// Vitess in its version, or that reported none, connections select `mysql`.
pub proof fn lemma_default_database_otherwise(version: Option<String>)
    requires
        !(version matches Some(v) && contains_seq(v@, vitess_marker())),
    ensures
        selects_default_database(None, version),
{
}

} // verus!
