//! Connection settings, their builder, and the connection URL they render to.
use vstd::prelude::*;
use vstd::string::*;

use crate::decimal::{decimal, lemma_parse_decimal, parse_u32_spec, push_decimal};

verus! {

/// The port a Redis server listens on for plain connections.
pub const PLAIN_PORT: u16 = 6379;

/// The port a Redis server conventionally listens on for TLS connections.
pub const TLS_PORT: u16 = 6380;

/// A Redis client, not yet connected.
#[verifier::external_type_specification]
#[verifier::external_body]
pub struct ExClient(redis::Client);

/// The settings of a connection, as plain values.
pub struct ConfigView {
    pub host: Seq<char>,
    pub port: u16,
    pub use_tls: bool,
    pub insecure: bool,
    pub password: Option<Seq<char>>,
    pub db: Option<u8>,
}

/// The settings a new builder starts from: a TLS connection to the local
/// host on the TLS port, without certificate checks, to database 0.
pub open spec fn default_view() -> ConfigView {
    ConfigView {
        host: "127.0.0.1"@,
        port: TLS_PORT,
        use_tls: true,
        insecure: true,
        password: None,
        db: Some(0),
    }
}

/// The settings after TLS is switched on: the plain port, if still set, is
/// moved to the TLS port.
pub open spec fn tls_view(v: ConfigView, insecure: bool) -> ConfigView {
    ConfigView {
        use_tls: true,
        insecure,
        port: if v.port == PLAIN_PORT { TLS_PORT } else { v.port },
        ..v
    }
}

/// `rediss://` with TLS, `redis://` without.
pub open spec fn scheme_of(use_tls: bool) -> Seq<char> {
    if use_tls { "rediss://"@ } else { "redis://"@ }
}

/// The credentials part: the password after an empty user name, or nothing.
pub open spec fn auth_of(password: Option<Seq<char>>) -> Seq<char> {
    match password {
        Some(p) => ":"@ + p + "@"@,
        None => Seq::empty(),
    }
}

/// The path part: `/` and the database index, or nothing.
pub open spec fn db_of(db: Option<u8>) -> Seq<char> {
    match db {
        Some(d) => "/"@ + decimal(d as nat),
        None => Seq::empty(),
    }
}

/// The fragment that tells the client to skip certificate checks: present
/// only when TLS is on and the insecure flag is set.
pub open spec fn fragment_of(v: ConfigView) -> Seq<char> {
    if v.use_tls && v.insecure { "#insecure"@ } else { Seq::empty() }
}

/// Everything up to and including the port.
pub open spec fn authority_of(v: ConfigView) -> Seq<char> {
    scheme_of(v.use_tls) + auth_of(v.password) + v.host + ":"@ + decimal(v.port as nat)
}

/// The connection URL of `v`:
/// `<scheme>://[:<password>@]<host>:<port>[/<db>][#insecure]`.
/// Nothing is escaped.
pub open spec fn url_of(v: ConfigView) -> Seq<char> {
    authority_of(v) + db_of(v.db) + fragment_of(v)
}

/// Settings for one Redis connection; can open any number of them.
#[derive(Debug, Clone)]
pub struct RedisConfig {
    host: String,
    port: u16,
    use_tls: bool,
    insecure: bool,
    password: Option<String>,
    db: Option<u8>,
}

/// Stages the settings of a [`RedisConfig`] one at a time.
#[derive(Debug, Clone)]
pub struct RedisConfigBuilder {
    host: String,
    port: u16,
    use_tls: bool,
    insecure: bool,
    password: Option<String>,
    db: Option<u8>,
}

/// The view of an optional string.
pub open spec fn opt_view(s: Option<String>) -> Option<Seq<char>> {
    match s {
        Some(p) => Some(p@),
        None => None,
    }
}

impl View for RedisConfig {
    type V = ConfigView;

    closed spec fn view(&self) -> ConfigView {
        ConfigView {
            host: self.host@,
            port: self.port,
            use_tls: self.use_tls,
            insecure: self.insecure,
            password: opt_view(self.password),
            db: self.db,
        }
    }
}

impl View for RedisConfigBuilder {
    type V = ConfigView;

    closed spec fn view(&self) -> ConfigView {
        ConfigView {
            host: self.host@,
            port: self.port,
            use_tls: self.use_tls,
            insecure: self.insecure,
            password: opt_view(self.password),
            db: self.db,
        }
    }
}

/// Whether the Redis client's URL parser accepts `url`.
pub uninterp spec fn accepts_url(url: Seq<char>) -> bool;

/// Relies on redis::Client::open, which parses the URL into connection
/// settings and fails on one it cannot parse; it does no I/O, so whether it
/// succeeds depends on the URL alone.
#[verifier::external_body]
fn open_client(url: String) -> (r: Result<redis::Client, redis::RedisError>)
    ensures
        r is Ok <==> accepts_url(url@),
{
    redis::Client::open(url)
}

impl RedisConfig {
    /// A builder with the default settings.
    pub fn builder() -> (r: RedisConfigBuilder)
        ensures
            r@ == default_view(),
    {
        RedisConfigBuilder::new()
    }

    /// The connection URL of these settings.
    pub fn build_url(&self) -> (r: String)
        ensures
            r@ == url_of(self@),
    {
        let mut url = String::new();
        if self.use_tls {
            url.append("rediss://");
        } else {
            url.append("redis://");
        }
        match &self.password {
            Some(p) => {
                url.append(":");
                url.append(p.as_str());
                url.append("@");
            },
            None => {},
        }
        url.append(self.host.as_str());
        url.append(":");
        push_decimal(&mut url, self.port as u64);
        let ghost authority = url@;
        match self.db {
            Some(d) => {
                url.append("/");
                push_decimal(&mut url, d as u64);
            },
            None => {},
        }
        if self.use_tls && self.insecure {
            url.append("#insecure");
        }
        assert(authority =~= authority_of(self@));
        assert(url@ =~= url_of(self@));
        url
    }

    /// A client for the URL of these settings; it fails where the client
    /// cannot parse that URL. No connection is made yet.
    pub fn client(&self) -> (r: Result<redis::Client, redis::RedisError>)
        ensures
            r is Ok <==> accepts_url(url_of(self@)),
    {
        open_client(self.build_url())
    }
}

impl RedisConfigBuilder {
    /// A builder with the default settings.
    pub fn new() -> (r: Self)
        ensures
            r@ == default_view(),
    {
        let r = RedisConfigBuilder {
            host: String::from_str("127.0.0.1"),
            port: TLS_PORT,
            use_tls: true,
            insecure: true,
            password: None,
            db: Some(0),
        };
        assert(r@ =~= default_view());
        r
    }

    /// Sets the host name or address.
    pub fn host(self, host: &str) -> (r: Self)
        ensures
            r@ == (ConfigView { host: host@, ..self@ }),
    {
        RedisConfigBuilder { host: String::from_str(host), ..self }
    }

    /// Sets the port.
    pub fn port(self, port: u16) -> (r: Self)
        ensures
            r@ == (ConfigView { port, ..self@ }),
    {
        RedisConfigBuilder { port, ..self }
    }

    /// Switches TLS on, with certificate checks skipped when `insecure`; a
    /// port still at the plain default moves to the TLS default.
    pub fn tls(self, insecure: bool) -> (r: Self)
        ensures
            r@ == tls_view(self@, insecure),
    {
        let port = if self.port == PLAIN_PORT { TLS_PORT } else { self.port };
        RedisConfigBuilder { use_tls: true, insecure, port, ..self }
    }

    /// Sets the password, which is put in the URL as it is.
    pub fn password(self, password: &str) -> (r: Self)
        ensures
            r@ == (ConfigView { password: Some(password@), ..self@ }),
    {
        RedisConfigBuilder { password: Some(String::from_str(password)), ..self }
    }

    /// Selects the logical database by its index.
    pub fn db(self, db: u8) -> (r: Self)
        ensures
            r@ == (ConfigView { db: Some(db), ..self@ }),
    {
        RedisConfigBuilder { db: Some(db), ..self }
    }

    /// Freezes the staged settings.
    pub fn build(self) -> (r: RedisConfig)
        ensures
            r@ == self@,
    {
        RedisConfig {
            host: self.host,
            port: self.port,
            use_tls: self.use_tls,
            insecure: self.insecure,
            password: self.password,
            db: self.db,
        }
    }
}

/// A builder's port is the TLS default or the plain default unless it was
/// set explicitly. From either, switching TLS on gives a URL that names the
/// TLS port, under the encrypted scheme.
pub proof fn lemma_tls_default_port(v: ConfigView, insecure: bool)
    requires
        v.port == PLAIN_PORT || v.port == TLS_PORT,
    ensures
        tls_view(v, insecure).port == TLS_PORT,
        authority_of(tls_view(v, insecure)) == "rediss://"@ + auth_of(v.password) + v.host
            + ":6380"@,
{
    assert(decimal(6380) =~= "6380"@) by {
        reveal_strlit("6380");
        reveal_with_fuel(decimal, 5);
    }
    assert(":"@ + "6380"@ =~= ":6380"@) by {
        reveal_strlit(":");
        reveal_strlit("6380");
        reveal_strlit(":6380");
    }
    let w = tls_view(v, insecure);
    assert(authority_of(w) =~= "rediss://"@ + auth_of(v.password) + v.host + (":"@ + "6380"@));
}

/// Without a password the URL has no `@` ahead of the host: the host follows
/// the scheme directly.
pub proof fn lemma_no_password_no_credentials(v: ConfigView)
    requires
        v.password is None,
    ensures
        url_of(v) == scheme_of(v.use_tls) + v.host + ":"@ + decimal(v.port as nat) + db_of(v.db)
            + fragment_of(v),
        forall|i: int| 0 <= i < scheme_of(v.use_tls).len() ==> #[trigger] url_of(v)[i] != '@',
{
    reveal_strlit("rediss://");
    reveal_strlit("redis://");
    let head = scheme_of(v.use_tls);
    let tail = v.host + ":"@ + decimal(v.port as nat) + db_of(v.db) + fragment_of(v);
    assert(url_of(v) =~= head + tail);
    assert(url_of(v) =~= scheme_of(v.use_tls) + v.host + ":"@ + decimal(v.port as nat) + db_of(
        v.db,
    ) + fragment_of(v));
    assert forall|i: int| 0 <= i < head.len() implies #[trigger] url_of(v)[i] != '@' by {
        assert(url_of(v)[i] == head[i]);
    }
}

/// With a database index the URL's path is `/` and the index in decimal,
/// which reads back as the index; without one there is no path.
pub proof fn lemma_db_path(v: ConfigView)
    ensures
        v.db is None ==> url_of(v) == authority_of(v) + fragment_of(v),
        v.db is Some ==> url_of(v) == authority_of(v) + "/"@ + decimal(v.db->0 as nat)
            + fragment_of(v),
        v.db is Some ==> parse_u32_spec(decimal(v.db->0 as nat)) == Some(v.db->0 as u32),
{
    if v.db is None {
        assert(url_of(v) =~= authority_of(v) + fragment_of(v));
    } else {
        lemma_parse_decimal(v.db->0 as u32);
        assert(url_of(v) =~= authority_of(v) + "/"@ + decimal(v.db->0 as nat) + fragment_of(v));
    }
}

/// `tls(true)` gives a URL that ends in exactly `#insecure`; `tls(false)`
/// gives the same URL without that fragment.
pub proof fn lemma_insecure_fragment(v: ConfigView)
    ensures
        ({
            let u = url_of(tls_view(v, true));
            &&& u.len() >= 9
            &&& u.subrange(u.len() - 9, u.len() as int) == "#insecure"@
            &&& url_of(tls_view(v, false)) == u.subrange(0, u.len() - 9)
        }),
{
    reveal_strlit("#insecure");
    let u = url_of(tls_view(v, true));
    let base = authority_of(tls_view(v, false)) + db_of(v.db);
    assert(authority_of(tls_view(v, true)) == authority_of(tls_view(v, false)));
    assert(u =~= base + "#insecure"@);
    assert(u.subrange(u.len() - 9, u.len() as int) =~= "#insecure"@);
    assert(url_of(tls_view(v, false)) =~= u.subrange(0, u.len() - 9));
}

impl Default for RedisConfigBuilder {
    fn default() -> (r: Self)
        ensures
            r@ == default_view(),
    {
        RedisConfigBuilder::new()
    }
}

} // verus!
