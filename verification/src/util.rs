use rand::Rng;
use vstd::prelude::*;

use crate::text::{push_signed_decimal, signed_decimal};

verus! {

/// The service's settings: where it listens, its database, its cache.
pub struct Config {
    pub server: Option<ConfigServer>,
    pub database: Option<ConfigDatabase>,
    pub redis: Option<ConfigRedis>,
}

/// Where the service listens.
pub struct ConfigServer {
    pub path: Option<String>,
    pub port: Option<i64>,
    pub tls: Option<bool>,
}

/// How the service reaches its database.
pub struct ConfigDatabase {
    pub url: Option<String>,
    pub name: Option<String>,
    pub username: Option<String>,
    pub password: Option<String>,
}

/// How the service reaches its cache.
pub struct ConfigRedis {
    pub url: String,
    pub username: String,
    pub password: String,
    pub expire: i64,
}

impl Default for Config {
    fn default() -> (r: Config)
        ensures
            r.server is None,
            r.database is None,
            r.redis is None,
    {
        Config { server: None, database: None, redis: None }
    }
}

impl Default for ConfigServer {
    fn default() -> (r: ConfigServer)
        ensures
            r.path matches Some(p) && p@ == "0.0.0.0"@,
            r.port == Some(9011i64),
            r.tls == Some(false),
    {
        ConfigServer { path: Some(String::from_str("0.0.0.0")), port: Some(9011), tls: Some(false) }
    }
}

impl Default for ConfigDatabase {
    fn default() -> (r: ConfigDatabase)
        ensures
            r.url is None,
            r.name is None,
            r.username is None,
            r.password is None,
    {
        ConfigDatabase { url: None, name: None, username: None, password: None }
    }
}

impl Default for ConfigRedis {
    fn default() -> (r: ConfigRedis)
        ensures
            r.url@ == Seq::<char>::empty(),
            r.username@ == Seq::<char>::empty(),
            r.password@ == Seq::<char>::empty(),
            r.expire == 0,
    {
        ConfigRedis { url: String::new(), username: String::new(), password: String::new(), expire: 0 }
    }
}

/// The address the service listens on: `path:port` from the server settings, with
/// 0.0.0.0 and 9011 for what they leave out, or 0.0.0.0:9011 without server settings.
pub open spec fn listen_address(c: Config) -> Seq<char> {
    match c.server {
        Some(s) => (match s.path {
            Some(p) => p@,
            None => "0.0.0.0"@,
        }) + seq![':'] + signed_decimal(s.port.unwrap_or(9011i64) as int),
        None => "0.0.0.0:9011"@,
    }
}

impl Config {
    /// The address the service listens on (see `listen_address`).
    pub fn server_address(&self) -> (r: String)
        ensures
            r@ == listen_address(*self),
    {
        match &self.server {
            Some(server) => {
                let mut s = match &server.path {
                    Some(p) => p.clone(),
                    None => String::from_str("0.0.0.0"),
                };
                let ghost host = s@;
                s.append(":");
                let port = match server.port {
                    Some(p) => p,
                    None => 9011,
                };
                push_signed_decimal(&mut s, port);
                proof {
                    reveal_strlit(":");
                    assert(s@ =~= host + seq![':'] + signed_decimal(port as int));
                }
                s
            },
            None => String::from_str("0.0.0.0:9011"),
        }
    }
}

/// What a league's access token claims: the subject `code@org.void` and the company `code`.
pub struct Claims {
    pub sub: String,
    pub company: String,
}

/// `len` random bytes from the thread's generator.
/// Trusted: `rand::Rng::fill` on `rand::thread_rng()` fills the whole buffer, so the
/// result has `len` bytes; which bytes is chance, and nothing is said of them.
#[verifier::external_body]
fn random_bytes(len: usize) -> (r: Vec<u8>)
    ensures
        r@.len() == len,
{
    let mut bytes = vec![0u8; len];
    rand::thread_rng().fill(&mut bytes[..]);
    bytes
}

/// What a league's access token is made of: its claims (see `Claims`) and a fresh
/// random 32-byte signing secret.
pub fn new_token_parts(league_code: &str) -> (r: (Claims, Vec<u8>))
    ensures
        r.0.sub@ == league_code@ + "@org.void"@,
        r.0.company@ == league_code@,
        r.1@.len() == 32,
{
    let mut sub = String::from_str(league_code);
    sub.append("@org.void");
    let company = String::from_str(league_code);
    let key = random_bytes(32);
    (Claims { sub, company }, key)
}

} // verus!

verus! {

/// The listen address is the host, a ':' and the port, each chosen on its own: the
/// configured path or 0.0.0.0, and the configured port (written in decimal) or 9011;
/// without server settings it is 0.0.0.0:9011.
pub proof fn listen_address_takes_host_and_port_independently(c: Config)
    ensures
        c.server is None ==> listen_address(c) == "0.0.0.0:9011"@,
        c.server matches Some(s) ==> {
            let a = listen_address(c);
            let port = signed_decimal(s.port.unwrap_or(9011i64) as int);
            let host_len: int = match s.path {
                Some(p) => p@.len() as int,
                None => 7,
            };
            &&& a.len() == host_len + 1 + port.len()
            &&& a[host_len as int] == ':'
            &&& a.skip(host_len + 1int) == port
            &&& (s.port matches Some(p) ==> a.skip(host_len + 1int) == signed_decimal(p as int))
            &&& (s.port is None ==> a.skip(host_len + 1int) == signed_decimal(9011))
            &&& (s.path matches Some(p) ==> a.take(host_len) == p@)
            &&& (s.path is None ==> a.take(host_len) == "0.0.0.0"@)
        },
{
    reveal_strlit("0.0.0.0");
    if let Some(s) = c.server {
        let a = listen_address(c);
        let host = match s.path {
            Some(p) => p@,
            None => "0.0.0.0"@,
        };
        let port = signed_decimal(s.port.unwrap_or(9011i64) as int);
        assert(a == host + seq![':'] + port);
        assert(a.skip(host.len() + 1int) =~= port);
        assert(a.take(host.len() as int) =~= host);
    }
}

} // verus!
