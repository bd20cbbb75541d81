//! Configuration shapes and their defaults. Reading a configuration file
//! is the surrounding program's concern.

use vstd::prelude::*;

verus! {

/// The whole configuration.
#[derive(Clone, Debug)]
pub struct Config {
    pub host: Host,
    pub database: Database,
    pub hcaptcha: HCaptcha,
}

/// Where the service listens, and how its session cookie is shaped.
#[derive(Clone, Debug)]
pub struct Host {
    pub bind: String,
    pub cookie: Cookie,
}

/// Session cookie settings. The key stays private to this type.
#[derive(Clone, Debug)]
pub struct Cookie {
    key: String,
    domain: String,
    name: String,
    path: String,
    secure: bool,
}

/// Connection settings of the storage engine.
#[derive(Clone, Debug)]
pub struct Database {
    pub username: String,
    pub password: String,
    pub host: String,
    pub port: u16,
    pub database: String,
}

/// Credentials of the captcha verification service.
#[derive(Clone, Debug)]
pub struct HCaptcha {
    pub site_key: String,
    pub secret: String,
}

impl Cookie {
    /// Assembles cookie settings.
    pub fn new(key: String, domain: String, name: String, path: String, secure: bool) -> (r: Cookie)
        ensures
            r.key() == key,
            r.domain_spec() == domain,
            r.name_spec() == name,
            r.path_spec() == path,
            r.secure_spec() == secure,
    {
        Cookie { key, domain, name, path, secure }
    }

    /// The base64-encoded signing key.
    pub closed spec fn key(&self) -> String {
        self.key
    }

    /// The cookie's domain.
    pub fn domain(&self) -> (r: &String)
        ensures
            *r == self.domain_spec(),
    {
        &self.domain
    }

    /// The cookie's domain.
    pub closed spec fn domain_spec(&self) -> String {
        self.domain
    }

    /// The cookie's name.
    pub fn name(&self) -> (r: &String)
        ensures
            *r == self.name_spec(),
    {
        &self.name
    }

    /// The cookie's name.
    pub closed spec fn name_spec(&self) -> String {
        self.name
    }

    /// The cookie's path.
    pub fn path(&self) -> (r: &String)
        ensures
            *r == self.path_spec(),
    {
        &self.path
    }

    /// The cookie's path.
    pub closed spec fn path_spec(&self) -> String {
        self.path
    }

    /// Whether the cookie is marked secure.
    pub fn secure(&self) -> (r: bool)
        ensures
            r == self.secure_spec(),
    {
        self.secure
    }

    /// Whether the cookie is marked secure.
    pub closed spec fn secure_spec(&self) -> bool {
        self.secure
    }

    /// The signing key, handed out only to build the session middleware.
    pub fn signing_key(&self) -> (r: &String)
        ensures
            *r == self.key(),
    {
        &self.key
    }
}

/// Default listen address.
pub fn default_bind() -> (r: String)
    ensures
        r@ == "127.0.0.1:8080"@,
{
    String::from_str("127.0.0.1:8080")
}

/// Default session cookie name.
pub fn default_cookie_name() -> (r: String)
    ensures
        r@ == "session"@,
{
    String::from_str("session")
}

/// Default session cookie path.
pub fn default_cookie_path() -> (r: String)
    ensures
        r@ == "/"@,
{
    String::from_str("/")
}

/// Default storage engine port.
pub fn default_port() -> (r: u16)
    ensures
        r == 5432,
{
    5432
}

/// Default for flags that are on unless switched off.
pub fn default_true() -> (r: bool)
    ensures
        r == true,
{
    true
}

} // verus!
