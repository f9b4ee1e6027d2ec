use vstd::prelude::*;

verus! {

/// A domain token the portal accepts: one of the three carrier suffixes, or
/// the empty string, which selects the campus default.
pub open spec fn valid_domain(s: Seq<char>) -> bool {
    ||| s == ""@
    ||| s == "@dx"@
    ||| s == "@lt"@
    ||| s == "@yd"@
}

/// Why a credential record was rejected at startup.
#[derive(Debug, Clone, Copy, PartialEq, Eq, Structural)]
pub enum ConfigError {
    /// The domain is neither empty nor one of the accepted tokens.
    InvalidDomain,
}

/// The credentials the login loop runs with. Immutable for the lifetime of
/// the process; built once at startup through [`Config::new`], which is the
/// only place the domain token is checked.
pub struct Config {
    pub username: String,
    pub password: String,
    pub domain: String,
}

fn str_eq(a: &str, b: &str) -> (r: bool)
    ensures
        r == (a@ == b@),
{
    let oa = a.to_owned();
    let ob = b.to_owned();
    oa == ob
}

/// Accepts exactly the domain tokens of [`valid_domain`].
pub fn check_domain(domain: &str) -> (r: bool)
    ensures
        r == valid_domain(domain@),
{
    str_eq(domain, "") || str_eq(domain, "@dx") || str_eq(domain, "@lt") || str_eq(domain, "@yd")
}

impl Config {
    /// Builds the credential record, rejecting any domain outside the
    /// accepted set. A rejected domain is a fatal startup error for the
    /// caller: the loop never starts on an invalid configuration.
    pub fn new(username: String, password: String, domain: String) -> (r: Result<Config, ConfigError>)
        ensures
            r is Ok <==> valid_domain(domain@),
            r matches Ok(c) ==> c.username == username && c.password == password
                && c.domain == domain,
            !valid_domain(domain@) ==> r == Err::<Config, ConfigError>(ConfigError::InvalidDomain),
    {
        if check_domain(domain.as_str()) {
            Ok(Config { username, password, domain })
        } else {
            Err(ConfigError::InvalidDomain)
        }
    }
}

} // verus!
