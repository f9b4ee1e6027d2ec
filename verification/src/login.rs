use vstd::prelude::*;
use vstd::string::*;

verus! {

/// The exit report of one run of the external login program. Produced once
/// per attempt and consumed immediately; `exit_code` is 0 when `success`
/// holds and carries the process's nonzero code otherwise (or -1 when the
/// process ended without a code).
#[derive(Debug, Clone, Copy, PartialEq, Eq, Structural)]
pub struct ProcessOutcome {
    pub success: bool,
    pub exit_code: i32,
}

/// Why one login attempt failed. Never fatal: the scheduler logs it and
/// keeps its retry cadence.
#[derive(Debug, Clone, Copy, PartialEq, Eq, Structural)]
pub enum LoginFailure {
    /// The resolver exhausted its attempts without finding a login URL.
    UrlNotFound,
    /// The external login program exited with this nonzero code.
    ProcessFailed { exit_code: i32 },
}

/// The login worker: holds the credentials and decides, for each attempt,
/// what the external login program is handed and how its exit is read.
pub struct LoginTask {
    pub username: String,
    pub password: String,
    pub domain: String,
}

impl LoginTask {
    pub fn new(username: String, password: String, domain: String) -> (r: LoginTask)
        ensures
            r.username == username,
            r.password == password,
            r.domain == domain,
    {
        LoginTask { username, password, domain }
    }

    /// The environment handed to the external login program: the runtime-mode
    /// flag, the login URL resolved for this one attempt, and the three
    /// credential values, in that order.
    pub fn login_env(&self, url: &str, development_mode: bool) -> (r: Vec<(String, String)>)
        ensures
            r@.len() == 5,
            r@[0].0@ == "NODE_ENV"@,
            development_mode ==> r@[0].1@ == "development"@,
            !development_mode ==> r@[0].1@ == "production"@,
            r@[1].0@ == "XDWLAN_LOGIN_URL"@,
            r@[1].1@ == url@,
            r@[2].0@ == "XDWLAN_USERNAME"@,
            r@[2].1@ == self.username@,
            r@[3].0@ == "XDWLAN_PASSWORD"@,
            r@[3].1@ == self.password@,
            r@[4].0@ == "XDWLAN_DOMAIN"@,
            r@[4].1@ == self.domain@,
    {
        let mode: &str = if development_mode {
            "development"
        } else {
            "production"
        };
        let mut v: Vec<(String, String)> = Vec::new();
        v.push((String::from_str("NODE_ENV"), String::from_str(mode)));
        v.push((String::from_str("XDWLAN_LOGIN_URL"), url.to_owned()));
        v.push((String::from_str("XDWLAN_USERNAME"), self.username.clone()));
        v.push((String::from_str("XDWLAN_PASSWORD"), self.password.clone()));
        v.push((String::from_str("XDWLAN_DOMAIN"), self.domain.clone()));
        v
    }
}

/// Reads the exit of the external login program: success exactly on exit
/// status zero, and any other exit surfaces as a failure carrying that code.
pub fn login_result(outcome: &ProcessOutcome) -> (r: Result<(), LoginFailure>)
    ensures
        outcome.success ==> r is Ok,
        !outcome.success ==> (r matches Err(LoginFailure::ProcessFailed { exit_code })
            && exit_code == outcome.exit_code),
{
    if outcome.success {
        Ok(())
    } else {
        Err(LoginFailure::ProcessFailed { exit_code: outcome.exit_code })
    }
}

} // verus!
