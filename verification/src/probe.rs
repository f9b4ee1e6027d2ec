use vstd::prelude::*;

verus! {

/// What the connectivity probe concludes from one observation: online exactly
/// when the connectivity-check endpoint answered with status 204.
pub open spec fn online_spec(code: Option<u16>) -> bool {
    code == Some(204u16)
}

/// Decides the online/offline answer from the status the probe observed.
/// `code` is `Some(status)` when the request got a response and `None` on any
/// transport error or timeout: only an exact 204 counts as online, every
/// other status and every error is treated as offline, and the decision never
/// fails.
pub fn online_status(code: Option<u16>) -> (r: bool)
    ensures
        r == online_spec(code),
{
    match code {
        Some(c) => c == 204,
        None => false,
    }
}

/// The probe's answer is a function of the observed network state alone:
/// two probes that observe the same response decide the same boolean, so
/// repeated checks against an unchanged network agree.
pub proof fn lemma_probe_deterministic(a: Option<u16>, b: Option<u16>)
    requires
        a == b,
    ensures
        online_spec(a) == online_spec(b),
{
}

} // verus!
