use vstd::prelude::*;
use vstd::string::*;

verus! {

/// A character that may appear in the path-and-query part of a login URL.
pub open spec fn url_char(c: char) -> bool {
    let v = c as u32;
    ||| ('a' as u32) <= v && v <= ('z' as u32)
    ||| ('A' as u32) <= v && v <= ('Z' as u32)
    ||| ('0' as u32) <= v && v <= ('9' as u32)
    ||| c == '.'
    ||| c == '/'
    ||| c == '_'
    ||| c == '?'
    ||| c == '='
    ||| c == '&'
    ||| c == '-'
    ||| c == '%'
}

fn is_url_char(c: char) -> (r: bool)
    ensures
        r == url_char(c),
{
    let v = c as u32;
    let letter = (('a' as u32) <= v && v <= ('z' as u32)) || (('A' as u32) <= v && v <= ('Z'
        as u32));
    let digit = ('0' as u32) <= v && v <= ('9' as u32);
    letter || digit || c == '.' || c == '/' || c == '_' || c == '?' || c == '=' || c == '&' || c
        == '-' || c == '%'
}

/// The opening of a matching form-action attribute: the attribute name, its
/// opening quote, and the scheme-and-host prefix every accepted login URL
/// carries. The quote and everything before it are not part of the URL.
pub open spec fn action_head() -> Seq<char> {
    "action=\"https://w.example.edu"@
}

/// How many characters of [`action_head`] precede the URL itself.
pub open spec fn attr_open_len() -> int {
    8
}

/// End of the run of URL characters that starts at `j`: the first index at or
/// after `j` that is past the end of `s` or holds a non-URL character.
pub open spec fn run_end(s: Seq<char>, j: int) -> int
    recommends
        0 <= j <= s.len(),
    decreases s.len() - j when 0 <= j <= s.len()
{
    if j >= s.len() || !url_char(s[j]) {
        j
    } else {
        run_end(s, j + 1)
    }
}

proof fn lemma_run_end_is(s: Seq<char>, j: int, m: int)
    requires
        0 <= j <= m <= s.len(),
        forall|k: int| j <= k < m ==> url_char(s[k]),
        m < s.len() ==> !url_char(s[m]),
    ensures
        run_end(s, j) == m,
    decreases m - j,
{
    if j < m {
        lemma_run_end_is(s, j + 1, m);
    }
}

/// The pattern `action="https://w.example.edu<run>"` matches at `i`: the head
/// stands at `i`, a nonempty run of URL characters follows it, and the
/// character that ends the run is the closing quote.
pub open spec fn hit_at(s: Seq<char>, i: int) -> bool {
    let h = action_head().len() as int;
    let m = run_end(s, i + h);
    &&& 0 <= i
    &&& i + h <= s.len()
    &&& s.subrange(i, i + h) == action_head()
    &&& m > i + h
    &&& m < s.len()
    &&& s[m] == '"'
}

/// The URL captured by a match at `i`: everything between the quotes, that
/// is the scheme-and-host prefix together with the run that follows it.
pub open spec fn capture_at(s: Seq<char>, i: int) -> Seq<char> {
    s.subrange(i + attr_open_len(), run_end(s, i + action_head().len() as int))
}

/// Position of the leftmost match at or after `i`, if any.
pub open spec fn first_hit_from(s: Seq<char>, i: int) -> Option<int>
    decreases s.len() - i when 0 <= i
{
    if i >= s.len() {
        None
    } else if hit_at(s, i) {
        Some(i)
    } else {
        first_hit_from(s, i + 1)
    }
}

/// The login URL a portal page offers: the capture of the leftmost match of
/// the form-action pattern, or nothing when no match exists.
pub open spec fn login_url_of(s: Seq<char>) -> Option<Seq<char>> {
    match first_hit_from(s, 0) {
        Some(i) => Some(capture_at(s, i)),
        None => None,
    }
}

proof fn lemma_first_hit_some(s: Seq<char>, j: int, i: int)
    requires
        0 <= j <= i,
        hit_at(s, i),
        forall|k: int| j <= k < i ==> !hit_at(s, k),
    ensures
        first_hit_from(s, j) == Some(i),
    decreases i - j,
{
    if j < i {
        lemma_first_hit_some(s, j + 1, i);
    }
}

proof fn lemma_first_hit_none(s: Seq<char>, j: int)
    requires
        0 <= j,
        forall|k: int| j <= k ==> !hit_at(s, k),
    ensures
        first_hit_from(s, j) is None,
    decreases s.len() - j,
{
    if j < s.len() {
        lemma_first_hit_none(s, j + 1);
    }
}

fn str_prefix_at(s: &str, i: usize, pat: &str) -> (r: bool)
    requires
        i + pat@.len() <= s@.len(),
    ensures
        r == (s@.subrange(i as int, i + pat@.len()) == pat@),
{
    let pl = pat.unicode_len();
    let sl = s.unicode_len();
    let ghost sub = s@.subrange(i as int, i + pat@.len());
    let mut j: usize = 0;
    while j < pl
        invariant
            j <= pl,
            pl == pat@.len(),
            sl == s@.len(),
            i + pl <= s@.len(),
            sub == s@.subrange(i as int, i + pl as int),
            forall|k: int| 0 <= k < j ==> s@[i + k] == pat@[k],
        decreases pl - j,
    {
        let cs = s.get_char(i + j);
        let cp = pat.get_char(j);
        if cs != cp {
            proof {
                assert(sub[j as int] == s@[i + j]);
                assert(sub != pat@);
            }
            return false;
        }
        j = j + 1;
    }
    proof {
        assert forall|k: int| 0 <= k < pl implies sub[k] == pat@[k] by {
            assert(sub[k] == s@[i + k]);
        }
        assert(sub =~= pat@);
    }
    true
}

/// Scans a portal page for the leftmost match of the login-form action
/// pattern and returns the URL it captures, or `None` when the page holds no
/// match.
pub fn extract_login_url(body: &str) -> (r: Option<String>)
    ensures
        match r {
            Some(u) => login_url_of(body@) == Some(u@),
            None => login_url_of(body@) is None,
        },
{
    let n = body.unicode_len();
    let head: &str = "action=\"https://w.example.edu";
    let attr_open: &str = "action=\"";
    proof {
        reveal_strlit("action=\"https://w.example.edu");
        reveal_strlit("action=\"");
    }
    let h = head.unicode_len();
    let open_len = attr_open.unicode_len();
    proof {
        assert(head@ == action_head());
        assert(open_len as int == attr_open_len());
        assert(open_len <= h);
    }
    if n < h {
        proof {
            assert forall|k: int| 0 <= k implies !hit_at(body@, k) by {
                assert(k + action_head().len() > n);
            }
            lemma_first_hit_none(body@, 0);
        }
        return None;
    }
    let mut i: usize = 0;
    while i <= n - h
        invariant
            n == body@.len(),
            h == action_head().len(),
            head@ == action_head(),
            open_len as int == attr_open_len(),
            open_len <= h,
            h <= n,
            i <= n - h + 1,
            forall|k: int| 0 <= k < i ==> !hit_at(body@, k),
        decreases n - i,
    {
        if str_prefix_at(body, i, head) {
            let mut m: usize = i + h;
            while m < n && is_url_char(body.get_char(m))
                invariant
                    n == body@.len(),
                    i + h <= m <= n,
                    forall|k: int| i + h <= k < m ==> url_char(body@[k]),
                decreases n - m,
            {
                m = m + 1;
            }
            proof {
                lemma_run_end_is(body@, i + h, m as int);
            }
            if m > i + h && m < n {
                let q = body.get_char(m);
                if q == '"' {
                    proof {
                        assert(hit_at(body@, i as int));
                        lemma_first_hit_some(body@, 0, i as int);
                    }
                    let url = body.substring_char(i + open_len, m);
                    return Some(url.to_owned());
                }
                proof {
                    assert(body@[m as int] != '"');
                    assert(!hit_at(body@, i as int));
                }
            } else {
                proof {
                    assert(!hit_at(body@, i as int));
                }
            }
        } else {
            proof {
                assert(!hit_at(body@, i as int));
            }
        }
        i = i + 1;
    }
    proof {
        assert forall|k: int| 0 <= k implies !hit_at(body@, k) by {
            if i <= k {
                assert(k + action_head().len() > n);
            }
        }
        lemma_first_hit_none(body@, 0);
    }
    None
}

/// How many portal-page fetches the resolver may spend before it gives up.
pub const MAX_RESOLVE_ATTEMPTS: u8 = 5;

/// What one resolution attempt learned. `body` is `Some` when the fetch got
/// a response body and `None` on a transport error; the attempt yields a URL
/// exactly when a body arrived and holds a match.
pub open spec fn fetch_yields(body: Option<Seq<char>>) -> Option<Seq<char>> {
    match body {
        Some(b) => login_url_of(b),
        None => None,
    }
}

/// What the resolver answers after feeding one fetch outcome.
pub enum ResolveProgress {
    /// A fetched body held a matching form action; its capture is the login
    /// URL, valid only for the attempt that discovered it.
    Found(String),
    /// No URL yet and attempts remain: fetch once more.
    Retry,
    /// No URL after the last allowed attempt: resolution failed.
    Exhausted,
}

/// The bounded login-URL resolver: counts the fetches already spent and
/// decides, for each fetched page, whether resolution has succeeded, should
/// retry, or is exhausted.
pub struct Resolver {
    pub attempts: u8,
}

impl Resolver {
    pub fn new() -> (r: Resolver)
        ensures
            r.attempts == 0,
    {
        Resolver { attempts: 0 }
    }

    /// True once the resolver has spent all its fetches.
    pub fn exhausted(&self) -> (r: bool)
        ensures
            r == (self.attempts >= MAX_RESOLVE_ATTEMPTS),
    {
        self.attempts >= MAX_RESOLVE_ATTEMPTS
    }

    /// Feeds the outcome of one portal-page fetch: `Some` body or a
    /// transport error. Each call spends one attempt; the resolver answers
    /// `Found` exactly when the body holds a match, and otherwise `Retry`
    /// until the budget is spent and `Exhausted` on the last attempt.
    pub fn offer(&mut self, body: Option<&str>) -> (r: ResolveProgress)
        requires
            old(self).attempts < MAX_RESOLVE_ATTEMPTS,
        ensures
            final(self).attempts == old(self).attempts + 1,
            match body {
                Some(b) => match login_url_of(b@) {
                    Some(u) => r matches ResolveProgress::Found(g) && g@ == u,
                    None => r == (if final(self).attempts < MAX_RESOLVE_ATTEMPTS {
                        ResolveProgress::Retry
                    } else {
                        ResolveProgress::Exhausted
                    }),
                },
                None => r == (if final(self).attempts < MAX_RESOLVE_ATTEMPTS {
                    ResolveProgress::Retry
                } else {
                    ResolveProgress::Exhausted
                }),
            },
    {
        self.attempts = self.attempts + 1;
        let found: Option<String> = match body {
            Some(b) => extract_login_url(b),
            None => None,
        };
        match found {
            Some(u) => ResolveProgress::Found(u),
            None => {
                if self.attempts < MAX_RESOLVE_ATTEMPTS {
                    ResolveProgress::Retry
                } else {
                    ResolveProgress::Exhausted
                }
            },
        }
    }
}

/// Outcome of the resolution loop from attempt `i` on, over the fetch
/// outcomes `bodies` taken in order: the URL of the first yielding fetch
/// among those the budget still allows, or nothing.
pub open spec fn resolve_from(bodies: Seq<Option<Seq<char>>>, i: int) -> Option<Seq<char>>
    decreases MAX_RESOLVE_ATTEMPTS - i when i >= 0
{
    if i >= MAX_RESOLVE_ATTEMPTS || i >= bodies.len() {
        None
    } else {
        match fetch_yields(bodies[i]) {
            Some(u) => Some(u),
            None => resolve_from(bodies, i + 1),
        }
    }
}

/// What resolution returns when the fetches answer as `bodies` says, in
/// order: the URL of the first of the at most five fetches that holds a
/// match, or nothing — the caller then fails with its URL-not-found error.
pub open spec fn resolve_outcome(bodies: Seq<Option<Seq<char>>>) -> Option<Seq<char>> {
    resolve_from(bodies, 0)
}

proof fn lemma_resolve_from_prefix(b1: Seq<Option<Seq<char>>>, b2: Seq<Option<Seq<char>>>, i: int)
    requires
        0 <= i,
        b1.len() >= MAX_RESOLVE_ATTEMPTS,
        b2.len() >= MAX_RESOLVE_ATTEMPTS,
        forall|k: int| 0 <= k < MAX_RESOLVE_ATTEMPTS ==> b1[k] == b2[k],
    ensures
        resolve_from(b1, i) == resolve_from(b2, i),
    decreases MAX_RESOLVE_ATTEMPTS - i,
{
    if i < MAX_RESOLVE_ATTEMPTS {
        lemma_resolve_from_prefix(b1, b2, i + 1);
    }
}

/// Resolution attempts at most five fetches: its outcome depends on the
/// first five fetch outcomes alone, and never on any later one.
pub proof fn lemma_resolve_uses_at_most_five(b1: Seq<Option<Seq<char>>>, b2: Seq<Option<Seq<char>>>)
    requires
        b1.len() >= MAX_RESOLVE_ATTEMPTS,
        b2.len() >= MAX_RESOLVE_ATTEMPTS,
        forall|k: int| 0 <= k < MAX_RESOLVE_ATTEMPTS ==> b1[k] == b2[k],
    ensures
        resolve_outcome(b1) == resolve_outcome(b2),
{
    lemma_resolve_from_prefix(b1, b2, 0);
}

proof fn lemma_resolve_from_none(bodies: Seq<Option<Seq<char>>>, i: int)
    requires
        0 <= i,
        forall|k: int| 0 <= k < bodies.len() && k < MAX_RESOLVE_ATTEMPTS
            ==> fetch_yields(bodies[k]) is None,
    ensures
        resolve_from(bodies, i) is None,
    decreases MAX_RESOLVE_ATTEMPTS - i,
{
    if i < MAX_RESOLVE_ATTEMPTS && i < bodies.len() {
        lemma_resolve_from_none(bodies, i + 1);
    }
}

/// When none of the first five fetches holds a matching form action,
/// resolution yields nothing: the caller reports its URL-not-found error.
pub proof fn lemma_resolve_exhaustion(bodies: Seq<Option<Seq<char>>>)
    requires
        forall|k: int| 0 <= k < bodies.len() && k < MAX_RESOLVE_ATTEMPTS
            ==> fetch_yields(bodies[k]) is None,
    ensures
        resolve_outcome(bodies) is None,
{
    lemma_resolve_from_none(bodies, 0);
}

} // verus!
