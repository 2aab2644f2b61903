use vstd::prelude::*;
use vstd::string::StrSliceExecFns;
use vstd::string::StringExecFns;

use crate::portal::PortalProfile;
use crate::text::{has_substring, str_contains};

verus! {

/// How many discovery fetches are made before giving up.
pub const MAX_ATTEMPTS: u32 = 5;

/// The login page used when no form action could be discovered.
pub const DEFAULT_LOGIN_URL: &'static str = "https://w.xidian.edu.cn/index_8.html";

/// Pattern of a form action attribute; its `url` group is the value.
pub const ACTION_PATTERN: &'static str = r#"action="(?P<url>[^"]*)""#;

/// The text in front of a form action's value.
pub const ACTION_LEAD: &'static str = "action=\"";

/// `t` holds `action="` at index `i`.
pub open spec fn lead_at(t: Seq<char>, i: int) -> bool {
    &&& 0 <= i
    &&& i + ACTION_LEAD@.len() <= t.len()
    &&& t.subrange(i, i + ACTION_LEAD@.len()) == ACTION_LEAD@
}

/// The index of the first `"` in `t` at or after `k`, or -1 if there is none.
pub open spec fn first_quote(t: Seq<char>, k: int) -> int
    decreases t.len() - k,
{
    if k < 0 || k >= t.len() {
        -1
    } else if t[k] == '"' {
        k
    } else {
        first_quote(t, k + 1)
    }
}

/// The leftmost form action at or after `from`: where `action="` starts, and
/// where the value's closing quote stands.
pub open spec fn next_action(t: Seq<char>, from: int) -> Option<(int, int)>
    decreases t.len() - from,
{
    if from < 0 || from >= t.len() {
        None
    } else if lead_at(t, from) && first_quote(t, from + ACTION_LEAD@.len()) >= 0 {
        Some((from, first_quote(t, from + ACTION_LEAD@.len())))
    } else {
        next_action(t, from + 1)
    }
}

/// The values of the successive, non-overlapping form actions of `t` from
/// index `from` on, in order.
pub open spec fn action_values_from(t: Seq<char>, from: int) -> Seq<Seq<char>>
    decreases t.len() - from,
{
    if from < 0 || from >= t.len() {
        Seq::empty()
    } else {
        match next_action(t, from) {
            Some((i, j)) => if from < j + 1 && j < t.len() {
                seq![t.subrange(i + ACTION_LEAD@.len(), j)] + action_values_from(t, j + 1)
            } else {
                Seq::empty()
            },
            None => Seq::empty(),
        }
    }
}

/// The values of all form actions of `t`, in order.
pub open spec fn action_values(t: Seq<char>) -> Seq<Seq<char>> {
    action_values_from(t, 0)
}

/// Relies on `regex::Regex::new` and `regex::Regex::captures_iter`: the
/// pattern compiles, and the iterator yields the successive non-overlapping
/// leftmost-first matches, each search starting where the last match ended;
/// the `url` group is the text between `action="` and the next quote.
#[verifier::external_body]
fn capture_action_values(pattern: &str, text: &str) -> (r: Vec<String>)
    requires
        pattern@ == ACTION_PATTERN@,
    ensures
        r@.map_values(|s: String| s@) == action_values(text@),
{
    match regex::Regex::new(pattern) {
        Ok(re) => re.captures_iter(text).map(|c| c["url"].to_string()).collect(),
        Err(_) => Vec::new(),
    }
}

/// A character admitted in the path of a login URL.
pub open spec fn is_url_char(c: char) -> bool {
    ||| ('a' <= c && c <= 'z')
    ||| ('A' <= c && c <= 'Z')
    ||| ('0' <= c && c <= '9')
    ||| c == '.'
    ||| c == '/'
    ||| c == '_'
    ||| c == '?'
    ||| c == '='
    ||| c == '&'
    ||| c == '-'
}

/// `u` is a login URL of the portal: its origin, then `/`, then URL
/// characters only.
pub open spec fn is_login_url(u: Seq<char>, origin: Seq<char>) -> bool {
    &&& u.len() > origin.len()
    &&& u.subrange(0, origin.len() as int) == origin
    &&& u[origin.len() as int] == '/'
    &&& forall|k: int| origin.len() < k < u.len() ==> is_url_char(#[trigger] u[k])
}

/// The first of the values that is a login URL of the portal.
pub open spec fn first_login_url(vs: Seq<Seq<char>>, origin: Seq<char>) -> Option<Seq<char>>
    decreases vs.len(),
{
    if vs.len() == 0 {
        None
    } else if is_login_url(vs[0], origin) {
        Some(vs[0])
    } else {
        first_login_url(vs.drop_first(), origin)
    }
}

fn is_url_char_exec(c: char) -> (b: bool)
    ensures
        b == is_url_char(c),
{
    ('a' <= c && c <= 'z') || ('A' <= c && c <= 'Z') || ('0' <= c && c <= '9') || c == '.' || c
        == '/' || c == '_' || c == '?' || c == '=' || c == '&' || c == '-'
}

/// Tells whether `u` is a login URL under `origin`: the origin, a `/` right
/// after it, and URL characters only.
pub fn is_login_url_exec(u: &str, origin: &str) -> (b: bool)
    ensures
        b == is_login_url(u@, origin@),
{
    let n = u.unicode_len();
    let m = origin.unicode_len();
    if n <= m {
        return false;
    }
    let mut k: usize = 0;
    while k < m
        invariant
            m == origin@.len(),
            n == u@.len(),
            m < n,
            k <= m,
            forall|q: int| 0 <= q < k ==> u@[q] == origin@[q],
        decreases m - k,
    {
        if u.get_char(k) != origin.get_char(k) {
            assert(u@.subrange(0, m as int)[k as int] != origin@[k as int]);
            return false;
        }
        k = k + 1;
    }
    assert(u@.subrange(0, m as int) =~= origin@);
    if u.get_char(m) != '/' {
        return false;
    }
    let mut k: usize = m + 1;
    while k < n
        invariant
            m < n,
            m == origin@.len(),
            n == u@.len(),
            u@.subrange(0, m as int) == origin@,
            u@[m as int] == '/',
            m + 1 <= k <= n,
            forall|q: int| m < q < k ==> is_url_char(#[trigger] u@[q]),
        decreases n - k,
    {
        let c = u.get_char(k);
        if !is_url_char_exec(c) {
            assert(!is_url_char(u@[k as int]));
            return false;
        }
        k = k + 1;
    }
    true
}

/// Skipping values that are no login URL keeps the first login URL.
proof fn lemma_first_login_url_skip(vs: Seq<Seq<char>>, origin: Seq<char>, i: int)
    requires
        0 <= i < vs.len(),
        !is_login_url(vs[i], origin),
    ensures
        first_login_url(vs.subrange(i, vs.len() as int), origin) == first_login_url(
            vs.subrange(i + 1, vs.len() as int),
            origin,
        ),
{
    let s = vs.subrange(i, vs.len() as int);
    assert(s.drop_first() =~= vs.subrange(i + 1, vs.len() as int));
}

/// Picks the first value that is a login URL under `origin`.
pub fn find_login_url(values: &Vec<String>, origin: &str) -> (r: Option<String>)
    ensures
        r matches Some(u) ==> first_login_url(values@.map_values(|s: String| s@), origin@)
            == Some(u@),
        r is None ==> first_login_url(values@.map_values(|s: String| s@), origin@) is None,
{
    let ghost vs = values@.map_values(|s: String| s@);
    let mut i: usize = 0;
    assert(vs.subrange(0, vs.len() as int) =~= vs);
    while i < values.len()
        invariant
            vs == values@.map_values(|s: String| s@),
            i <= values.len(),
            first_login_url(vs, origin@) == first_login_url(
                vs.subrange(i as int, vs.len() as int),
                origin@,
            ),
        decreases values.len() - i,
    {
        let v = &values[i];
        assert(vs[i as int] == v@);
        if is_login_url_exec(v.as_str(), origin) {
            let ghost s = vs.subrange(i as int, vs.len() as int);
            assert(s[0] == v@);
            return Some(v.clone());
        }
        proof {
            lemma_first_login_url_skip(vs, origin@, i as int);
        }
        i = i + 1;
    }
    None
}

/// What one discovery fetch brought back.
pub enum FetchResult {
    /// The request failed, or its body could not be read as text.
    TransportError,
    /// The response body as text.
    Body(String),
}

/// The login URL that a fetch reveals: a body that mentions the portal's
/// host is searched for the first form action whose value is a login URL
/// under the portal's origin.
pub open spec fn discovered(p: PortalProfile, f: FetchResult) -> Option<Seq<char>> {
    match f {
        FetchResult::TransportError => None,
        FetchResult::Body(b) => if has_substring(b@, p.host@) {
            first_login_url(action_values(b@), p.origin@)
        } else {
            None
        },
    }
}

/// A URL picked from a list of values is a login URL under the origin.
proof fn lemma_first_login_url_is_login_url(vs: Seq<Seq<char>>, origin: Seq<char>)
    requires
        first_login_url(vs, origin) is Some,
    ensures
        is_login_url(first_login_url(vs, origin)->Some_0, origin),
    decreases vs.len(),
{
    if !is_login_url(vs[0], origin) {
        lemma_first_login_url_is_login_url(vs.drop_first(), origin);
    }
}

/// Finds the login URL in a response body: only a body that mentions the
/// portal's host is searched for the form action.
pub fn discover_url(p: &PortalProfile, f: &FetchResult) -> (r: Option<String>)
    ensures
        r matches Some(u) ==> discovered(*p, *f) == Some(u@),
        r is None ==> discovered(*p, *f) is None,
        r matches Some(u) ==> is_login_url(u@, p.origin@),
{
    match f {
        FetchResult::TransportError => None,
        FetchResult::Body(b) => {
            if str_contains(b.as_str(), p.host.as_str()) {
                let values = capture_action_values(ACTION_PATTERN, b.as_str());
                let r = find_login_url(&values, p.origin.as_str());
                proof {
                    if r is Some {
                        lemma_first_login_url_is_login_url(action_values(b@), p.origin@);
                    }
                }
                r
            } else {
                None
            }
        },
    }
}

/// The decision after one discovery fetch, as a mathematical value.
pub enum Resolution {
    FetchAgain,
    Found(Seq<char>),
    Exhausted,
}

/// The decision after one discovery fetch.
pub enum ResolveStep {
    /// Nothing found yet: fetch once more.
    FetchAgain,
    /// The login URL was discovered: stop fetching.
    Found(String),
    /// Every attempt failed to discover a URL.
    Exhausted,
}

impl View for ResolveStep {
    type V = Resolution;

    open spec fn view(&self) -> Resolution {
        match self {
            ResolveStep::FetchAgain => Resolution::FetchAgain,
            ResolveStep::Found(u) => Resolution::Found(u@),
            ResolveStep::Exhausted => Resolution::Exhausted,
        }
    }
}

/// The decision after the fetch that brings the attempt count to
/// `attempts_made`.
pub open spec fn resolve_step_spec(p: PortalProfile, attempts_made: u32, f: FetchResult) -> Resolution {
    match discovered(p, f) {
        Some(u) => Resolution::Found(u),
        None => if attempts_made >= MAX_ATTEMPTS {
            Resolution::Exhausted
        } else {
            Resolution::FetchAgain
        },
    }
}

/// Decides what follows the fetch that made `attempts_made` attempts in all:
/// a discovered URL ends the search at once; otherwise the search goes on
/// until `MAX_ATTEMPTS` fetches were made. A transport error only uses up
/// its attempt.
pub fn resolve_step(p: &PortalProfile, attempts_made: u32, f: &FetchResult) -> (r: ResolveStep)
    ensures
        r@ == resolve_step_spec(*p, attempts_made, *f),
        r matches ResolveStep::Found(u) ==> is_login_url(u@, p.origin@),
{
    match discover_url(p, f) {
        Some(u) => ResolveStep::Found(u),
        None => if attempts_made >= MAX_ATTEMPTS {
            ResolveStep::Exhausted
        } else {
            ResolveStep::FetchAgain
        },
    }
}

/// The URL handed to the login action: the discovered one, or the default.
pub open spec fn login_url_spec(found: Option<Seq<char>>) -> Seq<char> {
    match found {
        Some(u) => u,
        None => DEFAULT_LOGIN_URL@,
    }
}

/// Picks the login URL after discovery: a failed discovery never blocks a
/// login attempt, it falls back to `DEFAULT_LOGIN_URL`.
pub fn login_url_or_default(found: Option<String>) -> (r: String)
    ensures
        r@ == login_url_spec(
            match found {
                Some(u) => Some(u@),
                None => None,
            },
        ),
{
    match found {
        Some(u) => u,
        None => String::from_str(DEFAULT_LOGIN_URL),
    }
}

/// The first login URL among the values is the one after the values before
/// it, none of which is a login URL.
proof fn lemma_first_login_url_at(vs: Seq<Seq<char>>, origin: Seq<char>, m: int)
    requires
        0 <= m < vs.len(),
        is_login_url(vs[m], origin),
        forall|q: int| 0 <= q < m ==> !is_login_url(#[trigger] vs[q], origin),
    ensures
        first_login_url(vs, origin) == Some(vs[m]),
    decreases m,
{
    if m > 0 {
        let rest = vs.drop_first();
        assert forall|q: int| 0 <= q < m - 1 implies !is_login_url(#[trigger] rest[q], origin) by {
            assert(rest[q] == vs[q + 1]);
        }
        assert(!is_login_url(vs[0], origin));
        lemma_first_login_url_at(rest, origin, m - 1);
    }
}

/// A body that mentions the portal's host and holds a form action whose
/// value is a login URL under the portal's origin ends the search on the
/// attempt that fetched it, with the first such value; the attempts before
/// it that found nothing only asked for another fetch.
pub proof fn lemma_first_match_is_returned(
    p: PortalProfile,
    earlier: Seq<FetchResult>,
    b: String,
    m: int,
)
    requires
        earlier.len() < MAX_ATTEMPTS,
        forall|k: int| 0 <= k < earlier.len() ==> (#[trigger] discovered(p, earlier[k])) is None,
        has_substring(b@, p.host@),
        0 <= m < action_values(b@).len(),
        is_login_url(action_values(b@)[m], p.origin@),
        forall|q: int| 0 <= q < m ==> !is_login_url(#[trigger] action_values(b@)[q], p.origin@),
    ensures
        forall|k: int|
            0 <= k < earlier.len() ==> resolve_step_spec(p, (k + 1) as u32, #[trigger] earlier[k])
                == Resolution::FetchAgain,
        resolve_step_spec(p, (earlier.len() + 1) as u32, FetchResult::Body(b))
            == Resolution::Found(action_values(b@)[m]),
{
    lemma_first_login_url_at(action_values(b@), p.origin@, m);
    assert forall|k: int| 0 <= k < earlier.len() implies resolve_step_spec(
        p,
        (k + 1) as u32,
        #[trigger] earlier[k],
    ) == Resolution::FetchAgain by {
        assert(discovered(p, earlier[k]) is None);
    }
}

/// `MAX_ATTEMPTS` fetches that each fail or bring a body without a usable
/// form action exhaust the search, and the login then falls back to
/// `DEFAULT_LOGIN_URL`.
pub proof fn lemma_failed_attempts_exhaust(p: PortalProfile, fs: Seq<FetchResult>)
    requires
        fs.len() == MAX_ATTEMPTS,
        forall|k: int| 0 <= k < fs.len() ==> (#[trigger] discovered(p, fs[k])) is None,
    ensures
        forall|k: int|
            0 <= k < MAX_ATTEMPTS - 1 ==> resolve_step_spec(p, (k + 1) as u32, #[trigger] fs[k])
                == Resolution::FetchAgain,
        resolve_step_spec(p, MAX_ATTEMPTS, fs[MAX_ATTEMPTS - 1]) == Resolution::Exhausted,
        login_url_spec(None) == DEFAULT_LOGIN_URL@,
{
    assert forall|k: int| 0 <= k < MAX_ATTEMPTS - 1 implies resolve_step_spec(
        p,
        (k + 1) as u32,
        #[trigger] fs[k],
    ) == Resolution::FetchAgain by {
        assert(discovered(p, fs[k]) is None);
    }
    assert(discovered(p, fs[MAX_ATTEMPTS - 1]) is None);
}

} // verus!
