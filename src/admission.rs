//! Admission of inbound requests: the per-client one-second rate limiter,
//! the request counters it keeps, and the cross-origin policy.
use vstd::prelude::*;
use vstd::hash_map::StringHashMap;

use crate::text::{
    before, chars_of, find_char, push_decimal, push_str, slice_chars, string_of, trim,
    trimmed,
};

verus! {

/// The most requests admitted per client key within one wall-clock second.
pub const RATE_LIMIT_PER_SECOND: u32 = 300;

/// The key of requests that carry no usable forwarded-for header.
pub open spec fn local_key() -> Seq<char> {
    seq!['l', 'o', 'c', 'a', 'l']
}

/// The rate-limit key of a request: the first comma-separated entry of its
/// forwarded-for header, trimmed; `local` where there is no such header or
/// that entry is blank.
pub open spec fn client_key_of(forwarded_for: Option<Seq<char>>) -> Seq<char> {
    match forwarded_for {
        Some(h) => {
            let first = trim(before(h, ','));
            if first.len() > 0 {
                first
            } else {
                local_key()
            }
        },
        None => local_key(),
    }
}

/// The rate-limit key for a request with this forwarded-for header value.
pub fn client_key(forwarded_for: Option<&str>) -> (r: String)
    ensures
        r@ == client_key_of(crate::text::opt_chars(forwarded_for)),
{
    proof {
        reveal_strlit("local");
        assert("local"@ =~= local_key());
    }
    match forwarded_for {
        Some(h) => {
            let v = chars_of(h);
            let end = find_char(&v, ',');
            let first = trimmed(&slice_chars(&v, 0, end));
            if first.len() > 0 {
                string_of(&first)
            } else {
                string_of(&chars_of("local"))
            }
        },
        None => string_of(&chars_of("local")),
    }
}

/// A client's window: the wall-clock second it counts and how many requests
/// it admitted in it.
pub type Bucket = (i64, u32);

/// The bucket after a request at second `now`, and whether it is admitted.
/// A bucket of another second starts over at zero; a full one refuses.
pub open spec fn next_bucket(b: Option<Bucket>, now: i64) -> (Bucket, bool) {
    let cur: Bucket = match b {
        Some(b) => if b.0 == now {
            b
        } else {
            (now, 0u32)
        },
        None => (now, 0u32),
    };
    if cur.1 >= RATE_LIMIT_PER_SECOND {
        (cur, false)
    } else {
        ((cur.0, (cur.1 + 1) as u32), true)
    }
}

/// Relies on chrono's `From<SystemTime> for DateTime<Utc>` and
/// `DateTime::timestamp`: the current wall-clock second since the Unix
/// epoch, negative for a clock set before it. It depends on the clock, so
/// nothing is stated of it.
#[verifier::external_body]
fn unix_now() -> i64 {
    chrono::DateTime::<chrono::Utc>::from(std::time::SystemTime::now()).timestamp()
}

/// How a request from `key` at second `now` changes the state from `before`
/// to `after`, where `r` says whether it was admitted: the request counter
/// goes up by one, the key's bucket moves on, and a refusal is counted.
pub open spec fn counted(
    before: AdmissionState,
    after: AdmissionState,
    key: Seq<char>,
    now: i64,
    r: bool,
) -> bool {
    let (b, ok) = next_bucket(
        if before.buckets().contains_key(key) {
            Some(before.buckets()[key])
        } else {
            None
        },
        now,
    );
    &&& r == ok
    &&& after.buckets() == before.buckets().insert(key, b)
    &&& after.requests == before.requests.wrapping_add(1)
    &&& after.rate_limited == if r {
        before.rate_limited
    } else {
        before.rate_limited.wrapping_add(1)
    }
}

/// The shared admission state: one bucket per client key and the counters
/// of all requests and of the refused ones.
pub struct AdmissionState {
    pub buckets: StringHashMap<Bucket>,
    pub requests: u64,
    pub rate_limited: u64,
}

impl AdmissionState {
    /// The buckets, by client key.
    pub open spec fn buckets(&self) -> Map<Seq<char>, Bucket> {
        self.buckets@
    }

    /// No bucket counts past the ceiling.
    pub open spec fn wf(&self) -> bool {
        forall|k: Seq<char>| #[trigger]
            self.buckets().contains_key(k) ==> self.buckets()[k].1 <= RATE_LIMIT_PER_SECOND
    }

    /// No buckets and zeroed counters.
    pub fn new() -> (r: AdmissionState)
        ensures
            r.wf(),
            r.buckets() == Map::<Seq<char>, Bucket>::empty(),
            r.requests == 0,
            r.rate_limited == 0,
    {
        AdmissionState { buckets: StringHashMap::new(), requests: 0, rate_limited: 0 }
    }

    /// Counts a request from `key` at second `now` and says whether it is
    /// admitted.
    pub fn check_key(&mut self, key: &str, now: i64) -> (r: bool)
        requires
            old(self).wf(),
        ensures
            final(self).wf(),
            counted(*old(self), *final(self), key@, now, r),
    {
        self.requests = self.requests.wrapping_add(1);
        let cur: Bucket = match self.buckets.get(key) {
            Some(b) => if b.0 == now {
                *b
            } else {
                (now, 0)
            },
            None => (now, 0),
        };
        let ghost old_map = self.buckets@;
        assert(old(self).buckets().contains_key(key@) ==> old(self).buckets()[key@].1
            <= RATE_LIMIT_PER_SECOND);
        assert(old_map == old(self).buckets());
        assert(cur.1 <= RATE_LIMIT_PER_SECOND);
        let (b, ok) = if cur.1 >= RATE_LIMIT_PER_SECOND {
            (cur, false)
        } else {
            ((cur.0, cur.1 + 1), true)
        };
        self.buckets.insert(key.to_owned(), b);
        if !ok {
            self.rate_limited = self.rate_limited.wrapping_add(1);
        }
        assert forall|k: Seq<char>| #[trigger]
            self.buckets().contains_key(k) implies self.buckets()[k].1 <= RATE_LIMIT_PER_SECOND by {
            if k != key@ {
                assert(old(self).buckets().contains_key(k));
            }
        }
        ok
    }

    /// Counts a request whose forwarded-for header is `forwarded_for`, at
    /// second `now`, and says whether it is admitted.
    pub fn check_request(&mut self, forwarded_for: Option<&str>, now: i64) -> (r: bool)
        requires
            old(self).wf(),
        ensures
            final(self).wf(),
            counted(
                *old(self),
                *final(self),
                client_key_of(crate::text::opt_chars(forwarded_for)),
                now,
                r,
            ),
    {
        let key = client_key(forwarded_for);
        self.check_key(key.as_str(), now)
    }

    /// Counts a request whose forwarded-for header is `forwarded_for` at the
    /// current wall-clock second, and says whether it is admitted.
    pub fn check_request_now(&mut self, forwarded_for: Option<&str>) -> (r: bool)
        requires
            old(self).wf(),
        ensures
            final(self).wf(),
            exists|now: i64|
                counted(
                    *old(self),
                    *final(self),
                    client_key_of(crate::text::opt_chars(forwarded_for)),
                    now,
                    r,
                ),
    {
        let now = unix_now();
        self.check_request(forwarded_for, now)
    }

    /// The metrics exposition: a liveness line and the two counters.
    pub fn metrics_text(&self) -> (r: String)
        ensures
            r@ == metrics_of(self.requests as nat, self.rate_limited as nat),
    {
        let mut out: Vec<char> = Vec::new();
        push_str(&mut out, "paracord_up 1\nparacord_http_requests_total ");
        push_decimal(&mut out, self.requests);
        push_str(&mut out, "\nparacord_http_rate_limited_total ");
        push_decimal(&mut out, self.rate_limited);
        out.push('\n');
        assert(out@ =~= metrics_of(self.requests as nat, self.rate_limited as nat));
        string_of(&out)
    }
}

/// The plaintext metrics body for the two counters.
pub open spec fn metrics_of(requests: nat, rate_limited: nat) -> Seq<char> {
    "paracord_up 1\nparacord_http_requests_total "@ + crate::text::decimal(requests)
        + "\nparacord_http_rate_limited_total "@ + crate::text::decimal(rate_limited) + seq!['\n']
}

} // verus!

verus! {

/// A client's bucket after `n` requests at second `now`, starting from `b`.
pub open spec fn bucket_after(b: Option<Bucket>, now: i64, n: nat) -> Option<Bucket>
    decreases n,
{
    if n == 0 {
        b
    } else {
        Some(next_bucket(bucket_after(b, now, (n - 1) as nat), now).0)
    }
}

/// Whether the request that follows `n` requests at second `now` is
/// admitted.
pub open spec fn admitted_after(b: Option<Bucket>, now: i64, n: nat) -> bool {
    next_bucket(bucket_after(b, now, n), now).1
}

proof fn lemma_count_in_window(b: Option<Bucket>, now: i64, n: nat)
    requires
        b is None || b->Some_0.0 != now,
        1 <= n <= RATE_LIMIT_PER_SECOND,
    ensures
        bucket_after(b, now, n) == Some((now, n as u32)),
    decreases n,
{
    let prev = bucket_after(b, now, (n - 1) as nat);
    if n > 1 {
        lemma_count_in_window(b, now, (n - 1) as nat);
        assert(prev == Some((now, (n - 1) as u32)));
    } else {
        assert(prev == b);
    }
    assert(bucket_after(b, now, n) == Some(next_bucket(prev, now).0));
}

/// Within one wall-clock second a client starting a fresh window is admitted
/// `RATE_LIMIT_PER_SECOND` times and then refused; a request in any other
/// second is admitted again, with the count starting over at one.
pub proof fn lemma_rate_window(b: Option<Bucket>, now: i64, later: i64)
    requires
        b is None || b->Some_0.0 != now,
        later != now,
    ensures
        forall|i: nat| i < RATE_LIMIT_PER_SECOND ==> #[trigger] admitted_after(b, now, i),
        !admitted_after(b, now, RATE_LIMIT_PER_SECOND as nat),
        next_bucket(bucket_after(b, now, RATE_LIMIT_PER_SECOND as nat + 1), later) == (
            (later, 1u32),
            true,
        ),
{
    assert forall|i: nat| i < RATE_LIMIT_PER_SECOND implies #[trigger] admitted_after(b, now, i) by {
        if i > 0 {
            lemma_count_in_window(b, now, i);
        }
    }
    lemma_count_in_window(b, now, RATE_LIMIT_PER_SECOND as nat);
}

} // verus!

verus! {

/// The characters of each string.
pub open spec fn strings_view(v: Seq<String>) -> Seq<Seq<char>> {
    v.map_values(|s: String| s@)
}

/// Origins of the desktop client, allowed whenever origins are restricted.
pub open spec fn desktop_origins() -> Seq<Seq<char>> {
    seq!["tauri://localhost"@, "http://tauri.localhost"@]
}

/// `s` without its trailing slashes.
pub open spec fn trim_trailing_slashes(s: Seq<char>) -> Seq<char>
    decreases s.len(),
{
    if s.len() > 0 && s.last() == '/' {
        trim_trailing_slashes(s.drop_last())
    } else {
        s
    }
}

/// The origins configured: the explicit list, or else the one derived from
/// the public base URL, or else none.
pub open spec fn configured_origins(allowed: Seq<Seq<char>>, public_url: Option<Seq<char>>) -> Seq<
    Seq<char>,
> {
    if allowed.len() > 0 {
        allowed
    } else {
        match public_url {
            Some(u) => seq![trim_trailing_slashes(u)],
            None => Seq::empty(),
        }
    }
}

/// `list` with `o` added at the end unless it is already there.
pub open spec fn with_origin(list: Seq<Seq<char>>, o: Seq<char>) -> Seq<Seq<char>> {
    if list.contains(o) {
        list
    } else {
        list.push(o)
    }
}

/// The allowed origins (`None`: any origin, the permissive mode).
pub open spec fn policy_origins(allowed: Seq<Seq<char>>, public_url: Option<Seq<char>>) -> Option<
    Seq<Seq<char>>,
> {
    let c = configured_origins(allowed, public_url);
    if c.len() == 0 {
        None
    } else {
        Some(with_origin(with_origin(c, desktop_origins()[0]), desktop_origins()[1]))
    }
}

/// How a request's `Origin` is answered.
#[derive(Debug, Clone, Copy, PartialEq, Eq, Structural)]
pub enum OriginGrant {
    /// Allowed as any origin is, without credentials.
    AnyOrigin,
    /// Allowed by name, with credentials.
    Credentialed,
    /// No allow headers.
    Denied,
}

pub open spec fn grant_of(origins: Option<Seq<Seq<char>>>, origin: Seq<char>) -> OriginGrant {
    match origins {
        None => OriginGrant::AnyOrigin,
        Some(list) => if list.contains(origin) {
            OriginGrant::Credentialed
        } else {
            OriginGrant::Denied
        },
    }
}

/// The cross-origin policy: permissive, or restricted to a list of origins.
#[derive(Debug, Clone, PartialEq, Eq)]
pub enum CorsPolicy {
    Permissive,
    Restrictive(Vec<String>),
}

impl CorsPolicy {
    /// The allowed origins (`None`: any).
    pub open spec fn origins(&self) -> Option<Seq<Seq<char>>> {
        match self {
            CorsPolicy::Permissive => None,
            CorsPolicy::Restrictive(v) => Some(strings_view(v@)),
        }
    }

    /// How a request from `origin` is answered.
    pub fn grant(&self, origin: &str) -> (r: OriginGrant)
        ensures
            r == grant_of(self.origins(), origin@),
    {
        match self {
            CorsPolicy::Permissive => OriginGrant::AnyOrigin,
            CorsPolicy::Restrictive(list) => {
                let o = String::from_str(origin);
                if contains_string(list, &o) {
                    OriginGrant::Credentialed
                } else {
                    OriginGrant::Denied
                }
            },
        }
    }
}

fn contains_string(list: &Vec<String>, s: &String) -> (r: bool)
    ensures
        r == strings_view(list@).contains(s@),
{
    let mut i: usize = 0;
    while i < list.len()
        invariant
            0 <= i <= list.len(),
            forall|k: int| 0 <= k < i ==> list@[k]@ != s@,
        decreases list.len() - i,
    {
        if list[i] == *s {
            assert(strings_view(list@)[i as int] == s@);
            return true;
        }
        i = i + 1;
    }
    assert forall|k: int| 0 <= k < strings_view(list@).len() implies strings_view(list@)[k]
        != s@ by {
        assert(list@[k]@ != s@);
    }
    false
}

fn push_if_absent(list: &mut Vec<String>, s: String)
    ensures
        strings_view(final(list)@) == with_origin(strings_view(old(list)@), s@),
{
    if !contains_string(list, &s) {
        list.push(s);
        assert(strings_view(final(list)@) =~= strings_view(old(list)@).push(s@));
    }
}

fn without_trailing_slashes(v: &Vec<char>) -> (r: Vec<char>)
    ensures
        r@ == trim_trailing_slashes(v@),
{
    let mut j = v.len();
    assert(v@.subrange(0, j as int) =~= v@);
    while j > 0 && v[j - 1] == '/'
        invariant
            0 <= j <= v.len(),
            trim_trailing_slashes(v@) == trim_trailing_slashes(v@.subrange(0, j as int)),
        decreases j,
    {
        assert(v@.subrange(0, j as int).drop_last() =~= v@.subrange(0, j - 1));
        j = j - 1;
    }
    slice_chars(v, 0, j)
}

/// The policy for the configured origin list and public base URL: with
/// either, exactly those origins and the desktop-client origins, with
/// credentials; with neither, any origin without credentials.
pub fn build_cors_policy(allowed_origins: &Vec<String>, public_url: Option<&str>) -> (r: CorsPolicy)
    ensures
        r.origins() == policy_origins(
            strings_view(allowed_origins@),
            crate::text::opt_chars(public_url),
        ),
{
    let mut origins: Vec<String> = Vec::new();
    let mut i: usize = 0;
    while i < allowed_origins.len()
        invariant
            0 <= i <= allowed_origins.len(),
            strings_view(origins@) == strings_view(allowed_origins@).take(i as int),
        decreases allowed_origins.len() - i,
    {
        let o = allowed_origins[i].clone();
        let ghost before_push = origins@;
        origins.push(o);
        assert(origins@ == before_push.push(o));
        assert(strings_view(origins@) =~= strings_view(before_push).push(o@));
        assert(strings_view(allowed_origins@).take(i + 1) =~= strings_view(allowed_origins@).take(
            i as int,
        ).push(allowed_origins@[i as int]@));
        i = i + 1;
    }
    assert(strings_view(allowed_origins@).take(i as int) =~= strings_view(allowed_origins@));
    if origins.len() == 0 {
        if let Some(url) = public_url {
            origins.push(string_of(&without_trailing_slashes(&chars_of(url))));
            assert(strings_view(origins@) =~= configured_origins(
                strings_view(allowed_origins@),
                crate::text::opt_chars(public_url),
            ));
        }
    }
    if origins.len() == 0 {
        assert(strings_view(origins@).len() == 0);
        return CorsPolicy::Permissive;
    }
    proof {
        reveal_strlit("tauri://localhost");
        reveal_strlit("http://tauri.localhost");
    }
    push_if_absent(&mut origins, String::from_str("tauri://localhost"));
    push_if_absent(&mut origins, String::from_str("http://tauri.localhost"));
    CorsPolicy::Restrictive(origins)
}

/// The request methods allowed across origins, in either mode.
pub fn allowed_methods() -> (r: Vec<String>)
    ensures
        strings_view(r@) == seq!["GET"@, "POST"@, "PUT"@, "PATCH"@, "DELETE"@],
{
    let r = vec![
        String::from_str("GET"),
        String::from_str("POST"),
        String::from_str("PUT"),
        String::from_str("PATCH"),
        String::from_str("DELETE"),
    ];
    assert(strings_view(r@) =~= seq!["GET"@, "POST"@, "PUT"@, "PATCH"@, "DELETE"@]);
    r
}

impl CorsPolicy {
    /// The request headers allowed across origins (`None`: any).
    pub fn allowed_headers(&self) -> (r: Option<Vec<String>>)
        ensures
            match self {
                CorsPolicy::Permissive => r is None,
                CorsPolicy::Restrictive(_) => r is Some && strings_view(r->Some_0@) == seq![
                    "authorization"@,
                    "content-type"@,
                    "accept"@,
                ],
            },
    {
        match self {
            CorsPolicy::Permissive => None,
            CorsPolicy::Restrictive(_) => {
                let r = vec![
                    String::from_str("authorization"),
                    String::from_str("content-type"),
                    String::from_str("accept"),
                ];
                assert(strings_view(r@) =~= seq!["authorization"@, "content-type"@, "accept"@]);
                Some(r)
            },
        }
    }
}

/// With nothing configured every origin is allowed, without credentials.
/// With one configured origin, that origin and the two desktop-client
/// origins are allowed with credentials and every other origin is denied.
pub proof fn lemma_cors_modes(origin: Seq<char>, configured: Seq<char>)
    ensures
        grant_of(policy_origins(Seq::empty(), None), origin) == OriginGrant::AnyOrigin,
        grant_of(policy_origins(seq![configured], None), origin) == if origin == configured
            || origin == "tauri://localhost"@ || origin == "http://tauri.localhost"@ {
            OriginGrant::Credentialed
        } else {
            OriginGrant::Denied
        },
{
    let c = seq![configured];
    let d = desktop_origins();
    assert(c[0] == configured);
    assert forall|x: Seq<char>| c.contains(x) <==> x == configured by {
        if c.contains(x) {
            let k = choose|k: int| 0 <= k < c.len() && c[k] == x;
            assert(k == 0);
        }
    }
    lemma_with_origin(c, d[0]);
    lemma_with_origin(with_origin(c, d[0]), d[1]);
}

proof fn lemma_with_origin(list: Seq<Seq<char>>, o: Seq<char>)
    ensures
        forall|x: Seq<char>| #[trigger]
            with_origin(list, o).contains(x) <==> (list.contains(x) || x == o),
{
    if !list.contains(o) {
        let l = list.push(o);
        assert(l[list.len() as int] == o);
        assert forall|x: Seq<char>| #[trigger] l.contains(x) <==> (list.contains(x) || x == o) by {
            if list.contains(x) {
                let k = choose|k: int| 0 <= k < list.len() && list[k] == x;
                assert(l[k] == x);
            }
            if l.contains(x) {
                let k = choose|k: int| 0 <= k < l.len() && l[k] == x;
                if k < list.len() {
                    assert(list[k] == x);
                }
            }
        }
    }
}

} // verus!
