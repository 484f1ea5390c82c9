//! robots.txt compliance: a per-origin cache of rule texts with a fixed time
//! to live, and the decisions around fetching and evaluating them.
//!
//! The caller performs the robots.txt request; this module decides whether a
//! request is needed, what a response means, and whether a URL is allowed.
use vstd::prelude::*;
use crate::text::{join2, join3, decimal_of, decimal_text};
use crate::url::WebUrl;

verus! {

/// How long a fetched robots.txt stays valid: 24 hours, in milliseconds.
pub const ROBOTS_TTL_MS: u64 = 86_400_000;

/// The largest robots.txt accepted, in bytes.
pub const MAX_ROBOTS_SIZE: u64 = 1_048_576;

/// Why a request is refused or could not be checked.
#[derive(Debug, Clone, PartialEq, Eq)]
pub enum RobotsError {
    /// robots.txt disallows the path.
    Disallowed { path: String, robots_url: String },
    /// robots.txt could not be fetched; nothing was cached.
    FetchError(String),
    /// robots.txt is larger than accepted.
    TooLarge,
}

/// What `robotstxt_rs` answers for a rule text, a user agent and a path.
pub uninterp spec fn robots_permits(rules: Seq<char>, agent: Seq<char>, path: Seq<char>) -> bool;

/// Relies on `robotstxt_rs::RobotsTxt::parse` and `RobotsTxt::can_fetch`:
/// the verdict depends on the three texts alone, and a text without rules
/// allows every path.
#[verifier::external_body]
fn robots_allow(rules: &str, agent: &str, path: &str) -> (r: bool)
    ensures
        r == robots_permits(rules@, agent@, path@),
        rules@.len() == 0 ==> r,
{
    robotstxt_rs::RobotsTxt::parse(rules).can_fetch(agent, path)
}

/// One cached robots.txt: the origin's robots URL, its rule text, and when it
/// was fetched (milliseconds on the caller's clock).
#[derive(Debug, Clone)]
pub struct RobotsEntry {
    pub robots_url: String,
    pub rules: String,
    pub fetched_at_ms: u64,
}

impl RobotsEntry {
    /// Whether this entry is stale at `now`.
    pub fn is_expired(&self, now: u64) -> (r: bool)
        ensures
            r == expired_at(self.fetched_at_ms, now),
    {
        self.fetched_at_ms < now && now - self.fetched_at_ms > ROBOTS_TTL_MS
    }
}

/// Whether an entry fetched at `fetched` is stale at `now`.
pub open spec fn expired_at(fetched: u64, now: u64) -> bool {
    now > fetched && now - fetched > ROBOTS_TTL_MS
}

/// The robots.txt location of a URL's origin.
pub open spec fn robots_url_of(scheme: Seq<char>, host: Option<Seq<char>>) -> Seq<char> {
    scheme + "://"@ + (match host {
        Some(h) => h,
        None => Seq::empty(),
    }) + "/robots.txt"@
}

/// What the caller should do next to answer a robots check.
#[derive(Debug)]
pub enum RobotsStep {
    /// The answer is known from the cache.
    Decided(Result<bool, RobotsError>),
    /// robots.txt must be fetched from this URL, then `complete` called.
    Fetch(String),
}

/// What a robots.txt response means, from its status and declared length.
#[derive(Debug, Clone, PartialEq, Eq)]
pub enum RobotsResponse {
    /// A success: read the body, then check its length.
    ReadBody,
    /// A client error: the origin has no robots.txt and everything is allowed.
    NoRobots,
    /// A failure that is reported and not cached.
    Failed(RobotsError),
}

/// The meaning of a robots.txt response with the given status and declared length.
pub open spec fn robots_response_of(status: u16, declared: Option<u64>) -> RobotsResponse {
    if 200 <= status <= 299 {
        match declared {
            Some(len) if len > MAX_ROBOTS_SIZE => RobotsResponse::Failed(RobotsError::TooLarge),
            _ => RobotsResponse::ReadBody,
        }
    } else if 400 <= status <= 499 {
        RobotsResponse::NoRobots
    } else {
        RobotsResponse::Failed(RobotsError::FetchError(arbitrary()))
    }
}

/// Classifies a robots.txt response: 2xx is read unless it declares more than
/// the limit, 4xx means no robots.txt, anything else is a fetch failure.
pub fn classify_robots_response(status: u16, declared: Option<u64>) -> (r: RobotsResponse)
    ensures
        match robots_response_of(status, declared) {
            RobotsResponse::Failed(RobotsError::FetchError(_)) => r matches RobotsResponse::Failed(
                RobotsError::FetchError(m),
            ) && m@ == "status "@ + decimal_of(status as nat),
            other => r == other,
        },
{
    if 200 <= status && status <= 299 {
        match declared {
            Some(len) => if len > MAX_ROBOTS_SIZE {
                RobotsResponse::Failed(RobotsError::TooLarge)
            } else {
                RobotsResponse::ReadBody
            },
            None => RobotsResponse::ReadBody,
        }
    } else if 400 <= status && status <= 499 {
        RobotsResponse::NoRobots
    } else {
        let n = decimal_text(status as u64);
        RobotsResponse::Failed(RobotsError::FetchError(join2("status ", n.as_str())))
    }
}

/// Refuses a robots.txt body longer than the limit.
pub fn check_robots_body(len: u64) -> (r: Result<(), RobotsError>)
    ensures
        r is Ok <==> len <= MAX_ROBOTS_SIZE,
        r is Err ==> r == Err::<(), RobotsError>(RobotsError::TooLarge),
{
    if len > MAX_ROBOTS_SIZE {
        Err(RobotsError::TooLarge)
    } else {
        Ok(())
    }
}

/// The cache of robots.txt rule texts, one entry per origin.
pub struct RobotsCache {
    entries: Vec<RobotsEntry>,
    user_agent: String,
}

/// The verdict for a path under a rule text: allowed, or `Disallowed` naming
/// the path and the robots URL.
pub open spec fn verdict(
    rules: Seq<char>,
    agent: Seq<char>,
    path: Seq<char>,
    robots_url: Seq<char>,
    r: Result<bool, RobotsError>,
) -> bool {
    if robots_permits(rules, agent, path) {
        r == Ok::<bool, RobotsError>(true)
    } else {
        r matches Err(RobotsError::Disallowed { path: p, robots_url: u }) && p@ == path && u@
            == robots_url
    }
}

impl RobotsCache {
    /// Whether no two entries share a robots URL.
    pub closed spec fn wf(&self) -> bool {
        forall|i: int, j: int|
            0 <= i < j < self.entries@.len() ==> #[trigger] self.entries@[i].robots_url@
                != #[trigger] self.entries@[j].robots_url@
    }

    /// The cached entries.
    pub closed spec fn entries(&self) -> Seq<RobotsEntry> {
        self.entries@
    }

    /// The user agent that rules are evaluated for.
    pub closed spec fn agent(&self) -> Seq<char> {
        self.user_agent@
    }

    /// The cached rule text of a robots URL with its fetch time, if any.
    pub open spec fn cached(&self, robots_url: Seq<char>) -> Option<(Seq<char>, u64)> {
        if exists|i: int|
            0 <= i < self.entries().len() && (#[trigger] self.entries()[i]).robots_url@
                == robots_url {
            let i = choose|i: int|
                0 <= i < self.entries().len() && (#[trigger] self.entries()[i]).robots_url@
                    == robots_url;
            Some((self.entries()[i].rules@, self.entries()[i].fetched_at_ms))
        } else {
            None
        }
    }

    /// An empty cache evaluating rules for `user_agent`.
    pub fn new(user_agent: String) -> (r: RobotsCache)
        ensures
            r.wf(),
            r.entries().len() == 0,
            r.agent() == user_agent@,
    {
        RobotsCache { entries: Vec::new(), user_agent }
    }

    /// The user agent that rules are evaluated for.
    pub fn user_agent(&self) -> (r: &str)
        ensures
            r@ == self.agent(),
    {
        self.user_agent.as_str()
    }

    /// The number of cached origins.
    pub fn len(&self) -> (r: usize)
        ensures
            r == self.entries().len(),
    {
        self.entries.len()
    }

    /// Where the entry for `robots_url` stands, if there is one.
    fn position(&self, robots_url: &str) -> (r: Option<usize>)
        requires
            self.wf(),
        ensures
            r matches Some(i) ==> i < self.entries().len() && self.entries()[i as int].robots_url@
                == robots_url@,
            r is None ==> forall|i: int|
                0 <= i < self.entries().len() ==> (#[trigger] self.entries()[i]).robots_url@
                    != robots_url@,
    {
        let mut i: usize = 0;
        while i < self.entries.len()
            invariant
                i <= self.entries@.len(),
                forall|k: int|
                    0 <= k < i ==> (#[trigger] self.entries@[k]).robots_url@ != robots_url@,
            decreases self.entries@.len() - i,
        {
            if crate::text::same_text(self.entries[i].robots_url.as_str(), robots_url) {
                return Some(i);
            }
            i = i + 1;
        }
        None
    }

    /// The evaluation of a URL's path under a rule text.
    pub fn decide(&self, url: &WebUrl, robots_url: &str, rules: &str) -> (r: Result<bool, RobotsError>)
        ensures
            verdict(rules@, self.agent(), url@.path, robots_url@, r),
    {
        if robots_allow(rules, self.user_agent.as_str(), url.path()) {
            Ok(true)
        } else {
            Err(
                RobotsError::Disallowed {
                    path: String::from_str(url.path()),
                    robots_url: String::from_str(robots_url),
                },
            )
        }
    }

    /// The first step of a robots check for `url` at time `now`: a fresh cached
    /// entry answers at once; a missing or stale one asks for a fetch of the
    /// origin's robots.txt.
    pub fn check(&self, url: &WebUrl, now: u64) -> (r: RobotsStep)
        requires
            self.wf(),
        ensures
            ({
                let ru = robots_url_of(url@.scheme, url@.host);
                match self.cached(ru) {
                    Some((rules, at)) if !expired_at(at, now) => r matches RobotsStep::Decided(d)
                        && verdict(rules, self.agent(), url@.path, ru, d),
                    _ => r matches RobotsStep::Fetch(u) && u@ == ru,
                }
            }),
    {
        let robots_url = robots_url_for(url);
        let ghost ru = robots_url@;
        match self.position(robots_url.as_str()) {
            Some(i) => {
                proof {
                    let j = choose|j: int|
                        0 <= j < self.entries().len() && (#[trigger] self.entries()[j]).robots_url@
                            == ru;
                    assert(j == i) by {
                        if j < i {
                            assert(self.entries@[j].robots_url@ != self.entries@[i as int].robots_url@);
                        } else if j > i {
                            assert(self.entries@[i as int].robots_url@ != self.entries@[j].robots_url@);
                        }
                    }
                }
                let entry = &self.entries[i];
                if entry.is_expired(now) {
                    RobotsStep::Fetch(robots_url)
                } else {
                    RobotsStep::Decided(self.decide(url, robots_url.as_str(), entry.rules.as_str()))
                }
            },
            None => RobotsStep::Fetch(robots_url),
        }
    }

    /// Stores the rule text fetched from `robots_url` at `now`, replacing any
    /// earlier entry of that origin.
    pub fn store(&mut self, robots_url: String, rules: String, now: u64)
        requires
            old(self).wf(),
        ensures
            final(self).wf(),
            final(self).agent() == old(self).agent(),
            final(self).cached(robots_url@) == Some((rules@, now)),
            forall|u: Seq<char>| u != robots_url@ ==> final(self).cached(u) == old(self).cached(u),
    {
        let ghost ru = robots_url@;
        let ghost entry_rules = rules@;
        let pos = self.position(robots_url.as_str());
        let entry = RobotsEntry { robots_url, rules, fetched_at_ms: now };
        match pos {
            Some(i) => {
                self.entries.set(i, entry);
            },
            None => {
                self.entries.push(entry);
            },
        }
        let ghost k: int = match pos {
            Some(i) => i as int,
            None => self.entries@.len() - 1,
        };
        assert(self.entries@[k].robots_url@ == ru);
        assert(self.wf());
        assert(self.cached(ru) == Some((entry_rules, now))) by {
            let j = choose|j: int|
                0 <= j < self.entries().len() && (#[trigger] self.entries()[j]).robots_url@ == ru;
            if j != k {
                if j < k {
                    assert(self.entries@[j].robots_url@ != self.entries@[k].robots_url@);
                } else {
                    assert(self.entries@[k].robots_url@ != self.entries@[j].robots_url@);
                }
            }
        }
        assert forall|u: Seq<char>| u != ru implies self.cached(u) == old(self).cached(u) by {
            let ex_new = exists|i: int|
                0 <= i < self.entries().len() && (#[trigger] self.entries()[i]).robots_url@ == u;
            let ex_old = exists|i: int|
                0 <= i < old(self).entries().len() && (#[trigger] old(self).entries()[i]).robots_url@
                    == u;
            if ex_new {
                let i = choose|i: int|
                    0 <= i < self.entries().len() && (#[trigger] self.entries()[i]).robots_url@ == u;
                assert(i != k);
                assert(old(self).entries()[i] == self.entries()[i]);
                assert(ex_old);
                let i0 = choose|i: int|
                    0 <= i < old(self).entries().len() && (#[trigger] old(
                        self,
                    ).entries()[i]).robots_url@ == u;
                if i0 != i {
                    if i0 < i {
                        assert(old(self).entries@[i0].robots_url@ != old(self).entries@[i].robots_url@);
                    } else {
                        assert(old(self).entries@[i].robots_url@ != old(self).entries@[i0].robots_url@);
                    }
                }
            } else {
                if ex_old {
                    let i0 = choose|i: int|
                        0 <= i < old(self).entries().len() && (#[trigger] old(
                            self,
                        ).entries()[i]).robots_url@ == u;
                    assert(i0 != k);
                    assert(self.entries()[i0] == old(self).entries()[i0]);
                }
            }
        }
    }

    /// The second step of a robots check, once robots.txt was fetched: a
    /// rule text is cached and evaluated; a failure is reported and nothing
    /// is cached, so the next check fetches again.
    pub fn complete(&mut self, url: &WebUrl, robots_url: String, fetched: Result<String, RobotsError>, now: u64)
        -> (r: Result<bool, RobotsError>)
        requires
            old(self).wf(),
        ensures
            final(self).wf(),
            final(self).agent() == old(self).agent(),
            match fetched {
                Ok(rules) => final(self).cached(robots_url@) == Some((rules@, now))
                    && verdict(rules@, old(self).agent(), url@.path, robots_url@, r)
                    && forall|u: Seq<char>| u != robots_url@ ==> final(self).cached(u) == old(self).cached(u),
                Err(e) => r == Err::<bool, RobotsError>(e) && final(self).entries() == old(self).entries(),
            },
    {
        match fetched {
            Ok(rules) => {
                let r = self.decide(url, robots_url.as_str(), rules.as_str());
                self.store(robots_url, rules, now);
                r
            },
            Err(e) => Err(e),
        }
    }

    /// Drops every entry that is stale at `now`.
    pub fn cleanup_expired(&mut self, now: u64)
        requires
            old(self).wf(),
        ensures
            final(self).wf(),
            final(self).agent() == old(self).agent(),
            final(self).entries() == old(self).entries().filter(
                |e: RobotsEntry| !expired_at(e.fetched_at_ms, now),
            ),
    {
        let ghost keep = |e: RobotsEntry| !expired_at(e.fetched_at_ms, now);
        let ghost all = old(self).entries@;
        let mut rest: Vec<RobotsEntry> = Vec::new();
        core::mem::swap(&mut rest, &mut self.entries);
        let mut kept: Vec<RobotsEntry> = Vec::new();
        let ghost mut done: int = 0;
        while rest.len() > 0
            invariant
                all == old(self).entries@,
                forall|x: RobotsEntry| #[trigger] keep(x) == !expired_at(x.fetched_at_ms, now),
                forall|i: int, j: int|
                    0 <= i < j < all.len() ==> #[trigger] all[i].robots_url@
                        != #[trigger] all[j].robots_url@,
                0 <= done <= all.len(),
                rest@ == all.subrange(done, all.len() as int),
                kept@ == all.subrange(0, done).filter(keep),
                forall|k: int|
                    0 <= k < kept@.len() ==> exists|j: int|
                        0 <= j < done && #[trigger] kept@[k] == all[j],
                forall|i: int, j: int|
                    0 <= i < j < kept@.len() ==> #[trigger] kept@[i].robots_url@
                        != #[trigger] kept@[j].robots_url@,
                self.user_agent == old(self).user_agent,
            decreases rest@.len(),
        {
            let e = rest.remove(0);
            proof {
                assert(e == all[done]);
                reveal(Seq::filter);
                let s1 = all.subrange(0, done + 1);
                assert(s1.drop_last() =~= all.subrange(0, done));
                assert(s1.last() == e);
                assert(s1.filter(keep) == if keep(e) {
                    all.subrange(0, done).filter(keep).push(e)
                } else {
                    all.subrange(0, done).filter(keep)
                });
            }
            if !e.is_expired(now) {
                proof {
                    assert forall|k: int| 0 <= k < kept@.len() implies kept@[k].robots_url@
                        != e.robots_url@ by {
                        let j = choose|j: int| 0 <= j < done && #[trigger] kept@[k] == all[j];
                        assert(all[j].robots_url@ != all[done].robots_url@);
                    }
                }
                kept.push(e);
                proof {
                    assert forall|k: int| 0 <= k < kept@.len() implies exists|j: int|
                        0 <= j < done + 1 && #[trigger] kept@[k] == all[j] by {
                        if k < kept@.len() - 1 {
                            let j = choose|j: int| 0 <= j < done && #[trigger] kept@[k] == all[j];
                            assert(0 <= j < done + 1 && kept@[k] == all[j]);
                        } else {
                            assert(kept@[k] == all[done]);
                        }
                    }
                }
            } else {
                proof {
                    assert forall|k: int| 0 <= k < kept@.len() implies exists|j: int|
                        0 <= j < done + 1 && #[trigger] kept@[k] == all[j] by {
                        let j = choose|j: int| 0 <= j < done && #[trigger] kept@[k] == all[j];
                        assert(0 <= j < done + 1 && kept@[k] == all[j]);
                    }
                }
            }
            proof {
                done = done + 1;
            }
        }
        assert(all.subrange(0, done) =~= all);
        self.entries = kept;
    }
}

/// The robots.txt URL of a URL's origin: `{scheme}://{host}/robots.txt`.
pub fn robots_url_for(url: &WebUrl) -> (r: String)
    ensures
        r@ == robots_url_of(url@.scheme, url@.host),
{
    let host = match url.host_str() {
        Some(h) => h,
        None => "",
    };
    proof {
        reveal_strlit("");
    }
    let s = join3(url.scheme(), "://", host);
    s.concat("/robots.txt")
}

} // verus!
