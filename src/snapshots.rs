//! Snapshot storage: one row per content-addressed hash, last write wins,
//! with freshness checks and three purge policies.
//!
//! `SnapshotStore` is the store's semantics as an in-memory table; a durable
//! backend loads rows into it, applies the operation, and writes back.
use vstd::prelude::*;
use crate::error::Error;
use crate::text::{copy_opt, contains_seq, contains_text, same_text, text_less, text_lt,
    lemma_text_lt_irreflexive, lemma_text_lt_transitive};

verus! {

/// One cached fetch and extraction result.
#[derive(Debug, Clone)]
pub struct Snapshot {
    pub hash: String,
    pub url: String,
    pub final_url: String,
    pub mode: String,
    pub content_type: Option<String>,
    pub status_code: Option<i32>,
    pub fetched_at: String,
    pub expires_at: Option<String>,
    pub etag: Option<String>,
    pub last_modified: Option<String>,
    pub raw_bytes: Option<Vec<u8>>,
    pub raw_truncated: bool,
    pub title: Option<String>,
    pub markdown: Option<String>,
    pub text: Option<String>,
    pub links_json: Option<String>,
    pub extractor_name: Option<String>,
    pub extractor_version: Option<String>,
    pub siteconfig_id: Option<String>,
    pub extract_cfg_json: Option<String>,
    pub headers_json: Option<String>,
    pub fetch_ms: Option<i64>,
    pub extract_ms: Option<i64>,
}

/// Whether two rows hold the same values in every field.
pub open spec fn same_row(a: Snapshot, b: Snapshot) -> bool {
    &&& a.hash@ == b.hash@
    &&& a.url@ == b.url@
    &&& a.final_url@ == b.final_url@
    &&& a.mode@ == b.mode@
    &&& a.fetched_at@ == b.fetched_at@
    &&& a.status_code == b.status_code
    &&& a.raw_truncated == b.raw_truncated
    &&& a.fetch_ms == b.fetch_ms
    &&& a.extract_ms == b.extract_ms
    &&& opt_text(a.content_type) == opt_text(b.content_type)
    &&& opt_text(a.expires_at) == opt_text(b.expires_at)
    &&& opt_text(a.etag) == opt_text(b.etag)
    &&& opt_text(a.last_modified) == opt_text(b.last_modified)
    &&& opt_text(a.title) == opt_text(b.title)
    &&& opt_text(a.markdown) == opt_text(b.markdown)
    &&& opt_text(a.text) == opt_text(b.text)
    &&& opt_text(a.links_json) == opt_text(b.links_json)
    &&& opt_text(a.extractor_name) == opt_text(b.extractor_name)
    &&& opt_text(a.extractor_version) == opt_text(b.extractor_version)
    &&& opt_text(a.siteconfig_id) == opt_text(b.siteconfig_id)
    &&& opt_text(a.extract_cfg_json) == opt_text(b.extract_cfg_json)
    &&& opt_text(a.headers_json) == opt_text(b.headers_json)
    &&& match (a.raw_bytes, b.raw_bytes) {
        (Some(x), Some(y)) => x@ == y@,
        (None, None) => true,
        _ => false,
    }
}

/// The characters of an optional string.
pub open spec fn opt_text(o: Option<String>) -> Option<Seq<char>> {
    match o {
        Some(s) => Some(s@),
        None => None,
    }
}

/// A copy of optional bytes.
fn copy_bytes(o: &Option<Vec<u8>>) -> (r: Option<Vec<u8>>)
    ensures
        match (r, *o) {
            (Some(x), Some(y)) => x@ == y@,
            (None, None) => true,
            _ => false,
        },
{
    match o {
        Some(v) => {
            let mut out: Vec<u8> = Vec::new();
            let mut i: usize = 0;
            while i < v.len()
                invariant
                    i <= v@.len(),
                    out@ == v@.subrange(0, i as int),
                decreases v@.len() - i,
            {
                out.push(v[i]);
                assert(v@.subrange(0, i + 1) =~= v@.subrange(0, i as int).push(v@[i as int]));
                i = i + 1;
            }
            assert(v@.subrange(0, v@.len() as int) =~= v@);
            Some(out)
        },
        None => None,
    }
}

impl Snapshot {
    /// A field-by-field copy.
    pub fn duplicate(&self) -> (r: Snapshot)
        ensures
            same_row(r, *self),
    {
        Snapshot {
            hash: self.hash.clone(),
            url: self.url.clone(),
            final_url: self.final_url.clone(),
            mode: self.mode.clone(),
            content_type: copy_opt(&self.content_type),
            status_code: self.status_code,
            fetched_at: self.fetched_at.clone(),
            expires_at: copy_opt(&self.expires_at),
            etag: copy_opt(&self.etag),
            last_modified: copy_opt(&self.last_modified),
            raw_bytes: copy_bytes(&self.raw_bytes),
            raw_truncated: self.raw_truncated,
            title: copy_opt(&self.title),
            markdown: copy_opt(&self.markdown),
            text: copy_opt(&self.text),
            links_json: copy_opt(&self.links_json),
            extractor_name: copy_opt(&self.extractor_name),
            extractor_version: copy_opt(&self.extractor_version),
            siteconfig_id: copy_opt(&self.siteconfig_id),
            extract_cfg_json: copy_opt(&self.extract_cfg_json),
            headers_json: copy_opt(&self.headers_json),
            fetch_ms: self.fetch_ms,
            extract_ms: self.extract_ms,
        }
    }
}

/// Whether a row with this expiry is fresh at `now`: no expiry, or an expiry
/// that sorts after `now` (timestamps compare as text, as the database does).
pub open spec fn fresh_at(expires: Option<String>, now: Seq<char>) -> bool {
    match expires {
        None => true,
        Some(e) => text_lt(now, e@),
    }
}

/// Whether a row with this expiry is expired at `now`: an expiry that sorts
/// before `now`.
pub open spec fn expired_at(expires: Option<String>, now: Seq<char>) -> bool {
    match expires {
        None => false,
        Some(e) => text_lt(e@, now),
    }
}

/// Whether an expiry is fresh at `now`.
pub fn is_fresh_at(expires: &Option<String>, now: &str) -> (r: bool)
    ensures
        r == fresh_at(*expires, now@),
{
    match expires {
        None => true,
        Some(e) => text_less(now, e.as_str()),
    }
}

/// Whether an expiry has passed at `now`.
pub fn is_expired_at(expires: &Option<String>, now: &str) -> (r: bool)
    ensures
        r == expired_at(*expires, now@),
{
    match expires {
        None => false,
        Some(e) => text_less(e.as_str(), now),
    }
}

/// Whether no two rows share a hash.
pub open spec fn unique_hashes(rows: Seq<Snapshot>) -> bool {
    forall|i: int, j: int|
        0 <= i < j < rows.len() ==> #[trigger] rows[i].hash@ != #[trigger] rows[j].hash@
}

/// The row stored under `hash`, if any.
pub open spec fn lookup_in(rows: Seq<Snapshot>, hash: Seq<char>) -> Option<Snapshot> {
    if exists|i: int| 0 <= i < rows.len() && (#[trigger] rows[i]).hash@ == hash {
        let i = choose|i: int| 0 <= i < rows.len() && (#[trigger] rows[i]).hash@ == hash;
        Some(rows[i])
    } else {
        None
    }
}

/// With unique hashes, the row found at `i` is the one stored under its hash.
proof fn lemma_lookup_at(rows: Seq<Snapshot>, i: int)
    requires
        unique_hashes(rows),
        0 <= i < rows.len(),
    ensures
        lookup_in(rows, rows[i].hash@) == Some(rows[i]),
{
    let h = rows[i].hash@;
    let j = choose|j: int| 0 <= j < rows.len() && (#[trigger] rows[j]).hash@ == h;
    if j < i {
        assert(rows[j].hash@ != rows[i].hash@);
    } else if j > i {
        assert(rows[i].hash@ != rows[j].hash@);
    }
}

/// What an upsert of `s` leaves: hashes stay unique, `s` is stored under its
/// hash in place of any earlier row, every other hash keeps its row, and the
/// table grows by one row exactly when the hash was new.
pub open spec fn upserted(before: SnapshotStore, after: SnapshotStore, s: Snapshot) -> bool {
    &&& after.wf()
    &&& after.lookup(s.hash@) == Some(s)
    &&& forall|h: Seq<char>| h != s.hash@ ==> after.lookup(h) == before.lookup(h)
    &&& after.rows().len() == before.rows().len() + (if before.lookup(s.hash@) is Some {
        0int
    } else {
        1int
    })
}

/// What a size-ceiling purge leaves: at most `max` rows (all of them when
/// there were no more), each an earlier row, and no deleted row newer by
/// `fetched_at` than a kept one.
pub open spec fn lru_purged(before: Seq<Snapshot>, after: Seq<Snapshot>, max: nat) -> bool {
    &&& before.len() <= max ==> after == before
    &&& before.len() > max ==> after.len() == max
    &&& forall|i: int| 0 <= i < after.len() ==> before.contains(#[trigger] after[i])
    &&& forall|j: int, i: int|
        0 <= j < before.len() && 0 <= i < after.len() && !after.contains(#[trigger] before[j])
            ==> !text_lt((#[trigger] after[i]).fetched_at@, before[j].fetched_at@)
}

/// Which rows a filtering purge removes.
pub enum PurgeRule {
    /// Rows whose expiry has passed at the given time.
    Expired,
    /// Rows whose URL contains the given text.
    UrlContains,
}

/// Whether `rule` with argument `arg` removes row `s`.
pub open spec fn doomed(rule: PurgeRule, arg: Seq<char>, s: Snapshot) -> bool {
    match rule {
        PurgeRule::Expired => expired_at(s.expires_at, arg),
        PurgeRule::UrlContains => contains_seq(s.url@, arg),
    }
}

/// Whether `rule` with argument `arg` removes row `s`.
fn is_doomed(rule: &PurgeRule, arg: &str, s: &Snapshot) -> (r: bool)
    ensures
        r == doomed(*rule, arg@, *s),
{
    match rule {
        PurgeRule::Expired => is_expired_at(&s.expires_at, arg),
        PurgeRule::UrlContains => contains_text(s.url.as_str(), arg),
    }
}

/// The snapshot table.
pub struct SnapshotStore {
    rows: Vec<Snapshot>,
}

impl SnapshotStore {
    /// The rows, in insertion order.
    pub closed spec fn rows(&self) -> Seq<Snapshot> {
        self.rows@
    }

    /// The table's invariant: hashes are unique.
    pub open spec fn wf(&self) -> bool {
        unique_hashes(self.rows())
    }

    /// The row stored under `hash`, if any.
    pub open spec fn lookup(&self, hash: Seq<char>) -> Option<Snapshot> {
        lookup_in(self.rows(), hash)
    }

    /// An empty table.
    pub fn new() -> (r: SnapshotStore)
        ensures
            r.wf(),
            r.rows().len() == 0,
    {
        SnapshotStore { rows: Vec::new() }
    }

    /// The number of rows.
    pub fn len(&self) -> (r: usize)
        ensures
            r == self.rows().len(),
    {
        self.rows.len()
    }

    /// The hashes of all rows, in row order.
    pub fn hashes(&self) -> (r: Vec<String>)
        ensures
            r@.len() == self.rows().len(),
            forall|i: int| 0 <= i < r@.len() ==> (#[trigger] r@[i])@ == self.rows()[i].hash@,
    {
        let mut out: Vec<String> = Vec::new();
        let mut i: usize = 0;
        while i < self.rows.len()
            invariant
                i <= self.rows@.len(),
                out@.len() == i,
                forall|k: int| 0 <= k < i ==> (#[trigger] out@[k])@ == self.rows@[k].hash@,
            decreases self.rows@.len() - i,
        {
            out.push(self.rows[i].hash.clone());
            i = i + 1;
        }
        out
    }

    /// Where the row stored under `hash` stands, if there is one.
    fn position(&self, hash: &str) -> (r: Option<usize>)
        ensures
            r matches Some(i) ==> i < self.rows().len() && self.rows()[i as int].hash@ == hash@,
            r is None ==> forall|i: int|
                0 <= i < self.rows().len() ==> (#[trigger] self.rows()[i]).hash@ != hash@,
    {
        let mut i: usize = 0;
        while i < self.rows.len()
            invariant
                i <= self.rows@.len(),
                forall|k: int| 0 <= k < i ==> (#[trigger] self.rows@[k]).hash@ != hash@,
            decreases self.rows@.len() - i,
        {
            if same_text(self.rows[i].hash.as_str(), hash) {
                return Some(i);
            }
            i = i + 1;
        }
        None
    }

    /// Exact lookup by hash; absence is not an error.
    pub fn get(&self, hash: &str) -> (r: Option<&Snapshot>)
        requires
            self.wf(),
        ensures
            match (r, self.lookup(hash@)) {
                (Some(x), Some(y)) => *x == y,
                (None, None) => true,
                _ => false,
            },
    {
        match self.position(hash) {
            Some(i) => {
                proof {
                    lemma_lookup_at(self.rows@, i as int);
                }
                Some(&self.rows[i])
            },
            None => None,
        }
    }

    /// Whether a row is stored under `hash`.
    pub fn contains(&self, hash: &str) -> (r: bool)
        requires
            self.wf(),
        ensures
            r == self.lookup(hash@) is Some,
    {
        self.get(hash).is_some()
    }

    /// Inserts `s`, or replaces every field of the row with the same hash.
    pub fn upsert(&mut self, s: Snapshot)
        requires
            old(self).wf(),
        ensures
            upserted(*old(self), *final(self), s),
    {
        let ghost h = s.hash@;
        let ghost row = s;
        let pos = self.position(s.hash.as_str());
        match pos {
            Some(i) => {
                proof {
                    lemma_lookup_at(self.rows@, i as int);
                }
                self.rows.set(i, s);
            },
            None => {
                self.rows.push(s);
            },
        }
        let ghost k: int = match pos {
            Some(i) => i as int,
            None => self.rows@.len() - 1,
        };
        assert(self.rows@[k] == row);
        assert(self.wf());
        proof {
            lemma_lookup_at(self.rows@, k);
        }
        assert forall|u: Seq<char>| u != h implies self.lookup(u) == old(self).lookup(u) by {
            let ex_new = exists|i: int| 0 <= i < self.rows().len() && (#[trigger] self.rows()[i]).hash@ == u;
            let ex_old = exists|i: int|
                0 <= i < old(self).rows().len() && (#[trigger] old(self).rows()[i]).hash@ == u;
            if ex_new {
                let i = choose|i: int| 0 <= i < self.rows().len() && (#[trigger] self.rows()[i]).hash@ == u;
                assert(i != k);
                assert(old(self).rows()[i] == self.rows()[i]);
                lemma_lookup_at(self.rows@, i);
                lemma_lookup_at(old(self).rows@, i);
            } else if ex_old {
                let i0 = choose|i: int|
                    0 <= i < old(self).rows().len() && (#[trigger] old(self).rows()[i]).hash@ == u;
                assert(i0 != k);
                assert(self.rows()[i0] == old(self).rows()[i0]);
            }
        }
        assert(pos is None ==> old(self).lookup(h) is None);
        assert(pos is Some ==> old(self).lookup(h) is Some);
    }

    /// Whether the row under `hash` exists and is fresh at `now`.
    pub fn is_fresh(&self, hash: &str, now: &str) -> (r: bool)
        requires
            self.wf(),
        ensures
            r == match self.lookup(hash@) {
                Some(s) => fresh_at(s.expires_at, now@),
                None => false,
            },
    {
        match self.get(hash) {
            Some(s) => is_fresh_at(&s.expires_at, now),
            None => false,
        }
    }

    /// Removes every row that `rule` with `arg` dooms, keeping the order of
    /// the others; returns how many were removed.
    fn retain_undoomed(&mut self, rule: &PurgeRule, arg: &str) -> (r: u64)
        requires
            old(self).wf(),
        ensures
            final(self).wf(),
            final(self).rows() == old(self).rows().filter(|s: Snapshot| !doomed(*rule, arg@, s)),
            r == (old(self).rows().len() - final(self).rows().len()) as u64,
            final(self).rows().len() <= old(self).rows().len(),
            forall|i: int|
                0 <= i < final(self).rows().len() ==> old(self).rows().contains(
                    #[trigger] final(self).rows()[i],
                ) && !doomed(*rule, arg@, final(self).rows()[i]),
    {
        let ghost keep = |s: Snapshot| !doomed(*rule, arg@, s);
        let ghost all = old(self).rows@;
        let mut rest: Vec<Snapshot> = Vec::new();
        core::mem::swap(&mut rest, &mut self.rows);
        let before = rest.len();
        let mut kept: Vec<Snapshot> = Vec::new();
        let ghost mut done: int = 0;
        while rest.len() > 0
            invariant
                all == old(self).rows@,
                forall|x: Snapshot| #[trigger] keep(x) == !doomed(*rule, arg@, x),
                unique_hashes(all),
                0 <= done <= all.len(),
                rest@ == all.subrange(done, all.len() as int),
                kept@ == all.subrange(0, done).filter(keep),
                forall|k: int|
                    0 <= k < kept@.len() ==> exists|j: int|
                        0 <= j < done && #[trigger] kept@[k] == all[j],
                unique_hashes(kept@),
            decreases rest@.len(),
        {
            let e = rest.remove(0);
            proof {
                assert(e == all[done]);
                reveal(Seq::filter);
                let s1 = all.subrange(0, done + 1);
                assert(s1.drop_last() =~= all.subrange(0, done));
                assert(s1.last() == e);
                assert(s1.filter(keep) == if keep(e) {
                    all.subrange(0, done).filter(keep).push(e)
                } else {
                    all.subrange(0, done).filter(keep)
                });
            }
            if !is_doomed(rule, arg, &e) {
                proof {
                    assert forall|k: int| 0 <= k < kept@.len() implies kept@[k].hash@ != e.hash@ by {
                        let j = choose|j: int| 0 <= j < done && #[trigger] kept@[k] == all[j];
                        assert(all[j].hash@ != all[done].hash@);
                    }
                }
                kept.push(e);
                proof {
                    assert forall|k: int| 0 <= k < kept@.len() implies exists|j: int|
                        0 <= j < done + 1 && #[trigger] kept@[k] == all[j] by {
                        if k < kept@.len() - 1 {
                            let j = choose|j: int| 0 <= j < done && #[trigger] kept@[k] == all[j];
                            assert(0 <= j < done + 1 && kept@[k] == all[j]);
                        } else {
                            assert(kept@[k] == all[done]);
                        }
                    }
                }
            } else {
                proof {
                    assert forall|k: int| 0 <= k < kept@.len() implies exists|j: int|
                        0 <= j < done + 1 && #[trigger] kept@[k] == all[j] by {
                        let j = choose|j: int| 0 <= j < done && #[trigger] kept@[k] == all[j];
                        assert(0 <= j < done + 1 && kept@[k] == all[j]);
                    }
                }
            }
            proof {
                done = done + 1;
            }
        }
        assert(all.subrange(0, done) =~= all);
        proof {
            all.filter_lemma(keep);
            assert forall|i: int| 0 <= i < kept@.len() implies all.contains(#[trigger] kept@[i])
                && !doomed(*rule, arg@, kept@[i]) by {
                let j = choose|j: int| 0 <= j < done && #[trigger] kept@[i] == all[j];
                assert(keep(kept@[i]));
            }
        }
        let after = kept.len();
        self.rows = kept;
        (before - after) as u64
    }

    /// Deletes the rows whose expiry has passed at `now`; returns how many.
    pub fn purge_expired(&mut self, now: &str) -> (r: u64)
        requires
            old(self).wf(),
        ensures
            final(self).wf(),
            final(self).rows() == old(self).rows().filter(
                |s: Snapshot| !expired_at(s.expires_at, now@),
            ),
            r == (old(self).rows().len() - final(self).rows().len()) as u64,
            final(self).rows().len() <= old(self).rows().len(),
            forall|i: int|
                0 <= i < final(self).rows().len() ==> old(self).rows().contains(
                    #[trigger] final(self).rows()[i],
                ) && !expired_at(final(self).rows()[i].expires_at, now@),
    {
        let r = self.retain_undoomed(&PurgeRule::Expired, now);
        assert(self.rows() =~= old(self).rows().filter(|s: Snapshot| !expired_at(s.expires_at, now@)))
            by {
            assert((|s: Snapshot| !doomed(PurgeRule::Expired, now@, s)) =~= (|s: Snapshot|
                !expired_at(s.expires_at, now@)));
        }
        r
    }

    /// Deletes the rows whose URL contains `pattern` as a substring (a coarse
    /// domain match); returns how many.
    pub fn purge_by_domain(&mut self, pattern: &str) -> (r: u64)
        requires
            old(self).wf(),
        ensures
            final(self).wf(),
            final(self).rows() == old(self).rows().filter(
                |s: Snapshot| !contains_seq(s.url@, pattern@),
            ),
            r == (old(self).rows().len() - final(self).rows().len()) as u64,
            final(self).rows().len() <= old(self).rows().len(),
            forall|i: int|
                0 <= i < final(self).rows().len() ==> old(self).rows().contains(
                    #[trigger] final(self).rows()[i],
                ) && !contains_seq(final(self).rows()[i].url@, pattern@),
    {
        let r = self.retain_undoomed(&PurgeRule::UrlContains, pattern);
        assert(self.rows() =~= old(self).rows().filter(|s: Snapshot| !contains_seq(s.url@, pattern@)))
            by {
            assert((|s: Snapshot| !doomed(PurgeRule::UrlContains, pattern@, s)) =~= (|s: Snapshot|
                !contains_seq(s.url@, pattern@)));
        }
        r
    }

    /// The index of a row with the earliest `fetched_at`.
    fn oldest_index(&self) -> (k: usize)
        requires
            self.rows().len() > 0,
        ensures
            k < self.rows().len(),
            forall|i: int|
                0 <= i < self.rows().len() ==> !text_lt(
                    (#[trigger] self.rows()[i]).fetched_at@,
                    self.rows()[k as int].fetched_at@,
                ),
    {
        let mut best: usize = 0;
        let mut i: usize = 1;
        proof {
            lemma_text_lt_irreflexive(self.rows@[0].fetched_at@);
        }
        while i < self.rows.len()
            invariant
                best < i <= self.rows@.len(),
                forall|j: int|
                    0 <= j < i ==> !text_lt(
                        (#[trigger] self.rows@[j]).fetched_at@,
                        self.rows@[best as int].fetched_at@,
                    ),
            decreases self.rows@.len() - i,
        {
            if text_less(self.rows[i].fetched_at.as_str(), self.rows[best].fetched_at.as_str()) {
                proof {
                    let fi = self.rows@[i as int].fetched_at@;
                    let fb = self.rows@[best as int].fetched_at@;
                    lemma_text_lt_irreflexive(fi);
                    assert forall|j: int| 0 <= j < i + 1 implies !text_lt(
                        (#[trigger] self.rows@[j]).fetched_at@,
                        fi,
                    ) by {
                        if j < i && text_lt(self.rows@[j].fetched_at@, fi) {
                            lemma_text_lt_transitive(self.rows@[j].fetched_at@, fi, fb);
                        }
                    }
                }
                best = i;
            }
            i = i + 1;
        }
        best
    }

    /// When there are more than `max_entries` rows, deletes the oldest by
    /// `fetched_at` until exactly `max_entries` remain; returns how many.
    pub fn purge_lru(&mut self, max_entries: usize) -> (r: u64)
        requires
            old(self).wf(),
        ensures
            final(self).wf(),
            lru_purged(old(self).rows(), final(self).rows(), max_entries as nat),
            r == (old(self).rows().len() - final(self).rows().len()) as u64,
    {
        let n = self.rows.len();
        if n <= max_entries {
            return 0;
        }
        let to_delete = n - max_entries;
        let mut removed: usize = 0;
        while removed < to_delete
            invariant
                n == old(self).rows().len(),
                to_delete == n - max_entries,
                removed <= to_delete,
                self.rows().len() == n - removed,
                self.wf(),
                forall|i: int|
                    0 <= i < self.rows().len() ==> old(self).rows().contains(
                        #[trigger] self.rows()[i],
                    ),
                forall|j: int, i: int|
                    0 <= j < old(self).rows().len() && 0 <= i < self.rows().len() && !self.rows().contains(
                        #[trigger] old(self).rows()[j],
                    ) ==> !text_lt(
                        (#[trigger] self.rows()[i]).fetched_at@,
                        old(self).rows()[j].fetched_at@,
                    ),
            decreases to_delete - removed,
        {
            let k = self.oldest_index();
            let ghost before = self.rows@;
            let _gone = self.rows.remove(k);
            proof {
                let after = self.rows@;
                assert forall|i: int| 0 <= i < after.len() implies old(self).rows().contains(
                    #[trigger] after[i],
                ) by {
                    if i < k {
                        assert(after[i] == before[i]);
                    } else {
                        assert(after[i] == before[i + 1]);
                    }
                }
                assert forall|j: int, i: int|
                    0 <= j < old(self).rows().len() && 0 <= i < after.len() && !after.contains(
                        #[trigger] old(self).rows()[j],
                    ) implies !text_lt(
                        (#[trigger] after[i]).fetched_at@,
                        old(self).rows()[j].fetched_at@,
                    ) by {
                    let o = old(self).rows()[j];
                    let ai = if i < k { i } else { i + 1 };
                    assert(after[i] == before[ai]);
                    if before.contains(o) {
                        let p = choose|p: int| 0 <= p < before.len() && before[p] == o;
                        if p != k {
                            let q = if p < k { p } else { p - 1 };
                            assert(after[q] == o);
                        }
                    }
                }
                assert(unique_hashes(after)) by {
                    assert forall|a: int, b: int| 0 <= a < b < after.len() implies after[a].hash@
                        != after[b].hash@ by {
                        let a0 = if a < k { a } else { a + 1 };
                        let b0 = if b < k { b } else { b + 1 };
                        assert(after[a] == before[a0] && after[b] == before[b0]);
                    }
                }
            }
            removed = removed + 1;
        }
        to_delete as u64
    }
}

/// Parameters of a purge request; at least one must be given.
#[derive(Debug, Clone)]
pub struct CachePurgeParams {
    /// Purge entries whose expiry has passed (the age itself is not consulted).
    pub older_than_days: Option<i64>,
    /// Purge entries whose URL contains this text.
    pub domain: Option<String>,
    /// Keep only the newest this many entries.
    pub max_entries: Option<usize>,
}

/// The result of a purge request.
#[derive(Debug, Clone)]
pub struct CachePurgeOutput {
    /// Number of rows deleted.
    pub deleted: u64,
}

/// Parameters of a lookup request.
#[derive(Debug, Clone)]
pub struct CacheGetParams {
    /// The hash of the snapshot.
    pub hash: String,
}

/// The result of a lookup request.
#[derive(Debug, Clone)]
pub struct CacheGetOutput {
    /// The stored snapshot.
    pub snapshot: Snapshot,
}

impl SnapshotStore {
    /// Applies a purge request at time `now`: expired rows first (when
    /// `older_than_days` is given), then the domain purge, then the size
    /// ceiling. Fails with `InvalidInput` when no policy is given.
    pub fn purge(&mut self, params: &CachePurgeParams, now: &str) -> (r: Result<CachePurgeOutput, Error>)
        requires
            old(self).wf(),
        ensures
            final(self).wf(),
            (params.older_than_days is None && params.domain is None && params.max_entries is None)
                <==> r is Err,
            r is Err ==> (r matches Err(Error::InvalidInput(_)) && final(self).rows() == old(self).rows()),
            r matches Ok(out) ==> out.deleted == (old(self).rows().len() - final(self).rows().len()) as u64,
            final(self).rows().len() <= old(self).rows().len(),
            forall|i: int|
                0 <= i < final(self).rows().len() ==> old(self).rows().contains(
                    #[trigger] final(self).rows()[i],
                ),
            params.older_than_days is Some ==> forall|i: int|
                0 <= i < final(self).rows().len() ==> !expired_at(
                    (#[trigger] final(self).rows()[i]).expires_at,
                    now@,
                ),
            params.domain matches Some(d) ==> forall|i: int|
                0 <= i < final(self).rows().len() ==> !contains_seq(
                    (#[trigger] final(self).rows()[i]).url@,
                    d@,
                ),
            params.max_entries matches Some(m) ==> final(self).rows().len() <= m,
    {
        if params.older_than_days.is_none() && params.domain.is_none() && params.max_entries.is_none() {
            return Err(Error::InvalidInput(String::from_str(
                "At least one of older_than_days, domain, or max_entries must be specified",
            )));
        }
        let ghost start = self.rows();
        let before = self.rows.len();
        if params.older_than_days.is_some() {
            self.purge_expired(now);
        }
        let ghost mid1 = self.rows();
        match &params.domain {
            Some(d) => {
                self.purge_by_domain(d.as_str());
                proof {
                    assert forall|i: int| 0 <= i < self.rows().len() implies start.contains(
                        #[trigger] self.rows()[i],
                    ) by {
                        assert(mid1.contains(self.rows()[i]));
                        let j = choose|j: int| 0 <= j < mid1.len() && mid1[j] == self.rows()[i];
                    }
                    if params.older_than_days is Some {
                        assert forall|i: int| 0 <= i < self.rows().len() implies !expired_at(
                            (#[trigger] self.rows()[i]).expires_at,
                            now@,
                        ) by {
                            assert(mid1.contains(self.rows()[i]));
                        let j = choose|j: int| 0 <= j < mid1.len() && mid1[j] == self.rows()[i];
                        }
                    }
                }
            },
            None => {},
        }
        let ghost mid2 = self.rows();
        match params.max_entries {
            Some(m) => {
                self.purge_lru(m);
                proof {
                    assert forall|i: int| 0 <= i < self.rows().len() implies start.contains(
                        #[trigger] self.rows()[i],
                    ) by {
                        assert(mid2.contains(self.rows()[i]));
                        let j = choose|j: int| 0 <= j < mid2.len() && mid2[j] == self.rows()[i];
                    }
                    if params.older_than_days is Some {
                        assert forall|i: int| 0 <= i < self.rows().len() implies !expired_at(
                            (#[trigger] self.rows()[i]).expires_at,
                            now@,
                        ) by {
                            assert(mid2.contains(self.rows()[i]));
                        let j = choose|j: int| 0 <= j < mid2.len() && mid2[j] == self.rows()[i];
                        }
                    }
                    if params.domain is Some {
                        assert forall|i: int| 0 <= i < self.rows().len() implies !contains_seq(
                            (#[trigger] self.rows()[i]).url@,
                            params.domain->Some_0@,
                        ) by {
                            assert(mid2.contains(self.rows()[i]));
                        let j = choose|j: int| 0 <= j < mid2.len() && mid2[j] == self.rows()[i];
                        }
                    }
                }
            },
            None => {},
        }
        let after = self.rows.len();
        Ok(CachePurgeOutput { deleted: (before - after) as u64 })
    }

    /// Looks up a snapshot; a missing one is `CacheMiss` naming the hash.
    pub fn get_output(&self, params: &CacheGetParams) -> (r: Result<CacheGetOutput, Error>)
        requires
            self.wf(),
        ensures
            match self.lookup(params.hash@) {
                Some(s) => (r matches Ok(out) && same_row(out.snapshot, s)),
                None => (r matches Err(Error::CacheMiss(h)) && h@ == params.hash@),
            },
    {
        match self.get(params.hash.as_str()) {
            Some(s) => Ok(CacheGetOutput { snapshot: s.duplicate() }),
            None => Err(Error::CacheMiss(params.hash.clone())),
        }
    }
}

/// Writing a snapshot and reading its hash back yields exactly the snapshot
/// written; a second write under the same hash replaces every field of the
/// first (last write wins) without adding a row, and no other hash changes.
pub proof fn law_upsert_round_trip(
    s0: SnapshotStore,
    s1: SnapshotStore,
    s2: SnapshotStore,
    a: Snapshot,
    b: Snapshot,
)
    requires
        upserted(s0, s1, a),
        upserted(s1, s2, b),
        a.hash@ == b.hash@,
    ensures
        s1.lookup(a.hash@) == Some(a),
        s2.lookup(a.hash@) == Some(b),
        s2.rows().len() == s1.rows().len(),
        forall|h: Seq<char>| h != a.hash@ ==> s2.lookup(h) == s0.lookup(h),
{
}

/// A snapshot stored with an expiry later than `now` is fresh at `now`; at a
/// time later than the expiry it is no longer fresh, and it is one of the rows
/// that the expiry purge deletes.
pub proof fn law_freshness_lapses(
    s0: SnapshotStore,
    s1: SnapshotStore,
    s: Snapshot,
    now: Seq<char>,
    later: Seq<char>,
)
    requires
        upserted(s0, s1, s),
        s.expires_at is Some,
        text_lt(now, s.expires_at->Some_0@),
        text_lt(s.expires_at->Some_0@, later),
    ensures
        s1.lookup(s.hash@) == Some(s),
        fresh_at(s.expires_at, now),
        !fresh_at(s.expires_at, later),
        expired_at(s.expires_at, later),
{
    let e = s.expires_at->Some_0@;
    if text_lt(later, e) {
        lemma_text_lt_transitive(e, later, e);
        lemma_text_lt_irreflexive(e);
    }
}

/// Of two rows, a size purge down to one keeps exactly the row fetched later.
pub proof fn law_lru_keeps_newest(a: Snapshot, b: Snapshot, after: Seq<Snapshot>)
    requires
        lru_purged(seq![a, b], after, 1),
        text_lt(a.fetched_at@, b.fetched_at@),
    ensures
        after == seq![b],
{
    let before = seq![a, b];
    lemma_text_lt_irreflexive(a.fetched_at@);
    assert(a != b);
    assert(before.contains(after[0]));
    if after[0] == a {
        assert(!after.contains(before[1])) by {
            if after.contains(before[1]) {
                let i = choose|i: int| 0 <= i < after.len() && after[i] == before[1];
                assert(i == 0);
            }
        }
        assert(!text_lt(after[0].fetched_at@, before[1].fetched_at@));
    }
    assert(after =~= seq![b]);
}

/// The domain purge keeps exactly the rows whose URL does not contain the
/// pattern.
pub proof fn law_domain_purge_partition(before: Seq<Snapshot>, pattern: Seq<char>, r: Snapshot)
    requires
        before.contains(r),
    ensures
        before.filter(|s: Snapshot| !contains_seq(s.url@, pattern)).contains(r) <==> !contains_seq(
            r.url@,
            pattern,
        ),
{
    let keep = |s: Snapshot| !contains_seq(s.url@, pattern);
    before.filter_lemma(keep);
    let after = before.filter(keep);
    if after.contains(r) {
        let i = choose|i: int| 0 <= i < after.len() && after[i] == r;
        assert(keep(after[i]));
    }
    if !contains_seq(r.url@, pattern) {
        let j = choose|j: int| 0 <= j < before.len() && before[j] == r;
        assert(keep(before[j]));
    }
}

} // verus!
