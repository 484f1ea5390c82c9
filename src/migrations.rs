//! Schema evolution: an ordered list of versioned, idempotent DDL batches and
//! the choice of which of them a store still needs.
use vstd::prelude::*;

verus! {

/// One schema migration: its version and its DDL batch.
#[derive(Debug, Clone)]
pub struct Migration {
    pub version: i64,
    pub sql: String,
}

/// The schema's migrations, in increasing version order.
pub fn schema_migrations() -> (r: Vec<Migration>)
    ensures
        r@.len() == 2,
        r@[0].version == 1,
        r@[1].version == 2,
{
    let mut v: Vec<Migration> = Vec::new();
    v.push(
        Migration {
            version: 1,
            sql: String::from_str(
                "CREATE TABLE IF NOT EXISTS snapshots (
                    hash TEXT PRIMARY KEY,
                    url TEXT NOT NULL,
                    final_url TEXT NOT NULL,
                    mode TEXT NOT NULL,
                    content_type TEXT,
                    status_code INTEGER,
                    fetched_at TEXT NOT NULL,
                    expires_at TEXT,
                    etag TEXT,
                    last_modified TEXT,
                    raw_bytes BLOB,
                    raw_truncated INTEGER NOT NULL DEFAULT 0,
                    title TEXT,
                    markdown TEXT,
                    text TEXT,
                    links_json TEXT,
                    extractor_name TEXT,
                    extractor_version TEXT,
                    siteconfig_id TEXT,
                    extract_cfg_json TEXT,
                    headers_json TEXT,
                    fetch_ms INTEGER,
                    extract_ms INTEGER
                );
                CREATE INDEX IF NOT EXISTS idx_snapshots_url ON snapshots(url);
                CREATE INDEX IF NOT EXISTS idx_snapshots_fetched_at ON snapshots(fetched_at);",
            ),
        },
    );
    v.push(
        Migration {
            version: 2,
            sql: String::from_str(
                "CREATE TABLE IF NOT EXISTS search_cache (
                    key_hash TEXT PRIMARY KEY,
                    query_json TEXT NOT NULL,
                    response_json TEXT NOT NULL,
                    fetched_at TEXT NOT NULL,
                    expires_at TEXT NOT NULL
                );
                CREATE INDEX IF NOT EXISTS idx_search_cache_expires_at ON search_cache(expires_at);",
            ),
        },
    );
    v
}

/// The versions of a migration list.
pub open spec fn versions_of(ms: Seq<Migration>) -> Seq<i64> {
    ms.map_values(|m: Migration| m.version)
}

/// The versions still to apply over a store whose highest recorded version is
/// `current`: those above it, in list order.
pub open spec fn pending_of(vs: Seq<i64>, current: i64) -> Seq<i64> {
    vs.filter(|v: i64| v > current)
}

/// The highest recorded version after recording `applied` over `current`.
pub open spec fn recorded_max(current: i64, applied: Seq<i64>) -> i64
    decreases applied.len(),
{
    if applied.len() == 0 {
        current
    } else {
        let m = recorded_max(current, applied.drop_last());
        if applied.last() > m {
            applied.last()
        } else {
            m
        }
    }
}

/// The indexes of the migrations to apply, in order, over a store whose
/// highest recorded version is `current`.
pub fn plan_migrations(migrations: &Vec<Migration>, current: i64) -> (r: Vec<usize>)
    ensures
        r@.map_values(|i: usize| migrations@[i as int].version) == pending_of(
            versions_of(migrations@),
            current,
        ),
        forall|k: int| 0 <= k < r@.len() ==> (#[trigger] r@[k]) < migrations@.len(),
        forall|k: int, l: int| 0 <= k < l < r@.len() ==> r@[k] < r@[l],
{
    let ghost vs = versions_of(migrations@);
    let ghost keep = |v: i64| v > current;
    let mut out: Vec<usize> = Vec::new();
    let mut i: usize = 0;
    while i < migrations.len()
        invariant
            vs == versions_of(migrations@),
            forall|v: i64| #[trigger] keep(v) == (v > current),
            i <= migrations@.len(),
            out@.map_values(|j: usize| migrations@[j as int].version) == vs.subrange(0, i as int).filter(keep),
            forall|k: int| 0 <= k < out@.len() ==> (#[trigger] out@[k]) < i,
            forall|k: int, l: int| 0 <= k < l < out@.len() ==> out@[k] < out@[l],
        decreases migrations@.len() - i,
    {
        proof {
            reveal(Seq::filter);
            let s1 = vs.subrange(0, i + 1);
            assert(s1.drop_last() =~= vs.subrange(0, i as int));
            assert(s1.last() == migrations@[i as int].version);
        }
        let ghost before = out@;
        if migrations[i].version > current {
            out.push(i);
            assert(out@.map_values(|j: usize| migrations@[j as int].version) =~= before.map_values(
                |j: usize| migrations@[j as int].version,
            ).push(migrations@[i as int].version));
        }
        i = i + 1;
    }
    assert(vs.subrange(0, migrations@.len() as int) =~= vs);
    out
}

/// A filter keeps nothing when no element passes.
proof fn lemma_filter_none(s: Seq<i64>, p: spec_fn(i64) -> bool)
    requires
        forall|i: int| 0 <= i < s.len() ==> !p(#[trigger] s[i]),
    ensures
        s.filter(p).len() == 0,
    decreases s.len(),
{
    reveal(Seq::filter);
    if s.len() > 0 {
        lemma_filter_none(s.drop_last(), p);
    }
}

/// Every recorded version is at most the recorded maximum, which never drops.
proof fn lemma_recorded_max_bounds(current: i64, applied: Seq<i64>)
    ensures
        current <= recorded_max(current, applied),
        forall|i: int| 0 <= i < applied.len() ==> #[trigger] applied[i] <= recorded_max(current, applied),
    decreases applied.len(),
{
    if applied.len() > 0 {
        lemma_recorded_max_bounds(current, applied.drop_last());
        assert forall|i: int| 0 <= i < applied.len() implies #[trigger] applied[i] <= recorded_max(
            current,
            applied,
        ) by {
            if i < applied.len() - 1 {
                assert(applied.drop_last()[i] == applied[i]);
            }
        }
    }
}

/// Running the migrations a second time changes nothing: once the pending
/// versions of a list are applied and recorded, none of the list is pending.
pub proof fn law_migrations_idempotent(vs: Seq<i64>, current: i64)
    ensures
        pending_of(vs, recorded_max(current, pending_of(vs, current))).len() == 0,
{
    let applied = pending_of(vs, current);
    let after = recorded_max(current, applied);
    let keep = |v: i64| v > current;
    lemma_recorded_max_bounds(current, applied);
    vs.filter_lemma(keep);
    assert forall|i: int| 0 <= i < vs.len() implies !((|v: i64| v > after)(#[trigger] vs[i])) by {
        if vs[i] > current {
            assert(keep(vs[i]));
            assert(applied.contains(vs[i]));
            let j = choose|j: int| 0 <= j < applied.len() && applied[j] == vs[i];
        }
    }
    lemma_filter_none(vs, |v: i64| v > after);
}

} // verus!
