use vstd::prelude::*;

use crate::query::Query;

verus! {

/// The statement that releases every session-level advisory lock that the
/// current session holds.
pub open spec fn unlock_all_sql() -> Seq<char> {
    "SELECT pg_catalog.pg_advisory_unlock_all()"@
}

/// The statement that tells, as one boolean, whether any session holds an
/// advisory lock on the key bound to `$1`. A 64-bit key is stored in
/// `pg_locks` as its high half in `classid` and its low half in `objid`,
/// with `objsubid` 1.
pub open spec fn is_locked_sql() -> Seq<char> {
    "SELECT EXISTS (SELECT 1 FROM pg_catalog.pg_locks WHERE locktype = 'advisory' AND granted AND objsubid = 1 AND ((classid::bigint << 32) | objid::bigint) = $1)"@
}

/// The statement that lists, one row of one 64-bit integer each, the keys of
/// all advisory locks held, once per holder.
pub open spec fn all_locks_sql() -> Seq<char> {
    "SELECT (classid::bigint << 32) | objid::bigint FROM pg_catalog.pg_locks WHERE locktype = 'advisory' AND granted AND objsubid = 1"@
}

/// Questions on advisory locks that concern no single handle.
#[derive(Clone, Copy, Debug)]
pub struct DistributedLockInfo {}

impl DistributedLockInfo {
    pub fn new() -> (r: DistributedLockInfo) {
        DistributedLockInfo {  }
    }

    /// The statement that releases all session-level locks of this session.
    /// It is meant for clean-up: a failure of it is best ignored.
    pub fn unlock_all(&self) -> (r: Query)
        ensures
            r.sql@ == unlock_all_sql(),
            r.param is None,
    {
        Query {
            sql: String::from_str("SELECT pg_catalog.pg_advisory_unlock_all()"),
            param: None,
        }
    }

    /// The statement that tells whether any session holds a lock on `key`.
    pub fn is_locked(&self, key: i64) -> (r: Query)
        ensures
            r.sql@ == is_locked_sql(),
            r.param == Some(key),
    {
        Query {
            sql: String::from_str(
                "SELECT EXISTS (SELECT 1 FROM pg_catalog.pg_locks WHERE locktype = 'advisory' AND granted AND objsubid = 1 AND ((classid::bigint << 32) | objid::bigint) = $1)",
            ),
            param: Some(key),
        }
    }

    /// The statement that lists the keys of all advisory locks held.
    pub fn get_all_locks(&self) -> (r: Query)
        ensures
            r.sql@ == all_locks_sql(),
            r.param is None,
    {
        Query {
            sql: String::from_str(
                "SELECT (classid::bigint << 32) | objid::bigint FROM pg_catalog.pg_locks WHERE locktype = 'advisory' AND granted AND objsubid = 1",
            ),
            param: None,
        }
    }

    /// The keys in the rows that `get_all_locks` returned, in their order.
    pub fn keys_of_rows(&self, rows: &Vec<(i64,)>) -> (r: Vec<i64>)
        ensures
            r@ == rows@.map_values(|row: (i64,)| row.0),
    {
        let mut keys: Vec<i64> = Vec::new();
        let mut i: usize = 0;
        while i < rows.len()
            invariant
                i <= rows@.len(),
                keys@ == rows@.subrange(0, i as int).map_values(|row: (i64,)| row.0),
            decreases rows@.len() - i,
        {
            keys.push(rows[i].0);
            i = i + 1;
            assert(keys@ =~= rows@.subrange(0, i as int).map_values(|row: (i64,)| row.0));
        }
        assert(rows@.subrange(0, i as int) =~= rows@);
        keys
    }
}

} // verus!
