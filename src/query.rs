use vstd::prelude::*;

verus! {

/// How long an advisory lock lives once granted.
#[derive(Clone, Copy, Debug, PartialEq, Eq, Structural)]
pub enum LockType {
    /// Held until released explicitly or until the session ends.
    SessionLock,
    /// Released automatically when the current transaction ends.
    TransactionLock,
}

/// A statement for the database, with the key to bind to `$1`, if any.
#[derive(Debug)]
pub struct Query {
    pub sql: String,
    pub param: Option<i64>,
}

/// The PostgreSQL function that takes an advisory lock of the given scope
/// and mode, waiting for it (`is_wait`) or returning at once.
pub open spec fn lock_function(lock_type: LockType, is_shared: bool, is_wait: bool) -> Seq<char> {
    match (lock_type, is_shared, is_wait) {
        (LockType::SessionLock, false, true) => "pg_advisory_lock"@,
        (LockType::SessionLock, false, false) => "pg_try_advisory_lock"@,
        (LockType::SessionLock, true, true) => "pg_advisory_lock_shared"@,
        (LockType::SessionLock, true, false) => "pg_try_advisory_lock_shared"@,
        (LockType::TransactionLock, false, true) => "pg_advisory_xact_lock"@,
        (LockType::TransactionLock, false, false) => "pg_try_advisory_xact_lock"@,
        (LockType::TransactionLock, true, true) => "pg_advisory_xact_lock_shared"@,
        (LockType::TransactionLock, true, false) => "pg_try_advisory_xact_lock_shared"@,
    }
}

/// The statement that calls `lock_function` on the key bound to `$1`.
pub open spec fn lock_sql(lock_type: LockType, is_shared: bool, is_wait: bool) -> Seq<char> {
    "SELECT pg_catalog."@ + lock_function(lock_type, is_shared, is_wait) + "($1)"@
}

/// Request derivation is total and tells every combination apart: each of
/// the eight combinations of scope, mode and waiting gives one statement,
/// and two combinations give the same statement only when they are equal.
pub proof fn lemma_lock_sql_injective(
    lock_type1: LockType,
    is_shared1: bool,
    is_wait1: bool,
    lock_type2: LockType,
    is_shared2: bool,
    is_wait2: bool,
)
    ensures
        lock_sql(lock_type1, is_shared1, is_wait1) == lock_sql(lock_type2, is_shared2, is_wait2)
            <==> (lock_type1 == lock_type2 && is_shared1 == is_shared2 && is_wait1 == is_wait2),
{
    reveal_strlit("pg_advisory_lock");
    reveal_strlit("pg_try_advisory_lock");
    reveal_strlit("pg_advisory_lock_shared");
    reveal_strlit("pg_try_advisory_lock_shared");
    reveal_strlit("pg_advisory_xact_lock");
    reveal_strlit("pg_try_advisory_xact_lock");
    reveal_strlit("pg_advisory_xact_lock_shared");
    reveal_strlit("pg_try_advisory_xact_lock_shared");
    let a = lock_sql(lock_type1, is_shared1, is_wait1);
    let b = lock_sql(lock_type2, is_shared2, is_wait2);
    if a == b {
        assert(a.len() == b.len());
        assert(lock_function(lock_type1, is_shared1, is_wait1).len() == lock_function(
            lock_type2,
            is_shared2,
            is_wait2,
        ).len());
    }
}

/// The statement that releases a session-level advisory lock of the given
/// mode on the key bound to `$1`.
pub open spec fn unlock_sql(is_shared: bool) -> Seq<char> {
    if is_shared {
        "SELECT pg_catalog.pg_advisory_unlock_shared($1)"@
    } else {
        "SELECT pg_catalog.pg_advisory_unlock($1)"@
    }
}

/// Builds the statement that takes an advisory lock of the given scope and
/// mode, blocking until it is granted when `is_wait` holds.
pub fn build_query(lock_type: LockType, is_shared: bool, is_wait: bool) -> (r: String)
    ensures
        r@ == lock_sql(lock_type, is_shared, is_wait),
{
    let mut q = String::from_str("SELECT pg_catalog.pg_");
    if is_wait {
        q.append("advisory");
    } else {
        q.append("try_advisory");
    }
    if let LockType::TransactionLock = lock_type {
        q.append("_xact");
    }
    q.append("_lock");
    if is_shared {
        q.append("_shared");
    }
    q.append("($1)");
    proof {
        reveal_strlit("SELECT pg_catalog.pg_");
        reveal_strlit("SELECT pg_catalog.");
        reveal_strlit("advisory");
        reveal_strlit("try_advisory");
        reveal_strlit("_xact");
        reveal_strlit("_lock");
        reveal_strlit("_shared");
        reveal_strlit("($1)");
        reveal_strlit("pg_advisory_lock");
        reveal_strlit("pg_try_advisory_lock");
        reveal_strlit("pg_advisory_lock_shared");
        reveal_strlit("pg_try_advisory_lock_shared");
        reveal_strlit("pg_advisory_xact_lock");
        reveal_strlit("pg_try_advisory_xact_lock");
        reveal_strlit("pg_advisory_xact_lock_shared");
        reveal_strlit("pg_try_advisory_xact_lock_shared");
    }
    assert(q@ =~= lock_sql(lock_type, is_shared, is_wait));
    q
}

/// Builds the statement that releases a session-level advisory lock of the
/// given mode.
pub fn build_unlock_query(is_shared: bool) -> (r: String)
    ensures
        r@ == unlock_sql(is_shared),
{
    if is_shared {
        String::from_str("SELECT pg_catalog.pg_advisory_unlock_shared($1)")
    } else {
        String::from_str("SELECT pg_catalog.pg_advisory_unlock($1)")
    }
}

} // verus!
