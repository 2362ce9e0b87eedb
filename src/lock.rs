use vstd::prelude::*;

use crate::query::{build_query, build_unlock_query, lock_sql, unlock_sql, LockType, Query};

verus! {

/// One advisory lock request: the key it is on, its scope and its mode.
///
/// The handle holds no "acquired" state; whether the lock is held is known
/// to the database alone. Each operation returns the statement to run.
#[derive(Clone, Copy, Debug)]
pub struct DistributedLock {
    key: i64,
    lock_type: LockType,
    is_shared: bool,
}

impl DistributedLock {
    pub closed spec fn spec_key(&self) -> i64 {
        self.key
    }

    pub closed spec fn spec_lock_type(&self) -> &LockType {
        &self.lock_type
    }

    pub closed spec fn spec_is_shared(&self) -> bool {
        self.is_shared
    }

    /// An exclusive, session-level lock on `key`.
    pub fn new(key: i64) -> (r: DistributedLock)
        ensures
            r.key() == key,
            *r.lock_type() == LockType::SessionLock,
            !r.is_shared(),
    {
        DistributedLock { key, lock_type: LockType::SessionLock, is_shared: false }
    }

    /// A lock on `key` with the given scope and mode.
    pub fn new_with_attributes(key: i64, lock_type: LockType, is_shared: bool) -> (r:
        DistributedLock)
        ensures
            r.key() == key,
            *r.lock_type() == lock_type,
            r.is_shared() == is_shared,
    {
        DistributedLock { key, lock_type, is_shared }
    }

    #[verifier::when_used_as_spec(spec_key)]
    pub fn key(&self) -> (r: i64)
        ensures
            r == self.spec_key(),
    {
        self.key
    }

    #[verifier::when_used_as_spec(spec_lock_type)]
    pub fn lock_type(&self) -> (r: &LockType)
        ensures
            r == self.spec_lock_type(),
    {
        &self.lock_type
    }

    #[verifier::when_used_as_spec(spec_is_shared)]
    pub fn is_shared(&self) -> (r: bool)
        ensures
            r == self.spec_is_shared(),
    {
        self.is_shared
    }

    pub fn set_key(&mut self, key: i64)
        ensures
            final(self).key() == key,
            final(self).lock_type() == old(self).lock_type(),
            final(self).is_shared() == old(self).is_shared(),
    {
        self.key = key;
    }

    pub fn set_lock_type(&mut self, lock_type: LockType)
        ensures
            final(self).key() == old(self).key(),
            *final(self).lock_type() == lock_type,
            final(self).is_shared() == old(self).is_shared(),
    {
        self.lock_type = lock_type;
    }

    pub fn set_is_shared(&mut self, is_shared: bool)
        ensures
            final(self).key() == old(self).key(),
            final(self).lock_type() == old(self).lock_type(),
            final(self).is_shared() == is_shared,
    {
        self.is_shared = is_shared;
    }

    /// The statement that takes this lock, waiting until it is granted.
    pub fn lock(&self) -> (r: Query)
        ensures
            r.sql@ == lock_sql(*self.lock_type(), self.is_shared(), true),
            r.param == Some(self.key()),
    {
        Query { sql: build_query(self.lock_type, self.is_shared, true), param: Some(self.key) }
    }

    /// The statement that tries to take this lock without waiting; it
    /// returns one boolean, true when the lock was granted.
    pub fn try_lock(&self) -> (r: Query)
        ensures
            r.sql@ == lock_sql(*self.lock_type(), self.is_shared(), false),
            r.param == Some(self.key()),
    {
        Query { sql: build_query(self.lock_type, self.is_shared, false), param: Some(self.key) }
    }

    /// The statement that releases this lock, in the mode it was taken.
    ///
    /// A transaction-level lock cannot be released before its transaction
    /// ends, so for one there is nothing to send.
    pub fn unlock(&self) -> (r: Option<Query>)
        ensures
            r is None <==> *self.lock_type() == LockType::TransactionLock,
            r matches Some(q) ==> q.sql@ == unlock_sql(self.is_shared()) && q.param == Some(
                self.key(),
            ),
    {
        match self.lock_type {
            LockType::SessionLock => Some(
                Query { sql: build_unlock_query(self.is_shared), param: Some(self.key) },
            ),
            LockType::TransactionLock => None,
        }
    }
}

} // verus!
