use vstd::prelude::*;
use vstd::rwlock::{RwLock, RwLockPredicate};

use crate::log::{texts, ItemLog};

verus! {

/// What the lock asks of the log it guards: nothing beyond its type.
pub struct AnyLog;

impl RwLockPredicate<ItemLog> for AnyLog {
    open spec fn inv(self, v: ItemLog) -> bool {
        true
    }
}

/// The one shared item sequence of the process. Every read and every append
/// runs inside the lock's critical section, which holds only for an in-memory
/// copy or push; a read never sees half of an append.
pub struct Store {
    log: RwLock<ItemLog, AnyLog>,
}

impl Store {
    /// A store holding no item.
    pub fn new() -> (r: Store) {
        Store { log: RwLock::new(ItemLog::new(), Ghost(AnyLog)) }
    }

    /// A copy of the items at one instant, under the read lock.
    pub fn snapshot(&self) -> (r: Vec<String>) {
        let handle = self.log.acquire_read();
        let r = handle.borrow().snapshot();
        handle.release_read();
        r
    }

    /// Appends `item` under the write lock and returns a copy of the whole
    /// sequence as it stood right after, taken inside the same critical section;
    /// what other callers append is unknown here, so the contract states that it
    /// ends with `item`. `ItemLog::append` gives the exact effect of each append.
    pub fn append(&self, item: String) -> (r: Vec<String>)
        ensures
            texts(r@).len() >= 1,
            texts(r@).last() == item@,
    {
        let (mut log, handle) = self.log.acquire_write();
        let r = log.append(item);
        handle.release_write(log);
        r
    }
}

} // verus!
