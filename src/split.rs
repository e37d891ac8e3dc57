use vstd::prelude::*;

use crate::error::Error;
use crate::grant::{ReadGrant, WriteGrant};
use crate::queue::{after_grant, after_read, grant_result_unsplit, read_result_unsplit, BBQueue};

verus! {

/// The write half of a split queue: it reserves and commits.
pub struct Producer {
    _private: (),
}

/// The read half of a split queue: it borrows and releases.
pub struct Consumer {
    _private: (),
}

impl Producer {
    pub(crate) fn new() -> Producer {
        Producer { _private: () }
    }

    /// Reserves `len` writable bytes of the split queue `q`, as `BBQueue::grant` does.
    pub fn grant(&mut self, q: &mut BBQueue, len: usize) -> (r: Result<WriteGrant, Error>)
        requires
            old(q)@.wf(),
            old(q)@.split,
        ensures
            grant_result_unsplit(old(q)@, len as nat, r),
            final(q)@ == after_grant(old(q)@, len as nat),
            final(q)@.wf(),
    {
        q.reserve(len)
    }

    /// Publishes the first `n` bytes of the outstanding reservation `g` of `q`.
    pub fn commit(&mut self, q: &mut BBQueue, n: usize, g: WriteGrant)
        requires
            old(q)@.wf(),
            old(q)@.split,
            old(q)@.reserved == Some((g.start(), g.data().len())),
            n <= g.data().len(),
        ensures
            final(q)@ == old(q)@.after_commit(n as nat, g.data()),
            final(q)@.wf(),
    {
        q.publish(n, g)
    }
}

impl Consumer {
    pub(crate) fn new() -> Consumer {
        Consumer { _private: () }
    }

    /// Borrows the visible unread bytes of the split queue `q`, as `BBQueue::read` does.
    pub fn read(&mut self, q: &mut BBQueue) -> (r: Result<ReadGrant, Error>)
        requires
            old(q)@.wf(),
            old(q)@.split,
        ensures
            read_result_unsplit(old(q)@, r),
            final(q)@ == after_read(old(q)@),
            final(q)@.wf(),
    {
        q.borrow()
    }

    /// Marks the first `n` bytes of the outstanding borrow `g` of `q` as consumed.
    pub fn release(&mut self, q: &mut BBQueue, n: usize, g: ReadGrant)
        requires
            old(q)@.wf(),
            old(q)@.split,
            old(q)@.borrowed == Some((g.start(), g.data().len())),
            n <= g.data().len(),
        ensures
            final(q)@ == old(q)@.after_release(n as nat),
            final(q)@.wf(),
    {
        q.consume(n, g)
    }
}

} // verus!
