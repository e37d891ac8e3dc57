use vstd::prelude::*;

use crate::model::QueueView;

verus! {

/// Position `i` of the backing region holds committed bytes that are not yet released.
pub open spec fn holds_unread(q: QueueView, i: nat) -> bool {
    match q.watermark {
        None => q.read <= i < q.write,
        Some(m) => q.read <= i < m || i < q.write,
    }
}

/// The committed-but-unreleased bytes never exceed the capacity.
pub proof fn lemma_capacity_bound(q: QueueView)
    requires
        q.wf(),
    ensures
        q.unread().len() <= q.cap(),
{
}

/// A write reservation never covers unread bytes, and a read borrow covers only
/// unread bytes, so a reader never sees a byte that was not committed.
pub proof fn lemma_no_overlap(q: QueueView)
    requires
        q.wf(),
    ensures
        q.reserved matches Some((s, l)) ==> forall|i: nat|
            s <= i < s + l ==> !holds_unread(q, i),
        q.borrowed matches Some((s, l)) ==> forall|i: nat|
            s <= i < s + l ==> holds_unread(q, i),
{
}

/// Releasing `k` bytes of an `m`-byte borrow, `k < m`, leaves the other `m - k` bytes
/// at the start of what the next read sees.
pub proof fn lemma_partial_release(q: QueueView, k: nat)
    requires
        q.wf(),
        q.borrowed matches Some((s, m)) && k < m,
    ensures
        ({
            let (s, m) = q.borrowed->Some_0;
            let next = q.after_release(k);
            &&& next.borrowed is None
            &&& m - k <= next.visible().len()
            &&& next.visible().subrange(0, (m - k) as int) == q.bytes.subrange((s + k) as int, (s + m) as int)
        }),
{
    let (s, m) = q.borrowed->Some_0;
    let next = q.after_release(k);
    assert(next.visible().subrange(0, (m - k) as int) =~= q.bytes.subrange((s + k) as int, (s + m) as int));
}

/// Bytes committed into a wrapped reservation stay out of sight while older bytes are
/// unread: the next read sees exactly the older bytes, and so does every read after a
/// release that leaves some of them.
pub proof fn lemma_wrap_invisible(q: QueueView, n: nat, data: Seq<u8>)
    requires
        q.wf(),
        q.reserved matches Some((s, l)) && q.is_wrap_start(s) && n <= l && l == data.len(),
        q.unread().len() > 0,
    ensures
        ({
            let next = q.after_commit(n, data);
            &&& next.unread() == q.unread() + data.subrange(0, n as int)
            &&& next.visible() == q.unread()
            &&& forall|k: nat|
                k < q.unread().len() ==> #[trigger] next.after_release(k).visible()
                    == q.unread().subrange(k as int, q.unread().len() as int)
        }),
{
    let next = q.after_commit(n, data);
    assert(next.visible() =~= q.unread());
    assert(next.unread() =~= q.unread() + data.subrange(0, n as int));
    assert forall|k: nat| k < q.unread().len() implies #[trigger] next.after_release(k).visible()
        == q.unread().subrange(k as int, q.unread().len() as int) by {
        assert(next.after_release(k).visible() =~= q.unread().subrange(
            k as int,
            q.unread().len() as int,
        ));
    }
}

/// Committing `n` bytes of the outstanding reservation appends exactly those bytes to
/// the unread ones, and the new state is well formed.
pub proof fn lemma_commit_appends(q: QueueView, n: nat, data: Seq<u8>)
    requires
        q.wf(),
        q.reserved matches Some((s, l)) && n <= l && l == data.len(),
    ensures
        q.after_commit(n, data).wf(),
        q.after_commit(n, data).unread() == q.unread() + data.subrange(0, n as int),
{
    let next = q.after_commit(n, data);
    assert(next.unread() =~= q.unread() + data.subrange(0, n as int));
}

/// Releasing `k` bytes of the outstanding borrow drops exactly the `k` oldest unread
/// bytes, and the new state is well formed.
pub proof fn lemma_release_drops(q: QueueView, k: nat)
    requires
        q.wf(),
        q.borrowed matches Some((s, m)) && k <= m,
    ensures
        q.after_release(k).wf(),
        q.after_release(k).unread() == q.unread().subrange(k as int, q.unread().len() as int),
{
    let next = q.after_release(k);
    assert(next.unread() =~= q.unread().subrange(k as int, q.unread().len() as int));
}

} // verus!
