use vstd::prelude::*;

use crate::error::Error;
use crate::grant::{ReadGrant, WriteGrant};
use crate::model::QueueView;
use crate::split::{Consumer, Producer};

verus! {

/// A byte ring buffer over a fixed backing region, for one producer and one consumer.
pub struct BBQueue {
    buf: Vec<u8>,
    write: usize,
    read: usize,
    watermark: Option<usize>,
    reserved: Option<(usize, usize)>,
    borrowed: Option<(usize, usize)>,
    split: bool,
}

pub open spec fn opt_nat(o: Option<usize>) -> Option<nat> {
    match o {
        None => None,
        Some(x) => Some(x as nat),
    }
}

pub open spec fn opt_range(o: Option<(usize, usize)>) -> Option<(nat, nat)> {
    match o {
        None => None,
        Some((s, l)) => Some((s as nat, l as nat)),
    }
}

impl View for BBQueue {
    type V = QueueView;

    closed spec fn view(&self) -> QueueView {
        QueueView {
            bytes: self.buf@,
            write: self.write as nat,
            read: self.read as nat,
            watermark: opt_nat(self.watermark),
            reserved: opt_range(self.reserved),
            borrowed: opt_range(self.borrowed),
            split: self.split,
        }
    }
}

/// What a reservation of `len` bytes in state `q` hands back.
pub open spec fn grant_result(q: QueueView, len: nat, r: Result<WriteGrant, Error>) -> bool {
    if q.split {
        r == Err::<WriteGrant, Error>(Error::AlreadySplit)
    } else {
        grant_result_unsplit(q, len, r)
    }
}

/// What a reservation of `len` bytes in state `q` hands back, split or not.
pub open spec fn grant_result_unsplit(q: QueueView, len: nat, r: Result<WriteGrant, Error>) -> bool {
    if q.reserved is Some {
        r == Err::<WriteGrant, Error>(Error::GrantInProgress)
    } else {
        match q.reserve_start(len) {
            None => r == Err::<WriteGrant, Error>(Error::InsufficientSize),
            Some(s) => r matches Ok(g) && g.start() == s && g.data() == Seq::new(len, |i: int| 0u8),
        }
    }
}

/// The state after a reservation of `len` bytes in state `q`, split or not.
pub open spec fn after_grant(q: QueueView, len: nat) -> QueueView {
    if q.reserved is None && q.reserve_start(len) is Some {
        QueueView { reserved: Some((q.reserve_start(len)->Some_0, len)), ..q }
    } else {
        q
    }
}

/// What a read in state `q` hands back.
pub open spec fn read_result(q: QueueView, r: Result<ReadGrant, Error>) -> bool {
    if q.split {
        r == Err::<ReadGrant, Error>(Error::AlreadySplit)
    } else {
        read_result_unsplit(q, r)
    }
}

/// What a read in state `q` hands back, split or not.
pub open spec fn read_result_unsplit(q: QueueView, r: Result<ReadGrant, Error>) -> bool {
    if q.borrowed is Some {
        r == Err::<ReadGrant, Error>(Error::GrantInProgress)
    } else if q.visible().len() == 0 {
        r == Err::<ReadGrant, Error>(Error::InsufficientSize)
    } else {
        r matches Ok(g) && g.start() == q.read && g.data() == q.visible()
    }
}

/// The state after a read in state `q`, split or not.
pub open spec fn after_read(q: QueueView) -> QueueView {
    if q.borrowed is None && q.visible().len() > 0 {
        QueueView { borrowed: Some((q.read, q.visible().len())), ..q }
    } else {
        q
    }
}

impl BBQueue {
    /// A queue over `region`, empty, with no grant outstanding and not split.
    pub fn new(region: Vec<u8>) -> (r: BBQueue)
        requires
            region@.len() > 0,
        ensures
            r@.wf(),
            r@ == (QueueView {
                bytes: region@,
                write: 0,
                read: 0,
                watermark: None,
                reserved: None,
                borrowed: None,
                split: false,
            }),
            r@.unread().len() == 0,
    {
        BBQueue {
            buf: region,
            write: 0,
            read: 0,
            watermark: None,
            reserved: None,
            borrowed: None,
            split: false,
        }
    }

    /// Capacity of the backing region.
    pub fn capacity(&self) -> (r: usize)
        ensures
            r == self@.cap(),
    {
        self.buf.len()
    }

    /// Reserves `len` contiguous writable bytes: at the write cursor if the tail holds
    /// them, else from offset 0 if they fit below the read cursor.
    pub fn grant(&mut self, len: usize) -> (r: Result<WriteGrant, Error>)
        requires
            old(self)@.wf(),
        ensures
            grant_result(old(self)@, len as nat, r),
            final(self)@ == if old(self)@.split {
                old(self)@
            } else {
                after_grant(old(self)@, len as nat)
            },
            final(self)@.wf(),
    {
        if self.split {
            return Err(Error::AlreadySplit);
        }
        self.reserve(len)
    }

    /// Publishes the first `n` bytes of the outstanding reservation `g` as readable; the
    /// rest of the reservation is dropped. Committing more than was reserved is ruled out
    /// by the contract rather than clamped.
    pub fn commit(&mut self, n: usize, g: WriteGrant)
        requires
            old(self)@.wf(),
            !old(self)@.split,
            old(self)@.reserved == Some((g.start(), g.data().len())),
            n <= g.data().len(),
        ensures
            final(self)@ == old(self)@.after_commit(n as nat, g.data()),
            final(self)@.wf(),
    {
        self.publish(n, g)
    }

    /// Borrows the unread bytes up to the write cursor, or up to the watermark while a
    /// wrap is pending.
    pub fn read(&mut self) -> (r: Result<ReadGrant, Error>)
        requires
            old(self)@.wf(),
        ensures
            read_result(old(self)@, r),
            final(self)@ == if old(self)@.split {
                old(self)@
            } else {
                after_read(old(self)@)
            },
            final(self)@.wf(),
    {
        if self.split {
            return Err(Error::AlreadySplit);
        }
        self.borrow()
    }

    /// Marks the first `n` bytes of the outstanding borrow `g` as consumed.
    pub fn release(&mut self, n: usize, g: ReadGrant)
        requires
            old(self)@.wf(),
            !old(self)@.split,
            old(self)@.borrowed == Some((g.start(), g.data().len())),
            n <= g.data().len(),
        ensures
            final(self)@ == old(self)@.after_release(n as nat),
            final(self)@.wf(),
    {
        self.consume(n, g)
    }

    /// Divides the queue into a producer and a consumer, once; after that the direct
    /// operations above refuse with `AlreadySplit`.
    pub fn split(&mut self) -> (r: Result<(Producer, Consumer), Error>)
        requires
            old(self)@.wf(),
        ensures
            old(self)@.split ==> r == Err::<(Producer, Consumer), Error>(Error::AlreadySplit)
                && final(self)@ == old(self)@,
            !old(self)@.split ==> r is Ok && final(self)@ == (QueueView {
                split: true,
                ..old(self)@
            }),
            final(self)@.wf(),
    {
        if self.split {
            return Err(Error::AlreadySplit);
        }
        self.split = true;
        Ok((Producer::new(), Consumer::new()))
    }

    pub(crate) fn reserve(&mut self, len: usize) -> (r: Result<WriteGrant, Error>)
        requires
            old(self)@.wf(),
        ensures
            grant_result_unsplit(old(self)@, len as nat, r),
            final(self)@ == after_grant(old(self)@, len as nat),
            final(self)@.wf(),
    {
        if self.reserved.is_some() {
            return Err(Error::GrantInProgress);
        }
        let cap = self.buf.len();
        let start: usize;
        match self.watermark {
            None => {
                if len <= cap - self.write {
                    start = self.write;
                } else if len <= self.read {
                    start = 0;
                } else {
                    return Err(Error::InsufficientSize);
                }
            },
            Some(_) => {
                if len <= self.read - self.write {
                    start = self.write;
                } else {
                    return Err(Error::InsufficientSize);
                }
            },
        }
        let mut buf: Vec<u8> = Vec::new();
        let mut i: usize = 0;
        while i < len
            invariant
                i <= len,
                buf@ == Seq::new(i as nat, |j: int| 0u8),
            decreases len - i,
        {
            buf.push(0u8);
            i = i + 1;
            assert(buf@ =~= Seq::new(i as nat, |j: int| 0u8));
        }
        self.reserved = Some((start, len));
        Ok(WriteGrant::new(start, buf))
    }

    pub(crate) fn publish(&mut self, n: usize, g: WriteGrant)
        requires
            old(self)@.wf(),
            old(self)@.reserved == Some((g.start(), g.data().len())),
            n <= g.data().len(),
        ensures
            final(self)@ == old(self)@.after_commit(n as nat, g.data()),
            final(self)@.wf(),
    {
        let ghost q = self@;
        let (start, data) = g.into_parts();
        let cap = self.buf.len();
        let mut i: usize = 0;
        while i < n
            invariant
                q == old(self)@,
                i <= n,
                n <= data@.len(),
                start + data@.len() <= q.cap(),
                cap == q.cap(),
                self.buf@.len() == q.cap(),
                self@ == (QueueView { bytes: self.buf@, ..q }),
                forall|j: int|
                    0 <= j < q.cap() ==> self.buf@[j] == if start <= j < start + i {
                        data@[j - start]
                    } else {
                        q.bytes[j]
                    },
            decreases n - i,
        {
            self.buf.set(start + i, data[i]);
            i = i + 1;
        }
        let wrap = self.watermark.is_none() && start != self.write;
        if !wrap {
            self.write = self.write + n;
        } else if self.read == self.write {
            self.read = 0;
            self.write = n;
            self.watermark = None;
        } else {
            self.watermark = Some(self.write);
            self.write = n;
        }
        self.reserved = None;
        assert(self.buf@ =~= q.after_commit(n as nat, data@).bytes);
    }

    pub(crate) fn borrow(&mut self) -> (r: Result<ReadGrant, Error>)
        requires
            old(self)@.wf(),
        ensures
            read_result_unsplit(old(self)@, r),
            final(self)@ == after_read(old(self)@),
            final(self)@.wf(),
    {
        if self.borrowed.is_some() {
            return Err(Error::GrantInProgress);
        }
        let end = match self.watermark {
            None => self.write,
            Some(m) => m,
        };
        if self.read == end {
            return Err(Error::InsufficientSize);
        }
        let mut buf: Vec<u8> = Vec::new();
        let mut i: usize = self.read;
        while i < end
            invariant
                self@ == old(self)@,
                self.read <= i <= end,
                end == self@.visible_end(),
                end <= self.buf@.len(),
                buf@ == self.buf@.subrange(self.read as int, i as int),
            decreases end - i,
        {
            buf.push(self.buf[i]);
            i = i + 1;
            assert(buf@ =~= self.buf@.subrange(self.read as int, i as int));
        }
        self.borrowed = Some((self.read, end - self.read));
        Ok(ReadGrant::new(self.read, buf))
    }

    pub(crate) fn consume(&mut self, n: usize, g: ReadGrant)
        requires
            old(self)@.wf(),
            old(self)@.borrowed == Some((g.start(), g.data().len())),
            n <= g.data().len(),
        ensures
            final(self)@ == old(self)@.after_release(n as nat),
            final(self)@.wf(),
    {
        let r = self.read + n;
        if self.watermark == Some(r) {
            self.read = 0;
            self.watermark = None;
        } else {
            self.read = r;
        }
        self.borrowed = None;
    }
}

} // verus!
