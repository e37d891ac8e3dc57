use vstd::prelude::*;

verus! {

/// The abstract state of a queue: the backing region and its cursors.
pub ghost struct QueueView {
    /// The backing region, of fixed length.
    pub bytes: Seq<u8>,
    /// Where the next write reservation starts in the current lap.
    pub write: nat,
    /// Where the next read starts.
    pub read: nat,
    /// End of the valid data before a wrap, while one is pending.
    pub watermark: Option<nat>,
    /// The outstanding write reservation, as (start, length).
    pub reserved: Option<(nat, nat)>,
    /// The outstanding read borrow, as (start, length).
    pub borrowed: Option<(nat, nat)>,
    /// Whether the queue was split into a producer and a consumer.
    pub split: bool,
}

impl QueueView {
    pub open spec fn cap(self) -> nat {
        self.bytes.len()
    }

    /// End of the region a reader may currently see.
    pub open spec fn visible_end(self) -> nat {
        match self.watermark {
            None => self.write,
            Some(m) => m,
        }
    }

    /// The cursors are ordered: `read <= write` within one lap, and while a wrap is
    /// pending the wrapped writes stay below the unread data before the watermark.
    pub open spec fn cursors_wf(self) -> bool {
        &&& self.cap() > 0
        &&& match self.watermark {
            None => self.read <= self.write <= self.cap(),
            Some(m) => self.write <= self.read < m <= self.cap(),
        }
    }

    /// A reservation starting at `start` is a wrap one: it restarts at 0 below the reader.
    pub open spec fn is_wrap_start(self, start: nat) -> bool {
        self.watermark is None && start != self.write
    }

    /// The reservation `(start, len)` lies in free space only.
    pub open spec fn reservation_ok(self, start: nat, len: nat) -> bool {
        if start == self.write {
            match self.watermark {
                None => start + len <= self.cap(),
                Some(_) => start + len <= self.read,
            }
        } else {
            self.watermark is None && start == 0 && len <= self.read
        }
    }

    /// The borrow `(start, len)` lies in the visible unread bytes.
    pub open spec fn borrow_ok(self, start: nat, len: nat) -> bool {
        start == self.read && 0 < len && start + len <= self.visible_end()
    }

    pub open spec fn wf(self) -> bool {
        &&& self.cursors_wf()
        &&& (self.reserved matches Some((s, l)) ==> self.reservation_ok(s, l))
        &&& (self.borrowed matches Some((s, l)) ==> self.borrow_ok(s, l))
    }

    /// The committed bytes not yet released, oldest first.
    pub open spec fn unread(self) -> Seq<u8> {
        match self.watermark {
            None => self.bytes.subrange(self.read as int, self.write as int),
            Some(m) => self.bytes.subrange(self.read as int, m as int) + self.bytes.subrange(
                0,
                self.write as int,
            ),
        }
    }

    /// What a read hands out: the unread bytes up to the watermark, if one is pending.
    pub open spec fn visible(self) -> Seq<u8> {
        self.bytes.subrange(self.read as int, self.visible_end() as int)
    }

    /// Where a reservation of `len` bytes would start, if it fits anywhere.
    pub open spec fn reserve_start(self, len: nat) -> Option<nat> {
        match self.watermark {
            None => if self.write + len <= self.cap() {
                Some(self.write)
            } else if len <= self.read {
                Some(0)
            } else {
                None
            },
            Some(_) => if self.write + len <= self.read {
                Some(self.write)
            } else {
                None
            },
        }
    }

    /// The state after the outstanding reservation is committed with the first `n`
    /// bytes of `data`.
    pub open spec fn after_commit(self, n: nat, data: Seq<u8>) -> QueueView {
        let start = self.reserved->Some_0.0;
        let bytes = Seq::new(
            self.cap(),
            |i: int|
                if start <= i < start + n {
                    data[i - start]
                } else {
                    self.bytes[i]
                },
        );
        if !self.is_wrap_start(start) {
            QueueView { bytes, write: self.write + n, reserved: None, ..self }
        } else if self.read == self.write {
            QueueView { bytes, write: n, read: 0, watermark: None, reserved: None, ..self }
        } else {
            QueueView {
                bytes,
                write: n,
                watermark: Some(self.write),
                reserved: None,
                ..self
            }
        }
    }

    /// The state after `n` bytes of the outstanding borrow are released.
    pub open spec fn after_release(self, n: nat) -> QueueView {
        let r = self.read + n;
        if self.watermark == Some(r) {
            QueueView { read: 0, watermark: None, borrowed: None, ..self }
        } else {
            QueueView { read: r, borrowed: None, ..self }
        }
    }
}

} // verus!
