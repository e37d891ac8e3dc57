use vstd::prelude::*;

verus! {

/// An exclusive, fillable view of a reserved range of the queue, resolved by a commit.
pub struct WriteGrant {
    pub(crate) start: usize,
    pub(crate) buf: Vec<u8>,
}

/// An exclusive view of readable bytes of the queue, resolved by a release.
pub struct ReadGrant {
    pub(crate) start: usize,
    pub(crate) buf: Vec<u8>,
}

impl WriteGrant {
    pub(crate) fn new(start: usize, buf: Vec<u8>) -> (r: WriteGrant)
        ensures
            r.start() == start,
            r.data() == buf@,
    {
        WriteGrant { start, buf }
    }

    pub(crate) fn into_parts(self) -> (r: (usize, Vec<u8>))
        ensures
            r.0 == self.start(),
            r.1@ == self.data(),
    {
        (self.start, self.buf)
    }

    /// Offset in the backing region where the reserved range starts.
    pub closed spec fn start(&self) -> nat {
        self.start as nat
    }

    /// The bytes the caller has put in the reserved range so far.
    pub closed spec fn data(&self) -> Seq<u8> {
        self.buf@
    }

    pub fn len(&self) -> (r: usize)
        ensures
            r == self.data().len(),
    {
        self.buf.len()
    }

    pub fn buf(&self) -> (r: &[u8])
        ensures
            r@ == self.data(),
    {
        self.buf.as_slice()
    }

    /// Sets byte `i` of the reserved range.
    pub fn set(&mut self, i: usize, v: u8)
        requires
            i < old(self).data().len(),
        ensures
            final(self).start() == old(self).start(),
            final(self).data() == old(self).data().update(i as int, v),
    {
        self.buf.set(i, v);
    }

    /// Fills the whole reserved range from `src`, which has its length.
    pub fn copy_from_slice(&mut self, src: &[u8])
        requires
            src@.len() == old(self).data().len(),
        ensures
            final(self).start() == old(self).start(),
            final(self).data() == src@,
    {
        let n = self.buf.len();
        let mut i: usize = 0;
        while i < n
            invariant
                n == self.buf@.len(),
                src@.len() == n,
                self.start == old(self).start,
                i <= n,
                forall|j: int| 0 <= j < i ==> self.buf@[j] == src@[j],
            decreases n - i,
        {
            self.buf.set(i, src[i]);
            i = i + 1;
        }
        assert(self.buf@ =~= src@);
    }
}

impl ReadGrant {
    pub(crate) fn new(start: usize, buf: Vec<u8>) -> (r: ReadGrant)
        ensures
            r.start() == start,
            r.data() == buf@,
    {
        ReadGrant { start, buf }
    }

    /// Offset in the backing region where the borrowed range starts.
    pub closed spec fn start(&self) -> nat {
        self.start as nat
    }

    /// The borrowed bytes.
    pub closed spec fn data(&self) -> Seq<u8> {
        self.buf@
    }

    pub fn len(&self) -> (r: usize)
        ensures
            r == self.data().len(),
    {
        self.buf.len()
    }

    pub fn buf(&self) -> (r: &[u8])
        ensures
            r@ == self.data(),
    {
        self.buf.as_slice()
    }
}

} // verus!
