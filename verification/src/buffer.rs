//! The output-buffer capability: a writable region of fixed capacity into
//! which the engine deposits the dictionary, and a committed length recording
//! how many of those bytes are dictionary content.
//!
//! The committed length starts at zero, is set exactly once per operation to
//! the byte count the engine reported, and never exceeds the capacity, so a
//! downstream reader always sees a correctly sized dictionary.

use vstd::prelude::*;

verus! {

/// A caller-sized output region plus the length committed so far.
pub struct OutBuffer {
    data: Vec<u8>,
    written: usize,
}

impl OutBuffer {
    /// The bytes of the writable region.
    pub closed spec fn bytes(self) -> Seq<u8> {
        self.data@
    }

    /// How many leading bytes have been committed as dictionary content.
    pub closed spec fn committed(self) -> nat {
        self.written as nat
    }

    /// The region's capacity: the committed length may never pass it.
    pub open spec fn capacity_spec(self) -> nat {
        self.bytes().len()
    }

    /// Well-formedness: the committed length stays within the region.
    pub open spec fn wf(self) -> bool {
        self.committed() <= self.capacity_spec()
    }

    /// A fresh, zero-filled buffer of the requested capacity with nothing
    /// committed yet.
    pub fn with_capacity(capacity: usize) -> (r: OutBuffer)
        ensures
            r.capacity_spec() == capacity,
            r.committed() == 0,
            r.bytes() == Seq::<u8>::new(capacity as nat, |i: int| 0u8),
    {
        let mut data: Vec<u8> = Vec::new();
        let mut i: usize = 0;
        while i < capacity
            invariant
                i <= capacity,
                data@ =~= Seq::<u8>::new(i as nat, |j: int| 0u8),
            decreases capacity - i,
        {
            data.push(0u8);
            i = i + 1;
        }
        proof {
            assert(data@ =~= Seq::<u8>::new(capacity as nat, |i: int| 0u8));
        }
        OutBuffer { data, written: 0 }
    }

    /// The current capacity of the writable region.
    pub fn capacity(&self) -> (r: usize)
        ensures
            r == self.capacity_spec(),
    {
        self.data.len()
    }

    /// The length committed by the last successful operation.
    pub fn committed_len(&self) -> (r: usize)
        ensures
            r == self.committed(),
    {
        self.written
    }

    /// Borrow the writable region so a caller can fill it.  The committed
    /// length is untouched; the region afterwards holds whatever the caller
    /// left in it.
    pub fn region_mut(&mut self) -> (r: &mut Vec<u8>)
        ensures
            r@ == old(self).bytes(),
            final(self).bytes() == (*final(r))@,
            final(self).committed() == old(self).committed(),
    {
        &mut self.data
    }

    /// Record how many leading bytes of the region are dictionary content.
    /// The bytes themselves are untouched, and the committed length equals
    /// exactly the count passed in.
    pub fn commit(&mut self, written: usize)
        requires
            written <= old(self).capacity_spec(),
        ensures
            final(self).bytes() == old(self).bytes(),
            final(self).committed() == written,
            final(self).wf(),
    {
        self.written = written;
    }

    /// Copy out the committed dictionary: exactly the committed prefix of
    /// the region.
    pub fn dict_bytes(&self) -> (r: Vec<u8>)
        requires
            self.wf(),
        ensures
            r@ == self.bytes().take(self.committed() as int),
    {
        let mut out: Vec<u8> = Vec::new();
        let mut i: usize = 0;
        while i < self.written
            invariant
                i <= self.written,
                self.written <= self.data@.len(),
                out@ =~= self.data@.take(i as int),
            decreases self.written - i,
        {
            let byte = self.data[i];
            out.push(byte);
            i = i + 1;
        }
        proof {
            assert(out@ =~= self.bytes().take(self.committed() as int));
        }
        out
    }
}

} // verus!
