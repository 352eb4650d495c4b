use vstd::prelude::*;

use crate::error::Error;
use crate::le::{
    decode_u16, decode_u32, encode_u16, encode_u32, le_bytes_u16, le_bytes_u32, le_value_u16,
    le_value_u32,
};

verus! {

/// The abstract state of a buffer: its bytes and its two cursors.
pub struct BufferModel {
    pub data: Seq<u8>,
    pub wpos: nat,
    pub rpos: nat,
}

impl BufferModel {
    /// Both cursors lie within the store.
    pub open spec fn wf(self) -> bool {
        &&& self.wpos <= self.data.len()
        &&& self.rpos <= self.data.len()
    }

    /// `n` more bytes fit between the write cursor and the end of the store.
    pub open spec fn write_fits(self, n: nat) -> bool {
        self.wpos + n <= self.data.len()
    }

    /// The state after `bytes` are stored at the write cursor and it moves past them.
    pub open spec fn after_write(self, bytes: Seq<u8>) -> BufferModel {
        BufferModel {
            data: self.data.subrange(0, self.wpos as int) + bytes + self.data.subrange(
                (self.wpos + bytes.len()) as int,
                self.data.len() as int,
            ),
            wpos: self.wpos + bytes.len(),
            rpos: self.rpos,
        }
    }

    /// `n` more bytes lie between the read cursor and the end of the store.
    pub open spec fn read_fits(self, n: nat) -> bool {
        self.rpos + n <= self.data.len()
    }

    /// The bound used by the two- and four-byte integer reads: stricter than
    /// `read_fits`, it also refuses a read that would end exactly at the end
    /// of the store.
    pub open spec fn int_read_fits(self, n: nat) -> bool {
        self.rpos + n < self.data.len()
    }

    /// The `n` bytes that start at the read cursor.
    pub open spec fn unread(self, n: nat) -> Seq<u8> {
        self.data.subrange(self.rpos as int, (self.rpos + n) as int)
    }

    /// The state after the read cursor moves `n` bytes on.
    pub open spec fn after_read(self, n: nat) -> BufferModel {
        BufferModel { data: self.data, wpos: self.wpos, rpos: self.rpos + n }
    }
}

/// A fixed-length byte store with a write cursor and a read cursor.
pub struct ByteBuffer {
    data: Vec<u8>,
    wpos: usize,
    rpos: usize,
}

impl View for ByteBuffer {
    type V = BufferModel;

    closed spec fn view(&self) -> BufferModel {
        BufferModel { data: self.data@, wpos: self.wpos as nat, rpos: self.rpos as nat }
    }
}

impl Default for ByteBuffer {
    /// An empty store, with both cursors at the start.
    fn default() -> (r: Self)
        ensures
            r@.data.len() == 0,
            r@.wpos == 0,
            r@.rpos == 0,
            r@.wf(),
    {
        ByteBuffer { data: Vec::new(), wpos: 0, rpos: 0 }
    }
}

impl Clone for ByteBuffer {
    /// A buffer with the same bytes and cursors.
    fn clone(&self) -> (r: Self)
        ensures
            r@ == self@,
    {
        proof {
            use_type_invariant(self);
        }
        let data = vstd::slice::slice_to_vec(self.data.as_slice());
        ByteBuffer { data, wpos: self.wpos, rpos: self.rpos }
    }
}

impl ByteBuffer {
    /// Both cursors lie within the store.
    #[verifier::type_invariant]
    spec fn inv(&self) -> bool {
        &&& self.wpos <= self.data.len()
        &&& self.rpos <= self.data.len()
    }

    /// A buffer of `cap` zero bytes, with both cursors at the start.
    pub fn with_capacity(cap: usize) -> (r: Self)
        ensures
            r@.data == Seq::new(cap as nat, |i: int| 0u8),
            r@.data.len() == cap,
            r@.wpos == 0,
            r@.rpos == 0,
            r@.wf(),
    {
        let data: Vec<u8> = vec![0u8; cap];
        assert(data@ =~= Seq::new(cap as nat, |i: int| 0u8));
        ByteBuffer { data, wpos: 0, rpos: 0 }
    }

    /// The capacity of the store, written or not.
    pub fn len(&self) -> (r: usize)
        ensures
            r == self@.data.len(),
            self@.wf(),
    {
        proof {
            use_type_invariant(self);
        }
        self.data.len()
    }

    /// The number of bytes between the read cursor and the end of the store.
    pub fn read_remain(&self) -> (r: usize)
        ensures
            r == self@.data.len() - self@.rpos,
    {
        proof {
            use_type_invariant(self);
        }
        self.len() - self.rpos
    }

    /// Stores `bytes` at the write cursor and moves it past them; refuses,
    /// changing nothing, when they do not fit before the end of the store.
    pub fn write_bytes(&mut self, bytes: &[u8]) -> (r: Result<(), Error>)
        ensures
            old(self)@.write_fits(bytes@.len()) ==> r == Ok::<(), Error>(()) && final(self)@
                == old(self)@.after_write(bytes@),
            !old(self)@.write_fits(bytes@.len()) ==> r == Err::<(), Error>(Error::WriteOverflow)
                && final(self)@ == old(self)@,
            final(self)@.wf(),
    {
        proof {
            use_type_invariant(&*self);
        }
        if bytes.len() > self.data.len() - self.wpos {
            return Err(Error::WriteOverflow);
        }
        let ghost d0 = self.data@;
        let ghost w0 = self.wpos as int;
        let n = bytes.len();
        let mut i: usize = 0;
        while i < n
            invariant
                i <= n,
                n == bytes@.len(),
                0 <= w0,
                w0 + n <= d0.len(),
                self.wpos == w0 + i,
                self.data@.len() == d0.len(),
                self.wpos <= self.data.len(),
                self.rpos <= self.data.len(),
                self.rpos == old(self).rpos,
                forall|k: int| 0 <= k < w0 ==> self.data@[k] == d0[k],
                forall|k: int| 0 <= k < i ==> self.data@[w0 + k] == #[trigger] bytes@[k],
                forall|k: int| w0 + i <= k < d0.len() ==> self.data@[k] == d0[k],
            decreases n - i,
        {
            self.data[self.wpos] = bytes[i];
            assert(self.data@[w0 + i] == bytes@[i as int]);
            self.wpos = self.wpos + 1;
            i = i + 1;
        }
        assert(self.data@ =~= old(self)@.after_write(bytes@).data);
        Ok(())
    }

    /// Moves both cursors back to the start; the stored bytes stay as they are.
    pub fn clear(&mut self)
        ensures
            final(self)@ == (BufferModel { data: old(self)@.data, wpos: 0, rpos: 0 }),
            final(self)@.wf(),
    {
        proof {
            use_type_invariant(&*self);
        }
        self.wpos = 0;
        self.rpos = 0;
    }

    /// Stores one byte at the write cursor.
    pub fn write_u8(&mut self, val: u8) -> (r: Result<(), Error>)
        ensures
            old(self)@.write_fits(1) ==> r == Ok::<(), Error>(()) && final(self)@ == old(self)@.after_write(seq![val]),
            !old(self)@.write_fits(1) ==> r == Err::<(), Error>(Error::WriteOverflow)
                && final(self)@ == old(self)@,
            final(self)@.wf(),
    {
        let buf = [val];
        assert(buf@ =~= seq![val]);
        self.write_bytes(&buf)
    }

    /// Stores `val` at the write cursor as two bytes, least significant first.
    pub fn write_u16(&mut self, val: u16) -> (r: Result<(), Error>)
        ensures
            old(self)@.write_fits(2) ==> r == Ok::<(), Error>(()) && final(self)@ == old(self)@.after_write(le_bytes_u16(val)),
            !old(self)@.write_fits(2) ==> r == Err::<(), Error>(Error::WriteOverflow)
                && final(self)@ == old(self)@,
            final(self)@.wf(),
    {
        let buf = encode_u16(val);
        self.write_bytes(&buf)
    }

    /// Stores `val` at the write cursor as four bytes, least significant first.
    pub fn write_u32(&mut self, val: u32) -> (r: Result<(), Error>)
        ensures
            old(self)@.write_fits(4) ==> r == Ok::<(), Error>(()) && final(self)@ == old(self)@.after_write(le_bytes_u32(val)),
            !old(self)@.write_fits(4) ==> r == Err::<(), Error>(Error::WriteOverflow)
                && final(self)@ == old(self)@,
            final(self)@.wf(),
    {
        let buf = encode_u32(val);
        self.write_bytes(&buf)
    }

    /// A copy of the `size` bytes at the read cursor, which moves past them;
    /// refuses, changing nothing, when they run past the end of the store.
    pub fn read_bytes(&mut self, size: usize) -> (r: Result<Vec<u8>, Error>)
        ensures
            old(self)@.read_fits(size as nat) ==> r is Ok && r->Ok_0@ == old(self)@.unread(
                size as nat,
            ) && final(self)@ == old(self)@.after_read(size as nat),
            !old(self)@.read_fits(size as nat) ==> r == Err::<Vec<u8>, Error>(Error::ReadOverflow)
                && final(self)@ == old(self)@,
            final(self)@.wf(),
    {
        proof {
            use_type_invariant(&*self);
        }
        if size > self.data.len() - self.rpos {
            return Err(Error::ReadOverflow);
        }
        let end = self.rpos + size;
        let res = vstd::slice::slice_to_vec(
            vstd::slice::slice_subrange(self.data.as_slice(), self.rpos, end),
        );
        self.rpos = end;
        Ok(res)
    }

    /// The byte at the read cursor, widened, and the cursor moves one byte on;
    /// refuses, changing nothing, at the end of the store.
    pub fn read_u8_as_u32(&mut self) -> (r: Result<u32, Error>)
        ensures
            old(self)@.read_fits(1) ==> r == Ok::<u32, Error>(
                old(self)@.data[old(self)@.rpos as int] as u32,
            ) && final(self)@ == old(self)@.after_read(1),
            !old(self)@.read_fits(1) ==> r == Err::<u32, Error>(Error::ReadOverflow) && final(self)@ == old(self)@,
            final(self)@.wf(),
    {
        proof {
            use_type_invariant(&*self);
        }
        if self.rpos >= self.data.len() {
            return Err(Error::ReadOverflow);
        }
        let pos = self.rpos;
        self.rpos = pos + 1;
        Ok(self.data[pos] as u32)
    }

    /// The two bytes at the read cursor as a little-endian number, widened, and
    /// the cursor moves past them; refuses, changing nothing, unless more than
    /// two bytes lie between the cursor and the end of the store.
    pub fn read_u16_as_u32(&mut self) -> (r: Result<u32, Error>)
        ensures
            old(self)@.int_read_fits(2) ==> r == Ok::<u32, Error>(
                le_value_u16(old(self)@.unread(2)) as u32,
            ) && final(self)@ == old(self)@.after_read(2),
            !old(self)@.int_read_fits(2) ==> r == Err::<u32, Error>(Error::ReadOverflow)
                && final(self)@ == old(self)@,
            final(self)@.wf(),
    {
        proof {
            use_type_invariant(&*self);
        }
        if self.data.len() - self.rpos <= 2 {
            return Err(Error::ReadOverflow);
        }
        let start = self.rpos;
        self.rpos = start + 2;
        let v = decode_u16(vstd::slice::slice_subrange(self.data.as_slice(), start, start + 2));
        Ok(v as u32)
    }

    /// The four bytes at the read cursor as a little-endian number, and the
    /// cursor moves past them; refuses, changing nothing, unless more than
    /// four bytes lie between the cursor and the end of the store.
    pub fn read_u32(&mut self) -> (r: Result<u32, Error>)
        ensures
            old(self)@.int_read_fits(4) ==> r == Ok::<u32, Error>(
                le_value_u32(old(self)@.unread(4)) as u32,
            ) && final(self)@ == old(self)@.after_read(4),
            !old(self)@.int_read_fits(4) ==> r == Err::<u32, Error>(Error::ReadOverflow)
                && final(self)@ == old(self)@,
            final(self)@.wf(),
    {
        proof {
            use_type_invariant(&*self);
        }
        if self.data.len() - self.rpos <= 4 {
            return Err(Error::ReadOverflow);
        }
        let start = self.rpos;
        self.rpos = start + 4;
        let v = decode_u32(vstd::slice::slice_subrange(self.data.as_slice(), start, start + 4));
        Ok(v)
    }

    /// The offset of the read cursor.
    pub fn get_rpos(&self) -> (r: usize)
        ensures
            r == self@.rpos,
            self@.wf(),
    {
        proof {
            use_type_invariant(self);
        }
        self.rpos
    }

    /// The offset of the write cursor.
    pub fn get_wpos(&self) -> (r: usize)
        ensures
            r == self@.wpos,
            self@.wf(),
    {
        proof {
            use_type_invariant(self);
        }
        self.wpos
    }

    /// A copy of the whole store, written or not.
    pub fn to_bytes(&self) -> (r: Vec<u8>)
        ensures
            r@ == self@.data,
    {
        vstd::slice::slice_to_vec(self.data.as_slice())
    }
}

} // verus!
