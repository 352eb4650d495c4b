use vstd::prelude::*;

use crate::buffer::BufferModel;
use crate::le::{le_bytes_u16, le_bytes_u32, le_value_u16, le_value_u32};

verus! {

/// Decoding the two little-endian bytes of a `u16` gives the value back.
pub proof fn lemma_u16_round_trip(v: u16)
    ensures
        le_bytes_u16(v).len() == 2,
        le_value_u16(le_bytes_u16(v)) == v,
{
    let b = le_bytes_u16(v);
    assert(b[0] == v % 256);
    assert(b[1] == v / 256);
    assert((v % 256) + 256 * (v / 256) == v) by (nonlinear_arith);
}

/// Decoding the four little-endian bytes of a `u32` gives the value back.
pub proof fn lemma_u32_round_trip(v: u32)
    ensures
        le_bytes_u32(v).len() == 4,
        le_value_u32(le_bytes_u32(v)) == v,
{
    let b = le_bytes_u32(v);
    assert(b[0] == v % 256);
    assert(b[1] == (v / 256) % 256);
    assert(b[2] == (v / 65536) % 256);
    assert(b[3] == v / 16777216) by {
        assert(v / 16777216 < 256) by (nonlinear_arith)
            requires
                v < 4294967296,
        ;
    }
    assert((v % 256) + 256 * ((v / 256) % 256) + 65536 * ((v / 65536) % 256) + 16777216 * (v
        / 16777216) == v) by (nonlinear_arith);
}

/// Writing a byte, a `u16` and a `u32` at the write cursor and then reading a
/// byte, a two-byte and a four-byte number from the same place gives the
/// three values back, each read succeeding, when more than seven bytes lie
/// between that place and the end of the store (the four-byte read refuses to
/// end exactly at the end).
pub proof fn lemma_write_read_round_trip(m: BufferModel, a: u8, b: u16, c: u32)
    requires
        m.wf(),
        m.rpos == m.wpos,
        m.wpos + 7 < m.data.len(),
    ensures
        ({
            let w1 = m.after_write(seq![a]);
            let w2 = w1.after_write(le_bytes_u16(b));
            let w3 = w2.after_write(le_bytes_u32(c));
            let r1 = w3.after_read(1);
            let r2 = r1.after_read(2);
            &&& m.write_fits(1) && w1.write_fits(2) && w2.write_fits(4)
            &&& w3.read_fits(1) && w3.data[w3.rpos as int] == a
            &&& r1.int_read_fits(2) && le_value_u16(r1.unread(2)) == b
            &&& r2.int_read_fits(4) && le_value_u32(r2.unread(4)) == c
        }),
{
    lemma_u16_round_trip(b);
    lemma_u32_round_trip(c);
    let p = m.wpos as int;
    let w1 = m.after_write(seq![a]);
    let w2 = w1.after_write(le_bytes_u16(b));
    let w3 = w2.after_write(le_bytes_u32(c));
    let r1 = w3.after_read(1);
    let r2 = r1.after_read(2);
    assert(w3.data.len() == m.data.len());
    assert(w3.data[p] == a);
    assert(r1.unread(2) =~= le_bytes_u16(b));
    assert(r2.unread(4) =~= le_bytes_u32(c));
}

/// Reading no bytes and writing no bytes always succeed and change nothing.
pub proof fn lemma_empty_access(m: BufferModel)
    requires
        m.wf(),
    ensures
        m.read_fits(0),
        m.after_read(0) == m,
        m.write_fits(0),
        m.after_write(Seq::<u8>::empty()) == m,
{
    assert(m.after_write(Seq::<u8>::empty()).data =~= m.data);
}

} // verus!
