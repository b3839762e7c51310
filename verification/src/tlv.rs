//! The tag-length-value reader: one record is a one-byte tag, a one-byte
//! length and that many value bytes.
//!
//! The reader is lenient at the tail of the buffer: a declared length that
//! runs past the end clips the value to the remaining bytes but still
//! advances the cursor past the declared end, and a read past the end of the
//! buffer yields an all-zero record instead of indexing out of bounds.

use vstd::prelude::*;

verus! {

/// One parsed tag-length-value record and the cursor position after it.
pub struct TlvRecord {
    pub tag: u8,
    pub len: u8,
    pub value: Vec<u8>,
    pub next: usize,
}

/// Mathematical view of a parsed record.
pub ghost struct TlvView {
    pub tag: u8,
    pub len: u8,
    pub value: Seq<u8>,
    pub next: int,
}

impl View for TlvRecord {
    type V = TlvView;

    open spec fn view(&self) -> TlvView {
        TlvView { tag: self.tag, len: self.len, value: self.value@, next: self.next as int }
    }
}

/// The record read from `b` at cursor `off`: tag at `off`, length at
/// `off + 1`, value clipped to the end of the buffer, and the cursor moved
/// past the declared end. With fewer than two bytes left the record is all
/// zero and the cursor still moves by the two header bytes.
pub open spec fn tlv_read(b: Seq<u8>, off: int) -> TlvView
    recommends
        0 <= off,
{
    if off + 2 > b.len() {
        TlvView { tag: 0, len: 0, value: Seq::empty(), next: off + 2 }
    } else {
        let tag = b[off];
        let len = b[off + 1];
        let end = off + 2 + len;
        let value = if end <= b.len() {
            b.subrange(off + 2, end)
        } else {
            b.subrange(off + 2, b.len() as int)
        };
        TlvView { tag, len, value, next: end }
    }
}

/// A fresh copy of the bytes of `bytes` from `from` (inclusive) to `to`
/// (exclusive).
pub fn copy_range(bytes: &Vec<u8>, from: usize, to: usize) -> (out: Vec<u8>)
    requires
        from <= to <= bytes@.len(),
    ensures
        out@ == bytes@.subrange(from as int, to as int),
{
    let mut out: Vec<u8> = Vec::new();
    let mut i: usize = from;
    while i < to
        invariant
            from <= i <= to <= bytes@.len(),
            out@ == bytes@.subrange(from as int, i as int),
        decreases to - i,
    {
        out.push(bytes[i]);
        proof {
            assert(out@ =~= bytes@.subrange(from as int, i as int + 1));
        }
        i = i + 1;
    }
    out
}

/// Reads one record at cursor `off`, as [`tlv_read`] states.
pub fn read_tlv(bytes: &Vec<u8>, off: usize) -> (r: TlvRecord)
    requires
        off + 2 + 255 <= usize::MAX,
    ensures
        r@ == tlv_read(bytes@, off as int),
{
    if off + 2 > bytes.len() {
        let r = TlvRecord { tag: 0, len: 0, value: Vec::new(), next: off + 2 };
        proof {
            assert(r@.value =~= tlv_read(bytes@, off as int).value);
        }
        r
    } else {
        let tag = bytes[off];
        let len = bytes[off + 1];
        let end = off + 2 + len as usize;
        let value = if end <= bytes.len() {
            copy_range(bytes, off + 2, end)
        } else {
            copy_range(bytes, off + 2, bytes.len())
        };
        TlvRecord { tag, len, value, next: end }
    }
}

/// Reading at the start of a record embedded between arbitrary bytes yields
/// exactly that record's tag, length and payload.
pub proof fn lemma_tlv_read_at(pre: Seq<u8>, tag: u8, len: u8, payload: Seq<u8>, suf: Seq<u8>)
    requires
        payload.len() == len,
    ensures
        ({
            let r = tlv_read(pre + seq![tag, len] + payload + suf, pre.len() as int);
            &&& r.tag == tag
            &&& r.len == len
            &&& r.value == payload
            &&& r.next == pre.len() + 2 + len
        }),
{
    let b = pre + seq![tag, len] + payload + suf;
    let off = pre.len() as int;
    assert(b.len() == pre.len() + 2 + payload.len() + suf.len());
    assert(b[off] == tag);
    assert(b[off + 1] == len);
    let r = tlv_read(b, off);
    assert(r.value =~= payload);
}

} // verus!
