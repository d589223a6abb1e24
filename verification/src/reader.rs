use vstd::prelude::*;
use vstd::bytes::{
    spec_u16_from_le_bytes, spec_u32_from_le_bytes, spec_u64_from_le_bytes, u16_from_le_bytes,
    u32_from_le_bytes, u64_from_le_bytes,
};
use vstd::slice::slice_subrange;
use crate::text::{fixed_string_spec, is_scalar_text, read_utf16_slot, utf16_encode, utf16_units};

verus! {

/// Little-endian `u16` stored at byte offset `p` of `d`.
pub open spec fn u16_at(d: Seq<u8>, p: int) -> u16 {
    spec_u16_from_le_bytes(d.subrange(p, p + 2))
}

/// Little-endian `u32` stored at byte offset `p` of `d`.
pub open spec fn u32_at(d: Seq<u8>, p: int) -> u32 {
    spec_u32_from_le_bytes(d.subrange(p, p + 4))
}

/// Little-endian `u64` stored at byte offset `p` of `d`.
pub open spec fn u64_at(d: Seq<u8>, p: int) -> u64 {
    spec_u64_from_le_bytes(d.subrange(p, p + 8))
}

/// Little-endian two's-complement `i32` stored at byte offset `p` of `d`.
pub open spec fn i32_at(d: Seq<u8>, p: int) -> i32 {
    u32_at(d, p) as i32
}

/// Little-endian two's-complement `i64` stored at byte offset `p` of `d`.
pub open spec fn i64_at(d: Seq<u8>, p: int) -> i64 {
    u64_at(d, p) as i64
}

/// A one-byte flag stored at byte offset `p` of `d`.
pub open spec fn bool_at(d: Seq<u8>, p: int) -> bool {
    d[p] != 0
}

/// Sequential little-endian reader over a response payload.
///
/// The first read that runs past the end of the data puts the reader in a
/// failed state; from then on every read yields the zero value and the
/// position no longer moves.
pub struct Reader<'a> {
    data: &'a [u8],
    pos: usize,
    error: bool,
}

impl<'a> Reader<'a> {
    #[verifier::type_invariant]
    closed spec fn inv(self) -> bool {
        self.pos <= self.data@.len()
    }

    /// The bytes being read.
    pub closed spec fn bytes(self) -> Seq<u8> {
        self.data@
    }

    /// The offset of the next read.
    pub closed spec fn offset(self) -> int {
        self.pos as int
    }

    /// Whether a read has run past the end of the data.
    pub closed spec fn failed(self) -> bool {
        self.error
    }

    /// Whether a read of `n` bytes from `self` succeeds.
    pub open spec fn fits(self, n: int) -> bool {
        !self.failed() && self.offset() + n <= self.bytes().len()
    }

    /// `after` is `before` after a read of `n` bytes.
    pub open spec fn advanced(before: Self, after: Self, n: int) -> bool {
        &&& after.bytes() == before.bytes()
        &&& 0 <= after.offset() <= after.bytes().len()
        &&& if before.fits(n) {
            !after.failed() && after.offset() == before.offset() + n
        } else {
            after.failed() && after.offset() == before.offset()
        }
    }

    pub fn new(data: &'a [u8]) -> (r: Self)
        ensures
            r.bytes() == data@,
            r.offset() == 0,
            !r.failed(),
    {
        Reader { data, pos: 0, error: false }
    }

    pub fn has_error(&self) -> (r: bool)
        ensures
            r == self.failed(),
            0 <= self.offset() <= self.bytes().len(),
    {
        proof {
            use_type_invariant(self);
        }
        self.error
    }

    /// Checks that a read of `n` bytes would succeed; if it would not, the
    /// reader fails, as that read would make it.
    pub fn expect(&mut self, n: usize) -> (ok: bool)
        ensures
            ok == old(self).fits(n as int),
            final(self).bytes() == old(self).bytes(),
            final(self).offset() == old(self).offset(),
            0 <= final(self).offset() <= final(self).bytes().len(),
            final(self).failed() == !ok,
    {
        proof {
            use_type_invariant(&*self);
        }
        if self.error || n > self.data.len() - self.pos {
            self.error = true;
            false
        } else {
            true
        }
    }

    /// Claims the next `n` bytes, returning their offset, or fails the reader.
    fn claim(&mut self, n: usize) -> (r: Option<usize>)
        ensures
            Self::advanced(*old(self), *final(self), n as int),
            r == (if old(self).fits(n as int) {
                Some(old(self).offset() as usize)
            } else {
                None::<usize>
            }),
    {
        proof {
            use_type_invariant(&*self);
        }
        if self.error || n > self.data.len() - self.pos {
            self.error = true;
            None
        } else {
            let p = self.pos;
            self.pos = self.pos + n;
            Some(p)
        }
    }

    pub fn read_i64(&mut self) -> (r: i64)
        ensures
            Self::advanced(*old(self), *final(self), 8),
            r == (if old(self).fits(8) { i64_at(old(self).bytes(), old(self).offset()) } else { 0 }),
    {
        match self.claim(8) {
            Some(p) => u64_from_le_bytes(slice_subrange(self.data, p, p + 8)) as i64,
            None => 0,
        }
    }

    pub fn read_u64(&mut self) -> (r: u64)
        ensures
            Self::advanced(*old(self), *final(self), 8),
            r == (if old(self).fits(8) { u64_at(old(self).bytes(), old(self).offset()) } else { 0 }),
    {
        match self.claim(8) {
            Some(p) => u64_from_le_bytes(slice_subrange(self.data, p, p + 8)),
            None => 0,
        }
    }

    pub fn read_i32(&mut self) -> (r: i32)
        ensures
            Self::advanced(*old(self), *final(self), 4),
            r == (if old(self).fits(4) { i32_at(old(self).bytes(), old(self).offset()) } else { 0 }),
    {
        match self.claim(4) {
            Some(p) => u32_from_le_bytes(slice_subrange(self.data, p, p + 4)) as i32,
            None => 0,
        }
    }

    pub fn read_u32(&mut self) -> (r: u32)
        ensures
            Self::advanced(*old(self), *final(self), 4),
            r == (if old(self).fits(4) { u32_at(old(self).bytes(), old(self).offset()) } else { 0 }),
    {
        match self.claim(4) {
            Some(p) => u32_from_le_bytes(slice_subrange(self.data, p, p + 4)),
            None => 0,
        }
    }

    /// Reads an IEEE-754 double as its bit pattern.
    pub fn read_f64_bits(&mut self) -> (r: u64)
        ensures
            Self::advanced(*old(self), *final(self), 8),
            r == (if old(self).fits(8) { u64_at(old(self).bytes(), old(self).offset()) } else { 0 }),
    {
        self.read_u64()
    }

    pub fn read_bool1(&mut self) -> (r: bool)
        ensures
            Self::advanced(*old(self), *final(self), 1),
            r == (old(self).fits(1) && bool_at(old(self).bytes(), old(self).offset())),
    {
        match self.claim(1) {
            Some(p) => self.data[p] != 0,
            None => false,
        }
    }

    /// Reads a fixed-width slot of UTF-16LE text, up to its first NUL unit.
    pub fn read_fixed_string(&mut self, slot_bytes: usize) -> (r: String)
        ensures
            Self::advanced(*old(self), *final(self), slot_bytes as int),
            r@ == (if old(self).fits(slot_bytes as int) {
                fixed_string_spec(old(self).bytes(), old(self).offset(), slot_bytes as int)
            } else {
                Seq::empty()
            }),
            old(self).fits(slot_bytes as int) ==> forall|cs: Seq<char>|
                is_scalar_text(cs) && #[trigger] utf16_encode(cs) == utf16_units(
                    old(self).bytes().subrange(old(self).offset(), old(self).offset() + slot_bytes),
                ) ==> r@ == cs,
    {
        match self.claim(slot_bytes) {
            Some(p) => read_utf16_slot(self.data, p, slot_bytes),
            None => String::new(),
        }
    }
}


/// Once a read has failed, every further read fails too and leaves the
/// position where it was.
pub proof fn lemma_failure_is_sticky(before: Reader, after: Reader, n: int)
    requires
        before.failed(),
        Reader::advanced(before, after, n),
    ensures
        after.failed(),
        after.offset() == before.offset(),
{
}

/// The little-endian `u16` at offset `p` of `data`.
pub fn le_u16_at(data: &[u8], p: usize) -> (r: u16)
    requires
        p + 2 <= data.len(),
    ensures
        r == u16_at(data@, p as int),
{
    u16_from_le_bytes(slice_subrange(data, p, p + 2))
}

/// The little-endian `u32` at offset `p` of `data`.
pub fn le_u32_at(data: &[u8], p: usize) -> (r: u32)
    requires
        p + 4 <= data.len(),
    ensures
        r == u32_at(data@, p as int),
{
    u32_from_le_bytes(slice_subrange(data, p, p + 4))
}

/// The little-endian `u64` at offset `p` of `data`.
pub fn le_u64_at(data: &[u8], p: usize) -> (r: u64)
    requires
        p + 8 <= data.len(),
    ensures
        r == u64_at(data@, p as int),
{
    u64_from_le_bytes(slice_subrange(data, p, p + 8))
}

}
