use crate::types::{Encoding, TvbError};
use vstd::prelude::*;
use vstd::slice::{slice_subrange, slice_to_vec};
use vstd::utf8::{
    decode_utf8, encode_utf8, encode_utf8_decode_utf8, is_ascii_chars, is_ascii_chars_encode_utf8,
    partial_valid_utf8_extend_ascii_block, valid_utf8,
};

verus! {

/// Value of bytes read most significant first.
pub open spec fn be_value(s: Seq<u8>) -> nat
    decreases s.len(),
{
    if s.len() == 0 {
        0
    } else {
        (be_value(s.drop_last()) * 256 + s.last()) as nat
    }
}

/// Value of bytes read least significant first.
pub open spec fn le_value(s: Seq<u8>) -> nat
    decreases s.len(),
{
    if s.len() == 0 {
        0
    } else {
        (s[0] + 256 * le_value(s.drop_first())) as nat
    }
}

/// True when every byte is a 7-bit ASCII code.
pub open spec fn all_ascii(s: Seq<u8>) -> bool {
    forall|i: int| 0 <= i < s.len() ==> #[trigger] s[i] <= 127
}

/// What a packet buffer holds: the bytes that were captured, and the length that the packet
/// had on the wire, of which the captured bytes are a prefix.
pub struct TvbModel {
    pub captured: Seq<u8>,
    pub reported: int,
}

impl TvbModel {
    /// No more bytes are captured than were reported, and lengths fit an `i32`.
    pub open spec fn valid(self) -> bool {
        self.captured.len() <= self.reported <= i32::MAX
    }

    /// Position in the captured bytes that an offset names: a non-negative offset counts from
    /// the start, a negative one from the end of the captured bytes. `None` when the offset
    /// lies beyond the captured bytes.
    pub open spec fn start_of(self, offset: int) -> Option<int> {
        if 0 <= offset && offset <= self.captured.len() {
            Some(offset)
        } else if offset < 0 && -offset <= self.captured.len() {
            Some(self.captured.len() + offset)
        } else {
            None
        }
    }

    /// Reported bytes from `offset` to the end, 0 when the offset names no captured position.
    pub open spec fn reported_remaining(self, offset: int) -> int {
        match self.start_of(offset) {
            Some(a) => self.reported - a,
            None => 0,
        }
    }

    /// Captured bytes from `offset` to the end, 0 when the offset names no captured position.
    pub open spec fn captured_remaining(self, offset: int) -> int {
        match self.start_of(offset) {
            Some(a) => self.captured.len() - a,
            None => 0,
        }
    }

    /// Length of the range that `Tvb::range(offset, length)` creates, or its error: `-1` asks
    /// for everything that was reported from `offset` on.
    pub open spec fn range_outcome(self, offset: int, length: int) -> Result<int, TvbError> {
        if offset < 0 {
            Err(TvbError::InvalidRange)
        } else if length < -1 {
            Err(TvbError::InvalidRange)
        } else {
            let actual = if length == -1 {
                self.reported_remaining(offset)
            } else {
                length
            };
            if offset + actual > self.reported {
                Err(TvbError::OutOfBounds)
            } else {
                Ok(actual)
            }
        }
    }

    /// The buffer that `Tvb::subset_length(offset, length)` creates: it starts at the position
    /// that `offset` names, reports `length` bytes (`-1`: all that remain) and holds those of
    /// them that were captured. `None` when the offset names no captured position or the
    /// length is below `-1`.
    pub open spec fn subset_length(self, offset: int, length: int) -> Option<TvbModel> {
        if length < -1 {
            None
        } else {
            match self.start_of(offset) {
                None => None,
                Some(a) => {
                    let rep = if length == -1 {
                        self.reported - a
                    } else {
                        length
                    };
                    let cap = if self.captured.len() - a <= rep {
                        self.captured.len() - a
                    } else {
                        rep
                    };
                    Some(TvbModel { captured: self.captured.subrange(a, a + cap), reported: rep })
                },
            }
        }
    }

    /// The buffer that `Tvb::subset_remaining(offset)` creates: everything from the position
    /// that `offset` names.
    pub open spec fn subset_remaining(self, offset: int) -> Option<TvbModel> {
        match self.start_of(offset) {
            None => None,
            Some(a) => Some(
                TvbModel {
                    captured: self.captured.subrange(a, self.captured.len() as int),
                    reported: self.reported - a,
                },
            ),
        }
    }
}

/// A range of a packet buffer: `length` bytes starting at `offset`.
pub struct RangeModel {
    pub tvb: TvbModel,
    pub offset: int,
    pub length: int,
}

impl RangeModel {
    /// The range lies within the reported bytes of a valid buffer.
    pub open spec fn valid(self) -> bool {
        &&& self.tvb.valid()
        &&& 0 <= self.offset
        &&& 0 <= self.length
        &&& self.offset + self.length <= self.tvb.reported
    }

    /// The first `n` bytes of the range were captured.
    pub open spec fn readable(self, n: int) -> bool {
        self.offset + n <= self.tvb.captured.len()
    }

    /// The first `n` bytes of the range.
    pub open spec fn bytes_at(self, n: int) -> Seq<u8> {
        self.tvb.captured.subrange(self.offset, self.offset + n)
    }

    /// The bytes of the range when all of them were captured, else no bytes.
    pub open spec fn contents(self) -> Seq<u8> {
        if self.readable(self.length) {
            self.bytes_at(self.length)
        } else {
            Seq::empty()
        }
    }

    /// Range that `TvbRange::range(offset, length)` creates within this one, or its error.
    pub open spec fn sub_outcome(self, offset: int, length: int) -> Result<RangeModel, TvbError> {
        if offset < 0 {
            Err(TvbError::InvalidRange)
        } else if length < -1 {
            Err(TvbError::InvalidRange)
        } else {
            let actual = if length == -1 {
                self.length - offset
            } else {
                length
            };
            if actual < 0 || offset + actual > self.length {
                Err(TvbError::OutOfBounds)
            } else {
                Ok(RangeModel { tvb: self.tvb, offset: self.offset + offset, length: actual })
            }
        }
    }

    /// Value of an `n`-byte unsigned integer at the start of the range, or its error: the range
    /// must be `n` bytes long, the encoding big- or little-endian, and the bytes captured.
    pub open spec fn uint_outcome(self, n: int, encoding: Encoding) -> Result<nat, TvbError> {
        if self.length < n {
            Err(TvbError::InvalidLength { expected: n as i32, actual: self.length as i32 })
        } else if !(encoding is BigEndian || encoding is LittleEndian) {
            Err(TvbError::InvalidEncoding)
        } else if !self.readable(n) {
            Err(TvbError::OutOfBounds)
        } else if encoding is BigEndian {
            Ok(be_value(self.bytes_at(n)))
        } else {
            Ok(le_value(self.bytes_at(n)))
        }
    }

    /// Text of the range in the given encoding, or its error. UTF-8 text must be valid UTF-8;
    /// 7-bit ASCII text must hold bytes up to 127 only. No other encoding is read.
    pub open spec fn string_outcome(self, encoding: Encoding) -> Result<Seq<char>, TvbError> {
        let b = self.contents();
        if encoding is UTF8 {
            if valid_utf8(b) {
                Ok(decode_utf8(b))
            } else {
                Err(TvbError::InvalidEncoding)
            }
        } else if encoding is ASCII7Bits {
            if all_ascii(b) {
                Ok(decode_utf8(b))
            } else {
                Err(TvbError::InvalidEncoding)
            }
        } else {
            Err(TvbError::InvalidEncoding)
        }
    }
}

/// A packet buffer: the captured bytes of a packet and the length it was reported to have.
pub struct Tvb {
    data: Vec<u8>,
    reported: i32,
}

impl Tvb {
    #[verifier::type_invariant]
    spec fn well_formed(self) -> bool {
        self.data.len() <= self.reported
    }
}

impl View for Tvb {
    type V = TvbModel;

    closed spec fn view(&self) -> TvbModel {
        TvbModel { captured: self.data@, reported: self.reported as int }
    }
}

impl Clone for Tvb {
    fn clone(&self) -> (res: Self)
        ensures
            res@ == self@,
    {
        proof {
            use_type_invariant(self);
        }
        let data = self.data.clone();
        assert(data@ =~= self.data@);
        Tvb { data, reported: self.reported }
    }
}

/// Copies `len` bytes of `data` starting at `start`.
fn copy_bytes(data: &Vec<u8>, start: usize, len: usize) -> (out: Vec<u8>)
    requires
        start + len <= data.len(),
    ensures
        out@ == data@.subrange(start as int, start + len),
{
    let s = slice_subrange(data.as_slice(), start, start + len);
    slice_to_vec(s)
}

impl Tvb {
    /// A buffer holding the captured bytes `data` of a packet that was `reported_length` bytes
    /// long on the wire.
    pub fn new(data: Vec<u8>, reported_length: i32) -> (tvb: Tvb)
        requires
            data.len() <= reported_length,
        ensures
            tvb@ == (TvbModel { captured: data@, reported: reported_length as int }),
            tvb@.valid(),
    {
        Tvb { data, reported: reported_length }
    }

    /// The total reported length of this buffer.
    pub fn reported_length(&self) -> (len: i32)
        ensures
            len == self@.reported,
            self@.valid(),
    {
        proof {
            use_type_invariant(self);
        }
        self.reported
    }

    /// The number of captured bytes of this buffer.
    pub fn captured_length(&self) -> (len: i32)
        ensures
            len == self@.captured.len(),
            self@.valid(),
    {
        proof {
            use_type_invariant(self);
        }
        self.data.len() as i32
    }

    /// Reported bytes remaining from `offset`; 0 when `offset` names no captured position.
    pub fn reported_length_remaining(&self, offset: i32) -> (len: i32)
        ensures
            len == self@.reported_remaining(offset as int),
            self@.valid(),
    {
        proof {
            use_type_invariant(self);
        }
        let cap = self.data.len() as i32;
        if offset >= 0 {
            if offset <= cap {
                self.reported - offset
            } else {
                0
            }
        } else if (offset as i64) + (cap as i64) >= 0 {
            self.reported - (cap + offset)
        } else {
            0
        }
    }

    /// Captured bytes remaining from `offset`; 0 when `offset` names no captured position.
    pub fn captured_length_remaining(&self, offset: i32) -> (len: i32)
        ensures
            len == self@.captured_remaining(offset as int),
            self@.valid(),
    {
        proof {
            use_type_invariant(self);
        }
        let cap = self.data.len() as i32;
        if offset >= 0 {
            if offset <= cap {
                cap - offset
            } else {
                0
            }
        } else if (offset as i64) + (cap as i64) >= 0 {
            -offset
        } else {
            0
        }
    }

    /// Position in the captured bytes that `offset` names, if any.
    fn start_of(&self, offset: i32) -> (a: Option<usize>)
        ensures
            a matches Some(x) ==> self@.start_of(offset as int) == Some(x as int),
            a is None ==> self@.start_of(offset as int) is None,
    {
        proof {
            use_type_invariant(self);
        }
        let cap = self.data.len() as i32;
        if offset >= 0 {
            if offset <= cap {
                Some(offset as usize)
            } else {
                None
            }
        } else if (offset as i64) + (cap as i64) >= 0 {
            Some((cap + offset) as usize)
        } else {
            None
        }
    }

    /// A range of `length` bytes at `offset`; a length of `-1` takes all reported bytes from
    /// `offset` on. Negative offsets and lengths below `-1` are refused as invalid, ranges that
    /// end beyond the reported length as out of bounds.
    pub fn range(&self, offset: i32, length: i32) -> (res: Result<TvbRange, TvbError>)
        ensures
            match self@.range_outcome(offset as int, length as int) {
                Ok(actual) => res matches Ok(r) && r@ == (RangeModel {
                    tvb: self@,
                    offset: offset as int,
                    length: actual,
                }),
                Err(e) => res matches Err(e2) && e2 == e,
            },
    {
        proof {
            use_type_invariant(self);
        }
        if offset < 0 {
            return Err(TvbError::InvalidRange);
        }
        let actual_length = if length == -1 {
            self.reported_length_remaining(offset)
        } else {
            if length < 0 {
                return Err(TvbError::InvalidRange);
            }
            length
        };
        if actual_length < 0 {
            return Err(TvbError::OutOfBounds);
        }
        if (offset as i64) + (actual_length as i64) > self.reported as i64 {
            return Err(TvbError::OutOfBounds);
        }
        Ok(TvbRange { tvb: self.clone(), offset, length: actual_length })
    }

    /// A range covering all reported bytes of the buffer.
    pub fn range_all(&self) -> (r: TvbRange)
        ensures
            r@ == (RangeModel { tvb: self@, offset: 0, length: self@.reported }),
    {
        proof {
            use_type_invariant(self);
        }
        TvbRange { tvb: self.clone(), offset: 0, length: self.reported }
    }

    /// A buffer of `length` reported bytes (`-1`: all that remain) starting at `offset`.
    pub fn subset_length(&self, offset: i32, length: i32) -> (res: Result<Tvb, TvbError>)
        ensures
            match self@.subset_length(offset as int, length as int) {
                Some(m) => res matches Ok(t) && t@ == m,
                None => res == Err::<Tvb, TvbError>(TvbError::SubsetFailed),
            },
    {
        proof {
            use_type_invariant(self);
        }
        if length < -1 {
            return Err(TvbError::SubsetFailed);
        }
        match self.start_of(offset) {
            None => Err(TvbError::SubsetFailed),
            Some(a) => {
                let cap_rem = self.data.len() - a;
                let rep: i32 = if length == -1 {
                    self.reported - a as i32
                } else {
                    length
                };
                let cap = if cap_rem as i64 <= rep as i64 {
                    cap_rem
                } else {
                    rep as usize
                };
                let data = copy_bytes(&self.data, a, cap);
                Ok(Tvb { data, reported: rep })
            },
        }
    }

    /// A buffer of everything from `offset` to the end.
    pub fn subset_remaining(&self, offset: i32) -> (res: Result<Tvb, TvbError>)
        ensures
            match self@.subset_remaining(offset as int) {
                Some(m) => res matches Ok(t) && t@ == m,
                None => res == Err::<Tvb, TvbError>(TvbError::SubsetFailed),
            },
    {
        proof {
            use_type_invariant(self);
        }
        match self.start_of(offset) {
            None => Err(TvbError::SubsetFailed),
            Some(a) => {
                let data = copy_bytes(&self.data, a, self.data.len() - a);
                Ok(Tvb { data, reported: self.reported - a as i32 })
            },
        }
    }

    /// A new buffer holding `data` as its captured bytes, of which `reported_length` were
    /// reported; it fails unless `data` fits the reported length and that length fits an `i32`.
    pub fn new_child_real_data(&self, data: Vec<u8>, reported_length: u32) -> (res: Result<
        Tvb,
        TvbError,
    >)
        ensures
            data.len() <= reported_length <= i32::MAX ==> (res matches Ok(t) && t@ == (TvbModel {
                captured: data@,
                reported: reported_length as int,
            })),
            !(data.len() <= reported_length <= i32::MAX) ==> res == Err::<Tvb, TvbError>(
                TvbError::SubsetFailed,
            ),
    {
        if reported_length > i32::MAX as u32 || data.len() > reported_length as usize {
            return Err(TvbError::SubsetFailed);
        }
        Ok(Tvb { data, reported: reported_length as i32 })
    }

    /// The `length` captured bytes at `offset`.
    pub fn get_ptr(&self, offset: i32, length: i32) -> (bytes: Vec<u8>)
        requires
            0 <= offset,
            0 <= length,
            offset + length <= self@.captured.len(),
        ensures
            bytes@ == self@.captured.subrange(offset as int, offset + length),
    {
        copy_bytes(&self.data, offset as usize, length as usize)
    }
}

/// A view of `length` bytes at `offset` of a packet buffer, from which values are read.
pub struct TvbRange {
    tvb: Tvb,
    offset: i32,
    length: i32,
}

impl TvbRange {
    #[verifier::type_invariant]
    spec fn well_formed(self) -> bool {
        &&& 0 <= self.offset
        &&& 0 <= self.length
        &&& self.offset + self.length <= self.tvb@.reported
    }
}

impl View for TvbRange {
    type V = RangeModel;

    closed spec fn view(&self) -> RangeModel {
        RangeModel { tvb: self.tvb@, offset: self.offset as int, length: self.length as int }
    }
}

impl Clone for TvbRange {
    fn clone(&self) -> (res: Self)
        ensures
            res@ == self@,
    {
        proof {
            use_type_invariant(self);
        }
        TvbRange { tvb: self.tvb.clone(), offset: self.offset, length: self.length }
    }
}

impl TvbRange {
    /// The buffer this range lies in.
    pub fn tvb(&self) -> (t: Tvb)
        ensures
            t@ == self@.tvb,
    {
        self.tvb.clone()
    }

    /// The offset of the range within its buffer.
    pub fn offset(&self) -> (o: i32)
        ensures
            o == self@.offset,
            self@.valid(),
    {
        proof {
            use_type_invariant(self);
            use_type_invariant(&self.tvb);
        }
        self.offset
    }

    /// The length of the range.
    pub fn length(&self) -> (l: i32)
        ensures
            l == self@.length,
            self@.valid(),
    {
        proof {
            use_type_invariant(self);
            use_type_invariant(&self.tvb);
        }
        self.length
    }

    /// A range of `length` bytes at `offset` within this range; `-1` takes the rest of it.
    pub fn range(&self, offset: i32, length: i32) -> (res: Result<TvbRange, TvbError>)
        ensures
            match self@.sub_outcome(offset as int, length as int) {
                Ok(m) => res matches Ok(r) && r@ == m,
                Err(e) => res matches Err(e2) && e2 == e,
            },
    {
        proof {
            use_type_invariant(self);
        }
        if offset < 0 {
            return Err(TvbError::InvalidRange);
        }
        let actual_length = if length == -1 {
            self.length - offset
        } else {
            if length < 0 {
                return Err(TvbError::InvalidRange);
            }
            length
        };
        if actual_length < 0 || (offset as i64) + (actual_length as i64) > self.length as i64 {
            return Err(TvbError::OutOfBounds);
        }
        Ok(TvbRange { tvb: self.tvb.clone(), offset: self.offset + offset, length: actual_length })
    }

    /// Checks that the range is `n` bytes long and that its first `n` bytes were captured.
    fn check_readable(&self, n: i32) -> (res: Result<(), TvbError>)
        requires
            1 <= n <= 4,
        ensures
            self@.length < n ==> res == Err::<(), TvbError>(
                TvbError::InvalidLength { expected: n, actual: self@.length as i32 },
            ),
            self@.length >= n && !self@.readable(n as int) ==> res == Err::<(), TvbError>(
                TvbError::OutOfBounds,
            ),
            self@.length >= n && self@.readable(n as int) ==> res is Ok,
    {
        proof {
            use_type_invariant(self);
            use_type_invariant(&self.tvb);
        }
        if self.length < n {
            return Err(TvbError::InvalidLength { expected: n, actual: self.length });
        }
        if (self.offset as i64) + (n as i64) > self.tvb.data.len() as i64 {
            return Err(TvbError::OutOfBounds);
        }
        Ok(())
    }

    /// The byte at position `k` of the range.
    fn byte(&self, k: i32) -> (b: u8)
        requires
            0 <= k,
            self@.offset + k < self@.tvb.captured.len(),
        ensures
            b == self@.tvb.captured[self@.offset + k],
    {
        proof {
            use_type_invariant(self);
            use_type_invariant(&self.tvb);
        }
        self.tvb.data[(self.offset + k) as usize]
    }

    /// The unsigned byte at the start of the range.
    pub fn uint8(&self) -> (res: Result<u8, TvbError>)
        ensures
            self@.length < 1 ==> res == Err::<u8, TvbError>(
                TvbError::InvalidLength { expected: 1, actual: self@.length as i32 },
            ),
            self@.length >= 1 && !self@.readable(1) ==> res == Err::<u8, TvbError>(
                TvbError::OutOfBounds,
            ),
            self@.length >= 1 && self@.readable(1) ==> res == Ok::<u8, TvbError>(
                self@.tvb.captured[self@.offset],
            ),
    {
        self.check_readable(1)?;
        Ok(self.byte(0))
    }

    /// The 16-bit unsigned integer at the start of the range, in the given byte order.
    pub fn uint16(&self, encoding: Encoding) -> (res: Result<u16, TvbError>)
        ensures
            match self@.uint_outcome(2, encoding) {
                Ok(v) => res matches Ok(x) && x == v,
                Err(e) => res == Err::<u16, TvbError>(e),
            },
    {
        proof {
            use_type_invariant(self);
            use_type_invariant(&self.tvb);
        }
        if self.length < 2 {
            return Err(TvbError::InvalidLength { expected: 2, actual: self.length });
        }
        let big = match encoding {
            Encoding::BigEndian => true,
            Encoding::LittleEndian => false,
            _ => return Err(TvbError::InvalidEncoding),
        };
        self.check_readable(2)?;
        let b0 = self.byte(0);
        let b1 = self.byte(1);
        proof {
            let s = self@.bytes_at(2);
            assert(s.drop_last().drop_last().len() == 0);
            assert(s.drop_first().drop_first().len() == 0);
            reveal_with_fuel(be_value, 3);
            reveal_with_fuel(le_value, 3);
        }
        if big {
            Ok((b0 as u16) * 256 + (b1 as u16))
        } else {
            Ok((b1 as u16) * 256 + (b0 as u16))
        }
    }

    /// The 24-bit unsigned integer at the start of the range, in the given byte order.
    pub fn uint24(&self, encoding: Encoding) -> (res: Result<u32, TvbError>)
        ensures
            match self@.uint_outcome(3, encoding) {
                Ok(v) => res matches Ok(x) && x == v,
                Err(e) => res == Err::<u32, TvbError>(e),
            },
    {
        proof {
            use_type_invariant(self);
            use_type_invariant(&self.tvb);
        }
        if self.length < 3 {
            return Err(TvbError::InvalidLength { expected: 3, actual: self.length });
        }
        let big = match encoding {
            Encoding::BigEndian => true,
            Encoding::LittleEndian => false,
            _ => return Err(TvbError::InvalidEncoding),
        };
        self.check_readable(3)?;
        let b0 = self.byte(0) as u32;
        let b1 = self.byte(1) as u32;
        let b2 = self.byte(2) as u32;
        proof {
            let s = self@.bytes_at(3);
            assert(s.drop_last().drop_last().drop_last().len() == 0);
            assert(s.drop_first().drop_first().drop_first().len() == 0);
            reveal_with_fuel(be_value, 4);
            reveal_with_fuel(le_value, 4);
        }
        if big {
            Ok(b0 * 65536 + b1 * 256 + b2)
        } else {
            Ok(b2 * 65536 + b1 * 256 + b0)
        }
    }

    /// The 32-bit unsigned integer at the start of the range, in the given byte order.
    pub fn uint32(&self, encoding: Encoding) -> (res: Result<u32, TvbError>)
        ensures
            match self@.uint_outcome(4, encoding) {
                Ok(v) => res matches Ok(x) && x == v,
                Err(e) => res == Err::<u32, TvbError>(e),
            },
    {
        proof {
            use_type_invariant(self);
            use_type_invariant(&self.tvb);
        }
        if self.length < 4 {
            return Err(TvbError::InvalidLength { expected: 4, actual: self.length });
        }
        let big = match encoding {
            Encoding::BigEndian => true,
            Encoding::LittleEndian => false,
            _ => return Err(TvbError::InvalidEncoding),
        };
        self.check_readable(4)?;
        let b0 = self.byte(0) as u32;
        let b1 = self.byte(1) as u32;
        let b2 = self.byte(2) as u32;
        let b3 = self.byte(3) as u32;
        proof {
            let s = self@.bytes_at(4);
            assert(s.drop_last().drop_last().drop_last().drop_last().len() == 0);
            assert(s.drop_first().drop_first().drop_first().drop_first().len() == 0);
            reveal_with_fuel(be_value, 5);
            reveal_with_fuel(le_value, 5);
        }
        if big {
            Ok(b0 * 16777216 + b1 * 65536 + b2 * 256 + b3)
        } else {
            Ok(b3 * 16777216 + b2 * 65536 + b1 * 256 + b0)
        }
    }

    /// The bytes of the range; no bytes when not all of them were captured.
    pub fn bytes(&self) -> (b: Vec<u8>)
        ensures
            b@ == self@.contents(),
    {
        proof {
            use_type_invariant(self);
            use_type_invariant(&self.tvb);
        }
        if (self.offset as i64) + (self.length as i64) <= self.tvb.data.len() as i64 {
            copy_bytes(&self.tvb.data, self.offset as usize, self.length as usize)
        } else {
            Vec::new()
        }
    }

    /// A buffer of the bytes of this range.
    pub fn to_tvb(&self) -> (res: Result<Tvb, TvbError>)
        ensures
            match self@.tvb.subset_length(self@.offset, self@.length) {
                Some(m) => res matches Ok(t) && t@ == m,
                None => res == Err::<Tvb, TvbError>(TvbError::SubsetFailed),
            },
    {
        self.tvb.subset_length(self.offset, self.length)
    }

    /// The text of the range, read as UTF-8 or as 7-bit ASCII.
    pub fn string(&self, encoding: Encoding) -> (res: Result<String, TvbError>)
        ensures
            match self@.string_outcome(encoding) {
                Ok(s) => res matches Ok(t) && t@ == s,
                Err(e) => res matches Err(e2) && e2 == e,
            },
    {
        let bytes = self.bytes();
        match encoding {
            Encoding::UTF8 => match utf8_to_string(bytes) {
                Some(s) => Ok(s),
                None => Err(TvbError::InvalidEncoding),
            },
            Encoding::ASCII7Bits => {
                if is_all_ascii(&bytes) {
                    proof {
                        lemma_ascii_valid_utf8(bytes@);
                    }
                    match utf8_to_string(bytes) {
                        Some(s) => Ok(s),
                        None => Err(TvbError::InvalidEncoding),
                    }
                } else {
                    Err(TvbError::InvalidEncoding)
                }
            },
            _ => Err(TvbError::InvalidEncoding),
        }
    }

    /// True when every byte of the range was captured.
    pub fn bytes_exist(&self) -> (b: bool)
        ensures
            b == self@.readable(self@.length),
    {
        proof {
            use_type_invariant(self);
            use_type_invariant(&self.tvb);
        }
        (self.offset as i64) + (self.length as i64) <= self.tvb.data.len() as i64
    }
}

/// True when every byte is a 7-bit ASCII code.
fn is_all_ascii(bytes: &Vec<u8>) -> (b: bool)
    ensures
        b == all_ascii(bytes@),
{
    let mut i: usize = 0;
    while i < bytes.len()
        invariant
            0 <= i <= bytes.len(),
            forall|j: int| 0 <= j < i ==> #[trigger] bytes@[j] <= 127,
        decreases bytes.len() - i,
    {
        if bytes[i] > 127 {
            return false;
        }
        i = i + 1;
    }
    true
}

/// 7-bit ASCII bytes are valid UTF-8.
proof fn lemma_ascii_valid_utf8(s: Seq<u8>)
    requires
        all_ascii(s),
    ensures
        valid_utf8(s),
{
    assert(s.subrange(0, 0) =~= Seq::<u8>::empty());
    assert(valid_utf8(Seq::<u8>::empty()));
    partial_valid_utf8_extend_ascii_block(s, 0, s.len() as int);
    assert(s.subrange(0, s.len() as int) =~= s);
}

/// `String::from_utf8`: the text that `bytes` encode when they are valid UTF-8, else nothing.
#[verifier::external_body]
fn utf8_to_string(bytes: Vec<u8>) -> (res: Option<String>)
    ensures
        res is Some <==> valid_utf8(bytes@),
        res matches Some(s) ==> s@ == decode_utf8(bytes@),
{
    String::from_utf8(bytes).ok()
}

/// Bytes read least significant first have the value of the reversed bytes read most
/// significant first.
pub proof fn lemma_le_is_reversed_be(s: Seq<u8>)
    ensures
        le_value(s) == be_value(s.reverse()),
    decreases s.len(),
{
    if s.len() > 0 {
        lemma_le_is_reversed_be(s.drop_first());
        let r = s.reverse();
        assert(r.drop_last() =~= s.drop_first().reverse());
        assert(r.last() == s[0]);
    }
}

/// The value of `n` bytes is below `256` to the power `n`.
pub proof fn lemma_be_value_bound(s: Seq<u8>)
    ensures
        be_value(s) < vstd::arithmetic::power::pow(256, s.len()),
    decreases s.len(),
{
    reveal(vstd::arithmetic::power::pow);
    if s.len() > 0 {
        lemma_be_value_bound(s.drop_last());
        let p = vstd::arithmetic::power::pow(256, (s.len() - 1) as nat);
        assert(be_value(s.drop_last()) * 256 + 256 <= p * 256) by (nonlinear_arith)
            requires
                be_value(s.drop_last()) < p,
        ;
    }
}

/// Every range that `Tvb::range` creates lies within the reported bytes of the buffer.
pub proof fn lemma_range_is_valid(t: TvbModel, offset: int, length: int)
    requires
        t.valid(),
    ensures
        t.range_outcome(offset, length) matches Ok(actual) ==> (RangeModel {
            tvb: t,
            offset,
            length: actual,
        }).valid(),
{
}

/// A range created within a range lies inside it, and when all bytes of the outer range
/// were captured its bytes are the matching part of the outer range's bytes.
pub proof fn lemma_sub_range_lies_within(r: RangeModel, offset: int, length: int)
    requires
        r.valid(),
    ensures
        r.sub_outcome(offset, length) matches Ok(m) ==> {
            &&& m.valid()
            &&& r.offset <= m.offset
            &&& m.offset + m.length <= r.offset + r.length
            &&& r.readable(r.length) ==> m.contents() == r.contents().subrange(
                offset,
                offset + m.length,
            )
        },
{
    if let Ok(m) = r.sub_outcome(offset, length) {
        if r.readable(r.length) {
            assert(m.contents() =~= r.contents().subrange(offset, offset + m.length));
        }
    }
}

/// The buffer made of a range whose bytes were all captured holds exactly those bytes, and
/// reports the range's length.
pub proof fn lemma_range_buffer_holds_its_bytes(r: RangeModel)
    requires
        r.valid(),
        r.readable(r.length),
    ensures
        r.tvb.subset_length(r.offset, r.length) == Some(
            TvbModel { captured: r.contents(), reported: r.length },
        ),
{
}

/// Buffers made of part of a valid buffer are valid.
pub proof fn lemma_subsets_are_valid(t: TvbModel, offset: int, length: int)
    requires
        t.valid(),
        length <= i32::MAX,
    ensures
        t.subset_length(offset, length) matches Some(m) ==> m.valid(),
        t.subset_remaining(offset) matches Some(m) ==> m.valid(),
{
}

/// Text read as 7-bit ASCII has one character for each byte, with the byte's code.
pub proof fn lemma_ascii_text_is_its_bytes(b: Seq<u8>)
    requires
        all_ascii(b),
    ensures
        decode_utf8(b) == b.map_values(|x: u8| x as char),
{
    let chars = b.map_values(|x: u8| x as char);
    assert(is_ascii_chars(chars));
    is_ascii_chars_encode_utf8(chars);
    assert(encode_utf8(chars) =~= b);
    encode_utf8_decode_utf8(chars);
}

/// A length of `-1` takes every reported byte from a captured offset on: the range ends
/// exactly at the reported length of the packet, whether those bytes were captured or not.
pub proof fn lemma_range_to_end(t: TvbModel, offset: int)
    requires
        t.valid(),
        0 <= offset <= t.captured.len(),
    ensures
        t.range_outcome(offset, -1) == Ok::<int, TvbError>(t.reported - offset),
        offset + (t.reported - offset) == t.reported,
{
}

/// A range of an explicit length at a non-negative offset is made exactly when it ends within
/// the reported bytes, and then it has that length.
pub proof fn lemma_range_of_length(t: TvbModel, offset: int, length: int)
    requires
        0 <= offset,
        0 <= length,
    ensures
        offset + length <= t.reported ==> t.range_outcome(offset, length) == Ok::<int, TvbError>(
            length,
        ),
        offset + length > t.reported ==> t.range_outcome(offset, length) == Err::<int, TvbError>(
            TvbError::OutOfBounds,
        ),
{
}

/// Within a range, a length of `-1` takes the rest of the range from the offset on.
pub proof fn lemma_sub_range_to_end(r: RangeModel, offset: int)
    requires
        0 <= offset <= r.length,
    ensures
        r.sub_outcome(offset, -1) == Ok::<RangeModel, TvbError>(
            RangeModel { tvb: r.tvb, offset: r.offset + offset, length: r.length - offset },
        ),
{
}

/// Reading a range as 7-bit ASCII accepts exactly the bytes up to 127, control bytes
/// included, and gives one character per byte with the byte's code; a byte above 127 is
/// refused as an invalid encoding.
pub proof fn lemma_ascii_read(r: RangeModel)
    ensures
        (forall|i: int| 0 <= i < r.contents().len() ==> #[trigger] r.contents()[i] <= 127)
            ==> r.string_outcome(Encoding::ASCII7Bits) == Ok::<Seq<char>, TvbError>(
            r.contents().map_values(|x: u8| x as char),
        ),
        (exists|i: int| 0 <= i < r.contents().len() && #[trigger] r.contents()[i] > 127)
            ==> r.string_outcome(Encoding::ASCII7Bits) == Err::<Seq<char>, TvbError>(
            TvbError::InvalidEncoding,
        ),
{
    let b = r.contents();
    if forall|i: int| 0 <= i < b.len() ==> #[trigger] b[i] <= 127 {
        assert(all_ascii(b));
        lemma_ascii_text_is_its_bytes(b);
    }
    if exists|i: int| 0 <= i < b.len() && #[trigger] b[i] > 127 {
        let i = choose|i: int| 0 <= i < b.len() && #[trigger] b[i] > 127;
        assert(!all_ascii(b));
    }
}

/// Two and four bytes read in network order put the first byte highest; in little-endian order
/// the first byte lowest.
pub proof fn lemma_integer_byte_orders(s: Seq<u8>)
    ensures
        s.len() == 2 ==> be_value(s) == s[0] * 256 + s[1] && le_value(s) == s[0] + s[1] * 256,
        s.len() == 4 ==> be_value(s) == s[0] * 16777216 + s[1] * 65536 + s[2] * 256 + s[3]
            && le_value(s) == s[0] + s[1] * 256 + s[2] * 65536 + s[3] * 16777216,
{
    if s.len() == 2 {
        assert(s.drop_last().drop_last() =~= Seq::<u8>::empty());
        assert(s.drop_first().drop_first() =~= Seq::<u8>::empty());
    }
    if s.len() == 4 {
        assert(s.drop_last().drop_last().drop_last().drop_last() =~= Seq::<u8>::empty());
        assert(s.drop_first().drop_first().drop_first().drop_first() =~= Seq::<u8>::empty());
        reveal_with_fuel(be_value, 5);
        reveal_with_fuel(le_value, 5);
    }
}

} // verus!
