use crate::cursor::{min_int, Cursor};
use std::ops::Range;
use vstd::prelude::*;
use vstd::slice::{slice_subrange, slice_to_vec};

verus! {

/// `offset` is a multiple of `align`.
pub open spec fn is_aligned(offset: int, align: u64) -> bool {
    offset % (align as int) == 0
}

/// Distance from `location` up to the next multiple of `align`; 0 where
/// `location` is a multiple already.
pub open spec fn padding_to(location: u64, align: u64) -> int {
    if location % align == 0 {
        0
    } else {
        align - location % align
    }
}

/// What a `Slice` stands for: the bytes that a source holds at the absolute
/// offsets `[start, end)`.
pub struct Extent {
    pub bytes: Seq<u8>,
    pub start: u64,
    pub end: u64,
}

impl Extent {
    /// The bounds are in order and there is one byte for each offset.
    pub open spec fn well_formed(self) -> bool {
        &&& self.start <= self.end
        &&& self.bytes.len() == self.end - self.start
    }

    /// The extent from the first multiple of `align` at or after `start`
    /// on, or the empty extent at `end` where no such offset lies below
    /// `end`. The bytes in front of it are dropped.
    pub open spec fn aligned_up(self, align: u64) -> Extent {
        let padding = padding_to(self.start, align);
        Extent {
            bytes: self.bytes.skip(min_int(padding, self.bytes.len() as int)),
            start: min_int(self.start + padding, self.end as int) as u64,
            end: self.end,
        }
    }

    /// The bytes at the absolute offsets `[lo, hi)`.
    pub open spec fn bytes_at(self, lo: u64, hi: u64) -> Seq<u8> {
        self.bytes.subrange(lo - self.start, hi - self.start)
    }

    /// The bytes that `cursor` selects once it has been brought inside the
    /// extent.
    pub open spec fn selection(self, cursor: Cursor) -> Seq<u8> {
        let inside = cursor.clamped(self.start, self.end);
        self.bytes_at(inside.start, inside.end)
    }
}

/// A window of bytes fetched from a source, with the absolute offsets
/// `[location_start, location_end)` that it covers. It may cover less than
/// was asked for.
#[derive(Debug, Copy, Clone)]
pub struct Slice<'a> {
    pub data: &'a [u8],
    pub location_start: u64,
    pub location_end: u64,
}

impl<'a> View for Slice<'a> {
    type V = Extent;

    open spec fn view(&self) -> Extent {
        Extent { bytes: self.data@, start: self.location_start, end: self.location_end }
    }
}

impl<'a> Slice<'a> {
    /// Drops the bytes in front of the first offset that is a multiple of
    /// `align`, so that the slice starts on a row boundary.
    pub fn align_up(&self, align: u64) -> (aligned: Slice<'a>)
        requires
            align > 0,
        ensures
            aligned@ == self@.aligned_up(align),
            aligned.location_start <= aligned.location_end,
            self@.well_formed() ==> aligned@.well_formed(),
    {
        let misalignment = self.location_start % align;
        let offset = if misalignment > 0 {
            align - misalignment
        } else {
            0
        };
        let location_start = if self.location_end < self.location_start {
            self.location_end
        } else if offset >= self.location_end - self.location_start {
            self.location_end
        } else {
            self.location_start + offset
        };
        let length = self.data.len();
        let skipped = if offset >= length as u64 {
            length
        } else {
            offset as usize
        };
        let data = slice_subrange(self.data, skipped, length);
        Slice { data, location_start, location_end: self.location_end }
    }

    /// The bytes that `cursor` selects, after the cursor has been brought
    /// inside the slice.
    pub fn fetch(&self, cursor: Cursor) -> (bytes: Vec<u8>)
        requires
            self@.well_formed(),
            cursor.well_formed(),
        ensures
            bytes@ == self@.selection(cursor),
            bytes@.len() == min_int(cursor.width(), self.location_end - self.location_start),
    {
        let mut cursor = cursor;
        cursor.clamp(self.location_start..self.location_end);
        assert(self.data@.len() == self.data.len());
        let from = (cursor.start - self.location_start) as usize;
        let to = (cursor.end - self.location_start) as usize;
        slice_to_vec(slice_subrange(self.data, from, to))
    }
}

/// Something that bytes can be fetched from.
pub trait DataSource {
    /// A name to show for the source.
    fn name(&self) -> &str;

    /// The bytes at the offsets `[start, end)`, as far as the source has
    /// them: the slice may be narrower than the request, or empty.
    fn fetch(&mut self, start: u64, end: u64) -> Slice<'_>;
}

/// The request `[start, end)` fitted to a source of `len` bytes: unchanged
/// where it ends before `len`, else moved down, and cut if need be, so that
/// it ends at `len`.
pub fn clamp(start: u64, end: u64, len: u64) -> (range: Range<u64>)
    requires
        start <= end,
    ensures
        range.start == (Cursor { start, end }).clamped(0, len).start,
        range.end == (Cursor { start, end }).clamped(0, len).end,
        range.start <= range.end <= len,
        range.end - range.start == min_int(end - start, len as int),
{
    let wanted = end - start;
    let size = if wanted < len {
        wanted
    } else {
        len
    };
    if end >= len {
        (len - size)..len
    } else {
        start..end
    }
}

/// The part of `buffer` that the request `[start, end)` can be given, where
/// `buffer` holds the whole source from offset 0 on.
pub fn fetch_window<'a>(buffer: &'a [u8], start: u64, end: u64) -> (slice: Slice<'a>)
    requires
        start <= end,
    ensures
        slice@.well_formed(),
        slice.location_start == (Cursor { start, end }).clamped(0, buffer@.len() as u64).start,
        slice.location_end == (Cursor { start, end }).clamped(0, buffer@.len() as u64).end,
        slice.data@ == buffer@.subrange(slice.location_start as int, slice.location_end as int),
{
    let range = clamp(start, end, buffer.len() as u64);
    let data = slice_subrange(buffer, range.start as usize, range.end as usize);
    Slice { data, location_start: range.start, location_end: range.end }
}

/// The bytes that a `DebugSource` serves: a few of every kind that a display
/// treats differently.
pub open spec fn debug_bytes() -> Seq<u8> {
    seq![
        0x09u8, 0x00u8, 0x06u8, 0x00u8, 0x68u8, 0x65u8, 0x6cu8, 0x6cu8, 0x6fu8,
        0x00u8, 0x01u8, 0x02u8, 0x03u8, 0x04u8, 0x05u8, 0x06u8, 0x07u8, 0x08u8,
        0x09u8, 0x0au8, 0x0bu8, 0x0cu8, 0x0du8, 0x0eu8, 0x0fu8, 0x10u8, 0x11u8,
        0x12u8, 0x13u8, 0x14u8, 0x15u8, 0x16u8, 0x17u8, 0x18u8, 0x19u8, 0x1au8,
        0x1bu8, 0x1cu8, 0x1du8, 0x1eu8, 0x1fu8, 0x7fu8, 0x80u8, 0x90u8, 0xa0u8,
        0xb0u8, 0xc0u8, 0xd0u8, 0xe0u8, 0xf0u8, 0xf1u8, 0xf2u8, 0xf3u8, 0xf4u8,
        0xf5u8, 0xf6u8, 0xf7u8, 0xf8u8, 0xf9u8, 0xfau8, 0xfbu8, 0xfcu8, 0xfdu8,
        0xfeu8, 0xffu8, 0x77u8, 0x6fu8, 0x72u8, 0x6cu8, 0x64u8, 0x30u8, 0x31u8,
        0x32u8, 0x33u8, 0x34u8, 0x35u8, 0x36u8, 0x37u8, 0x38u8, 0x39u8, 0x30u8,
    ]
}

/// A small fixed source, for trying out a display without a file.
pub struct DebugSource {
    buffer: Vec<u8>,
}

impl View for DebugSource {
    type V = Seq<u8>;

    closed spec fn view(&self) -> Seq<u8> {
        self.buffer@
    }
}

impl DebugSource {
    pub fn new() -> (source: Self)
        ensures
            source@ == debug_bytes(),
    {
        let bytes: [u8; 81] = [
            0x09, 0x00, 0x06, 0x00, 0x68, 0x65, 0x6c, 0x6c, 0x6f,
            0x00, 0x01, 0x02, 0x03, 0x04, 0x05, 0x06, 0x07, 0x08,
            0x09, 0x0a, 0x0b, 0x0c, 0x0d, 0x0e, 0x0f, 0x10, 0x11,
            0x12, 0x13, 0x14, 0x15, 0x16, 0x17, 0x18, 0x19, 0x1a,
            0x1b, 0x1c, 0x1d, 0x1e, 0x1f, 0x7f, 0x80, 0x90, 0xa0,
            0xb0, 0xc0, 0xd0, 0xe0, 0xf0, 0xf1, 0xf2, 0xf3, 0xf4,
            0xf5, 0xf6, 0xf7, 0xf8, 0xf9, 0xfa, 0xfb, 0xfc, 0xfd,
            0xfe, 0xff, 0x77, 0x6f, 0x72, 0x6c, 0x64, 0x30, 0x31,
            0x32, 0x33, 0x34, 0x35, 0x36, 0x37, 0x38, 0x39, 0x30,
        ];
        let buffer = slice_to_vec(bytes.as_slice());
        assert(buffer@ =~= debug_bytes());
        DebugSource { buffer }
    }

    /// Number of bytes that the source holds.
    pub fn len(&self) -> (len: usize)
        ensures
            len == self@.len(),
    {
        self.buffer.len()
    }
}

impl DataSource for DebugSource {
    fn name(&self) -> (name: &str)
        ensures
            name@ == "debug"@,
    {
        "debug"
    }

    /// The whole buffer, whatever was asked for.
    fn fetch(&mut self, _offset: u64, _end: u64) -> (slice: Slice<'_>)
        ensures
            slice@.well_formed(),
            slice@.bytes == old(self)@,
            slice.location_start == 0,
            final(self)@ == old(self)@,
    {
        Slice {
            data: self.buffer.as_slice(),
            location_start: 0,
            location_end: self.buffer.len() as u64,
        }
    }
}

/// Where `index` lies in a source of `len` bytes, as the two terms of a
/// ratio between 0 and 1: the index, held to the last offset, and the last
/// offset. A source of fewer than two bytes has no such ratio: there is no
/// way from its start to its end.
pub fn fraction_terms(index: u64, len: u64) -> (terms: Option<(u64, u64)>)
    ensures
        len <= 1 <==> terms is None,
        terms matches Some((position, last)) ==> {
            &&& last == len - 1
            &&& position == min_int(index as int, len - 1)
            &&& 0 < last
            &&& position <= last
        },
{
    if len <= 1 {
        None
    } else {
        let last = len - 1;
        let position = if index < last {
            index
        } else {
            last
        };
        Some((position, last))
    }
}

/// `padding_to` is the distance to the first multiple of `align` at or after
/// `location`: it is less than `align`, it leads to a multiple, and no
/// shorter distance does.
pub proof fn lemma_padding_reaches_next_multiple(location: u64, align: u64)
    requires
        align > 0,
    ensures
        0 <= padding_to(location, align) < align,
        is_aligned(location + padding_to(location, align), align),
        forall|k: int|
            location <= k < location + padding_to(location, align) ==> !#[trigger] is_aligned(
                k,
                align,
            ),
{
    let a = align as int;
    let x = location as int;
    let r = x % a;
    assert(0 <= r < a && x == a * (x / a) + r) by (nonlinear_arith)
        requires
            a > 0,
            r == x % a,
    ;
    if r != 0 {
        assert((x + (a - r)) % a == 0) by (nonlinear_arith)
            requires
                a > 0,
                x == a * (x / a) + r,
        ;
    }
    assert forall|k: int| x <= k < x + padding_to(location, align) implies !#[trigger] is_aligned(
        k,
        align,
    ) by {
        assert(k % a == r + (k - x)) by (nonlinear_arith)
            requires
                a > 0,
                x == a * (x / a) + r,
                x <= k,
                0 < r + (k - x) < a,
        ;
    }
}

/// Aligning a well-formed extent keeps its end and its bytes from the new
/// start on. The new start is the first multiple of `align` inside the
/// extent, or the end where there is none.
pub proof fn lemma_aligned_up_starts_on_boundary(e: Extent, align: u64)
    requires
        align > 0,
        e.well_formed(),
    ensures
        e.aligned_up(align).well_formed(),
        e.start <= e.aligned_up(align).start <= e.aligned_up(align).end == e.end,
        is_aligned(e.aligned_up(align).start as int, align) || e.aligned_up(align).start == e.end,
        e.aligned_up(align).bytes == e.bytes_at(e.aligned_up(align).start, e.end),
        forall|k: int|
            e.start <= k < e.aligned_up(align).start ==> !#[trigger] is_aligned(k, align),
{
    lemma_padding_reaches_next_multiple(e.start, align);
}

} // verus!
