//! How a rendered image gets from the readback buffer into a dumb scanout buffer.
//!
//! The readback buffer holds rows of `copy_bpr` bytes, the dumb buffer rows of `dumb_pitch`
//! bytes; both hold four bytes per pixel. The dumb buffer is XRGB8888 in little-endian order,
//! so the bytes of one of its pixels are blue, green, red, and one that is ignored.

use vstd::prelude::*;

verus! {

/// The alignment that the GPU asks of a row in a readback buffer, in bytes.
pub const ROW_ALIGNMENT: u32 = 256;

/// The blue, green and red byte of a pixel in a buffer that was cleared.
pub const CLEAR_COLOR: u8 = 0x10;

/// The fourth byte of a pixel in a buffer that was cleared.
pub const CLEAR_X: u8 = 0xFF;

/// The byte order of the texture that is rendered to.
#[derive(Clone, Copy, Debug, PartialEq, Eq, Structural)]
pub enum TargetFormat {
    /// Red, green, blue, alpha.
    Rgba8Unorm,
    /// Blue, green, red, alpha: the order of XRGB8888.
    Bgra8Unorm,
}

impl TargetFormat {
    /// Which byte of a row in this format belongs at byte `k` of the same row in XRGB8888.
    pub open spec fn source_byte(self, k: int) -> int {
        match self {
            TargetFormat::Bgra8Unorm => k,
            TargetFormat::Rgba8Unorm => if k % 4 == 0 {
                k + 2
            } else if k % 4 == 2 {
                k - 2
            } else {
                k
            },
        }
    }

    fn source_offset(self, k: usize) -> (s: usize)
        requires
            k + 2 <= usize::MAX,
        ensures
            s == self.source_byte(k as int),
    {
        match self {
            TargetFormat::Bgra8Unorm => k,
            TargetFormat::Rgba8Unorm => if k % 4 == 0 {
                k + 2
            } else if k % 4 == 2 {
                k - 2
            } else {
                k
            },
        }
    }

    /// The red, green and blue bytes of the pixel whose bytes in this format start at `at`.
    pub open spec fn color_at(self, data: Seq<u8>, at: int) -> (u8, u8, u8) {
        match self {
            TargetFormat::Rgba8Unorm => (data[at], data[at + 1], data[at + 2]),
            TargetFormat::Bgra8Unorm => (data[at + 2], data[at + 1], data[at]),
        }
    }
}

/// The red, green and blue bytes of the XRGB8888 pixel whose bytes start at `at`.
pub open spec fn xrgb_color_at(map: Seq<u8>, at: int) -> (u8, u8, u8) {
    (map[at + 2], map[at + 1], map[at])
}

/// `n` rounded up to the alignment of a readback row.
pub open spec fn align_up(n: int) -> int {
    ((n + ROW_ALIGNMENT - 1) / ROW_ALIGNMENT as int) * ROW_ALIGNMENT
}

/// The row length of a readback buffer: the dumb buffer's own where that is aligned, else
/// that of a row of pixels, rounded up to the alignment.
pub open spec fn readback_row(width: int, dumb_pitch: int) -> int {
    if dumb_pitch % ROW_ALIGNMENT as int == 0 {
        dumb_pitch
    } else {
        align_up(4 * width)
    }
}

/// A buffer of `len` bytes has room for `rows` rows of `row` bytes that start `stride` bytes apart.
pub open spec fn has_room(len: int, rows: int, stride: int, row: int) -> bool {
    (rows - 1) * stride + row <= len
}

/// Whether a buffer of `len` bytes has room for `rows` rows of `row` bytes that start `stride`
/// bytes apart.
pub fn room(len: usize, rows: u32, stride: u32, row: u32) -> (fits: bool)
    requires
        1 <= rows,
    ensures
        fits == has_room(len as int, rows as int, stride as int, row as int),
{
    assert(0 <= (rows - 1) * stride <= 0xffff_ffff * 0xffff_ffff) by (nonlinear_arith)
        requires
            1 <= rows <= 0xffff_ffff,
            0 <= stride <= 0xffff_ffff,
    ;
    (rows - 1) as u128 * stride as u128 + row as u128 <= len as u128
}

/// A buffer once it is cleared: every whole pixel is dark grey, and bytes behind the last
/// whole pixel stay as they were.
pub open spec fn cleared(map: Seq<u8>) -> Seq<u8> {
    Seq::new(
        map.len(),
        |i: int|
            if i >= map.len() - map.len() % 4 {
                map[i]
            } else if i % 4 == 3 {
                CLEAR_X
            } else {
                CLEAR_COLOR
            },
    )
}

/// Clears a mapped dumb buffer.
pub fn clear(map: &mut [u8])
    ensures
        final(map)@ == cleared(old(map)@),
{
    let ghost before = map@;
    let end: usize = map.len() - map.len() % 4;
    let mut i: usize = 0;
    while i < end
        invariant
            i <= end,
            end == before.len() - before.len() % 4,
            map@.len() == before.len(),
            forall|j: int|
                0 <= j < before.len() ==> #[trigger] map@[j] == (if j < i {
                    cleared(before)[j]
                } else {
                    before[j]
                }),
        decreases end - i,
    {
        map[i] = if i % 4 == 3 { CLEAR_X } else { CLEAR_COLOR };
        i += 1;
    }
    assert(map@ =~= cleared(before));
}

/// The size of the image and of the rows on either side of the copy.
#[derive(Clone, Copy, Debug, PartialEq, Eq, Structural)]
pub struct ScanoutLayout {
    pub width: u32,
    pub height: u32,
    pub dumb_pitch: u32,
    pub copy_bpr: u32,
}

impl ScanoutLayout {
    /// The image is not empty, and the readback rows are as long as they have to be.
    pub open spec fn wf(self) -> bool {
        &&& 1 <= self.width
        &&& 1 <= self.height
        &&& 4 * self.width + ROW_ALIGNMENT - 1 <= u32::MAX
        &&& self.copy_bpr == readback_row(self.width as int, self.dumb_pitch as int)
    }

    /// How many bytes of each row are copied: all of them where the rows are equally long on
    /// both sides, else those of the pixels.
    pub open spec fn row_len(self) -> int {
        if self.copy_bpr == self.dumb_pitch {
            self.dumb_pitch as int
        } else {
            4 * self.width
        }
    }

    /// Byte `i` of the dumb buffer is one of those that row `y` is copied to.
    pub open spec fn in_row(self, y: int, i: int) -> bool {
        y * self.dumb_pitch <= i < y * self.dumb_pitch + self.row_len()
    }

    /// The row that writes byte `i` of the dumb buffer last, of the first `rows` rows.
    pub open spec fn owner_row(self, rows: int, i: int) -> int {
        if self.dumb_pitch == 0 || i / self.dumb_pitch as int >= rows {
            rows - 1
        } else {
            i / self.dumb_pitch as int
        }
    }

    /// Byte `i` of the dumb buffer once the first `rows` rows are copied.
    pub open spec fn byte_after(
        self,
        format: TargetFormat,
        data: Seq<u8>,
        map: Seq<u8>,
        rows: int,
        i: int,
    ) -> u8 {
        let y = self.owner_row(rows, i);
        let k = i - y * self.dumb_pitch;
        if rows > 0 && k < self.row_len() {
            data[y * self.copy_bpr + format.source_byte(k)]
        } else {
            map[i]
        }
    }

    /// The dumb buffer once the image in `data` is copied over what `map` held.
    pub open spec fn scanned_out(
        self,
        format: TargetFormat,
        data: Seq<u8>,
        map: Seq<u8>,
    ) -> Seq<u8> {
        Seq::new(map.len(), |i: int| self.byte_after(format, data, map, self.height as int, i))
    }

    /// The readback buffer has room for the image.
    pub open spec fn readback_fits(self, len: int) -> bool {
        has_room(len, self.height as int, self.copy_bpr as int, self.row_len())
    }

    /// The dumb buffer has room for the image.
    pub open spec fn dumb_fits(self, len: int) -> bool {
        has_room(len, self.height as int, self.dumb_pitch as int, self.row_len())
    }

    /// The layout of an image of this size, next to a dumb buffer with rows of `dumb_pitch`
    /// bytes. An image has at least one pixel, whatever size is asked for.
    pub fn new(width: u32, height: u32, dumb_pitch: u32) -> (layout: Self)
        requires
            4 * width + ROW_ALIGNMENT - 1 <= u32::MAX,
        ensures
            layout.wf(),
            layout.width == (if width == 0 { 1 } else { width as int }),
            layout.height == (if height == 0 { 1 } else { height as int }),
            layout.dumb_pitch == dumb_pitch,
            layout.copy_bpr == readback_row(layout.width as int, dumb_pitch as int),
    {
        let width: u32 = if width == 0 { 1 } else { width };
        let height: u32 = if height == 0 { 1 } else { height };
        let unpadded_bpr: u32 = width * 4;
        let mut copy_bpr: u32 = ((unpadded_bpr + (ROW_ALIGNMENT - 1)) / ROW_ALIGNMENT) * ROW_ALIGNMENT;
        if dumb_pitch % ROW_ALIGNMENT == 0 {
            copy_bpr = dumb_pitch;
        }
        ScanoutLayout { width, height, dumb_pitch, copy_bpr }
    }

    /// The size of the readback buffer, in bytes.
    pub fn readback_size(&self) -> (size: u64)
        ensures
            size == self.copy_bpr * self.height,
    {
        assert(self.copy_bpr * self.height <= u64::MAX) by (nonlinear_arith)
            requires
                self.copy_bpr <= u32::MAX,
                self.height <= u32::MAX,
        ;
        (self.copy_bpr as u64) * (self.height as u64)
    }

    /// Whether buffers of these sizes have room for the image.
    pub fn fits(&self, readback_len: usize, dumb_len: usize) -> (fits: bool)
        requires
            self.wf(),
        ensures
            fits == (self.readback_fits(readback_len as int) && self.dumb_fits(dumb_len as int)),
    {
        let row: u32 = if self.copy_bpr == self.dumb_pitch {
            self.dumb_pitch
        } else {
            self.width * 4
        };
        room(readback_len, self.height, self.copy_bpr, row) && room(
            dumb_len,
            self.height,
            self.dumb_pitch,
            row,
        )
    }

    proof fn copy_row_holds_pixels(self)
        requires
            self.wf(),
        ensures
            self.copy_bpr % 256 == 0,
            self.row_len() % 4 == 0,
            self.copy_bpr == self.dumb_pitch || self.row_len() <= self.copy_bpr,
    {
    }

    proof fn one_more_row(
        self,
        format: TargetFormat,
        data: Seq<u8>,
        map: Seq<u8>,
        rows: int,
        i: int,
    )
        requires
            self.wf(),
            0 <= rows,
            0 <= i,
        ensures
            self.byte_after(format, data, map, rows + 1, i) == (if rows * self.dumb_pitch <= i < rows
                * self.dumb_pitch + self.row_len() {
                data[rows * self.copy_bpr + format.source_byte(i - rows * self.dumb_pitch)]
            } else {
                self.byte_after(format, data, map, rows, i)
            }),
    {
        let pitch = self.dumb_pitch as int;
        assert((rows - 1) * pitch == rows * pitch - pitch) by (nonlinear_arith);
        if pitch == 0 {
            assert(rows * pitch == 0) by (nonlinear_arith)
                requires
                    pitch == 0,
            ;
        } else {
            let q = i / pitch;
            assert(q * pitch <= i < q * pitch + pitch) by (nonlinear_arith)
                requires
                    q == i / pitch,
                    pitch > 0,
            ;
            if q >= rows {
                assert(rows * pitch <= i) by (nonlinear_arith)
                    requires
                        q >= rows,
                        q * pitch <= i,
                        pitch > 0,
                ;
            } else {
                assert(i < rows * pitch) by (nonlinear_arith)
                    requires
                        q + 1 <= rows,
                        i < q * pitch + pitch,
                        pitch > 0,
                ;
            }
        }
    }

    /// Copies the rendered image in `data` into the mapped dumb buffer, in the byte order of
    /// XRGB8888.
    pub fn blit(&self, format: TargetFormat, data: &[u8], map: &mut [u8])
        requires
            self.wf(),
            self.readback_fits(data@.len() as int),
            self.dumb_fits(old(map)@.len() as int),
        ensures
            final(map)@ == self.scanned_out(format, data@, old(map)@),
    {
        proof {
            self.copy_row_holds_pixels();
        }
        let ghost before = map@;
        let h: usize = self.height as usize;
        let pitch: usize = self.dumb_pitch as usize;
        let copy_bpr: usize = self.copy_bpr as usize;
        let row_len: usize = if copy_bpr == pitch { copy_bpr } else { self.width as usize * 4 };
        let mut y: usize = 0;
        while y < h
            invariant
                self.wf(),
                y <= h,
                h == self.height,
                pitch == self.dumb_pitch,
                copy_bpr == self.copy_bpr,
                row_len == self.row_len(),
                row_len % 4 == 0,
                self.readback_fits(data@.len() as int),
                self.dumb_fits(before.len() as int),
                map@.len() == before.len(),
                forall|i: int|
                    0 <= i < before.len() ==> #[trigger] map@[i] == self.byte_after(
                        format,
                        data@,
                        before,
                        y as int,
                        i,
                    ),
            decreases h - y,
        {
            assert(y * pitch + row_len <= map.len()) by {
                assert(y * pitch <= (h - 1) * pitch) by (nonlinear_arith)
                    requires
                        y <= h - 1,
                        0 <= pitch,
                ;
            }
            assert(y * copy_bpr + row_len <= data.len()) by {
                assert(y * copy_bpr <= (h - 1) * copy_bpr) by (nonlinear_arith)
                    requires
                        y <= h - 1,
                        0 <= copy_bpr,
                ;
            }
            let dst: usize = y * pitch;
            let src: usize = y * copy_bpr;
            let ghost row_before = map@;
            let mut k: usize = 0;
            while k < row_len
                invariant
                    k <= row_len,
                    row_len % 4 == 0,
                    dst + row_len <= row_before.len(),
                    row_before.len() == map@.len(),
                    dst + row_len <= usize::MAX,
                    src + row_len <= data.len(),
                    forall|i: int|
                        0 <= i < row_before.len() ==> #[trigger] map@[i] == (if dst <= i < dst + k {
                            data@[src + format.source_byte(i - dst)]
                        } else {
                            row_before[i]
                        }),
                decreases row_len - k,
            {
                map[dst + k] = data[src + format.source_offset(k)];
                k += 1;
            }
            proof {
                assert forall|i: int| 0 <= i < before.len() implies #[trigger] map@[i]
                    == self.byte_after(format, data@, before, y + 1, i) by {
                    self.one_more_row(format, data@, before, y as int, i);
                }
            }
            y += 1;
        }
        assert(map@ =~= self.scanned_out(format, data@, before));
    }
}

/// Every readback row starts at a multiple of the alignment that the GPU asks for, holds the
/// bytes that are copied out of it, and is as long as a row of the dumb buffer wherever the
/// alignment lets it be; where it does not, no shorter aligned row would hold the pixels.
pub proof fn readback_rows_are_aligned(layout: ScanoutLayout, shorter: int)
    requires
        layout.wf(),
    ensures
        layout.copy_bpr % ROW_ALIGNMENT == 0,
        layout.row_len() <= layout.copy_bpr,
        layout.dumb_pitch >= 4 * layout.width ==> layout.copy_bpr >= 4 * layout.width,
        layout.dumb_pitch % ROW_ALIGNMENT == 0 ==> layout.copy_bpr == layout.dumb_pitch,
        layout.dumb_pitch % ROW_ALIGNMENT != 0 && shorter % ROW_ALIGNMENT as int == 0 && shorter
            < layout.copy_bpr ==> shorter < 4 * layout.width,
{
}

/// A readback buffer of the computed size has room for the image, and so has a dumb buffer
/// whose rows hold what is copied to them and which holds all the rows. Rows that hold the
/// pixels hold what is copied to them, and all their pixels are copied.
pub proof fn sized_buffers_fit(layout: ScanoutLayout, dumb_len: int)
    requires
        layout.wf(),
    ensures
        layout.readback_fits(layout.copy_bpr * layout.height),
        layout.dumb_pitch >= layout.row_len() && dumb_len >= layout.dumb_pitch * layout.height
            ==> layout.dumb_fits(dumb_len),
        layout.dumb_pitch >= 4 * layout.width ==> 4 * layout.width <= layout.row_len()
            <= layout.dumb_pitch,
{
    let (h, bpr, pitch) = (layout.height as int, layout.copy_bpr as int, layout.dumb_pitch as int);
    assert((h - 1) * bpr == bpr * h - bpr) by (nonlinear_arith);
    assert((h - 1) * pitch == pitch * h - pitch) by (nonlinear_arith);
}

/// What is scanned out is what was rendered: after the copy, the XRGB8888 pixel at (`x`, `y`)
/// has the red, green and blue of the rendered pixel at (`x`, `y`), in whichever order the
/// target held them. This holds of every pixel that is copied, where the rows of the dumb buffer
/// do not overlap; rows that hold the pixels do not, and all their pixels are copied.
pub proof fn scanout_shows_rendered_color(
    layout: ScanoutLayout,
    format: TargetFormat,
    data: Seq<u8>,
    map: Seq<u8>,
    x: int,
    y: int,
)
    requires
        layout.wf(),
        layout.dumb_pitch >= layout.row_len(),
        layout.readback_fits(data.len() as int),
        layout.dumb_fits(map.len() as int),
        0 <= x,
        4 * x + 4 <= layout.row_len(),
        0 <= y < layout.height,
    ensures
        xrgb_color_at(
            layout.scanned_out(format, data, map),
            y * layout.dumb_pitch + 4 * x,
        ) == format.color_at(data, y * layout.copy_bpr + 4 * x),
{
    let pitch = layout.dumb_pitch as int;
    let h = layout.height as int;
    assert(y * pitch <= (h - 1) * pitch) by (nonlinear_arith)
        requires
            y <= h - 1,
            0 <= pitch,
    ;
    assert(0 <= y * pitch) by (nonlinear_arith)
        requires
            0 <= y,
            0 <= pitch,
    ;
    assert forall|k: int| 0 <= k < 4 implies #[trigger] layout.owner_row(h, y * pitch + 4 * x + k)
        == y by {
        assert((y * pitch + (4 * x + k)) / pitch == y) by (nonlinear_arith)
            requires
                0 <= 4 * x + k < pitch,
        ;
    }
    assert(layout.owner_row(h, y * pitch + 4 * x + 0) == y);
    assert(layout.owner_row(h, y * pitch + 4 * x + 1) == y);
    assert(layout.owner_row(h, y * pitch + 4 * x + 2) == y);
}

/// The copy writes only the rows of the image: a byte of the dumb buffer that none of them is
/// copied to stays as it was.
pub proof fn blit_keeps_the_rest(
    layout: ScanoutLayout,
    format: TargetFormat,
    data: Seq<u8>,
    map: Seq<u8>,
    i: int,
)
    requires
        layout.wf(),
        0 <= i < map.len(),
        forall|y: int| 0 <= y < layout.height ==> !(#[trigger] layout.in_row(y, i)),
    ensures
        layout.scanned_out(format, data, map)[i] == map[i],
{
    let pitch = layout.dumb_pitch as int;
    let h = layout.height as int;
    let y = layout.owner_row(h, i);
    if pitch == 0 {
        assert(y * pitch == 0) by (nonlinear_arith)
            requires
                pitch == 0,
        ;
    } else {
        let q = i / pitch;
        assert(0 <= q && q * pitch <= i) by (nonlinear_arith)
            requires
                q == i / pitch,
                pitch > 0,
                0 <= i,
        ;
        assert(y * pitch <= q * pitch) by (nonlinear_arith)
            requires
                y <= q,
                pitch > 0,
        ;
    }
    assert(!layout.in_row(y, i));
}

/// A cleared buffer is as long as it was. In every whole pixel of it, the fourth byte is 0xFF and
/// the other three are 0x10; and a byte behind the last whole pixel is what it was.
pub proof fn cleared_pixels_are_dark_grey(map: Seq<u8>, i: int)
    requires
        0 <= i < map.len(),
    ensures
        cleared(map).len() == map.len(),
        i < 4 * (map.len() / 4) && i % 4 == 3 ==> cleared(map)[i] == 0xFF,
        i < 4 * (map.len() / 4) && i % 4 != 3 ==> cleared(map)[i] == 0x10,
        i >= 4 * (map.len() / 4) ==> cleared(map)[i] == map[i],
{
}

/// A buffer has room for rows exactly where every one of the rows ends within it.
pub proof fn there_is_room_where_every_row_ends_within(
    len: int,
    rows: int,
    stride: int,
    row: int,
)
    requires
        1 <= rows,
        0 <= stride,
    ensures
        has_room(len, rows, stride, row) <==> forall|y: int|
            0 <= y < rows ==> #[trigger] (y * stride) + row <= len,
{
    if has_room(len, rows, stride, row) {
        assert forall|y: int| 0 <= y < rows implies #[trigger] (y * stride) + row <= len by {
            assert(y * stride <= (rows - 1) * stride) by (nonlinear_arith)
                requires
                    y <= rows - 1,
                    0 <= stride,
            ;
        }
    }
    if forall|y: int| 0 <= y < rows ==> #[trigger] (y * stride) + row <= len {
        assert(((rows - 1) * stride) + row <= len);
    }
}

/// How many bytes of a row are copied, by the pitch of the dumb buffer alone: the whole pitch
/// where it is a multiple of 256, and four bytes for every pixel where it is not. The buffers fit
/// exactly where each of the rows, at the start that it has in them, ends within them.
pub proof fn rows_are_copied_whole_or_by_the_pixel(layout: ScanoutLayout, len: int)
    requires
        layout.wf(),
    ensures
        layout.row_len() == (if layout.dumb_pitch % 256 == 0 {
            layout.dumb_pitch as int
        } else {
            4 * layout.width
        }),
        layout.readback_fits(len) <==> forall|y: int|
            0 <= y < layout.height ==> #[trigger] (y * layout.copy_bpr) + layout.row_len() <= len,
        layout.dumb_fits(len) <==> forall|y: int|
            0 <= y < layout.height ==> #[trigger] (y * layout.dumb_pitch) + layout.row_len() <= len,
{
    let (h, bpr, pitch) = (layout.height as int, layout.copy_bpr as int, layout.dumb_pitch as int);
    there_is_room_where_every_row_ends_within(len, h, bpr, layout.row_len());
    there_is_room_where_every_row_ends_within(len, h, pitch, layout.row_len());
    assert(forall|y: int| #[trigger] (y * bpr) == y * layout.copy_bpr);
    assert(forall|y: int| #[trigger] (y * pitch) == y * layout.dumb_pitch);
}

/// Every byte that the copy writes, by the row that writes it last. Byte `k` of row `y`, where no
/// later row reaches, comes from the same row of the readback buffer: from byte `k` where the
/// target is BGRA, and, where it is RGBA, from the byte of the same pixel that holds the same
/// channel there, so that red and blue change places, and green and alpha keep theirs.
pub proof fn a_byte_comes_from_its_own_channel(
    layout: ScanoutLayout,
    format: TargetFormat,
    data: Seq<u8>,
    map: Seq<u8>,
    y: int,
    k: int,
)
    requires
        layout.wf(),
        layout.dumb_fits(map.len() as int),
        0 <= y < layout.height,
        0 <= k < layout.row_len(),
        y == layout.height - 1 || k < layout.dumb_pitch,
    ensures
        layout.scanned_out(format, data, map).len() == map.len(),
        0 <= y * layout.dumb_pitch + k < map.len(),
        ({
            let shown = layout.scanned_out(format, data, map)[y * layout.dumb_pitch + k];
            let row = y * layout.copy_bpr;
            &&& format == TargetFormat::Bgra8Unorm ==> shown == data[row + k]
            &&& format == TargetFormat::Rgba8Unorm && k % 4 == 0 ==> shown == data[row + k + 2]
            &&& format == TargetFormat::Rgba8Unorm && k % 4 == 2 ==> shown == data[row + k - 2]
            &&& format == TargetFormat::Rgba8Unorm && k % 2 == 1 ==> shown == data[row + k]
        }),
{
    let pitch = layout.dumb_pitch as int;
    let h = layout.height as int;
    let i = y * pitch + k;
    assert(0 <= y * pitch <= (h - 1) * pitch) by (nonlinear_arith)
        requires
            0 <= y <= h - 1,
            0 <= pitch,
    ;
    if pitch > 0 {
        assert(k < pitch ==> i / pitch == y) by (nonlinear_arith)
            requires
                i == y * pitch + k,
                0 <= k,
                pitch > 0,
        ;
        if y == h - 1 {
            assert(i / pitch >= h - 1) by (nonlinear_arith)
                requires
                    i == y * pitch + k,
                    y == h - 1,
                    0 <= k,
                    pitch > 0,
            ;
        }
    }
    assert(layout.owner_row(h, i) == y);
}

} // verus!
