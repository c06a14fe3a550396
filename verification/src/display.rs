//! Address-window and region writer.
//!
//! A dirty region of the pixel buffer is pushed to the panel as one
//! address-window header (`CASET`, `RASET`, `RAMWR`) followed by one raster
//! transfer: the region's pixels, row by row, each pixel as two big-endian
//! bytes.  A row whose end index would exceed the buffer length is skipped
//! entirely; no partial row is ever emitted.

use vstd::prelude::*;

use crate::geometry::{DisplayGeometry, PixelPosition, PixelSize, region_in_bounds,
    lemma_bounded_mul, PANEL_WIDTH, PANEL_HEIGHT};
use crate::protocol::{WireOp, WireEvent, wire_of, spec_command_wire, write_command, be16,
    be16_hi, be16_lo, ST7789_CASET, ST7789_RASET, ST7789_RAMWR};

verus! {

/// The wire transfers that set the address window to the inclusive
/// rectangle `x0..=x1`, `y0..=y1` and open a memory-write transaction:
/// `CASET` with the column bounds, `RASET` with the row bounds (each bound
/// as two big-endian bytes), then the bare `RAMWR` opcode, after which the
/// controller treats all following data bytes as raster data.
pub open spec fn spec_address_window_wire(x0: u16, y0: u16, x1: u16, y1: u16) -> Seq<WireEvent> {
    seq![
        WireEvent::Command(seq![ST7789_CASET]),
        WireEvent::Data(be16(x0) + be16(x1)),
        WireEvent::Command(seq![ST7789_RASET]),
        WireEvent::Data(be16(y0) + be16(y1)),
        WireEvent::Command(seq![ST7789_RAMWR]),
    ]
}

/// The address-window header is exactly the three command frames `CASET`,
/// `RASET` and `RAMWR`, in that order, with the coordinate payloads on the
/// first two and nothing after the `RAMWR` opcode.
pub proof fn lemma_address_window_is_three_commands(x0: u16, y0: u16, x1: u16, y1: u16)
    ensures
        spec_address_window_wire(x0, y0, x1, y1) =~= spec_command_wire(ST7789_CASET,
            be16(x0) + be16(x1)) + spec_command_wire(ST7789_RASET, be16(y0) + be16(y1))
            + spec_command_wire(ST7789_RAMWR, Seq::empty()),
{
}

/// Both coordinate payloads of the address-window header are exactly 4
/// bytes: high byte of the low bound, low byte of the low bound, high byte
/// of the high bound, low byte of the high bound.
pub proof fn lemma_address_window_payload_format(x0: u16, y0: u16, x1: u16, y1: u16)
    ensures
        spec_address_window_wire(x0, y0, x1, y1)[1] == WireEvent::Data(
            seq![be16(x0)[0], be16(x0)[1], be16(x1)[0], be16(x1)[1]]),
        spec_address_window_wire(x0, y0, x1, y1)[3] == WireEvent::Data(
            seq![be16(y0)[0], be16(y0)[1], be16(y1)[0], be16(y1)[1]]),
        (be16(x0) + be16(x1)).len() == 4,
        (be16(y0) + be16(y1)).len() == 4,
{
    assert(be16(x0) + be16(x1) =~= seq![be16(x0)[0], be16(x0)[1], be16(x1)[0], be16(x1)[1]]);
    assert(be16(y0) + be16(y1) =~= seq![be16(y0)[0], be16(y0)[1], be16(y1)[0], be16(y1)[1]]);
}

/// The bytes of one buffer row of `width` pixels starting at index `start`,
/// each pixel as two big-endian bytes.
pub open spec fn row_bytes(buf: Seq<u16>, start: int, width: int) -> Seq<u8>
    decreases width,
{
    if width <= 0 {
        Seq::empty()
    } else {
        row_bytes(buf, start, width - 1) + be16(buf[start + width - 1])
    }
}

/// The raster bytes of a region: `rows` rows of `width` pixels, consecutive
/// rows `stride` pixels apart in the buffer, the first row starting at
/// `row_start`.  A row whose end index exceeds the buffer length contributes
/// no bytes at all.
pub open spec fn region_bytes(buf: Seq<u16>, row_start: int, width: int, stride: int,
    rows: int) -> Seq<u8>
    decreases rows,
{
    if rows <= 0 {
        Seq::empty()
    } else {
        let last_start = row_start + (rows - 1) * stride;
        let last_row = if last_start + width <= buf.len() {
            row_bytes(buf, last_start, width)
        } else {
            Seq::empty()
        };
        region_bytes(buf, row_start, width, stride, rows - 1) + last_row
    }
}

/// Raster bytes of a dirty region of a display, row stride the full
/// display width, first pixel at `origin.y * width + origin.x`.
pub open spec fn spec_region_bytes(geometry: DisplayGeometry, origin: PixelPosition,
    size: PixelSize, buf: Seq<u16>) -> Seq<u8> {
    region_bytes(buf, origin.y * geometry.width + origin.x, size.width as int,
        geometry.width as int, size.height as int)
}

/// The full wire traffic of one region update: one address-window header for
/// the region's bounds, then the region's raster bytes as a single transfer.
/// When every row was skipped, nothing follows the header.
pub open spec fn spec_update_region_wire(geometry: DisplayGeometry, origin: PixelPosition,
    size: PixelSize, buf: Seq<u16>) -> Seq<WireEvent> {
    let header = spec_address_window_wire(origin.x as u16, origin.y as u16,
        (origin.x + size.width - 1) as u16, (origin.y + size.height - 1) as u16);
    let px = spec_region_bytes(geometry, origin, size, buf);
    if px.len() == 0 {
        header
    } else {
        header + seq![WireEvent::Data(px)]
    }
}

/// The wire traffic of a full-screen fill: the address window set to the
/// whole panel, then every pixel of the frame as the same big-endian pair.
pub open spec fn spec_fill_screen_wire(geometry: DisplayGeometry, color: u16) -> Seq<WireEvent> {
    spec_address_window_wire(0, 0, (geometry.width - 1) as u16, (geometry.height - 1) as u16)
        + seq![WireEvent::Data(fill_bytes(color, geometry.width * geometry.height))]
}

/// `count` repetitions of the big-endian byte pair of `color`.
pub open spec fn fill_bytes(color: u16, count: int) -> Seq<u8>
    decreases count,
{
    if count <= 0 {
        Seq::empty()
    } else {
        fill_bytes(color, count - 1) + be16(color)
    }
}

/// Whether the row that starts `r` strides after `row_start` still ends
/// inside the buffer.
pub open spec fn row_in_range(buf: Seq<u16>, row_start: int, width: int, stride: int,
    r: int) -> bool {
    row_start + r * stride + width <= buf.len()
}

/// How many of the first `rows` rows end inside the buffer.
pub open spec fn in_range_row_count(buf: Seq<u16>, row_start: int, width: int, stride: int,
    rows: int) -> int
    decreases rows,
{
    if rows <= 0 {
        0
    } else {
        in_range_row_count(buf, row_start, width, stride, rows - 1) + if row_in_range(buf,
            row_start, width, stride, rows - 1) {
            1int
        } else {
            0int
        }
    }
}

/// A row of `width` pixels becomes exactly `2 * width` bytes.
pub proof fn lemma_row_bytes_len(buf: Seq<u16>, start: int, width: int)
    requires
        width >= 0,
    ensures
        row_bytes(buf, start, width).len() == 2 * width,
    decreases width,
{
    if width > 0 {
        lemma_row_bytes_len(buf, start, width - 1);
    }
}

/// Within one row, pixel `c` stands at bytes `2 * c` and `2 * c + 1`, as its
/// big-endian pair.
pub proof fn lemma_row_bytes_index(buf: Seq<u16>, start: int, width: int, c: int)
    requires
        0 <= c < width,
    ensures
        row_bytes(buf, start, width).len() == 2 * width,
        row_bytes(buf, start, width)[2 * c] == be16(buf[start + c])[0],
        row_bytes(buf, start, width)[2 * c + 1] == be16(buf[start + c])[1],
    decreases width,
{
    lemma_row_bytes_len(buf, start, width);
    lemma_row_bytes_len(buf, start, width - 1);
    if c < width - 1 {
        lemma_row_bytes_index(buf, start, width - 1, c);
    }
}

/// A later row index never starts earlier in the buffer, so when the last
/// row of a region ends inside the buffer, so does every row before it.
pub proof fn lemma_row_in_range_monotonic(buf: Seq<u16>, row_start: int, width: int,
    stride: int, r1: int, r2: int)
    requires
        stride >= 0,
        0 <= r1 <= r2,
        row_in_range(buf, row_start, width, stride, r2),
    ensures
        row_in_range(buf, row_start, width, stride, r1),
{
    assert(r1 * stride <= r2 * stride) by (nonlinear_arith)
        requires
            r1 <= r2,
            stride >= 0,
    ;
}

/// When every row of the region ends inside the buffer, the region emits
/// exactly `2 * width * rows` bytes.
pub proof fn lemma_region_bytes_len_full(buf: Seq<u16>, row_start: int, width: int,
    stride: int, rows: int)
    requires
        width >= 0,
        stride >= 0,
        rows >= 0,
        rows >= 1 ==> row_in_range(buf, row_start, width, stride, rows - 1),
    ensures
        region_bytes(buf, row_start, width, stride, rows).len() == 2 * width * rows,
    decreases rows,
{
    if rows > 0 {
        if rows >= 2 {
            lemma_row_in_range_monotonic(buf, row_start, width, stride, rows - 2, rows - 1);
        }
        lemma_region_bytes_len_full(buf, row_start, width, stride, rows - 1);
        lemma_row_bytes_len(buf, row_start + (rows - 1) * stride, width);
        assert(2 * width * (rows - 1) + 2 * width == 2 * width * rows) by (nonlinear_arith);
    } else {
        assert(2 * width * rows == 0) by (nonlinear_arith)
            requires
                rows == 0,
        ;
    }
}

/// When every row of the region ends inside the buffer, the bytes of pixel
/// `(r, c)` of the region stand at offsets `2 * (r * width + c)` and the
/// byte after, and are the big-endian pair of buffer pixel
/// `row_start + r * stride + c`.
pub proof fn lemma_region_bytes_index(buf: Seq<u16>, row_start: int, width: int, stride: int,
    rows: int, r: int, c: int)
    requires
        stride >= 0,
        0 <= r < rows,
        0 <= c < width,
        row_in_range(buf, row_start, width, stride, rows - 1),
    ensures
        region_bytes(buf, row_start, width, stride, rows).len() == 2 * width * rows,
        region_bytes(buf, row_start, width, stride, rows)[2 * (r * width + c)] == be16(
            buf[row_start + r * stride + c])[0],
        region_bytes(buf, row_start, width, stride, rows)[2 * (r * width + c) + 1] == be16(
            buf[row_start + r * stride + c])[1],
    decreases rows,
{
    if rows >= 2 {
        lemma_row_in_range_monotonic(buf, row_start, width, stride, rows - 2, rows - 1);
    }
    lemma_region_bytes_len_full(buf, row_start, width, stride, rows);
    lemma_region_bytes_len_full(buf, row_start, width, stride, rows - 1);
    if r == rows - 1 {
        lemma_row_bytes_index(buf, row_start + (rows - 1) * stride, width, c);
        assert(2 * ((rows - 1) * width + c) == 2 * width * (rows - 1) + 2 * c)
            by (nonlinear_arith);
    } else {
        lemma_region_bytes_index(buf, row_start, width, stride, rows - 1, r, c);
        assert(2 * (r * width + c) + 1 < 2 * width * (rows - 1)) by (nonlinear_arith)
            requires
                0 <= r < rows - 1,
                0 <= c < width,
        ;
    }
}

/// A region emits bytes only for the rows that end inside the buffer, and
/// for each of those the full `2 * width` bytes: a row whose end index
/// exceeds the buffer length contributes nothing, never a partial row.
pub proof fn lemma_region_emits_only_full_rows(buf: Seq<u16>, row_start: int, width: int,
    stride: int, rows: int)
    requires
        width >= 0,
    ensures
        region_bytes(buf, row_start, width, stride, rows).len() == 2 * width
            * in_range_row_count(buf, row_start, width, stride, rows),
    decreases rows,
{
    if rows > 0 {
        lemma_region_emits_only_full_rows(buf, row_start, width, stride, rows - 1);
        let k = in_range_row_count(buf, row_start, width, stride, rows - 1);
        if row_in_range(buf, row_start, width, stride, rows - 1) {
            lemma_row_bytes_len(buf, row_start + (rows - 1) * stride, width);
            assert(2 * width * k + 2 * width == 2 * width * (k + 1)) by (nonlinear_arith);
        }
    }
}

/// A full-screen fill of `count` pixels is exactly `2 * count` bytes.
pub proof fn lemma_fill_bytes_len(color: u16, count: int)
    requires
        count >= 0,
    ensures
        fill_bytes(color, count).len() == 2 * count,
    decreases count,
{
    if count > 0 {
        lemma_fill_bytes_len(color, count - 1);
    }
}

/// Every pixel of a full-screen fill is the big-endian pair of the color.
pub proof fn lemma_fill_bytes_pixel(color: u16, count: int, i: int)
    requires
        0 <= i < count,
    ensures
        fill_bytes(color, count).len() == 2 * count,
        fill_bytes(color, count)[2 * i] == be16(color)[0],
        fill_bytes(color, count)[2 * i + 1] == be16(color)[1],
    decreases count,
{
    lemma_fill_bytes_len(color, count);
    lemma_fill_bytes_len(color, count - 1);
    if i < count - 1 {
        lemma_fill_bytes_pixel(color, count - 1, i);
    }
}

/// When the pixel buffer holds the full frame, every row of a region that
/// lies inside the display ends inside the buffer.
pub proof fn lemma_region_rows_in_range(geometry: DisplayGeometry, origin: PixelPosition,
    size: PixelSize, buf: Seq<u16>)
    requires
        geometry.wf(),
        region_in_bounds(origin, size, geometry),
        buf.len() == geometry.width * geometry.height,
    ensures
        row_in_range(buf, origin.y * geometry.width + origin.x, size.width as int,
            geometry.width as int, size.height - 1),
{
    let w = geometry.width as int;
    let h = geometry.height as int;
    let x = origin.x as int;
    let y = origin.y as int;
    let rw = size.width as int;
    let rh = size.height as int;
    assert(y * w + x + (rh - 1) * w + rw <= w * h) by (nonlinear_arith)
        requires
            x + rw <= w,
            y + rh <= h,
            1 <= rh,
            0 <= x,
            0 <= y,
            0 <= w,
    ;
}

/// One region update is exactly one address-window header followed by one
/// raster transfer of `2 * width * height` bytes, when the buffer holds the
/// full frame.
pub proof fn lemma_update_region_exact(geometry: DisplayGeometry, origin: PixelPosition,
    size: PixelSize, buf: Seq<u16>)
    requires
        geometry.wf(),
        region_in_bounds(origin, size, geometry),
        buf.len() == geometry.width * geometry.height,
    ensures
        spec_region_bytes(geometry, origin, size, buf).len() == 2 * size.width * size.height,
        spec_update_region_wire(geometry, origin, size, buf) == spec_address_window_wire(
            origin.x as u16, origin.y as u16, (origin.x + size.width - 1) as u16,
            (origin.y + size.height - 1) as u16) + seq![WireEvent::Data(spec_region_bytes(
            geometry, origin, size, buf))],
{
    lemma_region_rows_in_range(geometry, origin, size, buf);
    lemma_region_bytes_len_full(buf, origin.y * geometry.width + origin.x, size.width as int,
        geometry.width as int, size.height as int);
    assert(2 * size.width * size.height >= 2) by (nonlinear_arith)
        requires
            size.width >= 1,
            size.height >= 1,
    ;
}

/// Each pixel of the region reappears in the raster transfer at its
/// row-major offset, as its big-endian byte pair, when the buffer holds the
/// full frame.
pub proof fn lemma_update_region_pixel(geometry: DisplayGeometry, origin: PixelPosition,
    size: PixelSize, buf: Seq<u16>, r: int, c: int)
    requires
        geometry.wf(),
        region_in_bounds(origin, size, geometry),
        buf.len() == geometry.width * geometry.height,
        0 <= r < size.height,
        0 <= c < size.width,
    ensures
        spec_region_bytes(geometry, origin, size, buf)[2 * (r * size.width + c)] == be16(
            buf[(origin.y + r) * geometry.width + origin.x + c])[0],
        spec_region_bytes(geometry, origin, size, buf)[2 * (r * size.width + c) + 1] == be16(
            buf[(origin.y + r) * geometry.width + origin.x + c])[1],
{
    lemma_region_rows_in_range(geometry, origin, size, buf);
    let row_start = origin.y * geometry.width + origin.x;
    lemma_region_bytes_index(buf, row_start, size.width as int, geometry.width as int,
        size.height as int, r, c);
    assert(origin.y * geometry.width + origin.x + r * geometry.width + c == (origin.y + r)
        * geometry.width + origin.x + c) by (nonlinear_arith);
}

/// Protocol driver for one display of fixed geometry.  Its methods compute
/// the exact wire operations of each update; the application transmits them.
pub struct DisplayDriver {
    pub geometry: DisplayGeometry,
}

impl DisplayDriver {
    /// A driver for a well-formed display geometry.
    pub fn new(geometry: DisplayGeometry) -> (d: DisplayDriver)
        requires
            geometry.wf(),
        ensures
            d.geometry == geometry,
            d.geometry.wf(),
    {
        DisplayDriver { geometry }
    }

    /// Set the address window to the inclusive rectangle `x0..=x1`,
    /// `y0..=y1` and open the memory-write transaction.
    pub fn set_address_window(&self, x0: u16, y0: u16, x1: u16, y1: u16) -> (ops: Vec<WireOp>)
        requires
            self.geometry.wf(),
            x0 <= x1 < self.geometry.width,
            y0 <= y1 < self.geometry.height,
        ensures
            wire_of(ops@) == spec_address_window_wire(x0, y0, x1, y1),
    {
        let mut col_bounds: Vec<u8> = Vec::new();
        col_bounds.push(be16_hi(x0));
        col_bounds.push(be16_lo(x0));
        col_bounds.push(be16_hi(x1));
        col_bounds.push(be16_lo(x1));
        assert(col_bounds@ =~= be16(x0) + be16(x1));

        let mut row_bounds: Vec<u8> = Vec::new();
        row_bounds.push(be16_hi(y0));
        row_bounds.push(be16_lo(y0));
        row_bounds.push(be16_hi(y1));
        row_bounds.push(be16_lo(y1));
        assert(row_bounds@ =~= be16(y0) + be16(y1));

        let ghost cb = col_bounds@;
        let ghost rb = row_bounds@;
        let mut ops = write_command(ST7789_CASET, col_bounds);
        assert(wire_of(ops@) == spec_command_wire(ST7789_CASET, cb));
        assert(spec_command_wire(ST7789_CASET, cb).len() == 2);
        assert(ops@.len() == 2);
        let mut row_ops = write_command(ST7789_RASET, row_bounds);
        assert(wire_of(row_ops@) == spec_command_wire(ST7789_RASET, rb));
        assert(spec_command_wire(ST7789_RASET, rb).len() == 2);
        assert(row_ops@.len() == 2);
        ops.append(&mut row_ops);
        assert(ops@.len() == 4);
        let mut ramwr_byte: Vec<u8> = Vec::new();
        ramwr_byte.push(ST7789_RAMWR);
        assert(ramwr_byte@ =~= seq![ST7789_RAMWR]);
        ops.push(WireOp::Command(ramwr_byte));
        assert(wire_of(ops@) =~= spec_address_window_wire(x0, y0, x1, y1));
        ops
    }

    /// Push one dirty region of the pixel buffer to the panel: one
    /// address-window header for the region, then the region's rows as a
    /// single raster transfer, each pixel as two big-endian bytes.  A row
    /// whose end index would exceed the buffer length is skipped entirely.
    #[verifier::loop_isolation(false)]
    pub fn update_display_region(&self, origin: &PixelPosition, size: &PixelSize,
        buffer: &Vec<u16>) -> (ops: Vec<WireOp>)
        requires
            self.geometry.wf(),
            region_in_bounds(*origin, *size, self.geometry),
        ensures
            wire_of(ops@) == spec_update_region_wire(self.geometry, *origin, *size, buffer@),
    {
        proof {
            lemma_bounded_mul(origin.y as int, self.geometry.width as int, PANEL_HEIGHT as int,
                PANEL_WIDTH as int);
        }
        let x0 = origin.x as u16;
        let y0 = origin.y as u16;
        let x1 = (origin.x + size.width - 1) as u16;
        let y1 = (origin.y + size.height - 1) as u16;

        let mut ops = self.set_address_window(x0, y0, x1, y1);

        let stride = self.geometry.width;
        let start_idx = origin.y * stride + origin.x;
        let mut pixel_data: Vec<u8> = Vec::new();
        let mut row: usize = 0;
        let mut row_start = start_idx;
        while row < size.height
            invariant
                row <= size.height,
                row_start == start_idx + row * stride,
                row_start <= start_idx + size.height * stride,
                pixel_data@ == region_bytes(buffer@, start_idx as int, size.width as int,
                    stride as int, row as int),
            decreases size.height - row,
        {
            proof {
                lemma_bounded_mul(row as int, stride as int, PANEL_HEIGHT as int,
                    PANEL_WIDTH as int);
                lemma_bounded_mul(size.height as int, stride as int, PANEL_HEIGHT as int,
                    PANEL_WIDTH as int);
            }
            let row_end = row_start + size.width;
            if row_end <= buffer.len() {
                let ghost rows_so_far = pixel_data@;
                let mut i: usize = 0;
                while i < size.width
                    invariant
                        i <= size.width,
                        row_start + size.width <= buffer@.len(),
                        pixel_data@ == rows_so_far + row_bytes(buffer@, row_start as int,
                            i as int),
                    decreases size.width - i,
                {
                    let px = buffer[row_start + i];
                    pixel_data.push(be16_hi(px));
                    pixel_data.push(be16_lo(px));
                    assert(pixel_data@ =~= rows_so_far + row_bytes(buffer@, row_start as int,
                        i + 1));
                    i = i + 1;
                }
                assert(pixel_data@ =~= region_bytes(buffer@, start_idx as int,
                    size.width as int, stride as int, row + 1));
            } else {
                assert(pixel_data@ =~= region_bytes(buffer@, start_idx as int,
                    size.width as int, stride as int, row + 1));
            }
            proof {
                assert((row + 1) * stride == row * stride + stride) by (nonlinear_arith);
                assert((row as int + 1) * (stride as int) <= (size.height as int) * (
                stride as int)) by (nonlinear_arith)
                    requires
                        row as int + 1 <= size.height as int,
                        stride as int >= 0,
                ;
            }
            row = row + 1;
            row_start = row_start + stride;
        }

        if pixel_data.len() > 0 {
            ops.push(WireOp::Data(pixel_data));
            assert(wire_of(ops@) =~= spec_update_region_wire(self.geometry, *origin, *size,
                buffer@));
        } else {
            assert(wire_of(ops@) =~= spec_update_region_wire(self.geometry, *origin, *size,
                buffer@));
        }
        ops
    }

    /// Fill the whole panel with one color: the address window set to the
    /// full screen, then `width * height` repetitions of the color's
    /// big-endian byte pair as a single transfer.
    #[verifier::loop_isolation(false)]
    pub fn fill_screen(&self, color: u16) -> (ops: Vec<WireOp>)
        requires
            self.geometry.wf(),
        ensures
            wire_of(ops@) == spec_fill_screen_wire(self.geometry, color),
    {
        let x1 = (self.geometry.width - 1) as u16;
        let y1 = (self.geometry.height - 1) as u16;
        let mut ops = self.set_address_window(0, 0, x1, y1);

        let pixel_count = self.geometry.pixel_count();
        let mut pixel_data: Vec<u8> = Vec::new();
        let mut i: usize = 0;
        while i < pixel_count
            invariant
                i <= pixel_count,
                pixel_data@ == fill_bytes(color, i as int),
            decreases pixel_count - i,
        {
            pixel_data.push(be16_hi(color));
            pixel_data.push(be16_lo(color));
            assert(pixel_data@ =~= fill_bytes(color, i + 1));
            i = i + 1;
        }
        ops.push(WireOp::Data(pixel_data));
        assert(wire_of(ops@) =~= spec_fill_screen_wire(self.geometry, color));
        ops
    }
}

} // verus!
