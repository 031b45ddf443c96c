use vstd::prelude::*;

use crate::color::Color;
use crate::display::{Display, Rotation, State};
use crate::error::Ssd1680Error;
use crate::interface::DisplayInterface;

verus! {

/// The visual size (width, height) of a display whose physical size is
/// `width` x `height`, seen with rotation `r`.
pub open spec fn visual_size(width: int, height: int, r: Rotation) -> (int, int) {
    match r {
        Rotation::Rotate0 | Rotation::Rotate180 => (width, height),
        Rotation::Rotate90 | Rotation::Rotate270 => (height, width),
    }
}

/// Whether the visual pixel (x, y) lies on the display.
pub open spec fn in_bounds(x: int, y: int, width: int, height: int, r: Rotation) -> bool {
    0 <= x < visual_size(width, height, r).0 && 0 <= y < visual_size(width, height, r).1
}

/// The physical (column, row) in controller RAM of the visual pixel (x, y).
pub open spec fn physical_pixel(x: int, y: int, width: int, height: int, r: Rotation) -> (
    int,
    int,
) {
    match r {
        Rotation::Rotate0 => (x, y),
        Rotation::Rotate90 => (width - 1 - y, x),
        Rotation::Rotate180 => (width - 1 - x, height - 1 - y),
        Rotation::Rotate270 => (y, height - 1 - x),
    }
}

/// The bit of a byte that holds the pixel `k` places from its left edge.
pub open spec fn msb_first(k: int) -> u8 {
    0x80u8 >> (k as u8)
}

/// The bit `k` places from the least significant end.
pub open spec fn lsb_first(k: int) -> u8 {
    0x01u8 << (k as u8)
}

/// The (byte index, bit mask) that holds the visual pixel (x, y) of a display
/// whose physical, unrotated size is `width` x `height`.
pub open spec fn pixel_address(x: int, y: int, width: int, height: int, r: Rotation) -> (
    int,
    u8,
) {
    match r {
        Rotation::Rotate0 => (x / 8 + (width / 8) * y, msb_first(x % 8)),
        Rotation::Rotate90 => ((width - 1 - y) / 8 + (width / 8) * x, lsb_first(y % 8)),
        Rotation::Rotate180 => (
            (width / 8) * height - 1 - (x / 8 + (width / 8) * y),
            lsb_first(x % 8),
        ),
        Rotation::Rotate270 => (y / 8 + (height - 1 - x) * (width / 8), msb_first(y % 8)),
    }
}

/// The address of the physical pixel (col, row) in row-major, byte-packed RAM.
pub open spec fn ram_address(col: int, row: int, width: int) -> (int, u8) {
    (col / 8 + (width / 8) * row, msb_first(col % 8))
}

proof fn lemma_reflected_bit(v: int, width: int)
    requires
        width % 8 == 0,
        0 <= v < width,
    ensures
        (width - 1 - v) / 8 == width / 8 - 1 - v / 8,
        (width - 1 - v) % 8 == 7 - v % 8,
        msb_first((width - 1 - v) % 8) == lsb_first(v % 8),
{
    let k = width / 8;
    vstd::arithmetic::div_mod::lemma_fundamental_div_mod_converse(
        width - 1 - v,
        8,
        k - 1 - v / 8,
        7 - v % 8,
    );
    let s = (v % 8) as u8;
    assert((0x80u8 >> ((7 - s) as u8)) == (0x01u8 << s)) by (bit_vector)
        requires
            s < 8,
    ;
}

/// Every rotation is the row-major addressing of the physical pixel.
proof fn lemma_address_is_physical(x: int, y: int, width: int, height: int, r: Rotation)
    requires
        width % 8 == 0,
        height >= 0,
        in_bounds(x, y, width, height, r),
    ensures
        pixel_address(x, y, width, height, r) == ram_address(
            physical_pixel(x, y, width, height, r).0,
            physical_pixel(x, y, width, height, r).1,
            width,
        ),
{
    let k = width / 8;
    match r {
        Rotation::Rotate0 => {},
        Rotation::Rotate90 => {
            lemma_reflected_bit(y, width);
        },
        Rotation::Rotate180 => {
            lemma_reflected_bit(x, width);
            assert(k * (height - 1 - y) == k * height - k - k * y) by (nonlinear_arith);
        },
        Rotation::Rotate270 => {
            assert((height - 1 - x) * k == k * (height - 1 - x)) by (nonlinear_arith);
        },
    }
}

proof fn lemma_ram_address_in_frame(col: int, row: int, width: int, height: int)
    requires
        width % 8 == 0,
        0 <= col < width,
        0 <= row < height,
    ensures
        0 <= ram_address(col, row, width).0 < (width / 8) * height,
{
    let k = width / 8;
    assert(k * row <= k * (height - 1)) by (nonlinear_arith)
        requires
            0 <= row <= height - 1,
            k >= 0,
    ;
    assert(k * (height - 1) == k * height - k) by (nonlinear_arith);
    assert(0 <= k * row) by (nonlinear_arith)
        requires
            0 <= row,
            k >= 0,
    ;
}

proof fn lemma_ram_address_injective(c1: int, r1: int, c2: int, r2: int, width: int)
    requires
        width % 8 == 0,
        0 <= c1 < width,
        0 <= c2 < width,
        0 <= r1,
        0 <= r2,
        ram_address(c1, r1, width) == ram_address(c2, r2, width),
    ensures
        c1 == c2,
        r1 == r2,
{
    let k = width / 8;
    let (a1, a2) = ((c1 % 8) as u8, (c2 % 8) as u8);
    assert(a1 == a2) by (bit_vector)
        requires
            a1 < 8,
            a2 < 8,
            (0x80u8 >> a1) == (0x80u8 >> a2),
    ;
    let b = ram_address(c1, r1, width).0;
    vstd::arithmetic::div_mod::lemma_fundamental_div_mod_converse(b, k, r1, c1 / 8);
    vstd::arithmetic::div_mod::lemma_fundamental_div_mod_converse(b, k, r2, c2 / 8);
}

/// The visual pixel held by bit `k` (counted from the most significant end)
/// of byte `b`, for a display of physical size `width` x `height`.
pub open spec fn pixel_at(b: int, k: int, width: int, height: int, r: Rotation) -> (int, int) {
    let col = 8 * (b % (width / 8)) + k;
    let row = b / (width / 8);
    match r {
        Rotation::Rotate0 => (col, row),
        Rotation::Rotate90 => (row, width - 1 - col),
        Rotation::Rotate180 => (width - 1 - col, height - 1 - row),
        Rotation::Rotate270 => (height - 1 - row, col),
    }
}

/// Rotation addressing is a bijection between the visual pixels and the bits
/// of the framebuffer, for each of the four rotations: every in-bounds pixel
/// lands on a bit of the buffer, no two distinct in-bounds pixels share a
/// (byte, bit) pair, and every bit of the buffer holds some in-bounds pixel.
pub proof fn lemma_rotation_is_bijection(
    x1: int,
    y1: int,
    x2: int,
    y2: int,
    b: int,
    k: int,
    width: int,
    height: int,
    r: Rotation,
)
    requires
        width % 8 == 0,
        height >= 0,
    ensures
        in_bounds(x1, y1, width, height, r) ==> 0 <= pixel_address(x1, y1, width, height, r).0 < (
        width / 8) * height,
        in_bounds(x1, y1, width, height, r) && in_bounds(x2, y2, width, height, r) && (x1, y1)
            != (x2, y2) ==> pixel_address(x1, y1, width, height, r) != pixel_address(
            x2,
            y2,
            width,
            height,
            r,
        ),
        0 <= b < (width / 8) * height && 0 <= k < 8 ==> {
            let (x, y) = pixel_at(b, k, width, height, r);
            &&& in_bounds(x, y, width, height, r)
            &&& pixel_address(x, y, width, height, r) == (b, msb_first(k))
        },
{
    if in_bounds(x1, y1, width, height, r) {
        lemma_address_is_physical(x1, y1, width, height, r);
        let (c1, r1) = physical_pixel(x1, y1, width, height, r);
        lemma_ram_address_in_frame(c1, r1, width, height);
        if in_bounds(x2, y2, width, height, r) {
            lemma_address_is_physical(x2, y2, width, height, r);
            let (c2, r2) = physical_pixel(x2, y2, width, height, r);
            if pixel_address(x1, y1, width, height, r) == pixel_address(x2, y2, width, height, r) {
                lemma_ram_address_injective(c1, r1, c2, r2, width);
            }
        }
    }
    if 0 <= b < (width / 8) * height && 0 <= k < 8 {
        let w8 = width / 8;
        assert(w8 > 0) by (nonlinear_arith)
            requires
                0 <= b < w8 * height,
                height >= 0,
        ;
        let col = 8 * (b % w8) + k;
        let row = b / w8;
        vstd::arithmetic::div_mod::lemma_fundamental_div_mod(b, w8);
        assert(0 <= row < height) by (nonlinear_arith)
            requires
                b == w8 * row + b % w8,
                0 <= b % w8 < w8,
                0 <= b < w8 * height,
                w8 > 0,
        ;
        vstd::arithmetic::div_mod::lemma_fundamental_div_mod_converse(col, 8, b % w8, k);
        let (x, y) = pixel_at(b, k, width, height, r);
        assert(physical_pixel(x, y, width, height, r) == (col, row));
        lemma_address_is_physical(x, y, width, height, r);
    }
}

/// The (byte index, bit mask) in the framebuffer of the visual pixel (x, y),
/// for a display of physical size `width` x `height` seen with rotation `rot`.
pub fn rotation(x: u32, y: u32, width: u32, height: u32, rot: Rotation) -> (r: (u32, u8))
    requires
        width % 8 == 0,
        (width / 8) * height <= u32::MAX,
        in_bounds(x as int, y as int, width as int, height as int, rot),
    ensures
        r.0 == pixel_address(x as int, y as int, width as int, height as int, rot).0,
        r.1 == pixel_address(x as int, y as int, width as int, height as int, rot).1,
        r.0 < (width / 8) * height,
{
    proof {
        lemma_rotation_is_bijection(
            x as int,
            y as int,
            x as int,
            y as int,
            0,
            0,
            width as int,
            height as int,
            rot,
        );
        let k = width as int / 8;
        let (xi, yi, hi) = (x as int, y as int, height as int);
        if rot == Rotation::Rotate0 || rot == Rotation::Rotate180 {
            assert(k * yi <= k * hi) by (nonlinear_arith)
                requires
                    0 <= k,
                    0 <= yi < hi,
            ;
        } else {
            assert(k * xi <= k * hi && (hi - 1 - xi) * k <= k * hi) by (nonlinear_arith)
                requires
                    0 <= k,
                    0 <= xi < hi,
            ;
        }
    }
    match rot {
        Rotation::Rotate0 => (x / 8 + (width / 8) * y, 0x80u8 >> ((x % 8) as u8)),
        Rotation::Rotate90 => ((width - 1 - y) / 8 + (width / 8) * x, 0x01u8 << ((y % 8) as u8)),
        Rotation::Rotate180 => (
            ((width / 8) * height - 1) - (x / 8 + (width / 8) * y),
            0x01u8 << ((x % 8) as u8),
        ),
        Rotation::Rotate270 => (
            y / 8 + (height - 1 - x) * (width / 8),
            0x80u8 >> ((y % 8) as u8),
        ),
    }
}

/// The w x h window at (x, y) of a frame with `row_bytes` bytes per row: for
/// each of its rows in turn, the bytes covering columns [x, x + w).
pub open spec fn sub_image(frame: Seq<u8>, row_bytes: int, x: int, y: int, w: int, h: int) -> Seq<
    u8,
> {
    Seq::new(
        ((w / 8) * h) as nat,
        |i: int| frame[(y + i / (w / 8)) * row_bytes + x / 8 + i % (w / 8)],
    )
}

/// Copy the window [x, x + w) x [y, y + h) of `black_buffer`, a frame of
/// `display_width_as_bytes` bytes per row, to the front of `work_buffer`, row
/// by row; returns the number of bytes written, (w / 8) * h.
pub fn make_sub_image(
    black_buffer: &[u8],
    work_buffer: &mut [u8],
    display_width_as_bytes: u8,
    start_x_px: u16,
    start_y_px: u16,
    width_px: u16,
    height_px: u16,
) -> (n: usize)
    requires
        start_x_px / 8 + width_px / 8 <= display_width_as_bytes,
        (start_y_px + height_px) * display_width_as_bytes <= black_buffer@.len(),
        (width_px / 8) * height_px <= old(work_buffer)@.len(),
    ensures
        n == (width_px / 8) * height_px,
        final(work_buffer)@.len() == old(work_buffer)@.len(),
        final(work_buffer)@.take(n as int) == sub_image(
            black_buffer@,
            display_width_as_bytes as int,
            start_x_px as int,
            start_y_px as int,
            width_px as int,
            height_px as int,
        ),
        final(work_buffer)@.skip(n as int) == old(work_buffer)@.skip(n as int),
{
    let ghost image = sub_image(
        black_buffer@,
        display_width_as_bytes as int,
        start_x_px as int,
        start_y_px as int,
        width_px as int,
        height_px as int,
    );
    let ghost initial = work_buffer@;
    let row_bytes = display_width_as_bytes as usize;
    let start_x_byte = (start_x_px / 8) as usize;
    let width_bytes = (width_px / 8) as usize;
    let height = height_px as usize;
    let frame_len = black_buffer.len();
    proof {
        assert(start_y_px * row_bytes <= (start_y_px + height_px) * row_bytes) by (nonlinear_arith);
    }
    let mut row_start: usize = start_y_px as usize * row_bytes;
    let mut at: usize = 0;
    let mut row: usize = 0;
    while row < height
        invariant
            row <= height,
            frame_len == black_buffer@.len(),
            height == height_px,
            width_bytes == width_px / 8,
            start_x_byte == start_x_px / 8,
            row_bytes == display_width_as_bytes,
            start_x_byte + width_bytes <= row_bytes,
            (start_y_px + height) * row_bytes <= black_buffer@.len(),
            width_bytes * height <= initial.len(),
            image == sub_image(
                black_buffer@,
                row_bytes as int,
                start_x_px as int,
                start_y_px as int,
                width_px as int,
                height_px as int,
            ),
            at == row * width_bytes,
            row_start == (start_y_px + row) * row_bytes,
            work_buffer@.len() == initial.len(),
            forall|i: int| 0 <= i < at ==> work_buffer@[i] == image[i],
            forall|i: int| at <= i < initial.len() ==> work_buffer@[i] == initial[i],
        decreases height - row,
    {
        proof {
            assert((start_y_px + row + 1) * row_bytes <= (start_y_px + height) * row_bytes)
                by (nonlinear_arith)
                requires
                    row < height,
            ;
            assert((start_y_px + row + 1) * row_bytes == row_start + row_bytes) by (nonlinear_arith)
                requires
                    row_start == (start_y_px + row) * row_bytes,
            ;
            assert((row + 1) * width_bytes <= width_bytes * height) by (nonlinear_arith)
                requires
                    row < height,
            ;
        }
        let mut col: usize = 0;
        while col < width_bytes
            invariant
                col <= width_bytes,
                row < height,
                frame_len == black_buffer@.len(),
                at == row * width_bytes + col,
                (row + 1) * width_bytes <= initial.len(),
                row_start + start_x_byte + width_bytes <= black_buffer@.len(),
                row_start == (start_y_px + row) * row_bytes,
                start_x_byte == start_x_px / 8,
                width_bytes == width_px / 8,
                height == height_px,
                image == sub_image(
                    black_buffer@,
                    row_bytes as int,
                    start_x_px as int,
                    start_y_px as int,
                    width_px as int,
                    height_px as int,
                ),
                work_buffer@.len() == initial.len(),
                forall|i: int| 0 <= i < at ==> work_buffer@[i] == image[i],
                forall|i: int| at <= i < initial.len() ==> work_buffer@[i] == initial[i],
            decreases width_bytes - col,
        {
            proof {
                assert(row * width_bytes + col < (row + 1) * width_bytes) by (nonlinear_arith)
                    requires
                        col < width_bytes,
                ;
                assert(at < width_bytes * height) by (nonlinear_arith)
                    requires
                        at < (row + 1) * width_bytes,
                        row + 1 <= height,
                ;
                vstd::arithmetic::div_mod::lemma_fundamental_div_mod_converse(
                    at as int,
                    width_bytes as int,
                    row as int,
                    col as int,
                );
            }
            work_buffer[at] = black_buffer[row_start + start_x_byte + col];
            at = at + 1;
            col = col + 1;
        }
        proof {
            assert(at == (row + 1) * width_bytes) by (nonlinear_arith)
                requires
                    at == row * width_bytes + width_bytes,
            ;
        }
        row_start = row_start + row_bytes;
        row = row + 1;
    }
    assert(at == (width_px / 8) * height_px) by (nonlinear_arith)
        requires
            at == row * width_bytes,
            row == height,
            height == height_px,
            width_bytes == width_px / 8,
    ;
    assert(work_buffer@.take(at as int) =~= image);
    assert(work_buffer@.skip(at as int) =~= initial.skip(at as int));
    at
}

/// The byte `byte` after painting the pixel at bit `mask` with `color`: a set
/// bit is white, a cleared bit black.
pub open spec fn painted(byte: u8, mask: u8, color: Color) -> u8 {
    match color {
        Color::Black => byte & !mask,
        Color::White => byte | mask,
    }
}

/// The byte that fills a frame cleared to `color`.
pub open spec fn fill_byte(color: Color) -> u8 {
    match color {
        Color::White => 0xFF,
        Color::Black => 0x00,
    }
}

/// A display that holds buffers for drawing into and updating the display from.
pub struct GraphicDisplay<I: DisplayInterface> {
    display: Display<I>,
    black_buffer: Vec<u8>,
    work_buffer: Vec<u8>,
}

impl<I: DisplayInterface> GraphicDisplay<I> {
    pub closed spec fn spec_display(&self) -> Display<I> {
        self.display
    }

    /// The frame drawn into.
    pub closed spec fn spec_black(&self) -> Seq<u8> {
        self.black_buffer@
    }

    /// The scratch buffer a partial update builds its image in.
    pub closed spec fn spec_work(&self) -> Seq<u8> {
        self.work_buffer@
    }

    /// The frame buffer holds exactly one frame; the scratch buffer at least one.
    pub open spec fn wf(&self) -> bool {
        &&& self.spec_black().len() == self.spec_display().spec_dimensions().buffer_len()
        &&& self.spec_work().len() >= self.spec_display().spec_dimensions().buffer_len()
    }

    /// Physical width, in pixels.
    pub open spec fn spec_width(&self) -> int {
        self.spec_display().spec_dimensions().cols as int
    }

    /// Physical height, in pixels.
    pub open spec fn spec_height(&self) -> int {
        self.spec_display().spec_dimensions().rows as int
    }

    pub open spec fn spec_rotation(&self) -> Rotation {
        self.spec_display().spec_config().spec_rotation()
    }

    /// Whether the visual pixel (x, y) lies on the display.
    pub open spec fn contains(&self, x: int, y: int) -> bool {
        in_bounds(x, y, self.spec_width(), self.spec_height(), self.spec_rotation())
    }

    /// The frame after painting the visual pixel (x, y) with `color`.
    pub open spec fn with_pixel(&self, x: int, y: int, color: Color) -> Seq<u8> {
        let (index, mask) = pixel_address(
            x,
            y,
            self.spec_width(),
            self.spec_height(),
            self.spec_rotation(),
        );
        self.spec_black().update(index, painted(self.spec_black()[index], mask, color))
    }

    /// Promote a `Display` to a `GraphicDisplay`, with a frame to draw into
    /// and a scratch buffer of at least that size for partial updates.
    pub fn new(display: Display<I>, black_buffer: Vec<u8>, work_buffer: Vec<u8>) -> (g: Self)
        requires
            black_buffer@.len() == display.spec_dimensions().buffer_len(),
            work_buffer@.len() >= display.spec_dimensions().buffer_len(),
        ensures
            g.wf(),
            g.spec_display() == display,
            g.spec_black() == black_buffer@,
            g.spec_work() == work_buffer@,
    {
        GraphicDisplay { display, black_buffer, work_buffer }
    }

    /// Promote a `Display` to a `GraphicDisplay` when the buffers fit: a frame
    /// of exactly `buffer_len()` bytes and a scratch buffer of at least as
    /// many; `Configuration` otherwise.
    pub fn try_new(display: Display<I>, black_buffer: Vec<u8>, work_buffer: Vec<u8>) -> (r: Result<
        Self,
        Ssd1680Error,
    >)
        ensures
            r is Ok <==> black_buffer@.len() == display.spec_dimensions().buffer_len()
                && work_buffer@.len() >= display.spec_dimensions().buffer_len(),
            r is Ok ==> {
                &&& r->Ok_0.wf()
                &&& r->Ok_0.spec_display() == display
                &&& r->Ok_0.spec_black() == black_buffer@
                &&& r->Ok_0.spec_work() == work_buffer@
            },
            r is Err ==> r->Err_0 == Ssd1680Error::Configuration,
    {
        let len = display.config().dimensions().buffer_size();
        if black_buffer.len() == len && work_buffer.len() >= len {
            Ok(GraphicDisplay::new(display, black_buffer, work_buffer))
        } else {
            Err(Ssd1680Error::Configuration)
        }
    }

    /// Fill the frame with one color: every byte 0xFF for white, 0x00 for black.
    pub fn clear(&mut self, color: Color)
        ensures
            final(self).spec_display() == old(self).spec_display(),
            final(self).spec_work() == old(self).spec_work(),
            final(self).spec_black().len() == old(self).spec_black().len(),
            forall|i: int|
                0 <= i < final(self).spec_black().len() ==> final(self).spec_black()[i]
                    == fill_byte(color),
    {
        let black: u8 = match color {
            Color::White => 0xFF,
            Color::Black => 0x00,
        };
        let n = self.black_buffer.len();
        let mut i: usize = 0;
        while i < n
            invariant
                n == self.black_buffer@.len(),
                n == old(self).black_buffer@.len(),
                i <= n,
                black == fill_byte(color),
                self.display == old(self).display,
                self.work_buffer == old(self).work_buffer,
                forall|j: int| 0 <= j < i ==> self.black_buffer@[j] == black,
            decreases n - i,
        {
            self.black_buffer[i] = black;
            i = i + 1;
        }
    }

    /// Paint the visual pixel (x, y) with `color`.
    pub fn set_pixel(&mut self, x: u32, y: u32, color: Color)
        requires
            old(self).wf(),
            old(self).contains(x as int, y as int),
        ensures
            final(self).spec_display() == old(self).spec_display(),
            final(self).spec_work() == old(self).spec_work(),
            final(self).spec_black() == old(self).with_pixel(x as int, y as int, color),
    {
        let d = self.display.config().dimensions();
        proof {
            crate::display::lemma_buffer_len(d);
            assert((d.cols as int / 8) * (d.rows as int) <= 22 * 296) by (nonlinear_arith)
                requires
                    0 <= d.cols as int / 8 <= 22,
                    0 <= d.rows <= 296,
            ;
        }
        let (index, bit) = rotation(x, y, d.cols as u32, d.rows as u32, self.display.rotation());
        let index = index as usize;
        match color {
            Color::Black => {
                let v = self.black_buffer[index] & !bit;
                self.black_buffer[index] = v;
            },
            Color::White => {
                let v = self.black_buffer[index] | bit;
                self.black_buffer[index] = v;
            },
        }
    }

    /// Paint the visual pixel (x, y) with `color` if it lies on the display;
    /// leave the frame as it is otherwise.
    pub fn draw_pixel(&mut self, x: i32, y: i32, color: Color)
        requires
            old(self).wf(),
        ensures
            final(self).spec_display() == old(self).spec_display(),
            final(self).spec_work() == old(self).spec_work(),
            old(self).contains(x as int, y as int) ==> final(self).spec_black() == old(
                self,
            ).with_pixel(x as int, y as int, color),
            !old(self).contains(x as int, y as int) ==> final(self).spec_black() == old(
                self,
            ).spec_black(),
    {
        let (width, height) = self.size();
        if x >= 0 && y >= 0 && (x as u32) < width && (y as u32) < height {
            self.set_pixel(x as u32, y as u32, color);
        }
    }

    /// The visual (width, height): the physical size, swapped for a
    /// rotation of 90 or 270 degrees.
    pub fn size(&self) -> (r: (u32, u32))
        ensures
            (r.0 as int, r.1 as int) == visual_size(
                self.spec_width(),
                self.spec_height(),
                self.spec_rotation(),
            ),
    {
        let cols = self.display.cols() as u32;
        let rows = self.display.rows() as u32;
        match self.display.rotation() {
            Rotation::Rotate0 | Rotation::Rotate180 => (cols, rows),
            Rotation::Rotate90 | Rotation::Rotate270 => (rows, cols),
        }
    }

    /// Update the display by writing the frame to the controller and running
    /// a full refresh; see [`Display::update`].
    pub fn update(&mut self) -> (r: Result<(), Ssd1680Error>)
        requires
            old(self).wf(),
        ensures
            final(self).wf(),
            final(self).spec_black() == old(self).spec_black(),
            final(self).spec_work() == old(self).spec_work(),
            final(self).spec_display().spec_config() == old(self).spec_display().spec_config(),
            !crate::display::admits(old(self).spec_display().spec_state(), crate::display::Operation::Update)
                ==> old(self).spec_display().refused(
                final(self).spec_display(),
                r,
                Ssd1680Error::NotReady,
            ),
            crate::display::admits(old(self).spec_display().spec_state(), crate::display::Operation::Update) ==> {
                &&& crate::interface::follows(
                    old(self).spec_display().calls(),
                    crate::display::update_calls(old(self).spec_display().spec_dimensions(), old(self).spec_black()),
                    final(self).spec_display().calls(),
                    r,
                )
                &&& final(self).spec_display().spec_state() == Display::<I>::settled(r)
            },
    {
        self.display.update(self.black_buffer.as_slice())
    }

    /// Refresh only the window [x, x + w) x [y, y + h): its bytes are copied
    /// from the frame into the scratch buffer and sent with
    /// [`Display::partial_update`]. A window that is empty, not byte-aligned
    /// or outside the display is refused with `Configuration`.
    pub fn partial_update(
        &mut self,
        start_x_px: u16,
        start_y_px: u16,
        width_px: u16,
        height_px: u16,
    ) -> (r: Result<(), Ssd1680Error>)
        requires
            old(self).wf(),
        ensures
            final(self).wf(),
            final(self).spec_black() == old(self).spec_black(),
            final(self).spec_display().spec_config() == old(self).spec_display().spec_config(),
            !crate::display::admits(old(self).spec_display().spec_state(), crate::display::Operation::PartialUpdate)
                ==> old(self).spec_display().refused(
                final(self).spec_display(),
                r,
                Ssd1680Error::NotReady,
            ) && final(self).spec_work() == old(self).spec_work(),
            crate::display::admits(old(self).spec_display().spec_state(), crate::display::Operation::PartialUpdate)
                && !crate::display::window_fits(
                old(self).spec_display().spec_dimensions(),
                start_x_px,
                start_y_px,
                width_px,
                height_px,
            ) ==> old(self).spec_display().refused(
                final(self).spec_display(),
                r,
                Ssd1680Error::Configuration,
            ) && final(self).spec_work() == old(self).spec_work(),
            crate::display::admits(old(self).spec_display().spec_state(), crate::display::Operation::PartialUpdate)
                && crate::display::window_fits(
                old(self).spec_display().spec_dimensions(),
                start_x_px,
                start_y_px,
                width_px,
                height_px,
            ) ==> {
                &&& final(self).spec_work().take(
                    crate::display::window_len(width_px, height_px) as int,
                ) == old(self).sub_image_of(start_x_px, start_y_px, width_px, height_px)
                &&& crate::interface::follows(
                    old(self).spec_display().calls(),
                    crate::display::partial_update_calls(
                        old(self).sub_image_of(start_x_px, start_y_px, width_px, height_px),
                        start_x_px,
                        start_y_px,
                        width_px,
                        height_px,
                    ),
                    final(self).spec_display().calls(),
                    r,
                )
                &&& final(self).spec_display().spec_state() == Display::<I>::settled(r)
            },
    {
        if self.display.state() != State::Ready {
            return Err(Ssd1680Error::NotReady);
        }
        let d = self.display.config().dimensions();
        if !(start_x_px % 8 == 0 && width_px % 8 == 0 && width_px > 0 && height_px > 0
            && start_x_px as u32 + width_px as u32 <= d.cols as u32 && start_y_px as u32
            + height_px as u32 <= d.rows as u32) {
            return Err(Ssd1680Error::Configuration);
        }
        let row_bytes = d.cols / 8;
        proof {
            crate::display::lemma_buffer_len(d);
            let (w8, rb) = ((width_px / 8) as int, row_bytes as int);
            assert((start_y_px + height_px) * rb <= d.rows * rb) by (nonlinear_arith)
                requires
                    start_y_px + height_px <= d.rows,
                    rb >= 0,
            ;
            assert(w8 * height_px <= d.rows * rb) by (nonlinear_arith)
                requires
                    0 <= w8 <= rb,
                    height_px <= d.rows,
            ;
        }
        let n = make_sub_image(
            self.black_buffer.as_slice(),
            self.work_buffer.as_mut_slice(),
            row_bytes,
            start_x_px,
            start_y_px,
            width_px,
            height_px,
        );
        let image = vstd::slice::slice_subrange(self.work_buffer.as_slice(), 0, n);
        self.display.partial_update(image, start_x_px, start_y_px, width_px, height_px)
    }

    /// The bytes of the window [x, x + w) x [y, y + h) of the frame.
    pub open spec fn sub_image_of(&self, x: u16, y: u16, w: u16, h: u16) -> Seq<u8> {
        sub_image(
            self.spec_black(),
            self.spec_display().spec_dimensions().row_bytes() as int,
            x as int,
            y as int,
            w as int,
            h as int,
        )
    }

    /// Reset the controller; see [`Display::reset`].
    pub fn reset(&mut self) -> (r: Result<(), Ssd1680Error>)
        requires
            old(self).wf(),
        ensures
            final(self).wf(),
            final(self).spec_black() == old(self).spec_black(),
            final(self).spec_work() == old(self).spec_work(),
            final(self).spec_display().spec_config() == old(self).spec_display().spec_config(),
            old(self).spec_display().spec_dimensions().rows == 0
                || old(self).spec_display().spec_dimensions().cols == 0
                ==> old(self).spec_display().refused(
                final(self).spec_display(),
                r,
                Ssd1680Error::Configuration,
            ),
            old(self).spec_display().spec_dimensions().rows > 0
                && old(self).spec_display().spec_dimensions().cols > 0 ==> {
                &&& crate::interface::follows(
                    old(self).spec_display().calls(),
                    crate::display::reset_calls(old(self).spec_display().spec_config()),
                    final(self).spec_display().calls(),
                    r,
                )
                &&& final(self).spec_display().spec_state() == Display::<I>::settled(r)
            },
    {
        self.display.reset()
    }

    /// Put the controller into deep sleep; see [`Display::deep_sleep`].
    pub fn deep_sleep(&mut self) -> (r: Result<(), Ssd1680Error>)
        requires
            old(self).wf(),
        ensures
            final(self).wf(),
            final(self).spec_black() == old(self).spec_black(),
            final(self).spec_work() == old(self).spec_work(),
            final(self).spec_display().spec_config() == old(self).spec_display().spec_config(),
            !crate::display::admits(old(self).spec_display().spec_state(), crate::display::Operation::DeepSleep)
                ==> old(self).spec_display().refused(
                final(self).spec_display(),
                r,
                Ssd1680Error::NotReady,
            ),
            crate::display::admits(old(self).spec_display().spec_state(), crate::display::Operation::DeepSleep) ==> {
                &&& crate::interface::follows(
                    old(self).spec_display().calls(),
                    crate::display::deep_sleep_calls(),
                    final(self).spec_display().calls(),
                    r,
                )
                &&& final(self).spec_display().spec_state() == (if r is Ok {
                    State::Sleeping
                } else {
                    State::Uninitialized
                })
            },
    {
        self.display.deep_sleep()
    }

    /// The display the frame is drawn for.
    pub fn display(&self) -> (d: &Display<I>)
        ensures
            *d == self.spec_display(),
    {
        &self.display
    }

    /// The frame drawn into.
    pub fn black_buffer(&self) -> (b: &[u8])
        ensures
            b@ == self.spec_black(),
    {
        self.black_buffer.as_slice()
    }

    /// The scratch buffer of partial updates.
    pub fn work_buffer(&self) -> (b: &[u8])
        ensures
            b@ == self.spec_work(),
    {
        self.work_buffer.as_slice()
    }

    /// Returns the number of rows the display has.
    pub fn rows(&self) -> (r: u16)
        ensures
            r == self.spec_height(),
    {
        self.display.rows()
    }

    /// Returns the number of columns the display has.
    pub fn cols(&self) -> (c: u8)
        ensures
            c == self.spec_width(),
    {
        self.display.cols()
    }

    /// Returns the rotation the display was configured with.
    pub fn rotation(&self) -> (r: Rotation)
        ensures
            r == self.spec_rotation(),
    {
        self.display.rotation()
    }
}

} // verus!
