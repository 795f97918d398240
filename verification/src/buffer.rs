//! Drawing buffer for the on-screen menus.
//!
//! One owned pixel arena plus lightweight region descriptors: a region names
//! a rectangle of the arena by offset and size, and reads or writes through
//! a region translate coordinates against the arena directly — no chains of
//! shared mutable buffer references. The pixel format is binary, one bit
//! per pixel when serialized.

use vstd::prelude::*;
use vstd::pervasive::VecAdditionalExecFns;

verus! {

/// Width and height in pixels.
#[derive(Clone, Copy, Debug, PartialEq, Eq, Structural)]
pub struct Size {
    pub width: u32,
    pub height: u32,
}

/// A point; coordinates may be negative when naming positions outside a
/// buffer.
#[derive(Clone, Copy, Debug, PartialEq, Eq, Structural)]
pub struct Point {
    pub x: i32,
    pub y: i32,
}

/// A rectangle: its top-left corner and its size.
#[derive(Clone, Copy, Debug, PartialEq, Eq, Structural)]
pub struct Rect {
    pub top_left: Point,
    pub size: Size,
}

/// A binary pixel color.
#[derive(Clone, Copy, Debug, PartialEq, Eq, Structural)]
pub enum BinaryColor {
    Off,
    On,
}

impl BinaryColor {
    /// The opposite color.
    pub open spec fn spec_invert(self) -> BinaryColor {
        match self {
            BinaryColor::Off => BinaryColor::On,
            BinaryColor::On => BinaryColor::Off,
        }
    }

    /// The opposite color.
    pub fn invert(self) -> (r: BinaryColor)
        ensures
            r == self.spec_invert(),
    {
        match self {
            BinaryColor::Off => BinaryColor::On,
            BinaryColor::On => BinaryColor::Off,
        }
    }
}

/// One pixel to draw: a point and its color.
#[derive(Clone, Copy, Debug, PartialEq, Eq, Structural)]
pub struct Pixel(pub Point, pub BinaryColor);

/// The arena bits after drawing a batch of pixels in order: in-range
/// points update their bit, the rest are ignored.
pub open spec fn spec_draw(raw: Seq<bool>, w: int, h: int, pixels: Seq<Pixel>) -> Seq<bool>
    decreases pixels.len(),
{
    if pixels.len() == 0 {
        raw
    } else {
        let prev = spec_draw(raw, w, h, pixels.drop_last());
        let Pixel(point, color) = pixels.last();
        if 0 <= point.x < w && 0 <= point.y < h {
            prev.update(point.y * w + point.x, color is On)
        } else {
            prev
        }
    }
}

/// A region descriptor: a rectangle of the arena, named by its offset
/// within the arena and its size.
#[derive(Clone, Copy, Debug, PartialEq, Eq, Structural)]
pub struct Region {
    pub x: u32,
    pub y: u32,
    pub size: Size,
}

impl Region {
    /// The sub-region of this region described by a rectangle in the
    /// region's own coordinates, clipped to the region: offsets compose
    /// against the arena directly.
    pub open spec fn spec_sub(self, rect: Rect) -> Region {
        let x_lo = if rect.top_left.x < 0 {
            0
        } else if rect.top_left.x > self.size.width {
            self.size.width as int
        } else {
            rect.top_left.x as int
        };
        let y_lo = if rect.top_left.y < 0 {
            0
        } else if rect.top_left.y > self.size.height {
            self.size.height as int
        } else {
            rect.top_left.y as int
        };
        let x_hi_raw = rect.top_left.x + rect.size.width;
        let y_hi_raw = rect.top_left.y + rect.size.height;
        let x_hi = if x_hi_raw < x_lo {
            x_lo
        } else if x_hi_raw > self.size.width {
            self.size.width as int
        } else {
            x_hi_raw
        };
        let y_hi = if y_hi_raw < y_lo {
            y_lo
        } else if y_hi_raw > self.size.height {
            self.size.height as int
        } else {
            y_hi_raw
        };
        Region {
            x: (self.x + x_lo) as u32,
            y: (self.y + y_lo) as u32,
            size: Size { width: (x_hi - x_lo) as u32, height: (y_hi - y_lo) as u32 },
        }
    }

    /// Clip a rectangle in this region's coordinates and compose its offset
    /// against the arena.
    pub fn sub(&self, rect: Rect) -> (r: Region)
        requires
            self.x + self.size.width <= u32::MAX,
            self.y + self.size.height <= u32::MAX,
        ensures
            r == self.spec_sub(rect),
            r.x + r.size.width <= self.x + self.size.width,
            r.y + r.size.height <= self.y + self.size.height,
            r.x >= self.x,
            r.y >= self.y,
    {
        let x_lo: i64 = if rect.top_left.x < 0 {
            0
        } else if rect.top_left.x as i64 > self.size.width as i64 {
            self.size.width as i64
        } else {
            rect.top_left.x as i64
        };
        let y_lo: i64 = if rect.top_left.y < 0 {
            0
        } else if rect.top_left.y as i64 > self.size.height as i64 {
            self.size.height as i64
        } else {
            rect.top_left.y as i64
        };
        let x_hi_raw: i64 = rect.top_left.x as i64 + rect.size.width as i64;
        let y_hi_raw: i64 = rect.top_left.y as i64 + rect.size.height as i64;
        let x_hi: i64 = if x_hi_raw < x_lo {
            x_lo
        } else if x_hi_raw > self.size.width as i64 {
            self.size.width as i64
        } else {
            x_hi_raw
        };
        let y_hi: i64 = if y_hi_raw < y_lo {
            y_lo
        } else if y_hi_raw > self.size.height as i64 {
            self.size.height as i64
        } else {
            y_hi_raw
        };
        Region {
            x: self.x + x_lo as u32,
            y: self.y + y_lo as u32,
            size: Size { width: (x_hi - x_lo) as u32, height: (y_hi - y_lo) as u32 },
        }
    }

    /// Translate a point in this region's coordinates to arena
    /// coordinates.
    pub fn translate(&self, point: Point) -> (r: Point)
        requires
            i32::MIN <= point.x + self.x <= i32::MAX,
            i32::MIN <= point.y + self.y <= i32::MAX,
        ensures
            r.x == point.x + self.x,
            r.y == point.y + self.y,
    {
        Point {
            x: (point.x as i64 + self.x as i64) as i32,
            y: (point.y as i64 + self.y as i64) as i32,
        }
    }
}

/// 2 to the `k`th power.
pub open spec fn pow2i(k: int) -> int
    decreases k,
{
    if k <= 0 {
        1
    } else {
        2 * pow2i(k - 1)
    }
}

/// The big-endian value of up to eight pixel bits, most significant first.
pub open spec fn pack_bits(s: Seq<bool>) -> int
    decreases s.len(),
{
    if s.len() == 0 {
        0
    } else {
        2 * pack_bits(s.drop_last()) + if s.last() {
            1int
        } else {
            0int
        }
    }
}

/// How many bytes one pixel row serializes to: eight pixels per byte, the
/// last byte padded.
pub open spec fn bytes_per_row(w: int) -> int {
    (w + 7) / 8
}

/// A buffer that widgets draw to: one owned arena of binary pixels.
#[derive(Debug)]
pub struct DrawBuffer {
    pixels: Vec<bool>,
    width: u32,
    height: u32,
}

impl DrawBuffer {
    /// The arena's pixels, row-major.
    pub closed spec fn raw(&self) -> Seq<bool> {
        self.pixels@
    }

    /// The arena's width in pixels.
    pub closed spec fn spec_width(&self) -> u32 {
        self.width
    }

    /// The arena's height in pixels.
    pub closed spec fn spec_height(&self) -> u32 {
        self.height
    }

    /// The arena holds exactly one bit per pixel, and both dimensions stay
    /// addressable by the signed point coordinates.
    pub open spec fn wf(&self) -> bool {
        &&& self.raw().len() == self.spec_width() * self.spec_height()
        &&& self.spec_width() <= i32::MAX
        &&& self.spec_height() <= i32::MAX
    }

    /// The pixel bit at a coordinate.
    pub open spec fn spec_pixel(&self, x: int, y: int) -> bool
        recommends
            0 <= x < self.spec_width(),
            0 <= y < self.spec_height(),
    {
        self.raw()[y * self.spec_width() + x]
    }

    /// Whether a region lies within the arena.
    pub open spec fn region_ok(&self, reg: Region) -> bool {
        &&& reg.x + reg.size.width <= self.spec_width()
        &&& reg.y + reg.size.height <= self.spec_height()
    }

    /// A buffer filled with one color.
    pub fn with_default_color(size: Size, default_color: BinaryColor) -> (r: DrawBuffer)
        requires
            size.width * size.height <= usize::MAX,
            size.width <= i32::MAX,
            size.height <= i32::MAX,
        ensures
            r.wf(),
            r.spec_width() == size.width,
            r.spec_height() == size.height,
            forall|i: int| 0 <= i < r.raw().len() ==> r.raw()[i] == (default_color is On),
    {
        let bit = matches!(default_color, BinaryColor::On);
        let total: usize = (size.width as usize) * (size.height as usize);
        let mut pixels: Vec<bool> = Vec::new();
        let mut i: usize = 0;
        while i < total
            invariant
                i <= total,
                pixels@.len() == i,
                forall|j: int| 0 <= j < i ==> pixels@[j] == bit,
            decreases total - i,
        {
            pixels.push(bit);
            i = i + 1;
        }
        DrawBuffer { pixels, width: size.width, height: size.height }
    }

    /// A buffer filled with the equivalent of black.
    pub fn new(size: Size) -> (r: DrawBuffer)
        requires
            size.width * size.height <= usize::MAX,
            size.width <= i32::MAX,
            size.height <= i32::MAX,
        ensures
            r.wf(),
            r.spec_width() == size.width,
            r.spec_height() == size.height,
            forall|i: int| 0 <= i < r.raw().len() ==> !r.raw()[i],
    {
        DrawBuffer::with_default_color(size, BinaryColor::Off)
    }

    /// A buffer the size of the on-screen-display title line.
    pub fn osd_title() -> (r: DrawBuffer)
        ensures
            r.wf(),
            r.spec_width() == 320,
            r.spec_height() == 16,
            forall|i: int| 0 <= i < r.raw().len() ==> !r.raw()[i],
    {
        DrawBuffer::new(Size { width: 320, height: 16 })
    }

    /// The buffer's size.
    pub fn size(&self) -> (r: Size)
        ensures
            r == (Size { width: self.spec_width(), height: self.spec_height() }),
    {
        Size { width: self.width, height: self.height }
    }

    /// The region covering the whole arena.
    pub fn full_region(&self) -> (r: Region)
        ensures
            r == (Region {
                x: 0,
                y: 0,
                size: Size { width: self.spec_width(), height: self.spec_height() },
            }),
            self.region_ok(r),
    {
        Region { x: 0, y: 0, size: Size { width: self.width, height: self.height } }
    }

    /// The region a rectangle of the arena describes, clipped to the
    /// arena: a view onto a sub-rectangle, as a lightweight descriptor.
    pub fn sub_buffer(&self, rect: Rect) -> (r: Region)
        requires
            self.wf(),
        ensures
            r == (Region {
                x: 0,
                y: 0,
                size: Size { width: self.spec_width(), height: self.spec_height() },
            }).spec_sub(rect),
            self.region_ok(r),
    {
        let full = Region {
            x: 0,
            y: 0,
            size: Size { width: self.width, height: self.height },
        };
        full.sub(rect)
    }

    /// The color of the pixel at a point of the arena.
    pub fn get_pixel(&self, point: Point) -> (r: BinaryColor)
        requires
            self.wf(),
            0 <= point.x < self.spec_width(),
            0 <= point.y < self.spec_height(),
        ensures
            r == (if self.spec_pixel(point.x as int, point.y as int) {
                BinaryColor::On
            } else {
                BinaryColor::Off
            }),
    {
        let x = point.x as usize;
        let y = point.y as usize;
        proof {
            lemma_index_in_arena(
                self.spec_width() as int,
                self.spec_height() as int,
                point.x as int,
                point.y as int,
            );
        }
        let n: usize = self.pixels.len();
        let idx: usize = y * (self.width as usize) + x;
        if self.pixels[idx] {
            BinaryColor::On
        } else {
            BinaryColor::Off
        }
    }

    /// The color of the pixel at a point of a region.
    pub fn get_pixel_in(&self, reg: &Region, point: Point) -> (r: BinaryColor)
        requires
            self.wf(),
            self.region_ok(*reg),
            0 <= point.x < reg.size.width,
            0 <= point.y < reg.size.height,
        ensures
            r == (if self.spec_pixel(reg.x + point.x, reg.y + point.y) {
                BinaryColor::On
            } else {
                BinaryColor::Off
            }),
    {
        let p = Point {
            x: (point.x as i64 + reg.x as i64) as i32,
            y: (point.y as i64 + reg.y as i64) as i32,
        };
        self.get_pixel(p)
    }

    /// Write one pixel of the arena; a point beyond the arena's size is
    /// ignored.
    pub fn set_pixel(&mut self, point: Point, color: BinaryColor)
        requires
            old(self).wf(),
            point.x >= 0,
            point.y >= 0,
        ensures
            final(self).wf(),
            final(self).spec_width() == old(self).spec_width(),
            final(self).spec_height() == old(self).spec_height(),
            point.x < old(self).spec_width() && point.y < old(self).spec_height()
                ==> final(self).raw() == old(self).raw().update(
                point.y * old(self).spec_width() + point.x,
                color is On,
            ),
            !(point.x < old(self).spec_width() && point.y < old(self).spec_height())
                ==> *final(self) == *old(self),
    {
        let x = point.x as u32;
        let y = point.y as u32;
        if x < self.width && y < self.height {
            proof {
                lemma_index_in_arena(
                    self.spec_width() as int,
                    self.spec_height() as int,
                    x as int,
                    y as int,
                );
            }
            let n: usize = self.pixels.len();
            let idx: usize = (y as usize) * (self.width as usize) + (x as usize);
            self.pixels.set(idx, matches!(color, BinaryColor::On));
        }
    }

    /// Write one pixel through a region; a point beyond the region's size
    /// is ignored.
    pub fn set_pixel_in(&mut self, reg: &Region, point: Point, color: BinaryColor)
        requires
            old(self).wf(),
            old(self).region_ok(*reg),
            point.x >= 0,
            point.y >= 0,
        ensures
            final(self).wf(),
            final(self).spec_width() == old(self).spec_width(),
            final(self).spec_height() == old(self).spec_height(),
            point.x < reg.size.width && point.y < reg.size.height ==> final(self).raw()
                == old(self).raw().update(
                (reg.y + point.y) * old(self).spec_width() + (reg.x + point.x),
                color is On,
            ),
            !(point.x < reg.size.width && point.y < reg.size.height)
                ==> *final(self) == *old(self),
    {
        if (point.x as u32) < reg.size.width && (point.y as u32) < reg.size.height {
            let p = Point {
                x: (point.x as i64 + reg.x as i64) as i32,
                y: (point.y as i64 + reg.y as i64) as i32,
            };
            self.set_pixel(p, color);
        }
    }

    /// Invert every pixel of the arena.
    pub fn invert(&mut self)
        requires
            old(self).wf(),
        ensures
            final(self).wf(),
            final(self).spec_width() == old(self).spec_width(),
            final(self).spec_height() == old(self).spec_height(),
            final(self).raw().len() == old(self).raw().len(),
            forall|i: int|
                0 <= i < old(self).raw().len() ==> final(self).raw()[i] == !old(self).raw()[i],
    {
        let mut i: usize = 0;
        while i < self.pixels.len()
            invariant
                self.wf(),
                i <= self.pixels@.len(),
                self.width == old(self).spec_width(),
                self.height == old(self).spec_height(),
                self.pixels@.len() == old(self).raw().len(),
                forall|j: int| 0 <= j < i ==> self.pixels@[j] == !old(self).raw()[j],
                forall|j: int|
                    i <= j < self.pixels@.len() ==> self.pixels@[j] == old(self).raw()[j],
            decreases self.pixels@.len() - i,
        {
            let bit = self.pixels[i];
            self.pixels.set(i, !bit);
            i = i + 1;
        }
    }

    /// Draw a batch of pixels, in order; points beyond the arena are
    /// ignored.
    pub fn draw_iter(&mut self, pixels: &Vec<Pixel>)
        requires
            old(self).wf(),
            forall|i: int|
                0 <= i < pixels@.len() ==> (#[trigger] pixels@[i]).0.x >= 0 && pixels@[i].0.y
                    >= 0,
        ensures
            final(self).wf(),
            final(self).spec_width() == old(self).spec_width(),
            final(self).spec_height() == old(self).spec_height(),
            final(self).raw() == spec_draw(
                old(self).raw(),
                old(self).spec_width() as int,
                old(self).spec_height() as int,
                pixels@,
            ),
    {
        let ghost w = old(self).spec_width() as int;
        let ghost h = old(self).spec_height() as int;
        let mut i: usize = 0;
        proof {
            assert(pixels@.take(0) =~= Seq::<Pixel>::empty());
        }
        while i < pixels.len()
            invariant
                self.wf(),
                i <= pixels@.len(),
                self.width == old(self).spec_width(),
                self.height == old(self).spec_height(),
                w == old(self).spec_width() as int,
                h == old(self).spec_height() as int,
                self.pixels@ == spec_draw(old(self).raw(), w, h, pixels@.take(i as int)),
                forall|j: int|
                    0 <= j < pixels@.len() ==> (#[trigger] pixels@[j]).0.x >= 0 && pixels@[j].0.y
                        >= 0,
            decreases pixels@.len() - i,
        {
            let Pixel(point, color) = pixels[i];
            self.set_pixel(point, color);
            proof {
                let next = pixels@.take(i as int + 1);
                assert(next.drop_last() =~= pixels@.take(i as int));
                assert(next.last() == pixels@[i as int]);
            }
            i = i + 1;
        }
        proof {
            assert(pixels@.take(pixels@.len() as int) =~= pixels@);
        }
    }

    /// The eight pixel bits of one serialized byte, most significant
    /// first; bits beyond the row's width are padding.
    pub open spec fn bits8(&self, y: int, byte_i: int) -> Seq<bool> {
        Seq::new(
            8,
            |j: int|
                {
                    let x = 8 * byte_i + j;
                    &&& x < self.spec_width()
                    &&& self.spec_pixel(x, y)
                },
        )
    }

    /// The serialized arena: rows in order, each row packed eight pixels
    /// per byte, most significant bit first, the last byte of a row padded
    /// with zeros.
    pub open spec fn to_bytes_spec(&self) -> Seq<u8> {
        let bpr = bytes_per_row(self.spec_width() as int);
        Seq::new(
            (self.spec_height() * bpr) as nat,
            |i: int| pack_bits(self.bits8(i / bpr, i % bpr)) as u8,
        )
    }

    /// Serialize the arena, one bit per pixel.
    fn to_bytes(&self) -> (r: Vec<u8>)
        requires
            self.wf(),
        ensures
            r@ == self.to_bytes_spec(),
    {
        let ghost bpr_spec = bytes_per_row(self.spec_width() as int);
        let bpr: usize = (self.width as usize + 7) / 8;
        let arena_len: usize = self.pixels.len();
        proof {
            assert(bpr == bpr_spec);
        }
        let mut out: Vec<u8> = Vec::new();
        let mut y: usize = 0;
        while y < self.height as usize
            invariant
                self.wf(),
                bpr == bpr_spec,
                bpr_spec == bytes_per_row(self.spec_width() as int),
                arena_len == self.raw().len(),
                y <= self.spec_height(),
                out@.len() == y * bpr_spec,
                forall|i: int| 0 <= i < out@.len() ==> out@[i] == self.to_bytes_spec()[i],
            decreases self.spec_height() - y,
        {
            let mut b: usize = 0;
            while b < bpr
                invariant
                    self.wf(),
                    bpr == bpr_spec,
                    bpr_spec == bytes_per_row(self.spec_width() as int),
                    arena_len == self.raw().len(),
                    y < self.spec_height(),
                    b <= bpr_spec,
                    out@.len() == y * bpr_spec + b,
                    forall|i: int| 0 <= i < out@.len() ==> out@[i] == self.to_bytes_spec()[i],
                decreases bpr_spec - b,
            {
                let mut value: u8 = 0;
                let mut j: usize = 0;
                while j < 8
                    invariant
                        self.wf(),
                        arena_len == self.raw().len(),
                        y < self.spec_height(),
                        b < bytes_per_row(self.spec_width() as int),
                        j <= 8,
                        value == pack_bits(self.bits8(y as int, b as int).take(j as int)),
                        value < pow2i(j as int),
                    decreases 8 - j,
                {
                    proof {
                        assert(pow2i(0) == 1);
                        assert(pow2i(1) == 2);
                        assert(pow2i(2) == 4);
                        assert(pow2i(3) == 8);
                        assert(pow2i(4) == 16);
                        assert(pow2i(5) == 32);
                        assert(pow2i(6) == 64);
                        assert(pow2i(7) == 128);
                        assert(pow2i(8) == 256);
                    }
                    let x: usize = 8 * b + j;
                    let bit: bool = if x < self.width as usize {
                        proof {
                            lemma_index_in_arena(
                                self.spec_width() as int,
                                self.spec_height() as int,
                                x as int,
                                y as int,
                            );
                        }
                        self.pixels[y * (self.width as usize) + x]

                    } else {
                        false
                    };
                    let ghost bits = self.bits8(y as int, b as int);
                    proof {
                        assert(bits[j as int] == bit);
                        assert(bits.take(j as int + 1).drop_last() =~= bits.take(j as int));
                        assert(bits.take(j as int + 1).last() == bits[j as int]);
                    }
                    value = 2 * value + (if bit {
                        1
                    } else {
                        0
                    });
                    j = j + 1;
                }
                proof {
                    assert(self.bits8(y as int, b as int).take(8) =~= self.bits8(
                        y as int,
                        b as int,
                    ));
                    let i: int = y as int * bpr_spec + b as int;
                    byte_index_identities(
                        y as int,
                        b as int,
                        bpr_spec,
                        self.spec_height() as int,
                    );
                    assert(i < self.to_bytes_spec().len());
                    assert(self.to_bytes_spec()[i] == pack_bits(
                        self.bits8(y as int, b as int),
                    ) as u8);
                }
                out.push(value);
                b = b + 1;
            }
            proof {
                assert((y as int + 1) * bpr_spec == y as int * bpr_spec + bpr_spec)
                    by (nonlinear_arith);
            }
            y = y + 1;
        }
        proof {
            assert(out@ =~= self.to_bytes_spec());
        }
        out
    }

    /// Serialize to little-endian raw data; with one bit per pixel the
    /// byte order does not matter.
    pub fn to_le_bytes(&self) -> (r: Vec<u8>)
        requires
            self.wf(),
        ensures
            r@ == self.to_bytes_spec(),
    {
        self.to_bytes()
    }

    /// Serialize to big-endian raw data; with one bit per pixel the byte
    /// order does not matter.
    pub fn to_be_bytes(&self) -> (r: Vec<u8>)
        requires
            self.wf(),
        ensures
            r@ == self.to_bytes_spec(),
    {
        self.to_bytes()
    }

    /// Serialize to native-endian raw data; with one bit per pixel the
    /// byte order does not matter.
    pub fn to_ne_bytes(&self) -> (r: Vec<u8>)
        requires
            self.wf(),
        ensures
            r@ == self.to_bytes_spec(),
    {
        self.to_bytes()
    }
}

/// A coordinate pair within the arena indexes within the arena's bits.
proof fn lemma_index_in_arena(w: int, h: int, x: int, y: int)
    requires
        0 <= x < w,
        0 <= y < h,
    ensures
        0 <= y * w,
        y * w + x < w * h,
{
    assert(y * w + x < w * h) by (nonlinear_arith)
        requires
            0 <= x < w,
            0 <= y < h,
    ;
    assert(y * w >= 0) by (nonlinear_arith)
        requires
            y >= 0,
            w >= 0,
    ;
}

/// Dividing a flat byte index recovers its row and byte position, and the
/// index lies within the serialized length.
proof fn byte_index_identities(y: int, b: int, bpr: int, h: int)
    requires
        0 <= b < bpr,
        0 <= y < h,
    ensures
        (y * bpr + b) / bpr == y,
        (y * bpr + b) % bpr == b,
        y * bpr + b >= 0,
        y * bpr + b < h * bpr,
{
    assert((y * bpr + b) / bpr == y && (y * bpr + b) % bpr == b && y * bpr + b >= 0 && y * bpr
        + b < h * bpr) by (nonlinear_arith)
        requires
            0 <= b < bpr,
            0 <= y < h,
    ;
}

} // verus!
