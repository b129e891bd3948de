//! The mini map: a small picture of the whole field, one pixel per cell,
//! on which the snakes and the food are drawn each step.
use super::ObjectSize;
use crate::math::{IVec2, UVec2};
use crate::snake::{lemma_size_steps, SnakeSize};
use vstd::prelude::*;

verus! {

/// An sRGB color with alpha, one byte per channel.
#[derive(Clone, Copy, Debug, PartialEq, Eq, Structural)]
pub struct Rgba8 {
    pub r: u8,
    pub g: u8,
    pub b: u8,
    pub a: u8,
}

/// Opaque black.
pub open spec fn spec_black() -> Rgba8 {
    Rgba8 { r: 0, g: 0, b: 0, a: 255 }
}

impl Rgba8 {
    /// Opaque black.
    pub fn black() -> (c: Rgba8)
        ensures
            c == spec_black(),
    {
        Rgba8 { r: 0, g: 0, b: 0, a: 255 }
    }
}

/// The color an object is drawn with on the mini map.
#[derive(Clone, Copy, Debug, PartialEq, Eq, Structural)]
pub struct MiniMapColor(pub Rgba8);

/// The mini map picture: `width` by `height` pixels, row by row from the
/// top.
pub struct MiniMap {
    width: u32,
    height: u32,
    pixels: Vec<Rgba8>,
}

proof fn lemma_pixel_index(w: int, h: int, x: int, y: int)
    by (nonlinear_arith)
    requires
        0 <= x < w,
        0 <= y < h,
    ensures
        0 <= y * w + x < w * h,
{
}

proof fn lemma_pixel_index_injective(w: int, x1: int, y1: int, x2: int, y2: int)
    by (nonlinear_arith)
    requires
        0 <= x1 < w,
        0 <= x2 < w,
        0 <= y1,
        0 <= y2,
        y1 * w + x1 == y2 * w + x2,
    ensures
        x1 == x2,
        y1 == y2,
{
    if y1 < y2 {
        assert(y1 * w + w <= y2 * w);
    } else if y2 < y1 {
        assert(y2 * w + w <= y1 * w);
    }
}

/// The position of pixel (`x`, `y`) in the row-by-row pixel list.
fn pixel_index(w: u32, h: u32, len: usize, x: u32, y: u32) -> (r: usize)
    requires
        x < w,
        y < h,
        len == w * h,
    ensures
        r == y * w + x,
        r < len,
{
    proof {
        lemma_pixel_index(w as int, h as int, x as int, y as int);
        assert(y * w <= y * w + x);
    }
    y as usize * w as usize + x as usize
}

impl MiniMap {
    #[verifier::type_invariant]
    spec fn inv(self) -> bool {
        &&& self.pixels@.len() == self.width * self.height
        &&& self.width <= i32::MAX
        &&& self.height <= i32::MAX
    }

    pub closed spec fn spec_width(&self) -> u32 {
        self.width
    }

    pub closed spec fn spec_height(&self) -> u32 {
        self.height
    }

    pub open spec fn in_bounds(&self, x: int, y: int) -> bool {
        0 <= x < self.spec_width() && 0 <= y < self.spec_height()
    }

    /// The color of the pixel in column `x` of row `y`.
    pub closed spec fn pixel(&self, x: int, y: int) -> Rgba8 {
        self.pixels@[y * self.width + x]
    }

    /// A picture of `width` by `height` pixels, all of color `fill`.
    pub fn new(width: u32, height: u32, fill: Rgba8) -> (r: MiniMap)
        requires
            width <= i32::MAX,
            height <= i32::MAX,
            width * height <= usize::MAX,
        ensures
            r.spec_width() == width,
            r.spec_height() == height,
            forall|x: int, y: int| r.in_bounds(x, y) ==> #[trigger] r.pixel(x, y) == fill,
    {
        let n = width as usize * height as usize;
        let mut pixels: Vec<Rgba8> = Vec::new();
        let mut i: usize = 0;
        while i < n
            invariant
                i <= n,
                pixels@.len() == i,
                forall|j: int| 0 <= j < i ==> pixels@[j] == fill,
            decreases n - i,
        {
            pixels.push(fill);
            i = i + 1;
        }
        let r = MiniMap { width, height, pixels };
        assert forall|x: int, y: int| r.in_bounds(x, y) implies #[trigger] r.pixel(x, y) == fill by {
            lemma_pixel_index(width as int, height as int, x, y);
        }
        r
    }

    pub fn width(&self) -> (r: u32)
        ensures
            r == self.spec_width(),
    {
        self.width
    }

    pub fn height(&self) -> (r: u32)
        ensures
            r == self.spec_height(),
    {
        self.height
    }

    /// The pixels row by row from the top, each row left to right.
    pub fn pixels(&self) -> (r: &Vec<Rgba8>)
        ensures
            r@.len() == self.spec_width() * self.spec_height(),
            forall|x: int, y: int|
                self.in_bounds(x, y) ==> r@[y * self.spec_width() + x] == #[trigger] self.pixel(
                    x,
                    y,
                ),
    {
        proof {
            use_type_invariant(self);
        }
        &self.pixels
    }

    /// The color of a pixel inside the picture.
    pub fn get(&self, x: u32, y: u32) -> (r: Rgba8)
        requires
            self.in_bounds(x as int, y as int),
        ensures
            r == self.pixel(x as int, y as int),
    {
        proof {
            use_type_invariant(self);
        }
        self.pixels[pixel_index(self.width, self.height, self.pixels.len(), x, y)]
    }

    /// Paints the pixel at (`x`, `y`); a pixel outside the picture is an
    /// error and changes nothing.
    pub fn set_color_at(&mut self, x: u32, y: u32, color: Rgba8) -> (r: Result<(), ()>)
        ensures
            final(self).spec_width() == old(self).spec_width(),
            final(self).spec_height() == old(self).spec_height(),
            r is Ok <==> old(self).in_bounds(x as int, y as int),
            forall|i: int, j: int|
                old(self).in_bounds(i, j) ==> #[trigger] final(self).pixel(i, j) == if i == x && j
                    == y && r is Ok {
                    color
                } else {
                    old(self).pixel(i, j)
                },
    {
        proof {
            use_type_invariant(&*self);
        }
        if x >= self.width || y >= self.height {
            return Err(());
        }
        let idx = pixel_index(self.width, self.height, self.pixels.len(), x, y);
        let ghost w = self.width as int;
        let ghost h = self.height as int;
        let ghost before = *self;
        let mut taken = MiniMap { width: 0, height: 0, pixels: Vec::new() };
        std::mem::swap(&mut taken, self);
        let MiniMap { width, height, mut pixels } = taken;
        pixels.set(idx, color);
        *self = MiniMap { width, height, pixels };
        assert forall|i: int, j: int| before.in_bounds(i, j) implies #[trigger] self.pixel(i, j)
            == if i == x && j == y {
            color
        } else {
            before.pixel(i, j)
        } by {
            lemma_pixel_index(w, h, i, j);
            if j * w + i == idx {
                lemma_pixel_index_injective(w, i, j, x as int, y as int);
            }
        }
        Ok(())
    }
}

/// Paints every pixel of the mini map black.
pub fn clear_mini_map(image: &mut MiniMap)
    ensures
        final(image).spec_width() == old(image).spec_width(),
        final(image).spec_height() == old(image).spec_height(),
        forall|x: int, y: int|
            final(image).in_bounds(x, y) ==> #[trigger] final(image).pixel(x, y) == spec_black(),
{
    let black = Rgba8::black();
    let w = image.width();
    let h = image.height();
    let mut x: u32 = 0;
    while x < w
        invariant
            w == image.spec_width(),
            h == image.spec_height(),
            w == old(image).spec_width(),
            h == old(image).spec_height(),
            x <= w,
            forall|i: int, j: int|
                image.in_bounds(i, j) && i < x ==> #[trigger] image.pixel(i, j) == black,
        decreases w - x,
    {
        let mut y: u32 = 0;
        while y < h
            invariant
                w == image.spec_width(),
                h == image.spec_height(),
                w == old(image).spec_width(),
                h == old(image).spec_height(),
                x < w,
                y <= h,
                forall|i: int, j: int|
                    image.in_bounds(i, j) && (i < x || (i == x && j < y)) ==> #[trigger] image.pixel(
                        i,
                        j,
                    ) == black,
            decreases h - y,
        {
            let _ = image.set_color_at(x, y, black);
            y = y + 1;
        }
        x = x + 1;
    }
}

/// `a + b`, held at the bounds of `i32`, as `i32::saturating_add` gives it.
pub open spec fn spec_saturating_add(a: i32, b: i32) -> i32 {
    if a + b > i32::MAX {
        i32::MAX
    } else if a + b < i32::MIN {
        i32::MIN
    } else {
        (a + b) as i32
    }
}

pub fn saturating_add(a: i32, b: i32) -> (r: i32)
    ensures
        r == spec_saturating_add(a, b),
{
    let s = a as i64 + b as i64;
    if s > i32::MAX as i64 {
        i32::MAX
    } else if s < i32::MIN as i64 {
        i32::MIN
    } else {
        s as i32
    }
}

/// The first offset from the center that an extent of `n` cells covers:
/// an odd extent is centered, an even one reaches one cell further up or
/// right than down or left.
pub open spec fn extent_low(n: u32) -> int {
    if n % 2 == 0 {
        1 - (n / 2) as int
    } else {
        -((n / 2) as int)
    }
}

/// The last offset from the center that an extent of `n` cells covers.
pub open spec fn extent_high(n: u32) -> int {
    (n / 2) as int
}

/// Whether an object of `size` drawn from `start` covers the pixel (`x`,
/// `y`).
pub open spec fn covers(start: IVec2, size: ObjectSize, x: int, y: int) -> bool {
    &&& extent_low(size.0.x) <= x - start.x <= extent_high(size.0.x)
    &&& extent_low(size.0.y) <= y - start.y <= extent_high(size.0.y)
}

/// An extent of `n` cells covers exactly `n` offsets.
pub proof fn lemma_extent_width(n: u32)
    ensures
        extent_high(n) - extent_low(n) + 1 == n,
{
}

/// Paints, in `color`, the pixels of the mini map that an object of `size`
/// drawn from `start` covers; the part outside the picture is left out.
pub fn fill_in_mini_map(image: &mut MiniMap, start: IVec2, size: ObjectSize, color: Rgba8)
    ensures
        final(image).spec_width() == old(image).spec_width(),
        final(image).spec_height() == old(image).spec_height(),
        forall|x: int, y: int|
            old(image).in_bounds(x, y) ==> #[trigger] final(image).pixel(x, y) == if covers(
                start,
                size,
                x,
                y,
            ) {
                color
            } else {
                old(image).pixel(x, y)
            },
{
    proof {
        use_type_invariant(&*image);
    }
    let rx = (size.0.x / 2) as i64;
    let ry = (size.0.y / 2) as i64;
    let y_lo: i64 = if size.0.y % 2 == 0 {
        -ry + 1
    } else {
        -ry
    };
    let x_lo: i64 = if size.0.x % 2 == 0 {
        -rx + 1
    } else {
        -rx
    };
    let w = image.width();
    let h = image.height();
    let ghost before = *image;
    let mut dx = x_lo;
    while dx <= rx
        invariant
            w == image.spec_width(),
            h == image.spec_height(),
            w == before.spec_width(),
            h == before.spec_height(),
            w <= i32::MAX,
            h <= i32::MAX,
            rx == extent_high(size.0.x),
            ry == extent_high(size.0.y),
            x_lo == extent_low(size.0.x),
            y_lo == extent_low(size.0.y),
            x_lo <= dx <= rx + 1,
            forall|x: int, y: int|
                before.in_bounds(x, y) ==> #[trigger] image.pixel(x, y) == if covers(
                    start,
                    size,
                    x,
                    y,
                ) && x - start.x < dx {
                    color
                } else {
                    before.pixel(x, y)
                },
        decreases rx + 1 - dx,
    {
        let mut dy = y_lo;
        while dy <= ry
            invariant
                w == image.spec_width(),
                h == image.spec_height(),
                w == before.spec_width(),
                h == before.spec_height(),
                w <= i32::MAX,
                h <= i32::MAX,
                rx == extent_high(size.0.x),
                ry == extent_high(size.0.y),
                x_lo == extent_low(size.0.x),
                y_lo == extent_low(size.0.y),
                x_lo <= dx <= rx,
                y_lo <= dy <= ry + 1,
                forall|x: int, y: int|
                    before.in_bounds(x, y) ==> #[trigger] image.pixel(x, y) == if covers(
                        start,
                        size,
                        x,
                        y,
                    ) && (x - start.x < dx || (x - start.x == dx && y - start.y < dy)) {
                        color
                    } else {
                        before.pixel(x, y)
                    },
            decreases ry + 1 - dy,
        {
            let xs = saturating_add(start.x, dx as i32);
            let ys = saturating_add(start.y, dy as i32);
            if xs >= 0 && ys >= 0 && (xs as u32) < w && (ys as u32) < h {
                let _ = image.set_color_at(xs as u32, ys as u32, color);
            }
            dy = dy + 1;
        }
        dx = dx + 1;
    }
}

pub open spec fn half_toward_zero(v: i32) -> int {
    if v >= 0 {
        v / 2
    } else {
        -((-v) / 2)
    }
}

/// The pixel from which an object whose center lies in the world cell
/// `cell` is drawn: the field's center is at the middle of the picture,
/// and the picture's rows run downwards; an object an even number of
/// cells tall starts one row higher.
pub open spec fn spec_mini_map_start(cell: IVec2, size: ObjectSize, map_size: IVec2) -> (int, int) {
    (
        cell.x + half_toward_zero(map_size.x),
        half_toward_zero(map_size.y) - cell.y - if size.0.y % 2 == 0 {
            1int
        } else {
            0int
        },
    )
}

pub open spec fn start_fits(cell: IVec2, size: ObjectSize, map_size: IVec2) -> bool {
    let s = spec_mini_map_start(cell, size, map_size);
    &&& i32::MIN <= s.0 <= i32::MAX
    &&& i32::MIN <= half_toward_zero(map_size.y) - cell.y <= i32::MAX
    &&& i32::MIN <= s.1 <= i32::MAX
}

/// Whether the start pixel of an object in `cell` can be computed in
/// `i32`; see `start_fits`.
pub fn mini_map_start_fits(cell: IVec2, size: ObjectSize, map_size: IVec2) -> (r: bool)
    ensures
        r == start_fits(cell, size, map_size),
{
    let half_x = (map_size.x / 2) as i64;
    let half_y = (map_size.y / 2) as i64;
    let mx = cell.x as i64 + half_x;
    let my = half_y - cell.y as i64;
    let my2 = if size.0.y % 2 == 0 {
        my - 1
    } else {
        my
    };
    let lo = i32::MIN as i64;
    let hi = i32::MAX as i64;
    lo <= mx && mx <= hi && lo <= my && my <= hi && lo <= my2 && my2 <= hi
}

/// See `spec_mini_map_start`.
pub fn calculate_mini_map_start(cell: IVec2, size: ObjectSize, map_size: IVec2) -> (r: IVec2)
    requires
        start_fits(cell, size, map_size),
    ensures
        (r.x as int, r.y as int) == spec_mini_map_start(cell, size, map_size),
{
    let mx = cell.x + map_size.x / 2;
    let mut my = (map_size.y / 2) - cell.y;
    if size.0.y % 2 == 0 {
        my = my - 1;
    }
    IVec2 { x: mx, y: my }
}

/// Draws an object of `size` whose center lies in the world cell `cell`.
pub fn draw_object_on_mini_map(
    image: &mut MiniMap,
    cell: IVec2,
    size: ObjectSize,
    color: Rgba8,
    map_size: IVec2,
)
    requires
        start_fits(cell, size, map_size),
    ensures
        final(image).spec_width() == old(image).spec_width(),
        final(image).spec_height() == old(image).spec_height(),
        forall|x: int, y: int|
            old(image).in_bounds(x, y) ==> #[trigger] final(image).pixel(x, y) == if covers(
                start_of(cell, size, map_size),
                size,
                x,
                y,
            ) {
                color
            } else {
                old(image).pixel(x, y)
            },
{
    let start = calculate_mini_map_start(cell, size, map_size);
    fill_in_mini_map(image, start, size, color);
}

/// `spec_mini_map_start` as a vector.
pub open spec fn start_of(cell: IVec2, size: ObjectSize, map_size: IVec2) -> IVec2 {
    IVec2 {
        x: spec_mini_map_start(cell, size, map_size).0 as i32,
        y: spec_mini_map_start(cell, size, map_size).1 as i32,
    }
}

/// The size on the mini map of a segment of a snake of size `size`.
pub open spec fn segment_size(size: SnakeSize) -> ObjectSize {
    ObjectSize(UVec2 { x: size.spec_stride(), y: size.spec_stride() })
}

/// A snake segment is as wide and as tall on the mini map as the snake's
/// stride in grid cells: its block spans `stride` columns and `stride`
/// rows, always holds its own start pixel, and a snake one size up draws
/// blocks twice as wide.
pub proof fn lemma_segment_spans_stride(size: SnakeSize, start: IVec2)
    ensures
        extent_high(segment_size(size).0.x) - extent_low(segment_size(size).0.x) + 1
            == size.spec_stride(),
        extent_high(segment_size(size).0.y) - extent_low(segment_size(size).0.y) + 1
            == size.spec_stride(),
        covers(start, segment_size(size), start.x as int, start.y as int),
        size != SnakeSize::Colossal ==> segment_size(size.spec_up()).0.x == 2 * segment_size(
            size,
        ).0.x,
{
    lemma_extent_width(segment_size(size).0.x);
    lemma_extent_width(segment_size(size).0.y);
    lemma_size_steps(size);
}

/// Draws, in `color`, a snake of size `size` whose segments' centers lie
/// in the world cells `cells`.
pub fn draw_snake_on_map(
    image: &mut MiniMap,
    cells: &Vec<IVec2>,
    size: SnakeSize,
    color: Rgba8,
    map_size: IVec2,
)
    requires
        forall|i: int| 0 <= i < cells.len() ==> start_fits(#[trigger] cells@[i], segment_size(size), map_size),
    ensures
        final(image).spec_width() == old(image).spec_width(),
        final(image).spec_height() == old(image).spec_height(),
        forall|x: int, y: int|
            old(image).in_bounds(x, y) ==> #[trigger] final(image).pixel(x, y) == if exists|i: int|
                0 <= i < cells.len() && covers(
                    start_of(#[trigger] cells@[i], segment_size(size), map_size),
                    segment_size(size),
                    x,
                    y,
                ) {
                color
            } else {
                old(image).pixel(x, y)
            },
{
    let seg = ObjectSize(UVec2::splat(size.stride()));
    let ghost before = *image;
    let mut k: usize = 0;
    while k < cells.len()
        invariant
            k <= cells.len(),
            seg == segment_size(size),
            forall|i: int| 0 <= i < cells.len() ==> start_fits(#[trigger] cells@[i], segment_size(size), map_size),
            image.spec_width() == before.spec_width(),
            image.spec_height() == before.spec_height(),
            forall|x: int, y: int|
                before.in_bounds(x, y) ==> #[trigger] image.pixel(x, y) == if exists|i: int|
                    0 <= i < k && covers(
                        start_of(#[trigger] cells@[i], segment_size(size), map_size),
                        segment_size(size),
                        x,
                        y,
                    ) {
                    color
                } else {
                    before.pixel(x, y)
                },
        decreases cells.len() - k,
    {
        let ghost mid = *image;
        draw_object_on_mini_map(image, cells[k], seg, color, map_size);
        assert forall|x: int, y: int| before.in_bounds(x, y) implies #[trigger] image.pixel(x, y)
            == if exists|i: int|
            0 <= i < k + 1 && covers(
                start_of(#[trigger] cells@[i], segment_size(size), map_size),
                segment_size(size),
                x,
                y,
            ) {
            color
        } else {
            before.pixel(x, y)
        } by {
            assert(mid.in_bounds(x, y));
            if covers(start_of(cells@[k as int], segment_size(size), map_size), segment_size(size), x, y) {
            } else {
                if exists|i: int|
                    0 <= i < k + 1 && covers(
                        start_of(#[trigger] cells@[i], segment_size(size), map_size),
                        segment_size(size),
                        x,
                        y,
                    ) {
                    let i = choose|i: int|
                        0 <= i < k + 1 && covers(
                            start_of(#[trigger] cells@[i], segment_size(size), map_size),
                            segment_size(size),
                            x,
                            y,
                        );
                    assert(i < k);
                }
            }
        }
        k = k + 1;
    }
}

} // verus!
