//! A view of a caller's byte buffer as rows of pixels.

use vstd::prelude::*;
use super::color::Color;
use super::math::Vec4;

verus! {

/// A borrowed buffer of `width * height` pixels, row after row, four bytes
/// (r, g, b, a) per pixel. The view owns no memory: what is written through it
/// is written to the buffer it was made from.
#[derive(Debug)]
pub struct ImageView<'a> {
    pub pixels: &'a mut [u8],
    pub width: u32,
    pub height: u32,
}

/// Distinct pixels of a row-major grid have distinct indices, all below the
/// number of pixels.
pub proof fn lemma_index(w: int, h: int, x: int, y: int, x2: int, y2: int)
    by (nonlinear_arith)
    requires
        0 <= x < w,
        0 <= y < h,
        0 <= x2 < w,
        0 <= y2 < h,
    ensures
        0 <= x + y * w < w * h,
        x + y * w == x2 + y2 * w ==> x == x2 && y == y2,
{
    assert(y * w <= (h - 1) * w);
    if y < y2 {
        assert((y + 1) * w <= y2 * w);
    }
    if y2 < y {
        assert((y2 + 1) * w <= y * w);
    }
}

/// The color of the pixel `(x, y)` in a buffer of rows of `w` pixels.
pub open spec fn pixel_of(bytes: Seq<u8>, w: int, x: int, y: int) -> Color {
    Color::from_bytes(bytes, x + y * w)
}

/// Two buffers of one size that agree on every pixel agree on every byte.
pub proof fn lemma_pixels_determine_bytes(a: Seq<u8>, b: Seq<u8>, w: int, h: int)
    requires
        0 <= w,
        0 <= h,
        a.len() == w * h * 4,
        b.len() == w * h * 4,
        forall|x: int, y: int|
            0 <= x < w && 0 <= y < h ==> #[trigger] pixel_of(a, w, x, y) == pixel_of(b, w, x, y),
    ensures
        a == b,
{
    assert forall|i: int| 0 <= i < a.len() implies a[i] == b[i] by {
        let j = i / 4;
        assert(0 <= j && 4 * j <= i < 4 * j + 4);
        assert(j < w * h);
        assert(w > 0) by (nonlinear_arith)
            requires
                0 <= w,
                0 <= j < w * h,
        ;
        let x = j % w;
        let y = j / w;
        vstd::arithmetic::div_mod::lemma_fundamental_div_mod(j, w);
        vstd::arithmetic::div_mod::lemma_mod_bound(j, w);
        vstd::arithmetic::div_mod::lemma_div_pos_is_pos(j, w);
        vstd::arithmetic::div_mod::lemma_multiply_divide_lt(j, w, h);
        assert(w * y == y * w) by (nonlinear_arith);
        assert(x + y * w == j);
        assert(pixel_of(a, w, x, y) == pixel_of(b, w, x, y));
    }
    assert(a =~= b);
}

impl<'a> ImageView<'a> {
    /// The bytes of the buffer as they are now.
    pub open spec fn view(&self) -> Seq<u8> {
        self.pixels@
    }

    /// The buffer holds exactly `width * height` pixels.
    pub open spec fn wf(&self) -> bool {
        self@.len() == self.width * self.height * 4
    }

    /// Whether the pixel `(x, y)` lies in the buffer.
    pub open spec fn contains(&self, x: int, y: int) -> bool {
        0 <= x < self.width && 0 <= y < self.height
    }

    /// The row-major index of the pixel `(x, y)`.
    pub open spec fn index_of(&self, x: int, y: int) -> int {
        x + y * self.width
    }

    /// The color of the pixel `(x, y)`.
    pub open spec fn pixel(&self, x: int, y: int) -> Color {
        pixel_of(self@, self.width as int, x, y)
    }

    /// Wraps a buffer of exactly `width * height * 4` bytes.
    pub fn from_pixel_buffer(pixel_buffer: &'a mut [u8], width: u32, height: u32) -> (view:
        ImageView<'a>)
        requires
            old(pixel_buffer)@.len() == width * height * 4,
        ensures
            view.wf(),
            view.width == width,
            view.height == height,
            view@ == old(pixel_buffer)@,
            final(pixel_buffer)@ == final(view.pixels)@,
    {
        ImageView { pixels: pixel_buffer, width, height }
    }

    /// The four bytes of the pixel `(x, y)`, for reading and writing.
    pub fn at(&mut self, x: usize, y: usize) -> (p: &mut [u8])
        requires
            old(self).wf(),
            old(self).contains(x as int, y as int),
        ensures
            p@.len() == 4,
            p@ == old(self)@.subrange(
                4 * old(self).index_of(x as int, y as int),
                4 * old(self).index_of(x as int, y as int) + 4,
            ),
            final(self)@ == old(self)@.subrange(0, 4 * old(self).index_of(x as int, y as int))
                + final(p)@ + old(self)@.subrange(
                4 * old(self).index_of(x as int, y as int) + 4,
                old(self)@.len() as int,
            ),
            final(self).width == old(self).width,
            final(self).height == old(self).height,
            final(final(self).pixels)@ == final(old(self).pixels)@,
    {
        let len: usize = self.pixels.len();
        proof {
            lemma_index(self.width as int, self.height as int, x as int, y as int, 0, 0);
        }
        let i: usize = x + y * (self.width as usize);
        let (_, tail) = self.pixels.split_at_mut(4 * i);
        let (p, _) = tail.split_at_mut(4);
        p
    }

    /// The color of the pixel `(x, y)`.
    pub fn get(&self, x: usize, y: usize) -> (c: Color)
        requires
            self.wf(),
            self.contains(x as int, y as int),
        ensures
            c == self.pixel(x as int, y as int),
    {
        let len: usize = self.pixels.len();
        proof {
            lemma_index(self.width as int, self.height as int, x as int, y as int, 0, 0);
        }
        let i: usize = x + y * (self.width as usize);
        Color {
            r: self.pixels[4 * i],
            g: self.pixels[4 * i + 1],
            b: self.pixels[4 * i + 2],
            a: self.pixels[4 * i + 3],
        }
    }

    /// Stores `color` in the pixel `(x, y)` and leaves every other pixel as it
    /// was.
    pub fn put(&mut self, x: usize, y: usize, color: Color)
        requires
            old(self).wf(),
            old(self).contains(x as int, y as int),
        ensures
            final(self).wf(),
            final(self).width == old(self).width,
            final(self).height == old(self).height,
            final(final(self).pixels)@ == final(old(self).pixels)@,
            forall|px: int, py: int|
                old(self).contains(px, py) ==> #[trigger] final(self).pixel(px, py) == if px == x
                    && py == y {
                    color
                } else {
                    old(self).pixel(px, py)
                },
    {
        let ghost w = self.width as int;
        let ghost h = self.height as int;
        let ghost i = self.index_of(x as int, y as int);
        proof {
            lemma_index(w, h, x as int, y as int, 0, 0);
        }
        let p = self.at(x, y);
        p[0] = color.r;
        p[1] = color.g;
        p[2] = color.b;
        p[3] = color.a;
        proof {
            assert forall|px: int, py: int| old(self).contains(px, py) implies #[trigger] self.pixel(
                px,
                py,
            ) == if px == x && py == y {
                color
            } else {
                old(self).pixel(px, py)
            } by {
                lemma_index(w, h, px, py, x as int, y as int);
            }
        }
    }

    /// Fills the buffer with the packed form of `color`: its four bytes,
    /// repeated for every pixel.
    pub fn clear(&mut self, color: Vec4)
        requires
            old(self).wf(),
        ensures
            final(self).wf(),
            final(self).width == old(self).width,
            final(self).height == old(self).height,
            final(final(self).pixels)@ == final(old(self).pixels)@,
            forall|b: int|
                0 <= b < final(self)@.len() ==> final(self)@[b] == color.spec_to_color().bytes()[b
                    % 4],
            forall|x: int, y: int|
                final(self).contains(x, y) ==> #[trigger] final(self).pixel(x, y)
                    == color.spec_to_color(),
    {
        let rgba = color.to_color();
        let len: usize = self.pixels.len();
        let mut b: usize = 0;
        while b < len
            invariant
                len == self@.len(),
                len % 4 == 0,
                b % 4 == 0,
                b <= len,
                self.wf(),
                self.width == old(self).width,
                self.height == old(self).height,
                final(self.pixels)@ == final(old(self).pixels)@,
                rgba == color.spec_to_color(),
                forall|j: int| 0 <= j < b ==> self@[j] == rgba.bytes()[j % 4],
            decreases len - b,
        {
            self.pixels[b] = rgba.r;
            self.pixels[b + 1] = rgba.g;
            self.pixels[b + 2] = rgba.b;
            self.pixels[b + 3] = rgba.a;
            b = b + 4;
        }
        proof {
            assert forall|x: int, y: int| self.contains(x, y) implies #[trigger] self.pixel(x, y)
                == rgba by {
                lemma_index(self.width as int, self.height as int, x, y, 0, 0);
            }
        }
    }
}

} // verus!
