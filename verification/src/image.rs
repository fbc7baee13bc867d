//! A row-major buffer of 32-bit pixels.

use rayon::iter::{IndexedParallelIterator, IntoParallelRefMutIterator, ParallelIterator};
use vstd::arithmetic::div_mod::{
    lemma_fundamental_div_mod, lemma_fundamental_div_mod_converse, lemma_mod_bound,
    lemma_multiply_divide_lt,
};
use vstd::prelude::*;

verus! {

/// The colour of every pixel that nothing has drawn on.
pub const BACKGROUND: u32 = 0xffffff;

/// A `width` by `height` raster, stored row after row.
pub struct ImageBuf {
    width: u16,
    height: u16,
    raw_buf: Vec<u32>,
}

/// The column of the pixel stored at index `n` in an image `width` wide.
pub open spec fn column_of(n: int, width: int) -> u16 {
    (n % width) as u16
}

/// The row of the pixel stored at index `n` in an image `width` wide.
pub open spec fn row_of(n: int, width: int) -> u16 {
    (n / width) as u16
}

/// A storage index below `width * height` splits into a column below `width`
/// and a row below `height`.
pub proof fn lemma_index_split(n: int, width: int, height: int)
    requires
        0 <= n < width * height,
        0 < width,
    ensures
        0 <= n % width < width,
        0 <= n / width < height,
        n == (n / width) * width + n % width,
{
    lemma_mod_bound(n, width);
    lemma_fundamental_div_mod(n, width);
    lemma_multiply_divide_lt(n, width, height);
    assert(0 <= n / width) by (nonlinear_arith)
        requires
            0 <= n,
            0 < width,
    ;
    assert((n / width) * width == width * (n / width)) by (nonlinear_arith);
}

/// Column `x` of row `y` is stored at `y * width + x`, which lies inside the
/// buffer and splits back into `x` and `y`.
pub proof fn lemma_index_join(x: int, y: int, width: int, height: int)
    requires
        0 <= x < width,
        0 <= y < height,
    ensures
        0 <= y * width + x < width * height,
        (y * width + x) % width == x,
        (y * width + x) / width == y,
{
    assert(0 <= y * width && y * width + width <= width * height) by (nonlinear_arith)
        requires
            0 <= x < width,
            0 <= y < height,
    ;
    lemma_fundamental_div_mod_converse(y * width + x, width, y, x);
}

/// Whether `f` may be asked for the pixel stored at index `n`: its row fits
/// in a `u16` and `f` accepts the coordinates.
pub open spec fn accepts_index<F>(f: &F, width: int, n: int) -> bool where F: Fn(u16, u16) -> u32 {
    &&& n / width <= u16::MAX
    &&& call_requires(*f, (column_of(n, width), row_of(n, width)))
}

/// The colour that `f` gives to the pixel stored at index `n`.
fn pixel_at<F>(f: &F, width: u16, n: usize) -> (p: u32) where F: Fn(u16, u16) -> u32
    requires
        width > 0,
        accepts_index(f, width as int, n as int),
    ensures
        call_ensures(*f, (column_of(n as int, width as int), row_of(n as int, width as int)), p),
{
    let x = (n % width as usize) as u16;
    let y = (n / width as usize) as u16;
    f(x, y)
}

/// Rayon's `par_iter_mut().enumerate().for_each(..)` on the pixels: the given
/// operation runs once on every index paired with a mutable reference to the
/// element at that index, so afterwards each element holds what `pixel_at`
/// returned for its own index. The length is untouched.
#[verifier::external_body]
fn par_fill<F>(buf: &mut Vec<u32>, width: u16, f: &F) where F: Fn(u16, u16) -> u32 + Sync
    requires
        old(buf)@.len() > 0 ==> width > 0,
        forall|n: int| 0 <= n < old(buf)@.len() ==> #[trigger] accepts_index(f, width as int, n),
    ensures
        final(buf)@.len() == old(buf)@.len(),
        forall|n: int|
            0 <= n < old(buf)@.len() ==> call_ensures(
                *f,
                (column_of(n, width as int), row_of(n, width as int)),
                #[trigger] final(buf)@[n],
            ),
{
    buf.par_iter_mut().enumerate().for_each(|(n, p)| { *p = pixel_at(f, width, n); });
}

impl View for ImageBuf {
    type V = Seq<u32>;

    /// The pixels in storage order: row `y`, column `x` is at `y * width + x`.
    closed spec fn view(&self) -> Seq<u32> {
        self.raw_buf@
    }
}

impl ImageBuf {
    #[verifier::type_invariant]
    spec fn well_formed(&self) -> bool {
        self.raw_buf@.len() == self.width * self.height
    }

    /// Number of columns.
    pub closed spec fn width(&self) -> int {
        self.width as int
    }

    /// Number of rows.
    pub closed spec fn height(&self) -> int {
        self.height as int
    }

    /// The pixel in column `x` of row `y`.
    pub open spec fn pixel(&self, x: int, y: int) -> u32 {
        self@[y * self.width() + x]
    }

    /// The pixel at `(x, y)` where the image has one, `BACKGROUND` elsewhere.
    pub open spec fn pixel_or_background(&self, x: int, y: int) -> u32 {
        if 0 <= x < self.width() && 0 <= y < self.height() {
            self.pixel(x, y)
        } else {
            BACKGROUND
        }
    }

    /// The pixels, in storage order, of the frame `width` by `height` laid
    /// over the image with the top left corners together.
    pub open spec fn framed(&self, width: int, height: int) -> Seq<u32> {
        Seq::new((width * height) as nat, |n: int| self.pixel_or_background(n % width, n / width))
    }

    /// A blank image: every pixel is `BACKGROUND`.
    pub fn new(width: u16, height: u16) -> (img: Self)
        ensures
            img.width() == width,
            img.height() == height,
            img@ == Seq::new((width * height) as nat, |n: int| BACKGROUND),
    {
        assert(width * height <= 0xffff * 0xffff) by (nonlinear_arith)
            requires
                width <= 0xffff,
                height <= 0xffff,
        ;
        let raw_buf = vec![BACKGROUND; width as usize * height as usize];
        Self { width, height, raw_buf }
    }

    /// An image whose pixel at `(x, y)` is a colour that `f(x, y)` returns.
    /// The calls are spread over worker threads; each pixel gets one call.
    pub fn from_fn<F>(width: u16, height: u16, f: F) -> (img: Self) where
        F: Fn(u16, u16) -> u32 + std::marker::Sync,

        requires
            forall|x: u16, y: u16| x < width && y < height ==> call_requires(f, (x, y)),
        ensures
            img.width() == width,
            img.height() == height,
            img@.len() == width * height,
            forall|x: u16, y: u16|
                x < width && y < height ==> call_ensures(
                    f,
                    (x, y),
                    #[trigger] img.pixel(x as int, y as int),
                ),
    {
        assert(width * height <= 0xffff * 0xffff) by (nonlinear_arith)
            requires
                width <= 0xffff,
                height <= 0xffff,
        ;
        let mut raw_buf = vec![BACKGROUND; width as usize * height as usize];
        assert forall|n: int| 0 <= n < raw_buf@.len() implies #[trigger] accepts_index(
            &f,
            width as int,
            n,
        ) by {
            assert(width > 0) by (nonlinear_arith)
                requires
                    n < width * height,
                    0 <= n,
            ;
            lemma_index_split(n, width as int, height as int);
        }
        assert(raw_buf@.len() > 0 ==> width > 0) by (nonlinear_arith)
            requires
                raw_buf@.len() == width * height,
        ;
        par_fill(&mut raw_buf, width, &f);
        let img = Self { width, height, raw_buf };
        assert forall|x: u16, y: u16| x < width && y < height implies call_ensures(
            f,
            (x, y),
            #[trigger] img.pixel(x as int, y as int),
        ) by {
            lemma_index_join(x as int, y as int, width as int, height as int);
        }
        img
    }

    /// The pixels in storage order.
    pub fn as_slice(&self) -> (pixels: &[u32])
        ensures
            pixels@ == self@,
            pixels@.len() == self.width() * self.height(),
    {
        proof {
            use_type_invariant(self);
        }
        self.raw_buf.as_slice()
    }

    /// A copy cut or padded to `width` by `height`: what lies inside both the
    /// old and the new frame keeps its place and colour, the rest of the new
    /// frame is `BACKGROUND`. The image itself is left as it was.
    pub fn resize(&mut self, width: u16, height: u16) -> (img: Self)
        ensures
            *final(self) == *old(self),
            img.width() == width,
            img.height() == height,
            img@ == old(self).framed(width as int, height as int),
            forall|x: u16, y: u16|
                x < width && y < height ==> #[trigger] img.pixel(x as int, y as int) == old(
                    self,
                ).pixel_or_background(x as int, y as int),
            width == old(self).width() && height == old(self).height() ==> img@ == old(self)@,
    {
        proof {
            use_type_invariant(&*self);
        }
        let ghost before = *self;
        let old_width = self.width;
        let old_height = self.height;
        let pixels = &self.raw_buf;
        let copy = |x: u16, y: u16| -> (p: u32)
            ensures
                p == if x < old_width && y < old_height {
                    pixels@[y * old_width + x]
                } else {
                    BACKGROUND
                },
            {
                if x < old_width && y < old_height {
                    proof {
                        lemma_index_join(x as int, y as int, old_width as int, old_height as int);
                        assert(y * old_width <= 0xffff * 0xffff) by (nonlinear_arith)
                            requires
                                0 <= y <= 0xffff,
                                0 <= old_width <= 0xffff,
                        ;
                    }
                    pixels[y as usize * old_width as usize + x as usize]
                } else {
                    BACKGROUND
                }
            };
        let img = Self::from_fn(width, height, copy);
        proof {
            assert(0 <= width * height) by (nonlinear_arith)
                requires
                    0 <= width,
                    0 <= height,
            ;
            assert forall|n: int| 0 <= n < width * height implies img@[n] == before.framed(
                width as int,
                height as int,
            )[n] by {
                assert(width > 0) by (nonlinear_arith)
                    requires
                        0 <= n < width * height,
                ;
                lemma_index_split(n, width as int, height as int);
                let x = (n % (width as int)) as u16;
                let y = (n / (width as int)) as u16;
                assert(img.pixel(x as int, y as int) == img@[n]);
            }
            assert(img@ =~= before.framed(width as int, height as int));
            if width == before.width() && height == before.height() {
                assert forall|n: int| 0 <= n < width * height implies before@[n] == before.framed(
                    width as int,
                    height as int,
                )[n] by {
                    assert(width > 0) by (nonlinear_arith)
                        requires
                            0 <= n < width * height,
                    ;
                    lemma_index_split(n, width as int, height as int);
                }
                assert(img@ =~= before@);
            }
        }
        img
    }
}

} // verus!
