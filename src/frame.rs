use image::{ImageBuffer, Rgb};
use vstd::arithmetic::div_mod::lemma_fundamental_div_mod_converse;
use vstd::prelude::*;

verus! {

/// The framebuffer that a render fills: `width * height` RGB pixels, held
/// in an `image::RgbImage`. The image stays in a private field that Verus
/// does not see (it refuses a declaration of `ImageBuffer`, whose `Pixel`
/// bound is a trait of the `image` crate); what it holds is named by
/// `frame_samples` and `frame_dimensions`.
#[verifier::external_body]
pub struct Framebuffer {
    image: ImageBuffer<Rgb<u8>, Vec<u8>>,
}

/// The samples of a framebuffer's image, row by row from the top, three bytes
/// a pixel.
pub uninterp spec fn frame_samples(frame: Framebuffer) -> Seq<u8>;

/// The width and height of a framebuffer's image, in pixels.
pub uninterp spec fn frame_dimensions(frame: Framebuffer) -> (u32, u32);

/// Relies on `image::ImageBuffer::new`: an image of the given size whose
/// samples are all zero. It panics where the sample count overflows `usize`.
#[verifier::external_body]
fn new_rgb_image(width: u32, height: u32) -> (r: Framebuffer)
    requires
        3 * width * height <= usize::MAX,
    ensures
        frame_dimensions(r) == (width, height),
        frame_samples(r) == Seq::new((3 * width * height) as nat, |i: int| 0u8),
{
    Framebuffer { image: ImageBuffer::new(width, height) }
}

/// Relies on `image::ImageBuffer::put_pixel`: the three samples of pixel
/// `(x, y)`, at `3 * (y * width + x)`, take the given colour. It panics
/// outside the image.
#[verifier::external_body]
fn put_rgb_pixel(img: &mut Framebuffer, x: u32, y: u32, color: [u8; 3])
    requires
        x < frame_dimensions(*old(img)).0,
        y < frame_dimensions(*old(img)).1,
    ensures
        frame_dimensions(*final(img)) == frame_dimensions(*old(img)),
        frame_samples(*final(img)) == frame_samples(*old(img)).update(
            3 * (y * frame_dimensions(*old(img)).0 + x),
            color@[0],
        ).update(3 * (y * frame_dimensions(*old(img)).0 + x) + 1, color@[1]).update(
            3 * (y * frame_dimensions(*old(img)).0 + x) + 2,
            color@[2],
        ),
{
    img.image.put_pixel(x, y, Rgb(color));
}

/// Relies on `image::ImageBuffer::dimensions`: the width and height.
#[verifier::external_body]
fn rgb_image_dimensions(img: &Framebuffer) -> (r: (u32, u32))
    ensures
        r == frame_dimensions(*img),
{
    img.image.dimensions()
}

/// Relies on `image::ImageBuffer::as_raw`: the sample buffer itself.
#[verifier::external_body]
fn rgb_samples(img: &Framebuffer) -> (r: &Vec<u8>)
    ensures
        r@ == frame_samples(*img),
{
    img.image.as_raw()
}

/// Writes to two different pixels commute: however the workers of a render
/// interleave their writes, each pixel ends with the colour written to it.
pub proof fn lemma_pixel_writes_commute(
    samples: Seq<u8>,
    width: nat,
    height: nat,
    column1: nat,
    row1: nat,
    color1: Rgb8,
    column2: nat,
    row2: nat,
    color2: Rgb8,
)
    requires
        column1 < width,
        row1 < height,
        column2 < width,
        row2 < height,
        column1 != column2 || row1 != row2,
        samples.len() == 3 * width * height,
    ensures
        with_pixel(
            with_pixel(samples, sample_index(width, height, column1, row1), color1),
            sample_index(width, height, column2, row2),
            color2,
        ) == with_pixel(
            with_pixel(samples, sample_index(width, height, column2, row2), color2),
            sample_index(width, height, column1, row1),
            color1,
        ),
{
    let y1 = height - 1 - row1;
    let y2 = height - 1 - row2;
    let p1 = y1 * width + column1;
    let p2 = y2 * width + column2;
    if p1 == p2 {
        lemma_fundamental_div_mod_converse(p1, width as int, y1, column1 as int);
        lemma_fundamental_div_mod_converse(p2, width as int, y2, column2 as int);
    }
    assert(p1 != p2);
    assert(p1 < width * height && p2 < width * height) by (nonlinear_arith)
        requires
            p1 == y1 * width + column1,
            p2 == y2 * width + column2,
            y1 < height,
            y2 < height,
            column1 < width,
            column2 < width,
    ;
    let a = sample_index(width, height, column1, row1);
    let b = sample_index(width, height, column2, row2);
    assert(a == 3 * p1 && b == 3 * p2);
    assert(a + 3 <= b || b + 3 <= a);
    assert(3 * width * height == 3 * (width * height)) by (nonlinear_arith);
    assert(a + 3 <= samples.len() && b + 3 <= samples.len());
    let left = with_pixel(with_pixel(samples, a, color1), b, color2);
    let right = with_pixel(with_pixel(samples, b, color2), a, color1);
    assert(left =~= right);
}

/// A byte-RGB pixel.
#[derive(Clone, Copy, Debug, PartialEq, Eq, Structural)]
pub struct Rgb8 {
    pub red: u8,
    pub green: u8,
    pub blue: u8,
}

/// The index of the first sample of the pixel in column `column` and row
/// `row`, rows counted from the bottom of the image (world `+y` is up, while
/// image row 0 is the top).
pub open spec fn sample_index(width: nat, height: nat, column: nat, row: nat) -> int {
    3 * ((height - 1 - row) * width + column)
}

/// The samples after one pixel was written.
pub open spec fn with_pixel(samples: Seq<u8>, at: int, color: Rgb8) -> Seq<u8> {
    samples.update(at, color.red).update(at + 1, color.green).update(at + 2, color.blue)
}

impl Framebuffer {
    pub open spec fn width(&self) -> nat {
        frame_dimensions(*self).0 as nat
    }

    pub open spec fn height(&self) -> nat {
        frame_dimensions(*self).1 as nat
    }

    /// The samples, three bytes a pixel, rows from the top.
    pub open spec fn samples(&self) -> Seq<u8> {
        frame_samples(*self)
    }

    /// A black framebuffer of `width * height` pixels.
    pub fn new(width: u32, height: u32) -> (r: Framebuffer)
        requires
            3 * width * height <= usize::MAX,
        ensures
            r.width() == width,
            r.height() == height,
            r.samples() == Seq::new((3 * width * height) as nat, |i: int| 0u8),
    {
        new_rgb_image(width, height)
    }

    /// Writes the colour of the pixel in `column` and `row`, rows counted
    /// from the bottom: it lands in image row `height - row - 1`.
    pub fn put_pixel(&mut self, column: u32, row: u32, color: Rgb8)
        requires
            column < old(self).width(),
            row < old(self).height(),
        ensures
            final(self).width() == old(self).width(),
            final(self).height() == old(self).height(),
            final(self).samples() == with_pixel(
                old(self).samples(),
                sample_index(old(self).width(), old(self).height(), column as nat, row as nat),
                color,
            ),
    {
        let (_, height) = rgb_image_dimensions(self);
        let y: u32 = height - row - 1;
        put_rgb_pixel(self, column, y, [color.red, color.green, color.blue]);
    }

    /// The samples, three bytes a pixel, rows from the top.
    pub fn as_raw(&self) -> (r: &Vec<u8>)
        ensures
            r@ == self.samples(),
    {
        rgb_samples(self)
    }
}

} // verus!
