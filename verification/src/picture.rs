use vstd::prelude::*;
use crate::geometry::Point;
use vstd::arithmetic::div_mod::{lemma_fundamental_div_mod, lemma_fundamental_div_mod_converse, lemma_mod_pos_bound, lemma_div_pos_is_pos};

verus! {

/// An RGBA image with 8 bits per channel: `pixels` holds the rows from top
/// to bottom, each row its pixels from left to right, each pixel four
/// bytes (red, green, blue, alpha).
#[derive(Debug)]
pub struct Picture {
    pub width: u32,
    pub height: u32,
    pub pixels: Vec<u8>,
}

/// The abstract value of a picture.
pub struct PictureView {
    pub width: nat,
    pub height: nat,
    pub pixels: Seq<u8>,
}

impl View for Picture {
    type V = PictureView;

    open spec fn view(&self) -> PictureView {
        PictureView { width: self.width as nat, height: self.height as nat, pixels: self.pixels@ }
    }
}

/// The byte for channel `c` of the pixel in column `x` and row `y` of a
/// picture `w` pixels wide.
pub open spec fn channel(pixels: Seq<u8>, w: int, x: int, y: int, c: int) -> u8 {
    pixels[(y * w + x) * 4 + c]
}

/// Four bytes per pixel, nothing more and nothing less.
pub open spec fn pixels_fit(w: int, h: int, pixels: Seq<u8>) -> bool {
    pixels.len() == 4 * w * h
}

impl PictureView {
    pub open spec fn wf(self) -> bool {
        pixels_fit(self.width as int, self.height as int, self.pixels)
    }
}

/// `out` is `pixels` (a picture `w` wide and `h` tall) turned a quarter
/// turn clockwise: `h` wide and `w` tall, the pixel in column `x` and row
/// `y` of `out` coming from column `y` and row `h - 1 - x` of `pixels`.
pub open spec fn quarter_turned(w: int, h: int, pixels: Seq<u8>, out: Seq<u8>) -> bool {
    &&& out.len() == pixels.len()
    &&& forall|x: int, y: int, c: int|
        0 <= x < h && 0 <= y < w && 0 <= c < 4 ==> #[trigger] channel(out, h, x, y, c) == channel(
            pixels,
            w,
            y,
            h - 1 - x,
            c,
        )
}

/// The red, green and blue bytes of pixel number `p`.
pub open spec fn pixel_rgb(pixels: Seq<u8>, p: int) -> (u8, u8, u8) {
    (pixels[4 * p], pixels[4 * p + 1], pixels[4 * p + 2])
}

/// `out` is a hue rotation of `pixels` by `degrees`, as
/// `image::imageops::huerotate` computes it on some machine.
pub uninterp spec fn hue_rotated_by(pixels: Seq<u8>, degrees: i32, out: Seq<u8>) -> bool;

/// What holds of every hue rotation of `pixels` into `out`: the same
/// number of bytes, every alpha byte copied, and pixels of equal colour in
/// `pixels` of equal colour in `out`.
pub open spec fn hue_rotation_outcome(pixels: Seq<u8>, out: Seq<u8>) -> bool {
    &&& out.len() == pixels.len()
    &&& forall|i: int| 0 <= i < out.len() && i % 4 == 3 ==> #[trigger] out[i] == pixels[i]
    &&& forall|p: int, q: int|
        0 <= p && 0 <= q && 4 * p + 3 < pixels.len() && 4 * q + 3 < pixels.len() && pixel_rgb(pixels, p)
            == pixel_rgb(pixels, q) ==> #[trigger] pixel_rgb(out, p) == #[trigger] pixel_rgb(out, q)
}

/// Calls `image::imageops::rotate90` on the RGBA picture made of `pixels`.
/// The crate's code (`rotate90_in`) writes the pixel in column `x`, row `y`
/// of the input to column `height - 1 - y`, row `x` of an output that is
/// `height` wide and `width` tall; the contract says that of every pixel.
#[verifier::external_body]
fn rotate_pixels_quarter(width: u32, height: u32, pixels: Vec<u8>) -> (out: Vec<u8>)
    requires
        pixels_fit(width as int, height as int, pixels@),
    ensures
        quarter_turned(width as int, height as int, pixels@, out@),
{
    let buffer = image::RgbaImage::from_raw(width, height, pixels).unwrap();
    image::imageops::rotate90(&buffer).into_raw()
}

/// Calls `image::imageops::huerotate` on the RGBA picture made of `pixels`.
/// The crate builds one colour matrix per call from the floating-point
/// cosine and sine of `degrees`, whose precision std leaves to the platform,
/// then maps each pixel's red, green and blue through it and copies its
/// alpha. The contract relates the result to the bytes and the angle
/// handed over (`hue_rotated_by`, a relation, since two machines may round
/// differently), and states what holds of every outcome: the picture keeps
/// its size, every alpha byte is copied, and pixels of equal colour come
/// out of equal colour. Which colours come out is left unsaid.
#[verifier::external_body]
fn hue_rotate_pixels(width: u32, height: u32, pixels: Vec<u8>, degrees: i32) -> (out: Vec<u8>)
    requires
        pixels_fit(width as int, height as int, pixels@),
    ensures
        hue_rotated_by(pixels@, degrees, out@),
        hue_rotation_outcome(pixels@, out@),
{
    let buffer = image::RgbaImage::from_raw(width, height, pixels).unwrap();
    image::imageops::huerotate(&buffer, degrees).into_raw()
}

/// The bottom-right corner of a picture placed at the origin, each
/// coordinate held to the range of `i32`.
pub open spec fn corner_of(p: PictureView) -> Point {
    Point {
        x: if p.width > i32::MAX { i32::MAX } else { p.width as i32 },
        y: if p.height > i32::MAX { i32::MAX } else { p.height as i32 },
    }
}

impl Picture {
    pub open spec fn wf(&self) -> bool {
        self@.wf()
    }

    /// The bottom-right corner of the picture placed at the origin.
    pub fn corner(&self) -> (c: Point)
        ensures
            c == corner_of(self@),
    {
        let x = if self.width > i32::MAX as u32 { i32::MAX } else { self.width as i32 };
        let y = if self.height > i32::MAX as u32 { i32::MAX } else { self.height as i32 };
        Point { x, y }
    }

    /// A picture from its size and bytes; `None` when the bytes are not
    /// exactly four per pixel.
    pub fn new(width: u32, height: u32, pixels: Vec<u8>) -> (r: Option<Picture>)
        ensures
            r is Some <==> pixels_fit(width as int, height as int, pixels@),
            r matches Some(p) ==> p.width == width && p.height == height && p.pixels@ == pixels@,
    {
        let n = pixels.len() as u128;
        let w = width as u128;
        let h = height as u128;
        proof {
            assert(w * h <= 0xffff_ffff_ffff_ffff_ffff_ffff) by (nonlinear_arith)
                requires
                    w <= 0xffff_ffff,
                    h <= 0xffff_ffff,
            ;
            assert(4 * (w * h) == 4 * (width as int) * (height as int)) by (nonlinear_arith)
                requires
                    w == width,
                    h == height,
            ;
        }
        if n == 4 * (w * h) {
            Some(Picture { width, height, pixels })
        } else {
            None
        }
    }

    /// Turns the picture a quarter turn clockwise.
    pub fn rotate90(&mut self)
        requires
            old(self).wf(),
        ensures
            final(self).wf(),
            final(self).width == old(self).height,
            final(self).height == old(self).width,
            quarter_turned(old(self).width as int, old(self).height as int, old(self).pixels@, final(self).pixels@),
    {
        let mut pixels: Vec<u8> = Vec::new();
        std::mem::swap(&mut pixels, &mut self.pixels);
        let out = rotate_pixels_quarter(self.width, self.height, pixels);
        proof {
            let w = self.width as int;
            let h = self.height as int;
            assert(4 * w * h == 4 * h * w) by (nonlinear_arith);
        }
        self.pixels = out;
        let w = self.width;
        self.width = self.height;
        self.height = w;
    }

    /// Rotates the hue of every pixel by `degrees`.
    pub fn hue_rotate(&mut self, degrees: i32)
        requires
            old(self).wf(),
        ensures
            final(self).wf(),
            final(self).width == old(self).width,
            final(self).height == old(self).height,
            hue_rotated_by(old(self).pixels@, degrees, final(self).pixels@),
            hue_rotation_outcome(old(self).pixels@, final(self).pixels@),
    {
        let mut pixels: Vec<u8> = Vec::new();
        std::mem::swap(&mut pixels, &mut self.pixels);
        let out = hue_rotate_pixels(self.width, self.height, pixels, degrees);
        self.pixels = out;
    }
}

/// Every byte index of a picture names one channel of one pixel.
proof fn lemma_byte_index(w: int, h: int, i: int) -> (r: (int, int, int))
    requires
        0 <= w,
        0 <= h,
        0 <= i < 4 * w * h,
    ensures
        0 <= r.0 < w,
        0 <= r.1 < h,
        0 <= r.2 < 4,
        i == (r.1 * w + r.0) * 4 + r.2,
{
    lemma_fundamental_div_mod(i, 4);
    lemma_mod_pos_bound(i, 4);
    lemma_div_pos_is_pos(i, 4);
    let c = i % 4;
    let q = i / 4;
    assert(w > 0) by (nonlinear_arith)
        requires
            0 <= i < 4 * w * h,
            0 <= h,
    ;
    assert(q < w * h) by (nonlinear_arith)
        requires
            i == 4 * q + c,
            0 <= c < 4,
            i < 4 * w * h,
    ;
    lemma_fundamental_div_mod(q, w);
    lemma_mod_pos_bound(q, w);
    lemma_div_pos_is_pos(q, w);
    let y = q / w;
    let x = q % w;
    if y >= h {
        assert(w * y >= w * h) by (nonlinear_arith)
            requires
                y >= h,
                w > 0,
        ;
    }
    assert(i == (y * w + x) * 4 + c) by (nonlinear_arith)
        requires
            i == 4 * q + c,
            q == w * y + x,
    ;
    (x, y, c)
}

/// Four quarter turns bring a picture back to what it was.
pub proof fn lemma_four_quarter_turns(w: int, h: int, p: Seq<u8>, r1: Seq<u8>, r2: Seq<u8>, r3: Seq<u8>, r4: Seq<u8>)
    requires
        0 <= w,
        0 <= h,
        pixels_fit(w, h, p),
        quarter_turned(w, h, p, r1),
        quarter_turned(h, w, r1, r2),
        quarter_turned(w, h, r2, r3),
        quarter_turned(h, w, r3, r4),
    ensures
        r4 == p,
{
    assert forall|i: int| 0 <= i < p.len() implies r4[i] == p[i] by {
        let (x, y, c) = lemma_byte_index(w, h, i);
        assert(channel(r4, w, x, y, c) == channel(r3, h, y, w - 1 - x, c));
        assert(channel(r3, h, y, w - 1 - x, c) == channel(r2, w, w - 1 - x, h - 1 - y, c));
        assert(channel(r2, w, w - 1 - x, h - 1 - y, c) == channel(r1, h, h - 1 - y, x, c));
        assert(channel(r1, h, h - 1 - y, x, c) == channel(p, w, x, y, c));
    }
    assert(r4 =~= p);
}

/// A quarter turn has one outcome.
pub proof fn lemma_quarter_turn_unique(w: int, h: int, p: Seq<u8>, a: Seq<u8>, b: Seq<u8>)
    requires
        0 <= w,
        0 <= h,
        pixels_fit(w, h, p),
        quarter_turned(w, h, p, a),
        quarter_turned(w, h, p, b),
    ensures
        a == b,
{
    assert(4 * w * h == 4 * h * w) by (nonlinear_arith);
    assert forall|i: int| 0 <= i < a.len() implies a[i] == b[i] by {
        let (x, y, c) = lemma_byte_index(h, w, i);
        assert(channel(a, h, x, y, c) == channel(b, h, x, y, c));
    }
    assert(a =~= b);
}

/// The source byte, in a picture `w` wide and `h` tall, of byte `i` of
/// its quarter turn.
pub open spec fn turn_source(w: int, h: int, i: int) -> int {
    let c = i % 4;
    let q = i / 4;
    let x = q % h;
    let y = q / h;
    ((h - 1 - x) * w + y) * 4 + c
}

/// Every picture has a quarter turn.
pub proof fn lemma_quarter_turn_exists(w: int, h: int, p: Seq<u8>)
    requires
        0 <= w,
        0 <= h,
        pixels_fit(w, h, p),
    ensures
        exists|out: Seq<u8>| quarter_turned(w, h, p, out),
{
    let n = p.len() as int;
    assert(4 * w * h == 4 * h * w) by (nonlinear_arith);
    assert forall|i: int| 0 <= i < n implies 0 <= #[trigger] turn_source(w, h, i) < n by {
        let (x, y, c) = lemma_byte_index(h, w, i);
        lemma_fundamental_div_mod_converse(i, 4, y * h + x, c);
        lemma_fundamental_div_mod_converse(y * h + x, h, y, x);
        assert(0 <= ((h - 1 - x) * w + y) * 4 + c < 4 * w * h) by (nonlinear_arith)
            requires
                0 <= x < h,
                0 <= y < w,
                0 <= c < 4,
        ;
    }
    let out = Seq::new(n as nat, |i: int| p[turn_source(w, h, i)]);
    assert forall|x: int, y: int, c: int| 0 <= x < h && 0 <= y < w && 0 <= c < 4 implies #[trigger] channel(out, h, x, y, c)
        == channel(p, w, y, h - 1 - x, c) by {
        let i = (y * h + x) * 4 + c;
        assert(0 <= i < 4 * h * w) by (nonlinear_arith)
            requires
                i == (y * h + x) * 4 + c,
                0 <= x < h,
                0 <= y < w,
                0 <= c < 4,
        ;
        assert(4 * w * h == 4 * h * w) by (nonlinear_arith);
        lemma_fundamental_div_mod_converse(i, 4, y * h + x, c);
        lemma_fundamental_div_mod_converse(y * h + x, h, y, x);
        assert(turn_source(w, h, i) == ((h - 1 - x) * w + y) * 4 + c);
    }
    assert(quarter_turned(w, h, p, out));
}

} // verus!
