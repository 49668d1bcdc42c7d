//! The image pipeline's pixel work: an RGB raster, the fixed integer
//! luma/chroma transform, and the planar 4:2:0 frame it produces.

use vstd::arithmetic::div_mod::lemma_fundamental_div_mod_converse;
use vstd::prelude::*;

verus! {

/// Saturates an integer to the byte range [0, 255].
pub open spec fn clamp_byte_spec(x: int) -> u8 {
    if x < 0 {
        0u8
    } else if x > 255 {
        255u8
    } else {
        x as u8
    }
}

/// Saturates an integer to the byte range [0, 255].
pub fn clamp_byte(x: i32) -> (r: u8)
    ensures
        r == clamp_byte_spec(x as int),
{
    if x < 0 {
        0
    } else if x > 255 {
        255
    } else {
        x as u8
    }
}

/// The luma of an RGB pixel: `clamp((66 R + 129 G + 25 B + 128) >> 8 + 16)`.
pub open spec fn luma_of(r: u8, g: u8, b: u8) -> u8 {
    clamp_byte_spec((66 * r + 129 * g + 25 * b + 128) / 256 + 16)
}

/// The U chroma of an RGB pixel:
/// `clamp((-38 R - 74 G + 112 B + 128) >> 8 + 128)`.
pub open spec fn chroma_u_of(r: u8, g: u8, b: u8) -> u8 {
    clamp_byte_spec((-38 * r - 74 * g + 112 * b + 128) / 256 + 128)
}

/// The V chroma of an RGB pixel:
/// `clamp((112 R - 94 G - 18 B + 128) >> 8 + 128)`.
pub open spec fn chroma_v_of(r: u8, g: u8, b: u8) -> u8 {
    clamp_byte_spec((112 * r - 94 * g - 18 * b + 128) / 256 + 128)
}

/// Computes `luma_of` on one pixel.
pub fn luma(r: u8, g: u8, b: u8) -> (res: u8)
    ensures
        res == luma_of(r, g, b),
{
    let t: u32 = 66 * (r as u32) + 129 * (g as u32) + 25 * (b as u32) + 128;
    let q: i32 = (t / 256) as i32 + 16;
    clamp_byte(q)
}

/// Computes `chroma_u_of` on one pixel.  The sum is shifted by 65536 (a
/// multiple of 256) to stay non-negative, and the quotient shifted back.
pub fn chroma_u(r: u8, g: u8, b: u8) -> (res: u8)
    ensures
        res == chroma_u_of(r, g, b),
{
    let t: u32 = 112 * (b as u32) + 65664 - 38 * (r as u32) - 74 * (g as u32);
    let q: i32 = (t / 256) as i32 - 256 + 128;
    proof {
        let s = -38 * r - 74 * g + 112 * b + 128;
        lemma_fundamental_div_mod_converse(t as int, 256, s / 256 + 256, s % 256);
    }
    clamp_byte(q)
}

/// Computes `chroma_v_of` on one pixel, shifted as `chroma_u` is.
pub fn chroma_v(r: u8, g: u8, b: u8) -> (res: u8)
    ensures
        res == chroma_v_of(r, g, b),
{
    let t: u32 = 112 * (r as u32) + 65664 - 94 * (g as u32) - 18 * (b as u32);
    let q: i32 = (t / 256) as i32 - 256 + 128;
    proof {
        let s = 112 * r - 94 * g - 18 * b + 128;
        lemma_fundamental_div_mod_converse(t as int, 256, s / 256 + 256, s % 256);
    }
    clamp_byte(q)
}

/// An 8-bit RGB raster, row-major, three bytes per pixel.
#[derive(Clone, Debug)]
pub struct Raster {
    pub width: u32,
    pub height: u32,
    pub data: Vec<u8>,
}

/// The red byte of the pixel at column `x`, row `y` of a row-major RGB
/// buffer `w` pixels wide.
pub open spec fn rgb_red(w: int, data: Seq<u8>, x: int, y: int) -> u8 {
    data[3 * (y * w + x)]
}

/// The green byte of the pixel at column `x`, row `y`.
pub open spec fn rgb_green(w: int, data: Seq<u8>, x: int, y: int) -> u8 {
    data[3 * (y * w + x) + 1]
}

/// The blue byte of the pixel at column `x`, row `y`.
pub open spec fn rgb_blue(w: int, data: Seq<u8>, x: int, y: int) -> u8 {
    data[3 * (y * w + x) + 2]
}

impl Raster {
    /// The pixel data covers exactly the declared dimensions.
    pub open spec fn wf(&self) -> bool {
        self.data@.len() == 3 * (self.width as int) * (self.height as int)
    }

    /// The red byte of the pixel at column `x`, row `y`.
    pub open spec fn red(&self, x: int, y: int) -> u8 {
        rgb_red(self.width as int, self.data@, x, y)
    }

    /// The green byte of the pixel at column `x`, row `y`.
    pub open spec fn green(&self, x: int, y: int) -> u8 {
        rgb_green(self.width as int, self.data@, x, y)
    }

    /// The blue byte of the pixel at column `x`, row `y`.
    pub open spec fn blue(&self, x: int, y: int) -> u8 {
        rgb_blue(self.width as int, self.data@, x, y)
    }
}

/// A chroma plane's extent: half the luma extent, rounded up.
pub open spec fn chroma_extent(n: int) -> int {
    (n + 1) / 2
}

/// The luma plane of an RGB buffer: `luma_of` of every pixel, row-major.
pub open spec fn luma_plane_of(w: int, h: int, data: Seq<u8>) -> Seq<u8> {
    Seq::new(
        (h * w) as nat,
        |i: int| luma_of(
            rgb_red(w, data, i % w, i / w),
            rgb_green(w, data, i % w, i / w),
            rgb_blue(w, data, i % w, i / w),
        ),
    )
}

/// The U plane of an RGB buffer: `chroma_u_of` of every second pixel in
/// both axes, row-major.
pub open spec fn chroma_u_plane_of(w: int, h: int, data: Seq<u8>) -> Seq<u8> {
    let cw = chroma_extent(w);
    Seq::new(
        (chroma_extent(h) * cw) as nat,
        |i: int| chroma_u_of(
            rgb_red(w, data, 2 * (i % cw), 2 * (i / cw)),
            rgb_green(w, data, 2 * (i % cw), 2 * (i / cw)),
            rgb_blue(w, data, 2 * (i % cw), 2 * (i / cw)),
        ),
    )
}

/// The V plane of an RGB buffer: `chroma_v_of` of every second pixel in
/// both axes, row-major.
pub open spec fn chroma_v_plane_of(w: int, h: int, data: Seq<u8>) -> Seq<u8> {
    let cw = chroma_extent(w);
    Seq::new(
        (chroma_extent(h) * cw) as nat,
        |i: int| chroma_v_of(
            rgb_red(w, data, 2 * (i % cw), 2 * (i / cw)),
            rgb_green(w, data, 2 * (i % cw), 2 * (i / cw)),
            rgb_blue(w, data, 2 * (i % cw), 2 * (i / cw)),
        ),
    )
}

/// The luma plane of a raster.
pub open spec fn spec_luma_plane(img: Raster) -> Seq<u8> {
    luma_plane_of(img.width as int, img.height as int, img.data@)
}

/// The U plane of a raster.
pub open spec fn spec_chroma_u_plane(img: Raster) -> Seq<u8> {
    chroma_u_plane_of(img.width as int, img.height as int, img.data@)
}

/// The V plane of a raster.
pub open spec fn spec_chroma_v_plane(img: Raster) -> Seq<u8> {
    chroma_v_plane_of(img.width as int, img.height as int, img.data@)
}

/// A planar 4:2:0 frame: a full-resolution luma plane and two chroma
/// planes at half resolution in both axes.
#[derive(Clone, Debug)]
pub struct PlanarFrame {
    pub width: u32,
    pub height: u32,
    pub luma: Vec<u8>,
    pub chroma_u: Vec<u8>,
    pub chroma_v: Vec<u8>,
}

impl PlanarFrame {
    /// Plane sizes match the declared dimensions: the luma plane covers
    /// every pixel, each chroma plane `ceil(w/2) * ceil(h/2)` samples.
    pub open spec fn wf(&self) -> bool {
        &&& self.luma@.len() == self.height as int * self.width as int
        &&& self.chroma_u@.len() == chroma_extent(self.height as int) * chroma_extent(
            self.width as int,
        )
        &&& self.chroma_v@.len() == chroma_extent(self.height as int) * chroma_extent(
            self.width as int,
        )
    }
}

/// Reads the three bytes of the pixel at column `x`, row `y`.
fn pixel_at(img: &Raster, x: u32, y: u32) -> (rgb: (u8, u8, u8))
    requires
        img.wf(),
        x < img.width,
        y < img.height,
    ensures
        rgb.0 == img.red(x as int, y as int),
        rgb.1 == img.green(x as int, y as int),
        rgb.2 == img.blue(x as int, y as int),
{
    let n = img.data.len();
    proof {
        let w = img.width as int;
        let h = img.height as int;
        let j = (y as int) * w + (x as int);
        assert(0 <= j && 3 * j + 2 < 3 * w * h) by (nonlinear_arith)
            requires
                0 <= (x as int) < w,
                0 <= (y as int) < h,
                j == (y as int) * w + (x as int),
        ;
        assert(3 * j + 2 < n as int);
    }
    let idx: usize = 3 * ((y as usize) * (img.width as usize) + (x as usize));
    (img.data[idx], img.data[idx + 1], img.data[idx + 2])
}

/// The luma plane of `img`, as `spec_luma_plane` states it.
pub fn luma_plane(img: &Raster) -> (dest: Vec<u8>)
    requires
        img.wf(),
    ensures
        dest@ == spec_luma_plane(*img),
{
    let w = img.width;
    let h = img.height;
    let ghost plane = spec_luma_plane(*img);
    let mut dest: Vec<u8> = Vec::new();
    let mut y: u32 = 0;
    while y < h
        invariant
            img.wf(),
            w == img.width,
            h == img.height,
            0 <= y <= h,
            dest@.len() == y as int * w as int,
            dest@ == plane.take(y as int * w as int),
            plane == spec_luma_plane(*img),
        decreases h - y,
    {
        let mut x: u32 = 0;
        while x < w
            invariant
                img.wf(),
                w == img.width,
                h == img.height,
                0 <= y < h,
                0 <= x <= w,
                dest@.len() == y as int * w as int + x as int,
                dest@ == plane.take(y as int * w as int + x as int),
                plane == spec_luma_plane(*img),
            decreases w - x,
        {
            let (r, g, b) = pixel_at(img, x, y);
            proof {
                let j = y as int * w as int + x as int;
                assert(j < h as int * w as int && j + 1 <= h as int * w as int)
                    by (nonlinear_arith)
                    requires
                        0 <= x < w as int,
                        0 <= y < h as int,
                        j == y as int * w as int + x as int,
                ;
                lemma_fundamental_div_mod_converse(j, w as int, y as int, x as int);
                assert(plane.take(j + 1) =~= plane.take(j) + seq![plane[j]]);
            }
            dest.push(luma(r, g, b));
            x = x + 1;
        }
        proof {
            assert((y as int + 1) * (w as int) == y as int * (w as int) + w as int)
                by (nonlinear_arith);
        }
        y = y + 1;
    }
    proof {
        assert(plane.take(h as int * w as int) =~= plane);
    }
    dest
}

/// One chroma plane of `img`: the V plane when `second` is set, else the
/// U plane, sampling every second pixel in both axes.
fn chroma_plane(img: &Raster, second: bool) -> (dest: Vec<u8>)
    requires
        img.wf(),
    ensures
        dest@ == if second {
            spec_chroma_v_plane(*img)
        } else {
            spec_chroma_u_plane(*img)
        },
{
    let w = img.width;
    let h = img.height;
    let cw: u32 = w / 2 + w % 2;
    let ch: u32 = h / 2 + h % 2;
    proof {
        assert(cw as int == chroma_extent(w as int));
        assert(ch as int == chroma_extent(h as int));
    }
    let ghost plane = if second {
        spec_chroma_v_plane(*img)
    } else {
        spec_chroma_u_plane(*img)
    };
    let mut dest: Vec<u8> = Vec::new();
    let mut cy: u32 = 0;
    while cy < ch
        invariant
            img.wf(),
            w == img.width,
            h == img.height,
            cw as int == chroma_extent(w as int),
            ch as int == chroma_extent(h as int),
            0 <= cy <= ch,
            dest@.len() == cy as int * cw as int,
            dest@ == plane.take(cy as int * cw as int),
            plane == if second {
                spec_chroma_v_plane(*img)
            } else {
                spec_chroma_u_plane(*img)
            },
        decreases ch - cy,
    {
        let mut cx: u32 = 0;
        while cx < cw
            invariant
                img.wf(),
                w == img.width,
                h == img.height,
                cw as int == chroma_extent(w as int),
                ch as int == chroma_extent(h as int),
                0 <= cy < ch,
                0 <= cx <= cw,
                dest@.len() == cy as int * cw as int + cx as int,
                dest@ == plane.take(cy as int * cw as int + cx as int),
                plane == if second {
                    spec_chroma_v_plane(*img)
                } else {
                    spec_chroma_u_plane(*img)
                },
            decreases cw - cx,
        {
            let (r, g, b) = pixel_at(img, 2 * cx, 2 * cy);
            proof {
                let j = cy as int * cw as int + cx as int;
                assert(j < ch as int * cw as int && j + 1 <= ch as int * cw as int)
                    by (nonlinear_arith)
                    requires
                        0 <= cx < cw as int,
                        0 <= cy < ch as int,
                        j == cy as int * cw as int + cx as int,
                ;
                lemma_fundamental_div_mod_converse(j, cw as int, cy as int, cx as int);
                assert(plane.take(j + 1) =~= plane.take(j) + seq![plane[j]]);
            }
            let sample = if second {
                chroma_v(r, g, b)
            } else {
                chroma_u(r, g, b)
            };
            dest.push(sample);
            cx = cx + 1;
        }
        proof {
            assert((cy as int + 1) * (cw as int) == cy as int * (cw as int) + cw as int)
                by (nonlinear_arith);
        }
        cy = cy + 1;
    }
    proof {
        assert(plane.take(ch as int * cw as int) =~= plane);
    }
    dest
}

/// Converts a raster to its planar 4:2:0 form, applying the fixed
/// integer transform pixel by pixel.
pub fn planar_from_rgb(img: &Raster) -> (frame: PlanarFrame)
    requires
        img.wf(),
    ensures
        frame.wf(),
        frame.width == img.width,
        frame.height == img.height,
        frame.luma@ == spec_luma_plane(*img),
        frame.chroma_u@ == spec_chroma_u_plane(*img),
        frame.chroma_v@ == spec_chroma_v_plane(*img),
{
    PlanarFrame {
        width: img.width,
        height: img.height,
        luma: luma_plane(img),
        chroma_u: chroma_plane(img, false),
        chroma_v: chroma_plane(img, true),
    }
}

impl PlanarFrame {
    /// The planes laid out contiguously, luma first, as an I420 buffer.
    pub fn i420_bytes(&self) -> (r: Vec<u8>)
        ensures
            r@ == self.luma@ + self.chroma_u@ + self.chroma_v@,
    {
        let mut out: Vec<u8> = Vec::new();
        append_bytes(&mut out, &self.luma);
        append_bytes(&mut out, &self.chroma_u);
        append_bytes(&mut out, &self.chroma_v);
        proof {
            assert(Seq::<u8>::empty() + self.luma@ =~= self.luma@);
        }
        out
    }
}

/// Appends all of `src` to `dest`.
fn append_bytes(dest: &mut Vec<u8>, src: &Vec<u8>)
    ensures
        final(dest)@ == old(dest)@ + src@,
{
    let n = src.len();
    let mut i: usize = 0;
    proof {
        assert(old(dest)@ + src@.take(0) =~= old(dest)@);
    }
    while i < n
        invariant
            n == src@.len(),
            0 <= i <= n,
            dest@ == old(dest)@ + src@.take(i as int),
        decreases n - i,
    {
        dest.push(src[i]);
        proof {
            assert(src@.take(i + 1) =~= src@.take(i as int) + seq![src@[i as int]]);
        }
        i = i + 1;
    }
    proof {
        assert(src@.take(n as int) =~= src@);
    }
}

/// Converts a raster to one contiguous I420 buffer: the luma plane of
/// every pixel, then the U plane, then the V plane.
pub fn rgb_to_i420(img: &Raster) -> (dest: Vec<u8>)
    requires
        img.wf(),
    ensures
        dest@ == spec_luma_plane(*img) + spec_chroma_u_plane(*img) + spec_chroma_v_plane(*img),
{
    let frame = planar_from_rgb(img);
    frame.i420_bytes()
}

/// The transform is a pure function of the pixel bytes: rasters with the
/// same dimensions and data yield the same planes.
pub proof fn lemma_planes_deterministic(a: Raster, b: Raster)
    requires
        a.width == b.width,
        a.height == b.height,
        a.data@ == b.data@,
    ensures
        spec_luma_plane(a) == spec_luma_plane(b),
        spec_chroma_u_plane(a) == spec_chroma_u_plane(b),
        spec_chroma_v_plane(a) == spec_chroma_v_plane(b),
{
    assert(spec_luma_plane(a) =~= spec_luma_plane(b));
    assert(spec_chroma_u_plane(a) =~= spec_chroma_u_plane(b));
    assert(spec_chroma_v_plane(a) =~= spec_chroma_v_plane(b));
}

/// What a JPEG decodes to, if anything: dimensions and RGB bytes.
pub uninterp spec fn jpeg_rgb(s: Seq<u8>) -> Option<(u32, u32, Seq<u8>)>;

/// Relies on `image::io::Reader::decode` with the JPEG format and
/// `DynamicImage::to_rgb8`: decoding succeeds or fails on the bytes
/// alone, and the RGB buffer holds three bytes for each of width times
/// height pixels.
#[verifier::external_body]
pub fn decode_jpeg_rgb(bytes: &Vec<u8>) -> (r: Option<Raster>)
    ensures
        r is Some <==> jpeg_rgb(bytes@) is Some,
        r is Some ==> {
            let m = jpeg_rgb(bytes@)->Some_0;
            &&& r->Some_0.width == m.0
            &&& r->Some_0.height == m.1
            &&& r->Some_0.data@ == m.2
            &&& r->Some_0.wf()
        },
{
    let reader = image::io::Reader::with_format(
        std::io::Cursor::new(bytes.as_slice()),
        image::ImageFormat::Jpeg,
    );
    let img = reader.decode().ok()?.to_rgb8();
    Some(Raster { width: img.width(), height: img.height(), data: img.into_raw() })
}

} // verus!
