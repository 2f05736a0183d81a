//! The thumbnail canvas: a decoded picture scaled down to fit 512 by 512,
//! placed at the top left of a black canvas, its alpha dropped.
use vstd::prelude::*;

verus! {

/// The side of the square canvas, in pixels.
pub const CANVAS_SIDE: u32 = 512;

/// The number of bytes of a canvas: three samples per pixel.
pub const CANVAS_BYTES: usize = 786432;

/// A decoded picture: rows from the top, four samples per pixel (red,
/// green, blue, alpha).
pub struct Picture {
    pub width: u32,
    pub height: u32,
    pub pixels: Vec<u8>,
}

impl Picture {
    pub open spec fn wf(&self) -> bool {
        self.pixels@.len() == self.width as int * self.height as int * 4
    }
}

/// The composed canvas: 512 rows of 512 pixels from the top left, three
/// samples per pixel (red, green, blue).
pub struct Canvas {
    pub pixels: Vec<u8>,
}

impl Canvas {
    pub open spec fn wf(&self) -> bool {
        self.pixels@.len() == CANVAS_BYTES
    }
}

/// Pixels of the image crate's triangle-filter resize of a picture of
/// `width` by `height` to `new_width` by `new_height`.
pub uninterp spec fn triangle_resized(
    pixels: Seq<u8>,
    width: nat,
    height: nat,
    new_width: nat,
    new_height: nat,
) -> Seq<u8>;

/// The texture container that the vtf crate writes for a 512 by 512 canvas
/// of three-sample pixels, without compression.
pub uninterp spec fn rgb888_texture(pixels: Seq<u8>) -> Seq<u8>;

/// What the image crate decodes from `bytes` (format guessed from them),
/// as width, height and four samples per pixel; `None` where it fails.
pub uninterp spec fn decoded_rgba(bytes: Seq<u8>) -> Option<(u32, u32, Seq<u8>)>;

/// Whether a picture must be scaled down to fit the canvas; one without
/// pixels never is.
pub open spec fn exceeds_canvas(width: nat, height: nat) -> bool {
    width > 0 && height > 0 && (width > CANVAS_SIDE || height > CANVAS_SIDE)
}

/// `a * n / d` rounded to the nearest integer, halves up, and at least one.
pub open spec fn scaled_side(a: nat, n: nat, d: nat) -> nat {
    let q = (2 * a * n + d) / (2 * d);
    if q == 0 {
        1
    } else {
        q
    }
}

/// The size that a picture takes on the canvas: nothing where it has no
/// pixels, itself where it fits,
/// else scaled down so that its larger side is 512, its aspect kept.
pub open spec fn fitted_size(width: nat, height: nat) -> (nat, nat) {
    if width == 0 || height == 0 {
        (0, 0)
    } else if !exceeds_canvas(width, height) {
        (width, height)
    } else if width >= height {
        (CANVAS_SIDE as nat, scaled_side(height, CANVAS_SIDE as nat, width))
    } else {
        (scaled_side(width, CANVAS_SIDE as nat, height), CANVAS_SIDE as nat)
    }
}

/// Sample `idx` of the canvas on which a picture of `width` by `height`
/// (four samples per pixel) stands at the top left: the picture's sample
/// where the pixel lies inside it, black elsewhere.
pub open spec fn canvas_sample(src: Seq<u8>, width: nat, height: nat, idx: int) -> u8 {
    let y = idx / (3 * CANVAS_SIDE as int);
    let x = (idx % (3 * CANVAS_SIDE as int)) / 3;
    let c = idx % 3;
    if x < width && y < height {
        src[(y * width + x) * 4 + c]
    } else {
        0
    }
}

/// Whether `pixels` is the canvas with that picture at its top left.
pub open spec fn is_canvas_of(pixels: Seq<u8>, src: Seq<u8>, width: nat, height: nat) -> bool {
    &&& pixels.len() == CANVAS_BYTES
    &&& forall|i: int| 0 <= i < CANVAS_BYTES ==> pixels[i] == #[trigger] canvas_sample(src, width, height, i)
}

/// Whether `pixels` is the canvas for a decoded picture of `width` by
/// `height` with samples `src`: scaled down first where it exceeds the
/// canvas, never scaled up.
pub open spec fn is_thumbnail_of(pixels: Seq<u8>, width: nat, height: nat, src: Seq<u8>) -> bool {
    let (w, h) = fitted_size(width, height);
    if exceeds_canvas(width, height) {
        is_canvas_of(pixels, triangle_resized(src, width, height, w, h), w, h)
    } else {
        is_canvas_of(pixels, src, w, h)
    }
}

/// The all-black canvas.
pub open spec fn black_canvas() -> Seq<u8> {
    Seq::new(CANVAS_BYTES as nat, |i: int| 0u8)
}

/// The size that a picture takes on the canvas.
pub fn fit_to_canvas(width: u32, height: u32) -> (r: (u32, u32))
    ensures
        (r.0 as nat, r.1 as nat) == fitted_size(width as nat, height as nat),
        r.0 <= CANVAS_SIDE && r.1 <= CANVAS_SIDE,
        r.0 <= width && r.1 <= height,
{
    if width == 0 || height == 0 {
        (0, 0)
    } else if width <= CANVAS_SIDE && height <= CANVAS_SIDE {
        (width, height)
    } else if width >= height {
        let (a, d) = (height as u64, width as u64);
        proof { lemma_scaled_side_bounds(a as nat, d as nat); }
        let q = (2 * a * 512 + d) / (2 * d);
        (CANVAS_SIDE, if q == 0 { 1 } else { q as u32 })
    } else {
        let (a, d) = (width as u64, height as u64);
        proof { lemma_scaled_side_bounds(a as nat, d as nat); }
        let q = (2 * a * 512 + d) / (2 * d);
        (if q == 0 { 1 } else { q as u32 }, CANVAS_SIDE)
    }
}

proof fn lemma_scaled_side_bounds(a: nat, d: nat)
    requires
        a <= d,
        d > 512,
        d <= u32::MAX,
    ensures
        scaled_side(a, 512, d) <= 512,
        scaled_side(a, 512, d) <= a || a == 0,
        2 * a * 512 + d <= u64::MAX,
{
    let (ai, di) = (a as int, d as int);
    let n = 2 * ai * 512 + di;
    assert(n < 513 * (2 * di)) by (nonlinear_arith)
        requires ai <= di, di > 512, n == 2 * ai * 512 + di;
    vstd::arithmetic::div_mod::lemma_div_by_multiple_is_strongly_ordered(n, 513 * (2 * di), 513, 2 * di);
    vstd::arithmetic::div_mod::lemma_div_by_multiple(513, 2 * di);
    if a > 0 {
        assert(n < (ai + 1) * (2 * di)) by (nonlinear_arith)
            requires ai > 0, ai <= di, di > 512, n == 2 * ai * 512 + di;
        vstd::arithmetic::div_mod::lemma_div_by_multiple_is_strongly_ordered(n, (ai + 1) * (2 * di), ai + 1, 2 * di);
        vstd::arithmetic::div_mod::lemma_div_by_multiple(ai + 1, 2 * di);
    }
}

} // verus!

verus! {

#[verifier::external_type_specification]
#[verifier::external_body]
pub struct ExImageError(image::ImageError);

#[verifier::external_type_specification]
#[verifier::external_body]
pub struct ExVtfError(vtf::Error);

/// Relies on image::ImageReader (format guessed from the bytes, then
/// decode) and DynamicImage::to_rgba8: a picture of four samples per pixel.
#[verifier::external_body]
fn decode_picture(bytes: &[u8]) -> (r: Result<Picture, image::ImageError>)
    ensures
        r is Ok <==> decoded_rgba(bytes@) is Some,
        r matches Ok(p) ==> p.wf() && decoded_rgba(bytes@) == Some((p.width, p.height, p.pixels@)),
{
    let img = image::ImageReader::new(std::io::Cursor::new(bytes))
        .with_guessed_format()
        .map_err(image::ImageError::IoError)?
        .decode()?
        .to_rgba8();
    Ok(Picture { width: img.width(), height: img.height(), pixels: img.into_raw() })
}

/// Relies on image::imageops::resize with the triangle filter: a picture of
/// exactly the new size.
#[verifier::external_body]
fn resize_picture(p: &Picture, new_width: u32, new_height: u32) -> (r: Picture)
    requires
        p.wf(),
    ensures
        r.width == new_width,
        r.height == new_height,
        r.wf(),
        r.pixels@ == triangle_resized(
            p.pixels@,
            p.width as nat,
            p.height as nat,
            new_width as nat,
            new_height as nat,
        ),
{
    let src = image::RgbaImage::from_raw(p.width, p.height, p.pixels.clone()).unwrap_or_default();
    let out = image::imageops::resize(&src, new_width, new_height,
        image::imageops::FilterType::Triangle);
    Picture { width: new_width, height: new_height, pixels: out.into_raw() }
}

/// Relies on vtf::vtf::VTF::create with the uncompressed RGB888 format:
/// a 512 by 512 image has power-of-two sides and this format is encoded,
/// so it succeeds, writing a 64-byte header and then the samples as they
/// are.
#[verifier::external_body]
fn encode_rgb888(c: &Canvas) -> (r: Result<Vec<u8>, vtf::Error>)
    requires
        c.wf(),
    ensures
        r is Ok,
        r is Ok ==> r->Ok_0@ == rgb888_texture(c.pixels@),
        r is Ok ==> r->Ok_0@.len() == 64 + c.pixels@.len(),
        r is Ok ==> r->Ok_0@.subrange(64, r->Ok_0@.len() as int) == c.pixels@,
{
    let buf = image::RgbImage::from_raw(CANVAS_SIDE, CANVAS_SIDE, c.pixels.clone()).unwrap_or_default();
    vtf::vtf::VTF::create(image::DynamicImage::ImageRgb8(buf), vtf::ImageFormat::Rgb888)
}

proof fn lemma_sample_in_picture(width: nat, height: nat, idx: int)
    requires
        0 <= idx < CANVAS_BYTES,
        width <= CANVAS_SIDE,
        height <= CANVAS_SIDE,
    ensures
        ({
            let y = idx / 1536;
            let x = (idx % 1536) / 3;
            let c = idx % 3;
            &&& 0 <= y < 512 && 0 <= x < 512 && 0 <= c < 3
            &&& (x < width && y < height) ==> 0 <= (y * width + x) * 4 + c < width * height * 4
            &&& (x < width && y < height) ==> y * width + x < width * height <= 262144
        }),
{
    let y = idx / 1536;
    let x = (idx % 1536) / 3;
    let c = idx % 3;
    assert(0 <= y < 512 && 0 <= x < 512 && 0 <= c < 3) by (nonlinear_arith)
        requires 0 <= idx < 786432, y == idx / 1536, x == (idx % 1536) / 3, c == idx % 3;
    if x < width && y < height {
        assert(0 <= (y * width + x) * 4 + c < width * height * 4) by (nonlinear_arith)
            requires 0 <= x < width, 0 <= y < height, 0 <= c < 3;
        assert(y * width + x < width * height <= 262144) by (nonlinear_arith)
            requires 0 <= x < width, 0 <= y < height, width <= 512, height <= 512;
    }
}

/// Places a picture that fits the canvas at the canvas's top left on black,
/// keeping red, green and blue and dropping alpha.
pub fn compose_canvas(p: &Picture) -> (r: Canvas)
    requires
        p.wf(),
        p.width <= CANVAS_SIDE,
        p.height <= CANVAS_SIDE,
    ensures
        r.wf(),
        is_canvas_of(r.pixels@, p.pixels@, p.width as nat, p.height as nat),
{
    let w = p.width as usize;
    let h = p.height as usize;
    let mut out: Vec<u8> = Vec::new();
    let mut idx: usize = 0;
    while idx < CANVAS_BYTES
        invariant
            w == p.width,
            h == p.height,
            p.wf(),
            w <= 512 && h <= 512,
            idx <= CANVAS_BYTES,
            out@.len() == idx,
            forall|i: int| 0 <= i < idx ==> out@[i] == #[trigger] canvas_sample(p.pixels@, w as nat, h as nat, i),
        decreases CANVAS_BYTES - idx,
    {
        proof { lemma_sample_in_picture(w as nat, h as nat, idx as int); }
        let y = idx / 1536;
        let x = (idx % 1536) / 3;
        let c = idx % 3;
        let v: u8 = if x < w && y < h {
            p.pixels[(y * w + x) * 4 + c]
        } else {
            0
        };
        out.push(v);
        idx = idx + 1;
    }
    Canvas { pixels: out }
}

/// The canvas for a decoded picture: scaled down with the triangle filter
/// where it exceeds 512 by 512, never scaled up, then composed.
pub fn compose_thumbnail(p: &Picture) -> (r: Canvas)
    requires
        p.wf(),
    ensures
        r.wf(),
        is_thumbnail_of(r.pixels@, p.width as nat, p.height as nat, p.pixels@),
{
    let (w, h) = fit_to_canvas(p.width, p.height);
    if p.width == 0 || p.height == 0 {
        let empty = Picture { width: 0, height: 0, pixels: Vec::new() };
        let r = compose_canvas(&empty);
        assert forall|i: int| 0 <= i < CANVAS_BYTES implies r.pixels@[i] == #[trigger] canvas_sample(
            p.pixels@,
            0,
            0,
            i,
        ) by {
            assert(r.pixels@[i] == canvas_sample(empty.pixels@, 0, 0, i));
        }
        r
    } else if p.width <= CANVAS_SIDE && p.height <= CANVAS_SIDE {
        compose_canvas(p)
    } else {
        let resized = resize_picture(p, w, h);
        compose_canvas(&resized)
    }
}

/// Decodes thumbnail bytes of any supported image format and composes
/// their canvas.
pub fn thumbnail_canvas(bytes: &[u8]) -> (r: Result<Canvas, crate::error::ReplayError>)
    ensures
        decoded_rgba(bytes@) matches Some(d) ==> r matches Ok(c) && c.wf() && is_thumbnail_of(
            c.pixels@,
            d.0 as nat,
            d.1 as nat,
            d.2,
        ),
        decoded_rgba(bytes@) is None ==> r == Err::<Canvas, crate::error::ReplayError>(
            crate::error::ReplayError::ThumbnailUnreadable,
        ),
{
    match decode_picture(bytes) {
        Ok(p) => Ok(compose_thumbnail(&p)),
        Err(_) => Err(crate::error::ReplayError::ThumbnailUnreadable),
    }
}

/// The texture container for a canvas: a 64-byte header, then the canvas
/// samples as they are.
pub fn encode_texture(c: &Canvas) -> (r: Vec<u8>)
    requires
        c.wf(),
    ensures
        r@ == rgb888_texture(c.pixels@),
        r@.len() == 64 + CANVAS_BYTES,
        r@.subrange(64, r@.len() as int) == c.pixels@,
{
    match encode_rgb888(c) {
        Ok(b) => b,
        Err(_) => Vec::new(),
    }
}

/// The canvas for no thumbnail at all: all black.
pub fn blank_canvas() -> (r: Canvas)
    ensures
        r.wf(),
        r.pixels@ == black_canvas(),
{
    let empty = Picture { width: 0, height: 0, pixels: Vec::new() };
    let r = compose_canvas(&empty);
    assert forall|i: int| 0 <= i < CANVAS_BYTES implies r.pixels@[i] == black_canvas()[i] by {
        assert(r.pixels@[i] == canvas_sample(empty.pixels@, 0, 0, i));
    }
    assert(r.pixels@ =~= black_canvas());
    r
}

/// No canvas exceeds 512 by 512 and no picture is scaled up: the picture
/// that stands on the canvas is never larger than the canvas or than the
/// decoded one, and a picture without pixels leaves the canvas all black.
pub proof fn lemma_thumbnail_never_upscales(p: Picture, pixels: Seq<u8>)
    requires
        p.wf(),
        is_thumbnail_of(pixels, p.width as nat, p.height as nat, p.pixels@),
    ensures
        pixels.len() == 512 * 512 * 3,
        fitted_size(p.width as nat, p.height as nat).0 <= 512,
        fitted_size(p.width as nat, p.height as nat).1 <= 512,
        fitted_size(p.width as nat, p.height as nat).0 <= p.width,
        fitted_size(p.width as nat, p.height as nat).1 <= p.height,
        p.width == 0 || p.height == 0 ==> forall|i: int| 0 <= i < pixels.len() ==> pixels[i] == 0,
{
    if exceeds_canvas(p.width as nat, p.height as nat) {
        if p.width >= p.height {
            lemma_scaled_side_bounds(p.height as nat, p.width as nat);
        } else {
            lemma_scaled_side_bounds(p.width as nat, p.height as nat);
        }
    }
    if p.width == 0 || p.height == 0 {
        assert forall|i: int| 0 <= i < pixels.len() implies pixels[i] == 0 by {
            assert(pixels[i] == canvas_sample(p.pixels@, 0, 0, i));
        }
    }
}

} // verus!
