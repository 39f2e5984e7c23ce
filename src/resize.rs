use vstd::prelude::*;

use image::{AnimationDecoder, ImageDecoder};

use crate::errors::{AlicError, AlicErrorType};
use crate::format::{probe_bytes, probe_spec, ImageType, Probe};
use crate::geometry::{
    fit_spec, fit_within, fits, gif_ratio, lemma_fit_within_box, gif_scale_ratio, mul_wide, scale_frame_geometry,
    scaled_frame, FrameGeometry,
};
use crate::paths::chars_of;

verus! {

#[verifier::external_type_specification]
#[verifier::external_body]
pub struct ExImageError(image::ImageError);

/// A solid colour, as read from a hex string.
#[derive(Debug, Clone, Copy, PartialEq, Eq, Structural)]
pub struct Color {
    pub r: u8,
    pub g: u8,
    pub b: u8,
}

/// A string with its leading '#' characters taken off.
pub open spec fn trim_hashes(s: Seq<char>) -> Seq<char>
    decreases s.len(),
{
    if s.len() > 0 && s[0] == '#' {
        trim_hashes(s.drop_first())
    } else {
        s
    }
}

pub open spec fn is_hex_digit(c: char) -> bool {
    ('0' <= c && c <= '9') || ('a' <= c && c <= 'f') || ('A' <= c && c <= 'F')
}

pub open spec fn hex_val(c: char) -> nat {
    if '0' <= c && c <= '9' {
        ((c as u32) - ('0' as u32)) as nat
    } else if 'a' <= c && c <= 'f' {
        ((c as u32) - ('a' as u32) + 10) as nat
    } else {
        ((c as u32) - ('A' as u32) + 10) as nat
    }
}

/// The colour that a hex string names: after any leading '#', three digits
/// (each doubled) or six; `None` for anything else.
pub open spec fn parse_hex_spec(s: Seq<char>) -> Option<Color> {
    let t = trim_hashes(s);
    if t.len() == 3 && is_hex_digit(t[0]) && is_hex_digit(t[1]) && is_hex_digit(t[2]) {
        Some(
            Color {
                r: (hex_val(t[0]) * 17) as u8,
                g: (hex_val(t[1]) * 17) as u8,
                b: (hex_val(t[2]) * 17) as u8,
            },
        )
    } else if t.len() == 6 && (forall|i: int| 0 <= i < 6 ==> is_hex_digit(#[trigger] t[i])) {
        Some(
            Color {
                r: (hex_val(t[0]) * 16 + hex_val(t[1])) as u8,
                g: (hex_val(t[2]) * 16 + hex_val(t[3])) as u8,
                b: (hex_val(t[4]) * 16 + hex_val(t[5])) as u8,
            },
        )
    } else {
        None
    }
}

/// The value of one hex digit.
fn hex_digit(c: char) -> (r: Option<u8>)
    ensures
        r is Some <==> is_hex_digit(c),
        r matches Some(v) ==> v as nat == hex_val(c) && v < 16,
{
    if '0' <= c && c <= '9' {
        Some(((c as u32) - ('0' as u32)) as u8)
    } else if 'a' <= c && c <= 'f' {
        Some(((c as u32) - ('a' as u32) + 10) as u8)
    } else if 'A' <= c && c <= 'F' {
        Some(((c as u32) - ('A' as u32) + 10) as u8)
    } else {
        None
    }
}

fn invalid_hex(s: &str) -> (r: AlicError)
    ensures
        r.error_type == AlicErrorType::InvalidHexColor,
{
    let mut msg = String::from_str("Invalid hex color: ");
    msg.append(s);
    AlicError { error: msg, error_type: AlicErrorType::InvalidHexColor }
}

impl Color {
    /// Reads a colour from `#rgb`, `#rrggbb`, or the same without '#'.
    pub fn from_hex(s: &str) -> (r: Result<Color, AlicError>)
        ensures
            r is Ok <==> parse_hex_spec(s@) is Some,
            r matches Ok(c) ==> parse_hex_spec(s@) == Some(c),
            r matches Err(e) ==> e.error_type == AlicErrorType::InvalidHexColor,
    {
        let v = chars_of(s);
        let n = v.len();
        let mut i: usize = 0;
        assert(s@.subrange(0, n as int) =~= s@);
        while i < n && v[i] == '#'
            invariant
                v@ == s@,
                n == v@.len(),
                i <= n,
                trim_hashes(s@) == trim_hashes(s@.subrange(i as int, n as int)),
            decreases n - i,
        {
            assert(s@.subrange(i as int, n as int).drop_first() =~= s@.subrange(i + 1, n as int));
            i = i + 1;
        }
        let ghost t = s@.subrange(i as int, n as int);
        assert(trim_hashes(s@) == t);
        if n - i == 3 {
            match (hex_digit(v[i]), hex_digit(v[i + 1]), hex_digit(v[i + 2])) {
                (Some(a), Some(b), Some(c)) => {
                    assert(t[0] == v@[i as int] && t[1] == v@[i + 1] && t[2] == v@[i + 2]);
                    Ok(Color { r: a * 17, g: b * 17, b: c * 17 })
                },
                _ => {
                    assert(t[0] == v@[i as int] && t[1] == v@[i + 1] && t[2] == v@[i + 2]);
                    Err(invalid_hex(s))
                },
            }
        } else if n - i == 6 {
            let mut d: Vec<u8> = Vec::new();
            let mut k: usize = 0;
            while k < 6
                invariant
                    n - i == 6,
                    v@ == s@,
                    n == v@.len(),
                    t == s@.subrange(i as int, n as int),
                    trim_hashes(s@) == t,
                    k <= 6,
                    d@.len() == k,
                    forall|j: int| 0 <= j < k ==> is_hex_digit(#[trigger] t[j]),
                    forall|j: int| 0 <= j < k ==> d@[j] as nat == hex_val(#[trigger] t[j]) && d@[j] < 16,
                decreases 6 - k,
            {
                match hex_digit(v[i + k]) {
                    Some(x) => d.push(x),
                    None => {
                        assert(t[k as int] == v@[i + k]);
                        assert(!is_hex_digit(t[k as int]));
                        assert(!(forall|j: int| 0 <= j < 6 ==> is_hex_digit(#[trigger] t[j])));
                        assert(parse_hex_spec(s@) is None);
                        return Err(invalid_hex(s));
                    },
                }
                k = k + 1;
            }
            Ok(Color { r: d[0] * 16 + d[1], g: d[2] * 16 + d[3], b: d[4] * 16 + d[5] })
        } else {
            Err(invalid_hex(s))
        }
    }
}


/// The orientation tag of the primary image in a file's EXIF block, where the
/// file has one and the tag holds an unsigned integer.
pub uninterp spec fn exif_orientation_of(b: Seq<u8>) -> Option<u32>;

/// Relies on kamadak-exif's Reader::read_from_container, Exif::get_field and
/// Value::get_uint: reads the Orientation tag of the primary image.
#[verifier::external_body]
fn exif_orientation(b: &[u8]) -> (r: Option<u32>)
    ensures
        r == exif_orientation_of(b@),
{
    let mut cursor = std::io::Cursor::new(b);
    let exif = exif::Reader::new().read_from_container(&mut cursor).ok()?;
    let field = exif.get_field(exif::Tag::Orientation, exif::In::PRIMARY)?;
    field.value.get_uint(0)
}

/// The EXIF orientation of a JPEG, 1 (upright) where none can be read.
pub open spec fn jpeg_orientation_spec(b: Seq<u8>) -> u32 {
    match exif_orientation_of(b) {
        Some(o) => o,
        None => 1,
    }
}

/// The EXIF orientation of a JPEG, 1 (upright) where none can be read.
pub fn get_jpeg_orientation(data: &[u8]) -> (r: u32)
    ensures
        r == jpeg_orientation_spec(data@),
{
    match exif_orientation(data) {
        Some(o) => o,
        None => 1,
    }
}

/// The box to fit stored pixels into: orientations 5 to 8 turn the picture a
/// quarter, so the box's width and height trade places.
pub open spec fn effective_box_spec(orientation: u32, w: u32, h: u32) -> (u32, u32) {
    if 5 <= orientation && orientation <= 8 {
        (h, w)
    } else {
        (w, h)
    }
}

/// The box to fit stored pixels into, given the EXIF orientation.
pub fn effective_box(orientation: u32, w: u32, h: u32) -> (r: (u32, u32))
    ensures
        r == effective_box_spec(orientation, w, h),
{
    if 5 <= orientation && orientation <= 8 {
        (h, w)
    } else {
        (w, h)
    }
}

/// Whether a picture is left as it is: it is empty or already fits its box.
pub open spec fn keeps_size(w: u32, h: u32, bw: u32, bh: u32) -> bool {
    w == 0 || h == 0 || fits(w as nat, h as nat, bw as nat, bh as nat)
}

/// The new size of a picture, `None` where it is left as it is.
pub fn plan_resize(w: u32, h: u32, bw: u32, bh: u32) -> (r: Option<(u32, u32)>)
    ensures
        r is None <==> keeps_size(w, h, bw, bh),
        r matches Some(d) ==> d.0 as nat == fit_spec(w as nat, h as nat, bw as nat, bh as nat).0
            && d.1 as nat == fit_spec(w as nat, h as nat, bw as nat, bh as nat).1,
{
    if w == 0 || h == 0 || (w <= bw && h <= bh) {
        None
    } else {
        Some(fit_within(w, h, bw, bh))
    }
}

/// The box a single-frame picture is fitted into: for a JPEG, the requested
/// box turned by its EXIF orientation.
pub open spec fn resize_box(b: Seq<u8>, p: Probe, w: u32, h: u32) -> (u32, u32) {
    if p.image_type == ImageType::JPEG {
        effective_box_spec(jpeg_orientation_spec(b), w, h)
    } else {
        (w, h)
    }
}

/// An animation as its decoder hands it out: the logical screen size and the
/// size and offset of every frame, in order (the decoder draws each frame
/// onto the full screen, so each has the screen's size and offset (0, 0));
/// `None` where it does not decode.
pub uninterp spec fn gif_decoded_of(b: Seq<u8>) -> Option<(u32, u32, Seq<FrameGeometry>)>;

/// The logical screen of an animation and the geometry of its frames.
pub struct GifInfo {
    pub width: u32,
    pub height: u32,
    pub frames: Vec<FrameGeometry>,
}

/// Relies on image's GifDecoder: new, dimensions, and into_frames with
/// collect_frames, whose frames' buffer sizes, left and top are read.
#[verifier::external_body]
fn decode_gif(b: &[u8]) -> (r: Result<GifInfo, image::ImageError>)
    ensures
        r is Ok <==> gif_decoded_of(b@) is Some,
        r matches Ok(g) ==> gif_decoded_of(b@) == Some((g.width, g.height, g.frames@)),
{
    let decoder = image::codecs::gif::GifDecoder::new(std::io::Cursor::new(b))?;
    let (width, height) = decoder.dimensions();
    let frames = decoder.into_frames().collect_frames()?;
    let frames = frames.iter().map(|f| FrameGeometry {
        width: f.buffer().width(),
        height: f.buffer().height(),
        left: f.left(),
        top: f.top(),
    }).collect();
    Ok(GifInfo { width, height, frames })
}

/// The looping animation made of the given frames of an animation, in the
/// given order, each resampled (Lanczos3) to its new size and placed at its
/// new offset with its own delay; `None` where encoding fails.
pub uninterp spec fn gif_rescaled_of(b: Seq<u8>, kept: Seq<(usize, FrameGeometry)>) -> Option<Seq<u8>>;

/// Relies on image's GifDecoder (into_frames, collect_frames), resize_exact
/// with Lanczos3, Frame::from_parts and GifEncoder (set_repeat(Infinite),
/// encode_frames): re-encodes the listed frames at their new geometry.
#[verifier::external_body]
fn encode_scaled_gif(b: &[u8], kept: &Vec<(usize, FrameGeometry)>) -> (r: Result<Vec<u8>, image::ImageError>)
    requires
        gif_decoded_of(b@) matches Some(d) && forall|i: int| 0 <= i < kept@.len() ==> kept@[i].0 < d.2.len(),
    ensures
        r is Ok <==> gif_rescaled_of(b@, kept@) is Some,
        r matches Ok(v) ==> gif_rescaled_of(b@, kept@) == Some(v@),
{
    let frames = image::codecs::gif::GifDecoder::new(std::io::Cursor::new(b))?.into_frames().collect_frames()?;
    let scaled = kept.iter().map(|&(i, g)| image::Frame::from_parts(
        image::DynamicImage::ImageRgba8(frames[i].buffer().clone())
            .resize_exact(g.width, g.height, image::imageops::FilterType::Lanczos3).into_rgba8(),
        g.left, g.top, frames[i].delay(),
    ));
    let mut out: Vec<u8> = Vec::new();
    let mut encoder = image::codecs::gif::GifEncoder::new(&mut out);
    encoder.set_repeat(image::codecs::gif::Repeat::Infinite)?;
    encoder.encode_frames(scaled)?;
    drop(encoder);
    Ok(out)
}

/// The frames among the first `n` that survive scaling by `num / den`, with
/// their index and new geometry, in order.
pub open spec fn kept_frames(g: Seq<FrameGeometry>, num: nat, den: nat, n: nat) -> Seq<(usize, FrameGeometry)>
    decreases n,
{
    if n == 0 {
        Seq::empty()
    } else {
        let prev = kept_frames(g, num, den, (n - 1) as nat);
        match scaled_frame(g[n - 1], num, den) {
            Some(s) => prev.push(((n - 1) as usize, s)),
            None => prev,
        }
    }
}

proof fn lemma_kept_indices(g: Seq<FrameGeometry>, num: nat, den: nat, n: nat)
    requires
        n <= usize::MAX,
    ensures
        forall|i: int| 0 <= i < kept_frames(g, num, den, n).len() ==> kept_frames(g, num, den, n)[i].0 < n,
    decreases n,
{
    if n > 0 {
        lemma_kept_indices(g, num, den, (n - 1) as nat);
        let prev = kept_frames(g, num, den, (n - 1) as nat);
        assert(((n - 1) as usize) as nat == n - 1);
        match scaled_frame(g[n - 1], num, den) {
            Some(s) => {
                let cur = prev.push(((n - 1) as usize, s));
                assert forall|i: int| 0 <= i < cur.len() implies #[trigger] cur[i].0 < n by {
                    if i < prev.len() {
                        assert(cur[i] == prev[i]);
                    }
                }
            },
            None => {},
        }
    }
}

/// The picture decoded in the format its signature names, resampled
/// (Lanczos3) to `w` x `h` and encoded in that format; `None` where a step fails.
pub uninterp spec fn fitted_of(b: Seq<u8>, w: u32, h: u32) -> Option<Seq<u8>>;

/// The picture decoded in the format its signature names, resampled
/// (Lanczos3) to `w` x `h`, copied at offset (`x`, `y`) onto an RGB canvas
/// of `cw` x `ch` filled with `c`, and the canvas encoded in that format;
/// `None` where a step fails.
pub uninterp spec fn filled_of(b: Seq<u8>, w: u32, h: u32, cw: u32, ch: u32, x: u32, y: u32, c: Color) -> Option<Seq<u8>>;

/// Relies on image::guess_format, load_from_memory_with_format,
/// DynamicImage::resize_exact (Lanczos3) and write_to.
#[verifier::external_body]
fn render_fitted(b: &[u8], w: u32, h: u32) -> (r: Result<Vec<u8>, image::ImageError>)
    ensures
        r is Ok <==> fitted_of(b@, w, h) is Some,
        r matches Ok(v) ==> fitted_of(b@, w, h) == Some(v@),
{
    let f = image::guess_format(b)?;
    let img = image::load_from_memory_with_format(b, f)?;
    let img = img.resize_exact(w, h, image::imageops::FilterType::Lanczos3);
    let mut out: Vec<u8> = Vec::new();
    img.write_to(&mut std::io::Cursor::new(&mut out), f)?;
    Ok(out)
}

/// Relies on image::guess_format, load_from_memory_with_format,
/// DynamicImage::resize_exact (Lanczos3), ImageBuffer::from_pixel (which
/// panics where three bytes per pixel overflow a vector's size),
/// imageops::replace (which clips) and write_to.
#[verifier::external_body]
fn render_filled(b: &[u8], w: u32, h: u32, cw: u32, ch: u32, x: u32, y: u32, c: Color) -> (r: Result<Vec<u8>, image::ImageError>)
    requires
        3 * (cw as nat) * (ch as nat) <= isize::MAX,
    ensures
        r is Ok <==> filled_of(b@, w, h, cw, ch, x, y, c) is Some,
        r matches Ok(v) ==> filled_of(b@, w, h, cw, ch, x, y, c) == Some(v@),
{
    let f = image::guess_format(b)?;
    let img = image::load_from_memory_with_format(b, f)?.resize_exact(w, h, image::imageops::FilterType::Lanczos3);
    let mut canvas = image::DynamicImage::ImageRgb8(image::RgbImage::from_pixel(cw, ch, image::Rgb([c.r, c.g, c.b])));
    image::imageops::replace(&mut canvas, &img, x as i64, y as i64);
    let mut out: Vec<u8> = Vec::new();
    canvas.write_to(&mut std::io::Cursor::new(&mut out), f)?;
    Ok(out)
}

/// Relies on image::ImageError's Display: the error's message.
#[verifier::external_body]
pub(crate) fn image_error_text(e: &image::ImageError) -> (r: String) {
    e.to_string()
}

fn resize_error(msg: String) -> (r: AlicError)
    ensures
        r.error_type == AlicErrorType::ImageResizeError,
{
    AlicError { error: msg, error_type: AlicErrorType::ImageResizeError }
}

/// The offset that centres a side of length `inner` in one of length `outer`.
pub open spec fn centre(outer: u32, inner: u32) -> u32 {
    if inner <= outer {
        ((outer - inner) / 2) as u32
    } else {
        0
    }
}

/// Whether a canvas of this size is too large to allocate.
pub open spec fn canvas_too_large(w: u32, h: u32) -> bool {
    (w as nat) * (h as nat) > (isize::MAX as nat) / 3
}

/// A result as a success or an error kind.
pub open spec fn named_outcome(o: Option<Seq<u8>>) -> Result<Seq<u8>, AlicErrorType> {
    match o {
        Some(v) => Ok(v),
        None => Err(AlicErrorType::ImageResizeError),
    }
}

/// The fill stage: the fitted picture of size `w` x `h` centred on a canvas
/// of size `width` x `height` in one colour.
pub open spec fn background_spec(b: Seq<u8>, w: u32, h: u32, width: u32, height: u32, c: Color) -> Result<Seq<u8>, AlicErrorType> {
    if canvas_too_large(width, height) {
        Err(AlicErrorType::ImageResizeError)
    } else {
        named_outcome(filled_of(b, w, h, width, height, centre(width, w), centre(height, h), c))
    }
}

/// Whether a result matches an outcome: the same bytes, or the same error kind.
pub open spec fn outcome_matches(r: Result<Vec<u8>, AlicError>, o: Result<Seq<u8>, AlicErrorType>) -> bool {
    match (r, o) {
        (Ok(v), Ok(x)) => v@ == x,
        (Err(e), Err(k)) => e.error_type == k,
        _ => false,
    }
}

/// Fits the picture to `w` x `h` and centres it on a canvas of size `width`
/// x `height` filled with `color`.
fn add_background(b: &[u8], w: u32, h: u32, width: u32, height: u32, color: Color) -> (r: Result<Vec<u8>, AlicError>)
    ensures
        outcome_matches(r, background_spec(b@, w, h, width, height, color)),
{
    if mul_wide(width, height) > (isize::MAX as u64) / 3 {
        return Err(resize_error(String::from_str("Background canvas too large")));
    }
    assert(3 * (width as nat) * (height as nat) <= isize::MAX) by (nonlinear_arith)
        requires
            (width as nat) * (height as nat) <= (isize::MAX as nat) / 3,
    ;
    let x = if w <= width { (width - w) / 2 } else { 0 };
    let y = if h <= height { (height - h) / 2 } else { 0 };
    match render_filled(b, w, h, width, height, x, y, color) {
        Ok(v) => Ok(v),
        Err(e) => Err(resize_error(image_error_text(&e))),
    }
}

/// What resizing an animation gives: the input where it already fits (or its
/// screen is empty), else its frames scaled by one ratio with the empty ones
/// dropped (where none is left, the encoding holds no frame), re-encoded to
/// loop; an error where it does not decode or encoding fails.
pub open spec fn gif_resize_spec(b: Seq<u8>, w: u32, h: u32) -> Result<Seq<u8>, AlicErrorType> {
    match gif_decoded_of(b) {
        None => Err(AlicErrorType::ImageResizeError),
        Some(d) => if (d.0 <= w && d.1 <= h) || d.0 == 0 || d.1 == 0 {
            Ok(b)
        } else {
            let ratio = gif_ratio(d.0 as nat, d.1 as nat, w as nat, h as nat);
            named_outcome(gif_rescaled_of(b, kept_frames(d.2, ratio.0, ratio.1, d.2.len())))
        },
    }
}

/// What resizing a single-frame picture gives: the input where it already
/// fits its (orientation-turned) box or is empty; else the fitted picture,
/// centred on a canvas of the box's size where a fill is asked for; an error
/// where it does not decode, the fill colour does not parse, or a step fails.
pub open spec fn single_resize_spec(b: Seq<u8>, w: u32, h: u32, fill: bool, colour: Seq<char>) -> Result<Seq<u8>, AlicErrorType> {
    match probe_spec(b) {
        None => Err(AlicErrorType::ImageResizeError),
        Some(p) => {
            let bx = resize_box(b, p, w, h);
            if keeps_size(p.width, p.height, bx.0, bx.1) {
                Ok(b)
            } else {
                let fit = fit_spec(p.width as nat, p.height as nat, bx.0 as nat, bx.1 as nat);
                if fill {
                    match parse_hex_spec(colour) {
                        None => Err(AlicErrorType::InvalidHexColor),
                        Some(c) => background_spec(b, fit.0 as u32, fit.1 as u32, bx.0, bx.1, c),
                    }
                } else {
                    named_outcome(fitted_of(b, fit.0 as u32, fit.1 as u32))
                }
            }
        },
    }
}

/// What the resize engine gives for its inputs.
pub open spec fn resize_spec(b: Seq<u8>, w: u32, h: u32, fill: bool, colour: Seq<char>, is_gif: bool) -> Result<Seq<u8>, AlicErrorType> {
    if is_gif {
        gif_resize_spec(b, w, h)
    } else {
        single_resize_spec(b, w, h, fill, colour)
    }
}

/// A single-frame picture that decodes to a non-empty size and exceeds its
/// box (for a JPEG turned a quarter by EXIF orientations 5 to 8, the box with
/// width and height traded) is resized, without a fill, to exactly the fitted
/// picture of a size inside the box that keeps the aspect ratio within
/// rounding.
pub proof fn lemma_resize_fits_box(b: Seq<u8>, w: u32, h: u32, colour: Seq<char>)
    requires
        probe_spec(b) is Some,
        w >= 1,
        h >= 1,
        !single_keeps_box(b, w, h),
    ensures
        ({
            let p = probe_spec(b)->Some_0;
            let bx = resize_box(b, p, w, h);
            let f = fit_spec(p.width as nat, p.height as nat, bx.0 as nat, bx.1 as nat);
            let m = if p.width >= p.height { p.width as nat } else { p.height as nat };
            &&& single_resize_spec(b, w, h, false, colour) == named_outcome(
                fitted_of(b, f.0 as u32, f.1 as u32),
            )
            &&& (p.image_type == ImageType::JPEG && 5 <= jpeg_orientation_spec(b) <= 8 ==> bx == (h, w))
            &&& 1 <= f.0 <= bx.0 && 1 <= f.1 <= bx.1
            &&& f.0 * (p.height as nat) <= f.1 * (p.width as nat) + m
            &&& f.1 * (p.width as nat) <= f.0 * (p.height as nat) + m
        }),
{
    let p = probe_spec(b)->Some_0;
    let bx = resize_box(b, p, w, h);
    lemma_fit_within_box(p.width as nat, p.height as nat, bx.0 as nat, bx.1 as nat);
}

/// Whether a single-frame picture that decodes is left as it is.
pub open spec fn single_keeps_box(b: Seq<u8>, w: u32, h: u32) -> bool {
    match probe_spec(b) {
        Some(p) => keeps_size(p.width, p.height, resize_box(b, p, w, h).0, resize_box(b, p, w, h).1),
        None => true,
    }
}

/// Scales an animation so that its logical screen fits the box: every frame
/// and its offset by one ratio, frames that shrink to nothing dropped, and the
/// result re-encoded to loop forever. An animation that already fits comes
/// back unchanged; dropping frames, even all of them, is no failure.
pub fn resize_gif(image_buffer: Vec<u8>, width: u32, height: u32) -> (r: Result<Vec<u8>, AlicError>)
    ensures
        outcome_matches(r, gif_resize_spec(image_buffer@, width, height)),
{
    let g = match decode_gif(image_buffer.as_slice()) {
        Ok(g) => g,
        Err(e) => return Err(resize_error(image_error_text(&e))),
    };
    if (g.width <= width && g.height <= height) || g.width == 0 || g.height == 0 {
        return Ok(image_buffer);
    }
    let (num, den) = gif_scale_ratio(g.width, g.height, width, height);
    let mut kept: Vec<(usize, FrameGeometry)> = Vec::new();
    let mut i: usize = 0;
    while i < g.frames.len()
        invariant
            0 < den,
            num < den,
            i <= g.frames@.len(),
            kept@ == kept_frames(g.frames@, num as nat, den as nat, i as nat),
        decreases g.frames@.len() - i,
    {
        match scale_frame_geometry(g.frames[i], num, den) {
            Some(scaled) => kept.push((i, scaled)),
            None => {},
        }
        i = i + 1;
    }
    assert(g.frames@.len() as nat == i as nat);
    proof {
        lemma_kept_indices(g.frames@, num as nat, den as nat, g.frames@.len() as nat);
    }
    match encode_scaled_gif(image_buffer.as_slice(), &kept) {
        Ok(out) => Ok(out),
        Err(e) => Err(resize_error(image_error_text(&e))),
    }
}

/// Fits a picture into `width` x `height`, keeping its aspect ratio (for a
/// JPEG, the box is turned by its EXIF orientation first), and where asked
/// centres it on a canvas of the box's size filled with `background_fill`.
/// A picture that already fits comes back byte for byte.
pub fn resize(
    image_buffer: Vec<u8>,
    width: u32,
    height: u32,
    should_background_fill: bool,
    background_fill: &str,
    is_gif: bool,
) -> (r: Result<Vec<u8>, AlicError>)
    ensures
        outcome_matches(
            r,
            resize_spec(image_buffer@, width, height, should_background_fill, background_fill@, is_gif),
        ),
{
    if is_gif {
        return resize_gif(image_buffer, width, height);
    }
    let p = match probe_bytes(image_buffer.as_slice()) {
        Some(p) => p,
        None => return Err(resize_error(String::from_str("Unsupported image format"))),
    };
    let (bw, bh) = if p.image_type == ImageType::JPEG {
        effective_box(get_jpeg_orientation(image_buffer.as_slice()), width, height)
    } else {
        (width, height)
    };
    let (nw, nh) = match plan_resize(p.width, p.height, bw, bh) {
        None => return Ok(image_buffer),
        Some(d) => d,
    };
    if should_background_fill {
        match Color::from_hex(background_fill) {
            Ok(c) => add_background(image_buffer.as_slice(), nw, nh, bw, bh, c),
            Err(e) => Err(e),
        }
    } else {
        match render_fitted(image_buffer.as_slice(), nw, nh) {
            Ok(v) => Ok(v),
            Err(e) => Err(resize_error(image_error_text(&e))),
        }
    }
}

} // verus!
