use vstd::prelude::*;

pub use crate::format::ImageType;

use crate::codec::CompressionParameters;
use crate::paths::{ext_dot, extension, extension_of, remove_extension, str_eq, without_extension};

verus! {

/// The options of the mobile front end's single-call API.
#[derive(Debug, Clone)]
pub struct Parameters {
    pub postfix: String,
    pub path: String,
    pub jpeg_quality: u32,
    pub png_quality: u32,
    pub webp_quality: u32,
    pub gif_quality: u32,
    pub resize: bool,
    pub resize_width: u32,
    pub resize_height: u32,
    pub convert_extension: Option<ImageType>,
}

/// The outcome of the mobile front end's single-call API.
#[derive(Debug, Clone)]
pub struct CompressResult {
    pub path: String,
    pub out_path: String,
    pub result: String,
}

/// The format a MIME type names, among those the mobile front end handles.
pub open spec fn type_of_mime(m: Seq<char>) -> Option<ImageType> {
    if m == "image/jpeg"@ {
        Some(ImageType::JPEG)
    } else if m == "image/png"@ {
        Some(ImageType::PNG)
    } else if m == "image/webp"@ {
        Some(ImageType::WEBP)
    } else if m == "image/gif"@ {
        Some(ImageType::GIF)
    } else if m == "image/tiff"@ {
        Some(ImageType::TIFF)
    } else {
        None
    }
}

/// The format a MIME type names, `None` for any the mobile front end does
/// not handle.
pub fn image_type_of_mime(mime: &str) -> (r: Option<ImageType>)
    ensures
        r == type_of_mime(mime@),
{
    if str_eq(mime, "image/jpeg") {
        Some(ImageType::JPEG)
    } else if str_eq(mime, "image/png") {
        Some(ImageType::PNG)
    } else if str_eq(mime, "image/webp") {
        Some(ImageType::WEBP)
    } else if str_eq(mime, "image/gif") {
        Some(ImageType::GIF)
    } else if str_eq(mime, "image/tiff") {
        Some(ImageType::TIFF)
    } else {
        None
    }
}

/// The extension written for a format: a JPEG keeps "jpeg" where the source
/// used it, and is "jpg" otherwise; other formats use their canonical one.
pub open spec fn convert_image_type_spec(original_extension: Seq<char>, t: ImageType) -> Seq<char> {
    match t {
        ImageType::JPEG => if original_extension == seq!['j', 'p', 'e', 'g'] {
            seq!['j', 'p', 'e', 'g']
        } else {
            seq!['j', 'p', 'g']
        },
        ImageType::PNG => seq!['p', 'n', 'g'],
        ImageType::WEBP => seq!['w', 'e', 'b', 'p'],
        ImageType::GIF => seq!['g', 'i', 'f'],
        ImageType::TIFF => seq!['t', 'i', 'f', 'f'],
        ImageType::AVIF => seq!['a', 'v', 'i', 'f'],
    }
}

/// The extension written for a format, given the source's extension.
pub fn convert_image_type(original_extension: String, image_type: ImageType) -> (r: String)
    ensures
        r@ == convert_image_type_spec(original_extension@, image_type),
{
    proof {
        reveal_strlit("jpeg");
        reveal_strlit("jpg");
        reveal_strlit("png");
        reveal_strlit("webp");
        reveal_strlit("gif");
        reveal_strlit("tiff");
        reveal_strlit("avif");
        assert("jpeg"@ =~= seq!['j', 'p', 'e', 'g']);
        assert("jpg"@ =~= seq!['j', 'p', 'g']);
        assert("png"@ =~= seq!['p', 'n', 'g']);
        assert("webp"@ =~= seq!['w', 'e', 'b', 'p']);
        assert("gif"@ =~= seq!['g', 'i', 'f']);
        assert("tiff"@ =~= seq!['t', 'i', 'f', 'f']);
        assert("avif"@ =~= seq!['a', 'v', 'i', 'f']);
    }
    match image_type {
        ImageType::JPEG => {
            if str_eq(original_extension.as_str(), "jpeg") {
                String::from_str("jpeg")
            } else {
                String::from_str("jpg")
            }
        },
        ImageType::PNG => String::from_str("png"),
        ImageType::WEBP => String::from_str("webp"),
        ImageType::GIF => String::from_str("gif"),
        ImageType::TIFF => String::from_str("tiff"),
        ImageType::AVIF => String::from_str("avif"),
    }
}

/// The output path: the source path without its extension, the postfix, a
/// dot, and the extension of the convert target, or of the detected format.
pub open spec fn mobile_out_path(p: Parameters, t: ImageType) -> Seq<char> {
    let target = match p.convert_extension {
        Some(c) => c,
        None => t,
    };
    without_extension(p.path@) + p.postfix@ + seq!['.'] + convert_image_type_spec(
        extension_of(p.path@),
        target,
    )
}

/// The output path of a run; the source path must have an extension.
pub fn get_out_path(parameters: &Parameters, image_type: ImageType) -> (r: String)
    requires
        ext_dot(parameters.path@) >= 0,
    ensures
        r@ == mobile_out_path(*parameters, image_type),
{
    let target = match parameters.convert_extension {
        Some(c) => c,
        None => image_type,
    };
    let original_extension = extension(parameters.path.as_str());
    let mut out_path = remove_extension(parameters.path.as_str());
    out_path.append(parameters.postfix.as_str());
    proof {
        reveal_strlit(".");
    }
    out_path.append(".");
    let ext = convert_image_type(original_extension, target);
    out_path.append(ext.as_str());
    out_path
}

/// The resize target the engine is given: where resizing is on and the
/// picture exceeds the box, the box's width for a landscape picture or its
/// height otherwise, the other side 0 (kept in proportion); else (0, 0).
pub open spec fn resize_target_spec(resize: bool, w: u32, h: u32, rw: u32, rh: u32) -> (u32, u32) {
    if resize && (w > rw || h > rh) {
        if w > h {
            (rw, 0)
        } else {
            (0, rh)
        }
    } else {
        (0, 0)
    }
}

/// The resize target the engine is given, as width and height.
pub fn resize_target(resize: bool, w: u32, h: u32, rw: u32, rh: u32) -> (r: (u32, u32))
    ensures
        r == resize_target_spec(resize, w, h, rw, rh),
{
    if resize && (w > rw || h > rh) {
        if w > h {
            (rw, 0)
        } else {
            (0, rh)
        }
    } else {
        (0, 0)
    }
}

/// The engine parameters of a run: the given qualities, the engine's other
/// defaults (lossy, no metadata, AVIF quality 80), and the resize target.
pub open spec fn mobile_parameters(p: Parameters, w: u32, h: u32) -> CompressionParameters {
    let t = resize_target_spec(p.resize, w, h, p.resize_width, p.resize_height);
    CompressionParameters {
        jpeg_quality: p.jpeg_quality,
        png_quality: p.png_quality,
        webp_quality: p.webp_quality,
        gif_quality: p.gif_quality,
        avif_quality: 80,
        optimize: false,
        keep_metadata: false,
        width: t.0,
        height: t.1,
    }
}

/// The engine parameters of a run, for a picture of size `width` x `height`.
pub fn create_csparameters(parameters: &Parameters, width: u32, height: u32) -> (r:
    CompressionParameters)
    ensures
        r == mobile_parameters(*parameters, width, height),
{
    let (new_width, new_height) = resize_target(
        parameters.resize,
        width,
        height,
        parameters.resize_width,
        parameters.resize_height,
    );
    CompressionParameters {
        jpeg_quality: parameters.jpeg_quality,
        png_quality: parameters.png_quality,
        webp_quality: parameters.webp_quality,
        gif_quality: parameters.gif_quality,
        avif_quality: 80,
        optimize: false,
        keep_metadata: false,
        width: new_width,
        height: new_height,
    }
}

} // verus!
