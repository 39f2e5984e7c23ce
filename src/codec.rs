use image::ImageEncoder;
use vstd::prelude::*;

use crate::errors::{CompressError, CompressErrorType};
use crate::format::{engine_supports_spec, ImageType};
use crate::resize::image_error_text;
use crate::settings::ProfileData;

verus! {

#[verifier::external_type_specification]
#[verifier::external_body]
pub struct ExCaesiumError(caesium::error::CaesiumError);

/// The encoder's speed for AVIF: a fixed point between speed and size.
pub const AVIF_SPEED: u8 = 6;

/// What the codecs are told: quality per format, lossless optimisation,
/// metadata retention, and a resize target where 0 means "no resize".
#[derive(Debug, Clone, Copy, PartialEq, Eq, Structural)]
pub struct CompressionParameters {
    pub jpeg_quality: u32,
    pub png_quality: u32,
    pub webp_quality: u32,
    pub gif_quality: u32,
    pub avif_quality: u32,
    pub optimize: bool,
    pub keep_metadata: bool,
    pub width: u32,
    pub height: u32,
}

/// The parameters a profile gives: its qualities and flags one for one,
/// lossless optimisation where lossy compression is off, and no resize target
/// (the resize stage has already run).
pub open spec fn parameters_of(p: ProfileData) -> CompressionParameters {
    CompressionParameters {
        jpeg_quality: p.jpeg_quality,
        png_quality: p.png_quality,
        webp_quality: p.webp_quality,
        gif_quality: p.gif_quality,
        avif_quality: p.avif_quality,
        optimize: !p.enable_lossy,
        keep_metadata: p.keep_metadata,
        width: 0,
        height: 0,
    }
}

/// Builds the codec parameters of a profile.
pub fn create_cs_parameters(parameters: &ProfileData) -> (r: CompressionParameters)
    ensures
        r == parameters_of(*parameters),
{
    CompressionParameters {
        jpeg_quality: parameters.jpeg_quality,
        png_quality: parameters.png_quality,
        webp_quality: parameters.webp_quality,
        gif_quality: parameters.gif_quality,
        avif_quality: parameters.avif_quality,
        optimize: !parameters.enable_lossy,
        keep_metadata: parameters.keep_metadata,
        width: 0,
        height: 0,
    }
}

/// How a picture is encoded.
#[derive(Debug, Clone, Copy, PartialEq, Eq, Structural)]
pub enum CodecRoute {
    /// The shared engine recompresses the bytes in their own format.
    Compress,
    /// The shared engine converts the bytes to another format.
    Convert(ImageType),
    /// The shared engine recompresses a file, from its path to a staging path
    /// (it compresses animations from files only).
    CompressFile,
    /// The dedicated AVIF encoder encodes the decoded pixels.
    EncodeAvif,
}

/// The format the output is written in.
pub open spec fn target_format(p: ProfileData, source: ImageType) -> ImageType {
    if p.should_convert {
        p.convert_extension
    } else {
        source
    }
}

/// Whether the run changes the picture's format.
pub open spec fn converts(p: ProfileData, source: ImageType) -> bool {
    p.should_convert && p.convert_extension != source
}

/// The route for a source format and a profile: the dedicated encoder for a
/// target the shared engine lacks; for an animation kept as one, the engine's
/// file route; else in-memory compression, or conversion where the format
/// changes.
pub open spec fn route_spec(p: ProfileData, source: ImageType) -> CodecRoute {
    let target = target_format(p, source);
    if !engine_supports_spec(target) {
        CodecRoute::EncodeAvif
    } else if target == source {
        if source == ImageType::GIF {
            CodecRoute::CompressFile
        } else {
            CodecRoute::Compress
        }
    } else {
        CodecRoute::Convert(target)
    }
}

/// Chooses how a picture of the given format is encoded under a profile.
pub fn codec_route(p: &ProfileData, source: ImageType) -> (r: CodecRoute)
    ensures
        r == route_spec(*p, source),
{
    let target = if p.should_convert {
        p.convert_extension
    } else {
        source
    };
    if !target.engine_supports() {
        CodecRoute::EncodeAvif
    } else if target == source {
        if source == ImageType::GIF {
            CodecRoute::CompressFile
        } else {
            CodecRoute::Compress
        }
    } else {
        CodecRoute::Convert(target)
    }
}

/// The threads given to one AVIF encode: all of them for a run on its own;
/// in a batch of `concurrent` runs, an even share; at least one either way.
pub open spec fn thread_budget_spec(total_threads: u32, concurrent: u32) -> u32 {
    let share = if concurrent > 1 {
        total_threads / concurrent
    } else {
        total_threads
    };
    if share == 0 {
        1
    } else {
        share
    }
}

/// The threads given to one AVIF encode.
pub fn avif_thread_budget(total_threads: u32, concurrent: u32) -> (r: u32)
    ensures
        r == thread_budget_spec(total_threads, concurrent),
        r >= 1,
        concurrent > 1 ==> (r == 1 || r * concurrent <= total_threads),
{
    let share = if concurrent > 1 {
        let share = total_threads / concurrent;
        assert(share * concurrent <= total_threads) by (nonlinear_arith)
            requires
                share == total_threads / concurrent,
                concurrent > 1,
        ;
        share
    } else {
        total_threads
    };
    if share == 0 {
        1
    } else {
        share
    }
}

/// An AVIF quality as the encoder takes it: from 1 to 100.
pub open spec fn avif_quality_spec(q: u32) -> u8 {
    if q > 100 {
        100
    } else if q == 0 {
        1
    } else {
        q as u8
    }
}

/// An AVIF quality as the encoder takes it, from 1 to 100.
pub fn avif_quality_byte(q: u32) -> (r: u8)
    ensures
        r == avif_quality_spec(q),
        1 <= r <= 100,
{
    if q > 100 {
        100
    } else if q == 0 {
        1
    } else {
        q as u8
    }
}

/// Relies on caesium::compress_in_memory, with CSParameters::new and this
/// library's qualities, flags and resize target set on it: recompresses JPEG,
/// PNG, WebP or TIFF bytes in their own format.
#[verifier::external_body]
fn engine_compress(data: Vec<u8>, p: &CompressionParameters) -> (r: Result<
    Vec<u8>,
    caesium::error::CaesiumError,
>)
{
    let mut cs = caesium::parameters::CSParameters::new();
    (cs.jpeg.quality, cs.png.quality) = (p.jpeg_quality, p.png_quality);
    (cs.webp.quality, cs.gif.quality) = (p.webp_quality, p.gif_quality);
    (cs.width, cs.height, cs.optimize, cs.keep_metadata) = (p.width, p.height, p.optimize, p.keep_metadata);
    caesium::compress_in_memory(data, &cs)
}

/// Relies on caesium::convert_in_memory, with CSParameters::new and this
/// library's qualities, flags and resize target set on it: decodes the bytes
/// and encodes them in another format that the engine supports.
#[verifier::external_body]
fn engine_convert(data: Vec<u8>, p: &CompressionParameters, t: ImageType) -> (r: Result<
    Vec<u8>,
    caesium::error::CaesiumError,
>)
    requires
        t != ImageType::AVIF,
{
    let mut cs = caesium::parameters::CSParameters::new();
    (cs.jpeg.quality, cs.png.quality) = (p.jpeg_quality, p.png_quality);
    (cs.webp.quality, cs.gif.quality) = (p.webp_quality, p.gif_quality);
    (cs.width, cs.height, cs.optimize, cs.keep_metadata) = (p.width, p.height, p.optimize, p.keep_metadata);
    let f = match t {
        ImageType::JPEG => caesium::SupportedFileTypes::Jpeg,
        ImageType::PNG => caesium::SupportedFileTypes::Png,
        ImageType::WEBP => caesium::SupportedFileTypes::WebP,
        ImageType::GIF => caesium::SupportedFileTypes::Gif,
        ImageType::TIFF => caesium::SupportedFileTypes::Tiff,
        ImageType::AVIF => caesium::SupportedFileTypes::Unkn,
    };
    caesium::convert_in_memory(data, &cs, f)
}

/// Relies on caesium::error::CaesiumError's Display: message and code.
#[verifier::external_body]
fn engine_error_text(e: &caesium::error::CaesiumError) -> (r: String) {
    e.to_string()
}

/// Relies on image::load_from_memory and image's AvifEncoder
/// (new_with_speed_quality, with_num_threads, write_image on the RGBA pixels):
/// decodes a picture and encodes it as AVIF. The encoder asserts a quality and
/// a speed of at least 1 and at least one thread; image caps quality at 100
/// and speed at 10.
#[verifier::external_body]
fn encode_avif(data: &[u8], speed: u8, quality: u8, threads: u32) -> (r: Result<
    Vec<u8>,
    image::ImageError,
>)
    requires
        1 <= quality <= 100,
        1 <= speed <= 10,
        threads >= 1,
{
    let rgba = image::load_from_memory(data)?.to_rgba8();
    let mut out: Vec<u8> = Vec::new();
    let encoder = image::codecs::avif::AvifEncoder::new_with_speed_quality(&mut out, speed, quality)
        .with_num_threads(Some(threads as usize));
    encoder.write_image(rgba.as_raw(), rgba.width(), rgba.height(), image::ExtendedColorType::Rgba8)?;
    Ok(out)
}

/// Whether a route is one that runs in memory.
pub open spec fn in_memory(route: CodecRoute) -> bool {
    route != CodecRoute::CompressFile
}

/// The text that opens the message of a codec failure on a route.
pub open spec fn error_prefix(route: CodecRoute) -> Seq<char> {
    match route {
        CodecRoute::EncodeAvif => "Error: Error encoding AVIF image: "@,
        CodecRoute::Convert(_) => "Error: Error converting image: "@,
        _ => "Error: Error compressing image: "@,
    }
}

/// An `Unknown` error whose message is `prefix` followed by the codec's own.
fn codec_error(prefix: &str, text: String) -> (r: CompressError)
    ensures
        r.error_type == CompressErrorType::Unknown,
        r.error@ == prefix@ + text@,
{
    let mut msg = String::from_str(prefix);
    msg.append(text.as_str());
    CompressError { error: msg, error_type: CompressErrorType::Unknown }
}

/// Encodes a picture's bytes along an in-memory route: the shared engine
/// compresses or converts them, or the AVIF encoder encodes the decoded
/// picture with its thread budget. The bytes are what the codec returned; a
/// codec failure is an `Unknown` error whose message is the route's prefix
/// followed by the codec's own message. (The codecs' output is not a function
/// of their arguments alone: the engine splits work by the machine's threads.)
pub fn encode_in_memory(
    data: Vec<u8>,
    params: &CompressionParameters,
    route: CodecRoute,
    total_threads: u32,
    concurrent: u32,
) -> (r: Result<Vec<u8>, CompressError>)
    requires
        in_memory(route),
        !(route matches CodecRoute::Convert(t) && t == ImageType::AVIF),
    ensures
        r matches Err(e) ==> e.error_type == CompressErrorType::Unknown && error_prefix(
            route,
        ).is_prefix_of(e.error@),
{
    let (prefix, result) = match route {
        CodecRoute::EncodeAvif => {
            let threads = avif_thread_budget(total_threads, concurrent);
            let quality = avif_quality_byte(params.avif_quality);
            let r = match encode_avif(data.as_slice(), AVIF_SPEED, quality, threads) {
                Ok(v) => Ok(v),
                Err(e) => Err(image_error_text(&e)),
            };
            ("Error: Error encoding AVIF image: ", r)
        },
        CodecRoute::Convert(t) => {
            let r = match engine_convert(data, params, t) {
                Ok(v) => Ok(v),
                Err(e) => Err(engine_error_text(&e)),
            };
            ("Error: Error converting image: ", r)
        },
        _ => {
            let r = match engine_compress(data, params) {
                Ok(v) => Ok(v),
                Err(e) => Err(engine_error_text(&e)),
            };
            ("Error: Error compressing image: ", r)
        },
    };
    assert(prefix@ == error_prefix(route));
    match result {
        Ok(v) => Ok(v),
        Err(text) => {
            let e = codec_error(prefix, text);
            assert(e.error@.subrange(0, prefix@.len() as int) =~= prefix@);
            Err(e)
        },
    }
}

} // verus!
