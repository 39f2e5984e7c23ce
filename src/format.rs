use vstd::prelude::*;

verus! {

/// The raster formats the pipeline reads and writes.
#[derive(Debug, Clone, Copy, PartialEq, Eq, Structural)]
pub enum ImageType {
    JPEG,
    PNG,
    WEBP,
    GIF,
    TIFF,
    AVIF,
}

/// The canonical extension of each format, without the dot.
pub open spec fn preferred_extension_of(t: ImageType) -> Seq<char> {
    match t {
        ImageType::JPEG => seq!['j', 'p', 'g'],
        ImageType::PNG => seq!['p', 'n', 'g'],
        ImageType::WEBP => seq!['w', 'e', 'b', 'p'],
        ImageType::GIF => seq!['g', 'i', 'f'],
        ImageType::TIFF => seq!['t', 'i', 'f', 'f'],
        ImageType::AVIF => seq!['a', 'v', 'i', 'f'],
    }
}

/// The file extensions under which a format is recognised, most common first.
pub open spec fn accepted_extensions(t: ImageType) -> Seq<Seq<char>> {
    match t {
        ImageType::JPEG => seq![seq!['j', 'p', 'g'], seq!['j', 'p', 'e', 'g']],
        ImageType::PNG => seq![seq!['p', 'n', 'g']],
        ImageType::WEBP => seq![seq!['w', 'e', 'b', 'p']],
        ImageType::GIF => seq![seq!['g', 'i', 'f']],
        ImageType::TIFF => seq![seq!['t', 'i', 'f', 'f'], seq!['t', 'i', 'f']],
        ImageType::AVIF => seq![seq!['a', 'v', 'i', 'f']],
    }
}

/// Whether the shared lossy/lossless engine encodes this format itself;
/// the others need a dedicated encoder.
pub open spec fn engine_supports_spec(t: ImageType) -> bool {
    t != ImageType::AVIF
}

/// The views of a list of string slices.
pub open spec fn str_views(s: Seq<&str>) -> Seq<Seq<char>> {
    s.map_values(|x: &str| x@)
}

/// Relies on image::ImageFormat::extensions_str: the extensions that the
/// image crate lists for each format.
#[verifier::external_body]
fn format_extensions(t: ImageType) -> (r: &'static [&'static str])
    ensures
        str_views(r@) == accepted_extensions(t),
{
    match t {
        ImageType::JPEG => image::ImageFormat::Jpeg.extensions_str(),
        ImageType::PNG => image::ImageFormat::Png.extensions_str(),
        ImageType::WEBP => image::ImageFormat::WebP.extensions_str(),
        ImageType::GIF => image::ImageFormat::Gif.extensions_str(),
        ImageType::TIFF => image::ImageFormat::Tiff.extensions_str(),
        ImageType::AVIF => image::ImageFormat::Avif.extensions_str(),
    }
}

impl ImageType {
    /// The extensions under which this format is recognised.
    pub fn extensions(&self) -> (r: &'static [&'static str])
        ensures
            str_views(r@) == accepted_extensions(*self),
    {
        format_extensions(*self)
    }

    /// The canonical extension of this format.
    pub fn preferred_extension(&self) -> (r: &'static str)
        ensures
            r@ == preferred_extension_of(*self),
    {
        match self {
            ImageType::JPEG => {
                proof { reveal_strlit("jpg"); }
                "jpg"
            },
            ImageType::PNG => {
                proof { reveal_strlit("png"); }
                "png"
            },
            ImageType::WEBP => {
                proof { reveal_strlit("webp"); }
                "webp"
            },
            ImageType::GIF => {
                proof { reveal_strlit("gif"); }
                "gif"
            },
            ImageType::TIFF => {
                proof { reveal_strlit("tiff"); }
                "tiff"
            },
            ImageType::AVIF => {
                proof { reveal_strlit("avif"); }
                "avif"
            },
        }
    }

    /// Whether the shared compression engine handles this format itself.
    pub fn engine_supports(&self) -> (r: bool)
        ensures
            r == engine_supports_spec(*self),
    {
        !matches!(self, ImageType::AVIF)
    }
}

/// The formats that the image crate recognises from a file's leading bytes:
/// those this library handles, and any other.
#[derive(Debug, Clone, Copy, PartialEq, Eq, Structural)]
pub enum SniffedFormat {
    Png,
    Jpeg,
    Gif,
    WebP,
    Tiff,
    Avif,
    Other,
}

/// The format that the image crate's signature table assigns to a byte
/// string, if any.
pub uninterp spec fn sniffed_format_of(b: Seq<u8>) -> Option<SniffedFormat>;

/// The pixel size of the image that a byte string decodes to in a given
/// format, if it decodes.
pub uninterp spec fn decoded_size_of(b: Seq<u8>, f: SniffedFormat) -> Option<(u32, u32)>;

/// Relies on image::guess_format: detects the format from magic bytes alone.
#[verifier::external_body]
fn guess_format(b: &[u8]) -> (r: Option<SniffedFormat>)
    ensures
        r == sniffed_format_of(b@),
{
    match image::guess_format(b) {
        Ok(image::ImageFormat::Png) => Some(SniffedFormat::Png),
        Ok(image::ImageFormat::Jpeg) => Some(SniffedFormat::Jpeg),
        Ok(image::ImageFormat::Gif) => Some(SniffedFormat::Gif),
        Ok(image::ImageFormat::WebP) => Some(SniffedFormat::WebP),
        Ok(image::ImageFormat::Tiff) => Some(SniffedFormat::Tiff),
        Ok(image::ImageFormat::Avif) => Some(SniffedFormat::Avif),
        Ok(_) => Some(SniffedFormat::Other),
        Err(_) => None,
    }
}

/// Relies on image::load_from_memory_with_format: decodes the whole picture
/// in the given format and reports its width and height.
#[verifier::external_body]
fn decode_size(b: &[u8], t: ImageType) -> (r: Option<(u32, u32)>)
    ensures
        r == decoded_size_of(b@, sniffed_of_type(t)),
{
    let f = match t {
        ImageType::JPEG => image::ImageFormat::Jpeg,
        ImageType::PNG => image::ImageFormat::Png,
        ImageType::WEBP => image::ImageFormat::WebP,
        ImageType::GIF => image::ImageFormat::Gif,
        ImageType::TIFF => image::ImageFormat::Tiff,
        ImageType::AVIF => image::ImageFormat::Avif,
    };
    image::load_from_memory_with_format(b, f).ok().map(|i| (i.width(), i.height()))
}

/// The supported format that a sniffed one stands for.
pub open spec fn type_of_sniffed(f: SniffedFormat) -> Option<ImageType> {
    match f {
        SniffedFormat::Jpeg => Some(ImageType::JPEG),
        SniffedFormat::Png => Some(ImageType::PNG),
        SniffedFormat::WebP => Some(ImageType::WEBP),
        SniffedFormat::Gif => Some(ImageType::GIF),
        SniffedFormat::Tiff => Some(ImageType::TIFF),
        SniffedFormat::Avif => Some(ImageType::AVIF),
        _ => None,
    }
}

/// The sniffed format that a supported one is detected as.
pub open spec fn sniffed_of_type(t: ImageType) -> SniffedFormat {
    match t {
        ImageType::JPEG => SniffedFormat::Jpeg,
        ImageType::PNG => SniffedFormat::Png,
        ImageType::WEBP => SniffedFormat::WebP,
        ImageType::GIF => SniffedFormat::Gif,
        ImageType::TIFF => SniffedFormat::Tiff,
        ImageType::AVIF => SniffedFormat::Avif,
    }
}

/// Maps a sniffed format onto the supported ones.
pub fn image_type_of(f: SniffedFormat) -> (r: Option<ImageType>)
    ensures
        r == type_of_sniffed(f),
        r matches Some(t) ==> sniffed_of_type(t) == f,
{
    match f {
        SniffedFormat::Jpeg => Some(ImageType::JPEG),
        SniffedFormat::Png => Some(ImageType::PNG),
        SniffedFormat::WebP => Some(ImageType::WEBP),
        SniffedFormat::Gif => Some(ImageType::GIF),
        SniffedFormat::Tiff => Some(ImageType::TIFF),
        SniffedFormat::Avif => Some(ImageType::AVIF),
        _ => None,
    }
}

/// The supported format that a byte string's signature names, if any.
pub open spec fn detected_format_spec(b: Seq<u8>) -> Option<ImageType> {
    match sniffed_format_of(b) {
        Some(f) => type_of_sniffed(f),
        None => None,
    }
}

/// Detects the format of an image from its leading bytes, never from its name.
pub fn detect_format(b: &[u8]) -> (r: Option<ImageType>)
    ensures
        r == detected_format_spec(b@),
        r matches Some(t) ==> sniffed_format_of(b@) == Some(sniffed_of_type(t)),
{
    match guess_format(b) {
        Some(f) => image_type_of(f),
        None => None,
    }
}

/// What the prober learns from a file's content.
#[derive(Debug, Clone, Copy, PartialEq, Eq, Structural)]
pub struct Probe {
    pub image_type: ImageType,
    pub width: u32,
    pub height: u32,
}

/// The outcome of probing a byte string: its supported format, found from the
/// signature, and the size it decodes to; `None` where the signature is unknown
/// or unsupported, or the body does not decode.
pub open spec fn probe_spec(b: Seq<u8>) -> Option<Probe> {
    match sniffed_format_of(b) {
        Some(f) => match type_of_sniffed(f) {
            Some(t) => match decoded_size_of(b, f) {
                Some(wh) => Some(Probe { image_type: t, width: wh.0, height: wh.1 }),
                None => None,
            },
            None => None,
        },
        None => None,
    }
}

/// Detects the format of an image from its content, never from its name, and
/// decodes it to learn its size.
pub fn probe_bytes(b: &[u8]) -> (r: Option<Probe>)
    ensures
        r == probe_spec(b@),
{
    let t = match detect_format(b) {
        Some(t) => t,
        None => return None,
    };
    match decode_size(b, t) {
        Some(wh) => Some(Probe { image_type: t, width: wh.0, height: wh.1 }),
        None => None,
    }
}

} // verus!
