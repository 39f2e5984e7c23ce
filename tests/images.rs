use std::io::Cursor;

use alic::codec::{create_cs_parameters, encode_in_memory, CodecRoute};
use alic::errors::{AlicErrorType, CompressErrorType};
use alic::format::{detect_format, probe_bytes, ImageType};
use alic::pipeline::{process_image_data, read_image_info, FileTime, RunOutcome};
use alic::resize::{get_jpeg_orientation, resize, resize_gif, Color};
use alic::settings::ProfileData;
use image::{AnimationDecoder, DynamicImage, ImageFormat, RgbImage};

fn encoded(w: u32, h: u32, format: ImageFormat) -> Vec<u8> {
    let img = RgbImage::from_fn(w, h, |x, y| image::Rgb([(x * 7 % 256) as u8, (y * 5 % 256) as u8, ((x + y) % 256) as u8]));
    let mut out = Vec::new();
    DynamicImage::ImageRgb8(img).write_to(&mut Cursor::new(&mut out), format).unwrap();
    out
}

fn animation(w: u32, h: u32, frames: &[(u32, u32, u32, u32)]) -> Vec<u8> {
    let mut out = Vec::new();
    {
        let mut encoder = image::codecs::gif::GifEncoder::new(&mut out);
        let frames: Vec<image::Frame> = frames
            .iter()
            .map(|&(fw, fh, left, top)| {
                let buf = image::RgbaImage::from_pixel(fw, fh, image::Rgba([200, 10, 10, 255]));
                image::Frame::from_parts(buf, left, top, image::Delay::from_numer_denom_ms(100, 1))
            })
            .collect();
        let _ = (w, h);
        encoder.encode_frames(frames.into_iter()).unwrap();
    }
    out
}

fn size_of(bytes: &[u8]) -> (u32, u32) {
    let img = image::load_from_memory(bytes).unwrap();
    (img.width(), img.height())
}

fn time(secs: u64) -> FileTime {
    FileTime { secs, nanos: 0 }
}

#[test]
fn hex_colours() {
    assert_eq!(Color::from_hex("#000").ok(), Some(Color { r: 0, g: 0, b: 0 }));
    assert_eq!(Color::from_hex("#fA0").ok(), Some(Color { r: 255, g: 170, b: 0 }));
    assert_eq!(Color::from_hex("12ab9F").ok(), Some(Color { r: 0x12, g: 0xab, b: 0x9f }));
    assert_eq!(Color::from_hex("##abc").ok(), Some(Color { r: 0xaa, g: 0xbb, b: 0xcc }));
    for bad in ["", "#12", "#1234", "#12345g", "xyz", "#+f+f+f"] {
        let e = Color::from_hex(bad).err().unwrap();
        assert_eq!(e.error_type, AlicErrorType::InvalidHexColor);
        assert!(e.error.contains(bad));
    }
}

#[test]
fn probe_reads_content_not_names() {
    let png = encoded(30, 20, ImageFormat::Png);
    let p = probe_bytes(&png).unwrap();
    assert_eq!((p.image_type, p.width, p.height), (ImageType::PNG, 30, 20));
    let jpeg = encoded(8, 9, ImageFormat::Jpeg);
    assert_eq!(probe_bytes(&jpeg).unwrap().image_type, ImageType::JPEG);
    assert_eq!(probe_bytes(b"not an image at all"), None);
    assert_eq!(detect_format(&png), Some(ImageType::PNG));
    assert_eq!(detect_format(&encoded(4, 4, ImageFormat::Bmp)), None);
    let mut corrupt = png.clone();
    corrupt.truncate(40);
    assert_eq!(probe_bytes(&corrupt), None);
    let bmp = encoded(4, 4, ImageFormat::Bmp);
    assert_eq!(probe_bytes(&bmp), None);
}

#[test]
fn read_image_info_rejects_unknown_content() {
    let e = read_image_info(b"GIF89".to_vec(), 5, time(1), time(2)).err().unwrap();
    assert_eq!(e.error_type, CompressErrorType::UnsupportedFileType);
    let d = read_image_info(encoded(3, 4, ImageFormat::Png), 99, time(1), time(2)).unwrap();
    assert_eq!((d.width, d.height, d.size, d.image_type), (3, 4, 99, ImageType::PNG));
}

#[test]
fn resize_leaves_fitting_pictures_byte_for_byte() {
    let png = encoded(50, 40, ImageFormat::Png);
    let out = resize(png.clone(), 100, 100, true, "#fff", false).ok().unwrap();
    assert_eq!(out, png);
    let gif = animation(10, 10, &[(10, 10, 0, 0)]);
    let out = resize(gif.clone(), 100, 100, false, "", true).ok().unwrap();
    assert_eq!(out, gif);
}

#[test]
fn resize_fits_the_box() {
    let png = encoded(200, 100, ImageFormat::Png);
    let out = resize(png.clone(), 50, 50, false, "", false).ok().unwrap();
    assert_ne!(out, png);
    assert_eq!(size_of(&out), (50, 25));
    assert_eq!(probe_bytes(&out).unwrap().image_type, ImageType::PNG);
}

#[test]
fn resize_fills_the_background() {
    let png = encoded(200, 100, ImageFormat::Png);
    let out = resize(png, 50, 50, true, "#f00", false).ok().unwrap();
    assert_eq!(size_of(&out), (50, 50));
    let img = image::load_from_memory(&out).unwrap().to_rgb8();
    assert_eq!(img.get_pixel(25, 0), &image::Rgb([255, 0, 0]));
    let e = resize(encoded(200, 100, ImageFormat::Png), 50, 50, true, "#ggg", false).err().unwrap();
    assert_eq!(e.error_type, AlicErrorType::InvalidHexColor);
}

#[test]
fn resize_rejects_garbage() {
    let e = resize(b"nothing".to_vec(), 5, 5, false, "", false).err().unwrap();
    assert_eq!(e.error_type, AlicErrorType::ImageResizeError);
    let e = resize_gif(b"GIF89a".to_vec(), 5, 5).err().unwrap();
    assert_eq!(e.error_type, AlicErrorType::ImageResizeError);
}

#[test]
fn jpeg_without_exif_is_upright() {
    assert_eq!(get_jpeg_orientation(&encoded(4, 4, ImageFormat::Jpeg)), 1);
    assert_eq!(get_jpeg_orientation(b"junk"), 1);
}

#[test]
fn resize_scales_animation_frames() {
    let gif = animation(40, 40, &[(40, 40, 0, 0), (10, 6, 21, 13), (1, 1, 5, 5)]);
    let out = resize_gif(gif, 20, 20).ok().unwrap();
    let decoder = image::codecs::gif::GifDecoder::new(Cursor::new(&out)).unwrap();
    let frames = decoder.into_frames().collect_frames().unwrap();
    // the decoder hands out every frame composited onto the full screen
    assert_eq!(frames.len(), 3);
    for f in &frames {
        assert_eq!((f.buffer().width(), f.buffer().height()), (20, 20));
        assert_eq!((f.left(), f.top()), (0, 0));
    }
}

fn run(profile: &ProfileData, path: &str, bytes: Vec<u8>) -> Result<RunOutcome, alic::errors::CompressError> {
    let size = bytes.len() as u64;
    let image = read_image_info(bytes, size, time(10), time(20)).unwrap();
    process_image_data(profile, path, image, 4, 1)
}

#[test]
fn converted_output_probes_as_target() {
    for target in [ImageType::WEBP, ImageType::JPEG, ImageType::AVIF, ImageType::TIFF] {
        let mut profile = ProfileData::new();
        profile.should_convert = true;
        profile.convert_extension = target;
        let out = match run(&profile, "dir/pic.png", encoded(64, 48, ImageFormat::Png)) {
            Ok(out) => out,
            Err(e) => panic!("converting to {:?} failed: {}", target, e.error),
        };
        match out {
            RunOutcome::Commit(c, bytes) => {
                assert_eq!(detect_format(&bytes), Some(target), "converting to {:?}", target);
                assert_eq!(c.source_path, "dir/pic.png".to_string());
                assert_eq!(c.out_path, format!("dir/pic.min.{}", target.preferred_extension()));
                assert_eq!(c.out_size as usize, bytes.len());
            }
            RunOutcome::CompressFile(..) => panic!("conversion runs in memory"),
        }
    }
}

#[test]
fn compressed_output_keeps_its_format() {
    let profile = ProfileData::new();
    let jpeg = {
        let img = RgbImage::from_fn(256, 256, |x, y| image::Rgb([(x ^ y) as u8, (x * 3) as u8, (y * 5) as u8]));
        let mut out = Vec::new();
        image::codecs::jpeg::JpegEncoder::new_with_quality(&mut out, 100)
            .encode_image(&DynamicImage::ImageRgb8(img))
            .unwrap();
        out
    };
    match run(&profile, "dir/pic.jpg", jpeg) {
        Ok(RunOutcome::Commit(c, bytes)) => {
            assert_eq!(probe_bytes(&bytes).unwrap().image_type, ImageType::JPEG);
            assert_eq!(c.out_path, "dir/pic.min.jpg".to_string());
        }
        Ok(RunOutcome::CompressFile(..)) => panic!("JPEG runs in memory"),
        Err(e) => assert_eq!(e.error_type, CompressErrorType::NotSmaller),
    }
}

#[test]
fn animations_go_through_the_file_route() {
    let gif = animation(10, 10, &[(10, 10, 0, 0)]);
    match run(&ProfileData::new(), "a/b.gif", gif.clone()).ok().unwrap() {
        RunOutcome::CompressFile(plan, data) => {
            assert_eq!(data, gif);
            assert_eq!(plan.out_path, "a/b.min.gif".to_string());
        }
        RunOutcome::Commit(..) => panic!("animations are compressed from files"),
    }
}

#[test]
fn overwrite_is_refused_before_any_work() {
    let mut profile = ProfileData::new();
    profile.add_postfix = false;
    let e = run(&profile, "a/b.png", encoded(8, 8, ImageFormat::Png)).err().unwrap();
    assert_eq!(e.error_type, CompressErrorType::WontOverwrite);
}

#[test]
fn resize_stage_errors_reach_the_run() {
    let mut profile = ProfileData::new();
    profile.should_resize = true;
    profile.resize_width = 10;
    profile.resize_height = 10;
    profile.should_background_fill = true;
    profile.background_fill = "#12".to_string();
    let e = run(&profile, "a/b.png", encoded(80, 80, ImageFormat::Png)).err().unwrap();
    assert_eq!(e.error_type, CompressErrorType::InvalidHexColor);
}

#[test]
fn animation_losing_every_frame_is_no_failure() {
    let gif = animation(100, 1, &[(100, 1, 0, 0)]);
    let out = resize_gif(gif, 10, 10).ok().unwrap();
    assert!(out.is_empty());
}

#[test]
fn codec_failures_carry_the_route_prefix() {
    let params = create_cs_parameters(&ProfileData::new());
    let e = encode_in_memory(b"junk".to_vec(), &params, CodecRoute::Compress, 1, 1).err().unwrap();
    assert_eq!(e.error_type, CompressErrorType::Unknown);
    assert!(e.error.starts_with("Error: Error compressing image: "));
    let e = encode_in_memory(b"junk".to_vec(), &params, CodecRoute::Convert(ImageType::PNG), 1, 1).err().unwrap();
    assert!(e.error.starts_with("Error: Error converting image: "));
    let e = encode_in_memory(b"junk".to_vec(), &params, CodecRoute::EncodeAvif, 1, 1).err().unwrap();
    assert!(e.error.starts_with("Error: Error encoding AVIF image: "));
}

#[test]
fn avif_with_zero_quality_and_threads_still_encodes() {
    let mut profile = ProfileData::new();
    profile.should_convert = true;
    profile.convert_extension = ImageType::AVIF;
    profile.avif_quality = 0;
    let bytes = encoded(16, 16, ImageFormat::Png);
    let size = bytes.len() as u64;
    let image = read_image_info(bytes, size, time(1), time(2)).unwrap();
    match process_image_data(&profile, "a/b.png", image, 0, 0) {
        Ok(RunOutcome::Commit(_, out)) => assert_eq!(detect_format(&out), Some(ImageType::AVIF)),
        _ => panic!("AVIF encoding failed"),
    }
}
