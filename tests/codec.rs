use alic::codec::{avif_quality_byte, avif_thread_budget, codec_route, create_cs_parameters, CodecRoute};
use alic::format::ImageType;
use alic::settings::ProfileData;

#[test]
fn thread_budget_shares_threads_in_a_batch() {
    assert_eq!(avif_thread_budget(16, 1), 16);
    assert_eq!(avif_thread_budget(16, 0), 16);
    assert_eq!(avif_thread_budget(16, 4), 4);
    assert_eq!(avif_thread_budget(16, 5), 3);
    assert_eq!(avif_thread_budget(4, 8), 1);
    assert_eq!(avif_thread_budget(0, 1), 1);
    assert_eq!(avif_thread_budget(0, 3), 1);
}

#[test]
fn avif_quality_is_capped() {
    assert_eq!(avif_quality_byte(80), 80);
    assert_eq!(avif_quality_byte(250), 100);
    assert_eq!(avif_quality_byte(0), 1);
}

#[test]
fn routes_follow_format_capabilities() {
    let mut p = ProfileData::new();
    assert_eq!(codec_route(&p, ImageType::PNG), CodecRoute::Compress);
    assert_eq!(codec_route(&p, ImageType::GIF), CodecRoute::CompressFile);
    assert_eq!(codec_route(&p, ImageType::AVIF), CodecRoute::EncodeAvif);
    p.should_convert = true;
    p.convert_extension = ImageType::WEBP;
    assert_eq!(codec_route(&p, ImageType::PNG), CodecRoute::Convert(ImageType::WEBP));
    assert_eq!(codec_route(&p, ImageType::GIF), CodecRoute::Convert(ImageType::WEBP));
    assert_eq!(codec_route(&p, ImageType::WEBP), CodecRoute::Compress);
    p.convert_extension = ImageType::AVIF;
    assert_eq!(codec_route(&p, ImageType::JPEG), CodecRoute::EncodeAvif);
}

#[test]
fn parameters_map_the_profile() {
    let mut p = ProfileData::new();
    p.jpeg_quality = 55;
    p.png_quality = 66;
    p.webp_quality = 77;
    p.gif_quality = 88;
    p.avif_quality = 44;
    p.enable_lossy = false;
    p.keep_metadata = false;
    p.should_resize = true;
    let c = create_cs_parameters(&p);
    assert_eq!((c.jpeg_quality, c.png_quality, c.webp_quality, c.gif_quality, c.avif_quality), (55, 66, 77, 88, 44));
    assert!(c.optimize);
    assert!(!c.keep_metadata);
    assert_eq!((c.width, c.height), (0, 0));
}
