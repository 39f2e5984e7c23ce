use alic::format::ImageType;
use alic::paths::{get_out_path, get_temp_path, has_image_extension, remove_extension};
use alic::settings::ProfileData;

#[test]
fn compress_test_convert_image_type() {
    let result = ImageType::JPEG.extensions()[0];
    assert_eq!(result, "jpg".to_string());
}

#[test]
fn compress_test_get_out_path() {
    let mut parameters = ProfileData::new();
    let mut result = get_out_path(&parameters, "test/test.png", &ImageType::PNG);
    assert_eq!(result, "test/test.min.png".to_string());

    parameters = ProfileData::new();
    result = get_out_path(&parameters, "test/test.jpeg", &ImageType::JPEG);
    assert_eq!(result, "test/test.min.jpeg".to_string());

    parameters = ProfileData::new();
    result = get_out_path(&parameters, "test/test.jpg", &ImageType::JPEG);
    assert_eq!(result, "test/test.min.jpg".to_string());

    parameters = ProfileData::new();
    parameters.should_convert = true;
    parameters.convert_extension = ImageType::PNG;
    result = get_out_path(&parameters, "test/test.jpeg", &ImageType::JPEG);
    assert_eq!(result, "test/test.min.png".to_string());

    parameters = ProfileData::new();
    parameters.should_convert = false;
    parameters.convert_extension = ImageType::PNG;
    result = get_out_path(&parameters, "test/test.jpeg", &ImageType::JPEG);
    assert_eq!(result, "test/test.min.jpeg".to_string());

    parameters = ProfileData::new();
    parameters.add_postfix = false;
    result = get_out_path(&parameters, "test/test.jpeg", &ImageType::PNG);
    assert_eq!(result, "test/test.png".to_string());

    parameters = ProfileData::new();
    parameters.postfix = ".bong".to_string();
    result = get_out_path(&parameters, "test/test.jpeg", &ImageType::PNG);
    assert_eq!(result, "test/test.bong.png".to_string());
}

#[test]
fn test_get_temp_path() {
    let result = get_temp_path("test/test.png");
    assert_eq!(result, "test/.test.png".to_string());
}

#[test]
fn remove_extension_keeps_directories() {
    assert_eq!(remove_extension("a/b.c/d.png"), "a/b.c/d".to_string());
    assert_eq!(remove_extension("a/b.c/.hidden"), "a/b.c/.hidden".to_string());
    assert_eq!(remove_extension("plain"), "plain".to_string());
}

#[test]
fn out_path_with_postfix_and_no_conversion() {
    let mut parameters = ProfileData::new();
    parameters.postfix = ".min".to_string();
    parameters.add_postfix = true;
    parameters.should_convert = false;
    let result = get_out_path(&parameters, "test/test.png", &ImageType::PNG);
    assert_eq!(result, "test/test.min.png".to_string());
}

#[test]
fn out_path_converting_without_postfix() {
    let mut parameters = ProfileData::new();
    parameters.add_postfix = false;
    parameters.should_convert = true;
    parameters.convert_extension = ImageType::PNG;
    let result = get_out_path(&parameters, "test/test.jpeg", &ImageType::JPEG);
    assert_eq!(result, "test/test.png".to_string());
}

#[test]
fn out_path_is_the_same_for_the_same_inputs() {
    let parameters = ProfileData::new();
    let a = get_out_path(&parameters, "dir/photo.JPG", &ImageType::JPEG);
    let b = get_out_path(&parameters, "dir/photo.JPG", &ImageType::JPEG);
    assert_eq!(a, b);
    // "JPG" is not one of the extensions the format accepts as written
    assert_eq!(a, "dir/photo.min.jpg".to_string());
}

#[test]
fn out_path_repairs_mislabelled_extension() {
    let parameters = ProfileData::new();
    let result = get_out_path(&parameters, "a/b.jpg", &ImageType::PNG);
    assert_eq!(result, "a/b.min.png".to_string());
    let result = get_out_path(&parameters, "a/noext", &ImageType::WEBP);
    assert_eq!(result, "a/noext.min.webp".to_string());
}

#[test]
fn out_path_equals_source_without_postfix() {
    let mut parameters = ProfileData::new();
    parameters.add_postfix = false;
    let result = get_out_path(&parameters, "x/y.tif", &ImageType::TIFF);
    assert_eq!(result, "x/y.tif".to_string());
}

#[test]
fn temp_path_of_bare_name() {
    assert_eq!(get_temp_path("pic.gif"), ".pic.gif".to_string());
}

#[test]
fn extensions_and_names() {
    assert_eq!(alic::paths::extension("a/b.PNG"), "PNG".to_string());
    assert_eq!(alic::paths::extension("a/.png"), "".to_string());
    assert_eq!(alic::paths::extension("a/b."), "".to_string());
    assert_eq!(alic::paths::extension("a.b/c"), "".to_string());
    assert_eq!(alic::paths::file_name("a/b/c.png"), "c.png".to_string());
}

#[test]
fn image_extension_filter() {
    assert!(has_image_extension("a/b.png"));
    assert!(has_image_extension("a/b.JPeG"));
    assert!(has_image_extension("a/b.avif"));
    assert!(has_image_extension("b.TIFF"));
    assert!(!has_image_extension("a/b.bmp"));
    assert!(!has_image_extension("a/png"));
    assert!(!has_image_extension("a/b.tif"));
}

#[test]
fn file_info_reports_size_extension_and_name() {
    let info = alic::paths::file_info("dir/pic.webp", 1234).unwrap();
    assert_eq!(info.size, 1234);
    assert_eq!(info.extension, "webp".to_string());
    assert_eq!(info.filename, "pic.webp".to_string());
    assert_eq!(alic::paths::file_info("dir/pic.webp", 1u64 << 32).err(), Some("File too large".to_string()));
    assert!(alic::paths::has_extension("a/b."));
    assert!(!alic::paths::has_extension("a/.b"));
}

#[test]
fn accepted_extensions_come_from_the_image_crate() {
    assert_eq!(ImageType::JPEG.extensions(), &["jpg", "jpeg"]);
    assert_eq!(ImageType::TIFF.extensions(), &["tiff", "tif"]);
    assert_eq!(ImageType::AVIF.extensions(), &["avif"]);
    assert_eq!(ImageType::AVIF.preferred_extension(), "avif");
    assert!(!ImageType::AVIF.engine_supports());
    assert!(ImageType::GIF.engine_supports());
}
