use image::{DynamicImage, Rgb, RgbImage};
use irir::errors::ImgError;
use irir::filter::FilterKind;
use irir::imgops::{image_size, pixel_bytes};
use irir::options::ImageOption;
use irir::pipeline::{content_hash, plan_stages, transform, Stage};
use irir::request::ImageInfo;

fn opts() -> ImageOption {
    ImageOption::new("originals", "outputs", &FilterKind::Lanczos3)
}

fn gradient(w: u32, h: u32) -> DynamicImage {
    DynamicImage::ImageRgb8(RgbImage::from_fn(w, h, |x, y| {
        Rgb([(x % 251) as u8, (y % 241) as u8, ((x + y) % 239) as u8])
    }))
}

#[test]
fn dispatch_policy_orders_stages() {
    let plain = ImageInfo::new("a", "png", Some(10), None);
    assert_eq!(plan_stages(&plain), vec![Stage::Resize]);

    let mut blurred = ImageInfo::new("a", "png", Some(10), None);
    blurred.blur(3);
    assert_eq!(plan_stages(&blurred), vec![Stage::Resize, Stage::Blur]);

    let mut cropped = ImageInfo::new("a", "png", Some(10), None);
    cropped.crop(Some(1), None, Some(5), None);
    assert_eq!(plan_stages(&cropped), vec![Stage::Crop, Stage::Resize]);

    let mut both = ImageInfo::new("a", "png", Some(10), None);
    both.crop(Some(1), None, Some(5), None);
    both.blur(3);
    assert_eq!(
        plan_stages(&both),
        vec![Stage::Crop, Stage::Resize, Stage::Blur]
    );
}

#[test]
fn no_dimensions_passes_pixels_through() {
    let src = gradient(40, 30);
    let src_pixels = pixel_bytes(&src);
    let info = ImageInfo::new("a", "png", None, None);
    let (out, _hash) = transform(&opts(), &info, src).unwrap();
    assert_eq!(image_size(&out), (40, 30));
    assert_eq!(pixel_bytes(&out), src_pixels);
}

#[test]
fn single_dimension_preserves_aspect_ratio() {
    let src = gradient(400, 800);
    let info = ImageInfo::new("a", "png", Some(200), None);
    let (out, _hash) = transform(&opts(), &info, src).unwrap();
    assert_eq!(image_size(&out), (200, 400));

    let src2 = gradient(400, 800);
    let info2 = ImageInfo::new("a", "png", None, Some(400));
    let (out2, _hash2) = transform(&opts(), &info2, src2).unwrap();
    assert_eq!(image_size(&out2), (200, 400));
}

#[test]
fn single_dimension_rounds_an_inexact_ratio() {
    // 100 on a 300x200 source asks for a height of 200/3: the crate
    // rounds it to 67
    let src = gradient(300, 200);
    let info = ImageInfo::new("a", "png", Some(100), None);
    let (out, _hash) = transform(&opts(), &info, src).unwrap();
    assert_eq!(image_size(&out), (100, 67));
}

#[test]
fn resize_reads_the_color_type_not_just_the_bytes() {
    // two images with byte-identical raw buffers but different color
    // types: gray-with-alpha pairs against 16-bit gray words; resampling
    // interprets channels, so the resized bytes differ
    let bytes: Vec<u8> = vec![0x00, 0xff, 0xff, 0x00, 0x00, 0xff, 0xff, 0x00];
    let words: Vec<u16> = vec![0xff00, 0x00ff, 0xff00, 0x00ff];
    let la8 = DynamicImage::ImageLumaA8(
        image::GrayAlphaImage::from_raw(4, 1, bytes).unwrap(),
    );
    let l16 = DynamicImage::ImageLuma16(
        image::ImageBuffer::<image::Luma<u16>, Vec<u16>>::from_raw(4, 1, words).unwrap(),
    );
    assert_eq!(pixel_bytes(&la8), pixel_bytes(&l16));
    let info = ImageInfo::new("a", "png", Some(2), Some(1));
    let (out_la8, h1) = transform(&opts(), &info, la8).unwrap();
    let (out_l16, h2) = transform(&opts(), &info, l16).unwrap();
    assert_eq!(image_size(&out_la8), (2, 1));
    assert_eq!(image_size(&out_l16), (2, 1));
    assert_ne!(pixel_bytes(&out_la8), pixel_bytes(&out_l16));
    assert_ne!(h1, h2);
}

#[test]
fn both_dimensions_scale_exactly() {
    let src = gradient(400, 800);
    let info = ImageInfo::new("a", "png", Some(200), Some(150));
    let (out, _hash) = transform(&opts(), &info, src).unwrap();
    assert_eq!(image_size(&out), (200, 150));
}

#[test]
fn crop_beyond_source_width_is_out_of_bounds() {
    let src = gradient(400, 300);
    let mut info = ImageInfo::new("a", "png", None, None);
    info.crop(Some(300), None, Some(200), None);
    assert!(matches!(
        transform(&opts(), &info, src),
        Err(ImgError::OutOfBounds)
    ));
}

#[test]
fn crop_beyond_source_height_is_out_of_bounds() {
    let src = gradient(400, 300);
    let mut info = ImageInfo::new("a", "png", None, None);
    info.crop(None, Some(100), None, Some(201));
    assert!(matches!(
        transform(&opts(), &info, src),
        Err(ImgError::OutOfBounds)
    ));
}

#[test]
fn crop_defaults_extend_to_the_edges() {
    let src = gradient(400, 300);
    let mut info = ImageInfo::new("a", "png", None, None);
    info.crop(Some(100), Some(50), None, None);
    let (out, _hash) = transform(&opts(), &info, src).unwrap();
    assert_eq!(image_size(&out), (300, 250));
}

#[test]
fn crop_exact_rectangle_keeps_its_size() {
    let src = gradient(400, 300);
    let mut info = ImageInfo::new("a", "png", None, None);
    info.crop(Some(10), Some(20), Some(100), Some(50));
    let (out, _hash) = transform(&opts(), &info, src).unwrap();
    assert_eq!(image_size(&out), (100, 50));
}

#[test]
fn blur_level_zero_is_identical_to_no_blur() {
    let src = gradient(64, 64);
    let plain = ImageInfo::new("a", "png", Some(32), None);
    let (out_plain, hash_plain) = transform(&opts(), &plain, src).unwrap();

    let src2 = gradient(64, 64);
    let mut zero = ImageInfo::new("a", "png", Some(32), None);
    zero.blur(0);
    let (out_zero, hash_zero) = transform(&opts(), &zero, src2).unwrap();

    assert_eq!(pixel_bytes(&out_plain), pixel_bytes(&out_zero));
    assert_eq!(hash_plain, hash_zero);
}

#[test]
fn blur_of_an_empty_crop_passes_through() {
    // a zero-extent crop is within bounds and yields an image with no
    // pixels; a later blur must leave it untouched rather than reach the
    // blur kernel
    let src = gradient(8, 8);
    let mut info = ImageInfo::new("a", "png", None, None);
    info.crop(Some(0), Some(0), Some(0), Some(0));
    info.blur(5);
    let (out, _hash) = transform(&opts(), &info, src).unwrap();
    assert_eq!(image_size(&out), (0, 0));
    assert_eq!(pixel_bytes(&out), Vec::<u8>::new());

    // zero in one axis only behaves the same
    let src2 = gradient(8, 8);
    let mut info2 = ImageInfo::new("a", "png", None, None);
    info2.crop(None, None, Some(0), None);
    info2.blur(5);
    let (out2, _hash2) = transform(&opts(), &info2, src2).unwrap();
    assert_eq!(image_size(&out2), (0, 8));
}

#[test]
fn blur_positive_level_changes_pixels() {
    let src = gradient(64, 64);
    let plain = ImageInfo::new("a", "png", None, None);
    let (out_plain, _h) = transform(&opts(), &plain, src).unwrap();

    let src2 = gradient(64, 64);
    let mut blurred = ImageInfo::new("a", "png", None, None);
    blurred.blur(10);
    let (out_blurred, _h2) = transform(&opts(), &blurred, src2).unwrap();

    assert_eq!(image_size(&out_blurred), (64, 64));
    assert_ne!(pixel_bytes(&out_plain), pixel_bytes(&out_blurred));
}

#[test]
fn crop_applies_to_the_source_extent_not_the_resized_one() {
    // the rectangle is valid against the 400x800 source but would leave a
    // width-100 resized image: success shows the crop ran first
    let src = gradient(400, 800);
    let mut info = ImageInfo::new("a", "png", Some(100), None);
    info.crop(Some(50), Some(100), Some(300), Some(300));
    let (out, _hash) = transform(&opts(), &info, src).unwrap();
    assert_eq!(image_size(&out), (100, 100));

    // and it yields the same pixels as cropping alone, then resizing alone
    let src2 = gradient(400, 800);
    let mut crop_only = ImageInfo::new("a", "png", None, None);
    crop_only.crop(Some(50), Some(100), Some(300), Some(300));
    let (cropped, _h) = transform(&opts(), &crop_only, src2).unwrap();
    let resize_only = ImageInfo::new("a", "png", Some(100), None);
    let (two_step, _h2) = transform(&opts(), &resize_only, cropped).unwrap();
    assert_eq!(pixel_bytes(&out), pixel_bytes(&two_step));
}

#[test]
fn transform_is_deterministic_for_identical_inputs() {
    let src1 = gradient(123, 77);
    let src2 = gradient(123, 77);
    let mut a = ImageInfo::new("a", "png", Some(60), None);
    a.blur(2);
    let mut b = ImageInfo::new("a", "png", Some(60), None);
    b.blur(2);
    let (out1, h1) = transform(&opts(), &a, src1).unwrap();
    let (out2, h2) = transform(&opts(), &b, src2).unwrap();
    assert_eq!(h1, h2);
    assert_eq!(pixel_bytes(&out1), pixel_bytes(&out2));
}

#[test]
fn content_hash_tracks_pixels_not_request_names() {
    // two requests with different names but the same transform give the
    // same content hash on the same source
    let src1 = gradient(50, 40);
    let src2 = gradient(50, 40);
    let a = ImageInfo::new("first", "png", Some(25), None);
    let b = ImageInfo::new("second", "png", Some(25), None);
    let (_o1, h1) = transform(&opts(), &a, src1).unwrap();
    let (_o2, h2) = transform(&opts(), &b, src2).unwrap();
    assert_eq!(h1, h2);

    // while different pixels give a different hash
    let other = gradient(50, 41);
    let (_o3, h3) = transform(&opts(), &a, other).unwrap();
    assert_ne!(h1, h3);
}

#[test]
fn content_hash_has_the_expected_digest() {
    // the digest of the bytes [1, 2, 3, 4, 5, 6] under the 64-bit FNV-1a
    // fold, computed independently
    let img = DynamicImage::ImageRgb8(RgbImage::from_fn(2, 1, |x, _y| {
        if x == 0 {
            Rgb([1, 2, 3])
        } else {
            Rgb([4, 5, 6])
        }
    }));
    assert_eq!(content_hash(&img), 10900583652230846538);
}

#[test]
fn pixel_bytes_returns_the_raw_buffer() {
    let img = DynamicImage::ImageRgb8(RgbImage::from_fn(2, 1, |x, _y| {
        if x == 0 {
            Rgb([1, 2, 3])
        } else {
            Rgb([4, 5, 6])
        }
    }));
    assert_eq!(image_size(&img), (2, 1));
    assert_eq!(pixel_bytes(&img), vec![1, 2, 3, 4, 5, 6]);
}
