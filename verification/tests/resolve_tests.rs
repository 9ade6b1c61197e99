use image::{DynamicImage, Rgb, RgbImage};
use irir::cache::ResultCache;
use irir::errors::{ImgError, WebError};
use irir::filter::FilterKind;
use irir::options::ImageOption;
use irir::paths::{output_path, source_path, u64_to_dec};
use irir::request::ImageInfo;
use irir::resolve::{
    hit_complete, open_failure, resolve_begin, resolve_record, resolve_transform, save_failure,
    should_persist, BeginOutcome,
};

fn opts() -> ImageOption {
    ImageOption::new("originals", "outputs", &FilterKind::Triangle)
}

fn gradient(w: u32, h: u32) -> DynamicImage {
    DynamicImage::ImageRgb8(RgbImage::from_fn(w, h, |x, y| {
        Rgb([(x % 256) as u8, (y % 256) as u8, 0])
    }))
}

#[test]
fn cache_starts_empty_and_records() {
    let mut cache = ResultCache::new();
    assert_eq!(cache.len(), 0);
    assert_eq!(cache.lookup(42), None);
    cache.record(42, 7);
    assert_eq!(cache.lookup(42), Some(7));
    assert_eq!(cache.len(), 1);
    cache.record(42, 9);
    assert_eq!(cache.lookup(42), Some(9));
    assert_eq!(cache.len(), 1);
    assert_eq!(cache.lookup(43), None);
}

#[test]
fn cold_cache_misses_to_the_source_path() {
    let cache = ResultCache::new();
    let info = ImageInfo::new("ferris", "png", Some(100), None);
    match resolve_begin(&opts(), &cache, &info) {
        BeginOutcome::Miss { source_path: p } => assert_eq!(p, "originals/ferris.png"),
        BeginOutcome::Hit { .. } => panic!("a cold cache cannot hit"),
    }
}

#[test]
fn recorded_request_hits_its_output_path() {
    let mut cache = ResultCache::new();
    let info = ImageInfo::new("ferris", "png", Some(100), None);
    resolve_record(&mut cache, &info, 12345);
    match resolve_begin(&opts(), &cache, &info) {
        BeginOutcome::Hit { output_path: p } => assert_eq!(p, "outputs/12345.png"),
        BeginOutcome::Miss { .. } => panic!("a recorded request must hit"),
    }
}

#[test]
fn resolve_twice_names_the_same_output() {
    // a miss runs the pipeline; recording its content hash makes the same
    // request hit, and the hit names exactly the path the miss produced
    let mut cache = ResultCache::new();
    let info = ImageInfo::new("ferris", "png", Some(50), Some(40));
    let out = resolve_transform(&opts(), &info, gradient(100, 100)).unwrap();
    resolve_record(&mut cache, &info, out.content_hash);

    let again = ImageInfo::new("ferris", "png", Some(50), Some(40));
    match resolve_begin(&opts(), &cache, &again) {
        BeginOutcome::Hit { output_path: p } => assert_eq!(p, out.output_path),
        BeginOutcome::Miss { .. } => panic!("the repeated request must hit"),
    }
}

#[test]
fn different_requests_do_not_share_entries() {
    let mut cache = ResultCache::new();
    let a = ImageInfo::new("ferris", "png", Some(100), None);
    let b = ImageInfo::new("ferris", "png", None, Some(100));
    resolve_record(&mut cache, &a, 1);
    match resolve_begin(&opts(), &cache, &b) {
        BeginOutcome::Miss { .. } => {},
        BeginOutcome::Hit { .. } => panic!("a different request must not hit"),
    }
}

#[test]
fn transform_outcome_carries_content_path() {
    let info = ImageInfo::new("any", "png", None, None);
    let out = resolve_transform(&opts(), &info, gradient(8, 8)).unwrap();
    let mut expected = String::from("outputs/");
    expected.push_str(&u64_to_dec(out.content_hash));
    expected.push_str(".png");
    assert_eq!(out.output_path, expected);
}

#[test]
fn transform_failure_surfaces_the_stage_error() {
    let mut info = ImageInfo::new("any", "png", None, None);
    info.crop(Some(9), None, None, None);
    assert!(matches!(
        resolve_transform(&opts(), &info, gradient(8, 8)),
        Err(ImgError::OutOfBounds)
    ));
}

#[test]
fn hit_complete_demands_the_file() {
    assert_eq!(
        hit_complete(true, String::from("outputs/1.png")),
        Ok(String::from("outputs/1.png"))
    );
    assert_eq!(
        hit_complete(false, String::from("outputs/1.png")),
        Err(ImgError::MissingOutputFile)
    );
}

#[test]
fn persist_only_when_the_file_is_missing() {
    assert!(should_persist(false));
    assert!(!should_persist(true));
}

#[test]
fn boundary_errors_are_distinguished() {
    assert_eq!(open_failure(true), ImgError::SourceNotFound);
    assert_eq!(open_failure(false), ImgError::DecodeError);
    assert_eq!(save_failure(true), ImgError::WriteError);
    assert_eq!(save_failure(false), ImgError::EncodeError);
}

#[test]
fn paths_are_joined_with_the_directories() {
    let info = ImageInfo::new("ferris", "png", None, None);
    assert_eq!(source_path(&opts(), &info), "originals/ferris.png");
    assert_eq!(output_path(&opts(), 0, "png"), "outputs/0.png");
    assert_eq!(
        output_path(&opts(), u64::MAX, "jpg"),
        "outputs/18446744073709551615.jpg"
    );
    assert_eq!(u64_to_dec(1234567890), "1234567890");
}

#[test]
fn web_errors_map_not_found_and_reasons() {
    assert!(matches!(
        WebError::internal(ImgError::SourceNotFound),
        WebError::NotFound
    ));
    assert!(matches!(
        WebError::internal(ImgError::MissingOutputFile),
        WebError::NotFound
    ));
    match WebError::internal(ImgError::OutOfBounds) {
        WebError::InternalError(m) => assert_eq!(m, "crop rectangle out of bounds"),
        WebError::NotFound => panic!("an out-of-bounds crop is not a missing page"),
    }
    match WebError::parse(String::from("bad number")) {
        WebError::InternalError(m) => assert_eq!(m, "bad number"),
        WebError::NotFound => panic!("a parse failure is not a missing page"),
    }
    match WebError::io(String::from("disk gone")) {
        WebError::InternalError(m) => assert_eq!(m, "disk gone"),
        WebError::NotFound => panic!("an io failure is not a missing page"),
    }
}

#[test]
fn error_messages_and_not_found_flags() {
    assert!(ImgError::SourceNotFound.is_not_found());
    assert!(ImgError::MissingOutputFile.is_not_found());
    assert!(!ImgError::DecodeError.is_not_found());
    assert!(!ImgError::CacheInconsistency.is_not_found());
    assert_eq!(ImgError::InvalidParameter.message(), "invalid parameter");
    assert_eq!(ImgError::SizeLimitExceeded.message(), "size limit exceeded");
    assert_eq!(
        ImgError::CacheInconsistency.message(),
        "result cache is inconsistent"
    );
}
