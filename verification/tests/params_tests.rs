use irir::errors::ImgError;
use irir::params::{
    check_size, find_tagged_number, parse_blur_param, parse_crop_segment, parse_opt_blur,
    parse_size_segment, parse_u32_param, DEFAULT_BLUR_LEVEL, MAX_DIMENSION,
};

#[test]
fn parse_u32_plain() {
    assert_eq!(parse_u32_param("0"), Ok(0));
    assert_eq!(parse_u32_param("200"), Ok(200));
    assert_eq!(parse_u32_param("4294967295"), Ok(u32::MAX));
}

#[test]
fn parse_u32_rejects_empty() {
    assert_eq!(parse_u32_param(""), Err(ImgError::InvalidParameter));
}

#[test]
fn parse_u32_rejects_non_digits() {
    assert_eq!(parse_u32_param("12a"), Err(ImgError::InvalidParameter));
    assert_eq!(parse_u32_param("-5"), Err(ImgError::InvalidParameter));
    assert_eq!(parse_u32_param(" 5"), Err(ImgError::InvalidParameter));
}

#[test]
fn parse_u32_rejects_overflow() {
    assert_eq!(parse_u32_param("4294967296"), Err(ImgError::InvalidParameter));
    assert_eq!(
        parse_u32_param("99999999999999999999"),
        Err(ImgError::InvalidParameter)
    );
}

#[test]
fn tagged_number_finds_first_tagged_run() {
    assert_eq!(find_tagged_number("w200h100", 'w'), Ok(Some(200)));
    assert_eq!(find_tagged_number("w200h100", 'h'), Ok(Some(100)));
    assert_eq!(find_tagged_number("h100", 'w'), Ok(None));
    assert_eq!(find_tagged_number("", 'w'), Ok(None));
    // a tag not followed by a digit does not match
    assert_eq!(find_tagged_number("wx9", 'w'), Ok(None));
    // the first tagged occurrence wins
    assert_eq!(find_tagged_number("w1w2", 'w'), Ok(Some(1)));
}

#[test]
fn tagged_number_rejects_overflow() {
    assert_eq!(
        find_tagged_number("w4294967296", 'w'),
        Err(ImgError::InvalidParameter)
    );
}

#[test]
fn size_segment_both_orders() {
    assert_eq!(parse_size_segment("w200h100"), Ok((Some(200), Some(100))));
    assert_eq!(parse_size_segment("h100w200"), Ok((Some(200), Some(100))));
    assert_eq!(parse_size_segment("w200"), Ok((Some(200), None)));
    assert_eq!(parse_size_segment("h100"), Ok((None, Some(100))));
    assert_eq!(parse_size_segment(""), Ok((None, None)));
}

#[test]
fn crop_segment_subsets_and_orders() {
    assert_eq!(
        parse_crop_segment("x10y20w300h200"),
        Ok((Some(10), Some(20), Some(300), Some(200)))
    );
    assert_eq!(
        parse_crop_segment("h200x500"),
        Ok((Some(500), None, None, Some(200)))
    );
    assert_eq!(parse_crop_segment(""), Ok((None, None, None, None)));
    assert_eq!(
        parse_crop_segment("w4294967296"),
        Err(ImgError::InvalidParameter)
    );
}

#[test]
fn blur_param_defaults() {
    assert_eq!(parse_blur_param(None), Ok(DEFAULT_BLUR_LEVEL));
    assert_eq!(parse_blur_param(Some("10")), Ok(10));
    assert_eq!(parse_blur_param(Some("x")), Err(ImgError::InvalidParameter));
    assert_eq!(parse_opt_blur(None), Ok(None));
    assert_eq!(parse_opt_blur(Some("15")), Ok(Some(15)));
    assert_eq!(parse_opt_blur(Some("")), Err(ImgError::InvalidParameter));
}

#[test]
fn check_size_enforces_bound() {
    assert_eq!(check_size(&None, &None), Ok(()));
    assert_eq!(check_size(&Some(MAX_DIMENSION), &Some(MAX_DIMENSION)), Ok(()));
    assert_eq!(
        check_size(&Some(MAX_DIMENSION + 1), &None),
        Err(ImgError::SizeLimitExceeded)
    );
    assert_eq!(
        check_size(&None, &Some(5000)),
        Err(ImgError::SizeLimitExceeded)
    );
}
