//! The resampling filters a resize may use, and the parsing of a filter
//! name from configuration text.

use vstd::prelude::*;
use vstd::string::StrSliceExecFns;
use crate::errors::ImgError;

verus! {

/// The closed set of resampling algorithms available for the resize stage.
#[derive(Clone, Copy, Debug, PartialEq, Eq, Hash, Structural)]
pub enum FilterKind {
    Nearest,
    Gaussian,
    CatmullRom,
    Lanczos3,
    Triangle,
}

/// The code point of `c` with an ASCII upper-case letter folded to lower
/// case; every other character is left as it is.
pub open spec fn lower_code(c: char) -> u32 {
    if 65 <= c as u32 && c as u32 <= 90 {
        (c as u32 + 32) as u32
    } else {
        c as u32
    }
}

/// Whether `s` equals the keyword `kw` up to ASCII case folding of `s`.
pub open spec fn spec_keyword_matches(s: Seq<char>, kw: Seq<char>) -> bool {
    s.len() == kw.len() && forall|i: int|
        0 <= i < s.len() ==> lower_code(s[i]) == #[trigger] kw[i] as u32
}

fn keyword_matches(s: &str, kw: &str) -> (r: bool)
    ensures
        r == spec_keyword_matches(s@, kw@),
{
    let n = s.unicode_len();
    if n != kw.unicode_len() {
        return false;
    }
    let mut i: usize = 0;
    while i < n
        invariant
            n == s@.len(),
            s@.len() == kw@.len(),
            i <= n,
            forall|j: int| 0 <= j < i ==> lower_code(s@[j]) == #[trigger] kw@[j] as u32,
        decreases n - i,
    {
        let c: u32 = s.get_char(i) as u32;
        let lc: u32 = if 65 <= c && c <= 90 {
            c + 32
        } else {
            c
        };
        if lc != kw.get_char(i) as u32 {
            return false;
        }
        i += 1;
    }
    true
}

/// The filter a configuration name denotes, compared without regard to
/// ASCII case; an unknown name is a malformed parameter.
pub open spec fn spec_gen_filter_type(s: Seq<char>) -> Result<FilterKind, ImgError> {
    if spec_keyword_matches(s, "nearest"@) {
        Ok(FilterKind::Nearest)
    } else if spec_keyword_matches(s, "gaussian"@) {
        Ok(FilterKind::Gaussian)
    } else if spec_keyword_matches(s, "catmullrom"@) {
        Ok(FilterKind::CatmullRom)
    } else if spec_keyword_matches(s, "lanczos3"@) {
        Ok(FilterKind::Lanczos3)
    } else if spec_keyword_matches(s, "triangle"@) {
        Ok(FilterKind::Triangle)
    } else {
        Err(ImgError::InvalidParameter)
    }
}

/// Parses a resampling filter name.
pub fn gen_filter_type(filter_type_s: &str) -> (r: Result<FilterKind, ImgError>)
    ensures
        r == spec_gen_filter_type(filter_type_s@),
{
    if keyword_matches(filter_type_s, "nearest") {
        Ok(FilterKind::Nearest)
    } else if keyword_matches(filter_type_s, "gaussian") {
        Ok(FilterKind::Gaussian)
    } else if keyword_matches(filter_type_s, "catmullrom") {
        Ok(FilterKind::CatmullRom)
    } else if keyword_matches(filter_type_s, "lanczos3") {
        Ok(FilterKind::Lanczos3)
    } else if keyword_matches(filter_type_s, "triangle") {
        Ok(FilterKind::Triangle)
    } else {
        Err(ImgError::InvalidParameter)
    }
}

} // verus!
