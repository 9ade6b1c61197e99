//! Parsing of the raw request parameters: decimal numbers, the size
//! segment (`w<digits>` and/or `h<digits>`), the crop segment
//! (`x<d>y<d>w<d>h<d>` in any subset and order), the blur level, and the
//! resource-protection bound on the requested size.

use vstd::prelude::*;
use vstd::string::StrSliceExecFns;
use crate::errors::ImgError;

verus! {

/// Largest width or height a request may ask for; a resource-protection
/// policy, not a correctness constraint.
pub const MAX_DIMENSION: u32 = 1280;

pub open spec fn is_digit_char(c: char) -> bool {
    48 <= c as u32 && c as u32 <= 57
}

pub open spec fn digit_val(c: char) -> int {
    c as u32 - 48
}

pub open spec fn all_digits(s: Seq<char>) -> bool {
    forall|i: int| 0 <= i < s.len() ==> is_digit_char(#[trigger] s[i])
}

/// The value of a string of decimal digits.
pub open spec fn dec_val(s: Seq<char>) -> int
    decreases s.len(),
{
    if s.len() == 0 {
        0
    } else {
        dec_val(s.drop_last()) * 10 + digit_val(s.last())
    }
}

/// The least position at or after `from` where `tag` stands immediately
/// before a digit, if there is one.
pub open spec fn first_tag_index(s: Seq<char>, tag: char, from: int) -> Option<int>
    decreases s.len() - from,
    when 0 <= from <= s.len()
{
    if from + 1 >= s.len() {
        None
    } else if s[from] == tag && is_digit_char(s[from + 1]) {
        Some(from)
    } else {
        first_tag_index(s, tag, from + 1)
    }
}

/// The end of the run of digits that starts at `from`.
pub open spec fn digit_run_end(s: Seq<char>, from: int) -> int
    decreases s.len() - from,
    when 0 <= from <= s.len()
{
    if from < s.len() && is_digit_char(s[from]) {
        digit_run_end(s, from + 1)
    } else {
        from
    }
}

/// The digits named by `tag`: the maximal digit run right after the first
/// occurrence of `tag` that is followed by a digit.
pub open spec fn spec_tagged_digits(s: Seq<char>, tag: char) -> Option<Seq<char>> {
    match first_tag_index(s, tag, 0) {
        None => None,
        Some(i) => Some(s.subrange(i + 1, digit_run_end(s, i + 1))),
    }
}

/// The numeric value `tag` names in `s`: absent when the tag is, malformed
/// when its digits exceed what a 32-bit number holds.
pub open spec fn spec_tagged_value(s: Seq<char>, tag: char) -> Result<Option<u32>, ImgError> {
    match spec_tagged_digits(s, tag) {
        None => Ok(None),
        Some(d) => if dec_val(d) > u32::MAX {
            Err(ImgError::InvalidParameter)
        } else {
            Ok(Some(dec_val(d) as u32))
        },
    }
}

/// The value of a whole decimal parameter: malformed when empty, when any
/// character is not a digit, or when the value exceeds a 32-bit number.
pub open spec fn spec_parse_u32(s: Seq<char>) -> Result<u32, ImgError> {
    if s.len() == 0 || !all_digits(s) || dec_val(s) > u32::MAX {
        Err(ImgError::InvalidParameter)
    } else {
        Ok(dec_val(s) as u32)
    }
}

proof fn lemma_dec_val_nonneg(s: Seq<char>)
    requires
        all_digits(s),
    ensures
        dec_val(s) >= 0,
    decreases s.len(),
{
    if s.len() > 0 {
        assert(all_digits(s.drop_last()));
        lemma_dec_val_nonneg(s.drop_last());
    }
}

/// A digit string's value never goes down as more digits follow.
proof fn lemma_dec_val_prefix_le(s: Seq<char>, k: int, end: int)
    requires
        0 <= k <= end <= s.len(),
        all_digits(s),
    ensures
        dec_val(s.subrange(0, k)) <= dec_val(s.subrange(0, end)),
    decreases end - k,
{
    if k < end {
        let t = s.subrange(0, k + 1);
        assert(t.drop_last() =~= s.subrange(0, k));
        assert(all_digits(s.subrange(0, k)));
        lemma_dec_val_nonneg(s.subrange(0, k));
        assert(dec_val(t) == dec_val(s.subrange(0, k)) * 10 + digit_val(s[k]));
        lemma_dec_val_prefix_le(s, k + 1, end);
    }
}

/// Parses a whole string as a decimal 32-bit number.
pub fn parse_u32_param(s: &str) -> (r: Result<u32, ImgError>)
    ensures
        r == spec_parse_u32(s@),
{
    let n = s.unicode_len();
    if n == 0 {
        return Err(ImgError::InvalidParameter);
    }
    let mut i: usize = 0;
    let mut val: u64 = 0;
    while i < n
        invariant
            n == s@.len(),
            0 < n,
            i <= n,
            all_digits(s@.subrange(0, i as int)),
            val == dec_val(s@.subrange(0, i as int)),
            val <= u32::MAX,
        decreases n - i,
    {
        let c: u32 = s.get_char(i) as u32;
        if !(48 <= c && c <= 57) {
            assert(!all_digits(s@));
            return Err(ImgError::InvalidParameter);
        }
        let next: u64 = val * 10 + (c - 48) as u64;
        proof {
            assert(s@.subrange(0, i + 1).drop_last() =~= s@.subrange(0, i as int));
            assert(dec_val(s@.subrange(0, i + 1)) == val * 10 + digit_val(s@[i as int]));
        }
        if next > u32::MAX as u64 {
            proof {
                if all_digits(s@) {
                    lemma_dec_val_prefix_le(s@, i + 1, s@.len() as int);
                    assert(s@.subrange(0, s@.len() as int) =~= s@);
                }
            }
            return Err(ImgError::InvalidParameter);
        }
        val = next;
        i += 1;
    }
    proof {
        assert(s@.subrange(0, n as int) =~= s@);
    }
    Ok(val as u32)
}

/// Parses the number a tag names inside a path segment, as the pattern
/// `<tag><digits>` does: the first such occurrence, with its whole run
/// of digits.
pub fn find_tagged_number(s: &str, tag: char) -> (r: Result<Option<u32>, ImgError>)
    ensures
        r == spec_tagged_value(s@, tag),
{
    let n = s.unicode_len();
    let mut i: usize = 0;
    loop
        invariant
            n == s@.len(),
            i <= n,
            first_tag_index(s@, tag, 0) == first_tag_index(s@, tag, i as int),
        ensures
            i + 1 < n,
            is_digit_char(s@[i as int + 1]),
            first_tag_index(s@, tag, 0) == Some(i as int),
        decreases n - i,
    {
        if n - i <= 1 {
            assert(first_tag_index(s@, tag, i as int) is None);
            return Ok(None);
        }
        if s.get_char(i) == tag {
            let c: u32 = s.get_char(i + 1) as u32;
            if 48 <= c && c <= 57 {
                assert(first_tag_index(s@, tag, i as int) == Some(i as int));
                break;
            }
        }
        proof {
            assert(first_tag_index(s@, tag, i as int) == first_tag_index(s@, tag, i + 1));
        }
        i += 1;
    }
    // walk to the end of the digit run that starts right after the tag
    let start = i + 1;
    let mut j = start;
    loop
        invariant
            n == s@.len(),
            start <= j <= n,
            start < n,
            digit_run_end(s@, start as int) == digit_run_end(s@, j as int),
        ensures
            start <= j <= n,
            digit_run_end(s@, start as int) == j as int,
        decreases n - j,
    {
        if j >= n {
            assert(digit_run_end(s@, j as int) == j as int);
            break;
        }
        let c: u32 = s.get_char(j) as u32;
        if !(48 <= c && c <= 57) {
            assert(digit_run_end(s@, j as int) == j as int);
            break;
        }
        proof {
            assert(digit_run_end(s@, j as int) == digit_run_end(s@, j + 1));
        }
        j += 1;
    }
    let digits = s.substring_char(start, j);
    proof {
        lemma_run_is_digits(s@, start as int, j as int);
    }
    match parse_u32_param(digits) {
        Ok(v) => Ok(Some(v)),
        Err(e) => Err(e),
    }
}

/// The width and height a size segment such as `w200h100` names.
pub open spec fn spec_size_params(s: Seq<char>) -> Result<(Option<u32>, Option<u32>), ImgError> {
    match (spec_tagged_value(s, 'w'), spec_tagged_value(s, 'h')) {
        (Ok(w), Ok(h)) => Ok((w, h)),
        _ => Err(ImgError::InvalidParameter),
    }
}

/// Parses a size segment: an optional `w<digits>` and an optional
/// `h<digits>`, in any order.
pub fn parse_size_segment(s: &str) -> (r: Result<(Option<u32>, Option<u32>), ImgError>)
    ensures
        r == spec_size_params(s@),
{
    let w = find_tagged_number(s, 'w')?;
    let h = find_tagged_number(s, 'h')?;
    Ok((w, h))
}

/// The offsets and extent a crop segment such as `x10y20w300h200` names.
pub open spec fn spec_crop_params(s: Seq<char>) -> Result<
    (Option<u32>, Option<u32>, Option<u32>, Option<u32>),
    ImgError,
> {
    match (
        spec_tagged_value(s, 'x'),
        spec_tagged_value(s, 'y'),
        spec_tagged_value(s, 'w'),
        spec_tagged_value(s, 'h'),
    ) {
        (Ok(x), Ok(y), Ok(w), Ok(h)) => Ok((x, y, w, h)),
        _ => Err(ImgError::InvalidParameter),
    }
}

/// Parses a crop segment: any subset of `x<d>`, `y<d>`, `w<d>`, `h<d>`,
/// in any order.
pub fn parse_crop_segment(s: &str) -> (r: Result<
    (Option<u32>, Option<u32>, Option<u32>, Option<u32>),
    ImgError,
>)
    ensures
        r == spec_crop_params(s@),
{
    let x = find_tagged_number(s, 'x')?;
    let y = find_tagged_number(s, 'y')?;
    let w = find_tagged_number(s, 'w')?;
    let h = find_tagged_number(s, 'h')?;
    Ok((x, y, w, h))
}

/// The blur level a request names when no explicit level is given.
pub const DEFAULT_BLUR_LEVEL: u32 = 5;

/// Parses the blur level of a blur route, falling back to the default
/// level when the route carries none.
pub fn parse_blur_param(level: Option<&str>) -> (r: Result<u32, ImgError>)
    ensures
        level matches Some(t) ==> r == spec_parse_u32(t@),
        level is None ==> r == Ok::<u32, ImgError>(DEFAULT_BLUR_LEVEL),
{
    match level {
        Some(t) => parse_u32_param(t),
        None => Ok(DEFAULT_BLUR_LEVEL),
    }
}

/// Parses an optional blur level: absent stays absent, present must be a
/// well-formed number.
pub fn parse_opt_blur(level: Option<&str>) -> (r: Result<Option<u32>, ImgError>)
    ensures
        level matches Some(t) ==> r == (match spec_parse_u32(t@) {
            Ok(v) => Ok(Some(v)),
            Err(e) => Err(e),
        }),
        level is None ==> r == Ok::<Option<u32>, ImgError>(None),
{
    match level {
        Some(t) => match parse_u32_param(t) {
            Ok(v) => Ok(Some(v)),
            Err(e) => Err(e),
        },
        None => Ok(None),
    }
}

/// Whether a requested size stays within the resource-protection bound;
/// an absent dimension imposes nothing.
pub open spec fn spec_check_size(width: Option<u32>, height: Option<u32>) -> Result<(), ImgError> {
    let w = match width {
        Some(v) => v,
        None => 0,
    };
    let h = match height {
        Some(v) => v,
        None => 0,
    };
    if w > MAX_DIMENSION || h > MAX_DIMENSION {
        Err(ImgError::SizeLimitExceeded)
    } else {
        Ok(())
    }
}

/// Rejects a requested size above the resource-protection bound.
pub fn check_size(width: &Option<u32>, height: &Option<u32>) -> (r: Result<(), ImgError>)
    ensures
        r == spec_check_size(*width, *height),
{
    let w = match width {
        Some(v) => *v,
        None => 0,
    };
    let h = match height {
        Some(v) => *v,
        None => 0,
    };
    if w > MAX_DIMENSION || h > MAX_DIMENSION {
        Err(ImgError::SizeLimitExceeded)
    } else {
        Ok(())
    }
}

/// Every character of a digit run up to its end is a digit, and a run that
/// starts on a digit is not empty.
proof fn lemma_run_is_digits(s: Seq<char>, start: int, run_end: int)
    requires
        0 <= start <= s.len(),
        run_end == digit_run_end(s, start),
    ensures
        start <= run_end <= s.len(),
        all_digits(s.subrange(start, run_end)),
        start < s.len() && is_digit_char(s[start]) ==> run_end >= start + 1,
    decreases s.len() - start,
{
    if start < s.len() && is_digit_char(s[start]) {
        lemma_run_is_digits(s, start + 1, run_end);
        assert(s.subrange(start, run_end) =~= seq![s[start]] + s.subrange(start + 1, run_end));
        assert forall|i: int| 0 <= i < run_end - start implies is_digit_char(
            #[trigger] s.subrange(start, run_end)[i],
        ) by {
            if i > 0 {
                assert(s.subrange(start + 1, run_end)[i - 1] == s.subrange(start, run_end)[i]);
            }
        }
    }
}

} // verus!
