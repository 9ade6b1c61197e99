//! The file names and paths the pipeline reads and writes: the source
//! path under the input directory, and the content-addressed output path
//! `<output_dir>/<content hash>.<format>`.

use vstd::prelude::*;
use vstd::string::{StrSliceExecFns, StringExecFns};
use crate::options::{ImageOption, ImageOptionView};
use crate::request::{spec_fname, ImageInfo, ImageInfoView};

verus! {

pub open spec fn digit_char_of(d: u64) -> char
    recommends
        d < 10,
{
    ((d + 48) as u8) as char
}

/// The decimal writing of a 64-bit number, most significant digit first,
/// without leading zeroes (`0` itself excepted).
pub open spec fn dec_digits(n: u64) -> Seq<char>
    decreases n,
{
    if n < 10 {
        seq![digit_char_of(n)]
    } else {
        dec_digits(n / 10) + seq![digit_char_of(n % 10)]
    }
}

fn digit_str(d: u64) -> (r: &'static str)
    requires
        d < 10,
    ensures
        r@ == seq![digit_char_of(d)],
{
    proof {
        reveal_strlit("0");
        reveal_strlit("1");
        reveal_strlit("2");
        reveal_strlit("3");
        reveal_strlit("4");
        reveal_strlit("5");
        reveal_strlit("6");
        reveal_strlit("7");
        reveal_strlit("8");
        reveal_strlit("9");
    }
    let r = match d {
        0 => "0",
        1 => "1",
        2 => "2",
        3 => "3",
        4 => "4",
        5 => "5",
        6 => "6",
        7 => "7",
        8 => "8",
        _ => "9",
    };
    proof {
        assert(r@ =~= seq![digit_char_of(d)]);
    }
    r
}

/// Writes a 64-bit number in decimal.
pub fn u64_to_dec(n: u64) -> (r: String)
    ensures
        r@ == dec_digits(n),
    decreases n,
{
    if n < 10 {
        String::from_str(digit_str(n))
    } else {
        let head = u64_to_dec(n / 10);
        head.concat(digit_str(n % 10))
    }
}

/// The path of the source image a request names, under the input
/// directory.
pub open spec fn spec_source_path(opts: ImageOptionView, v: ImageInfoView) -> Seq<char> {
    opts.input_dir + seq!['/'] + spec_fname(v)
}

/// The content-addressed name of an output: the content hash in decimal,
/// with the request's format as extension.
pub open spec fn spec_output_name(content_hash: u64, format: Seq<char>) -> Seq<char> {
    dec_digits(content_hash) + seq!['.'] + format
}

/// The path of an output under the output directory.
pub open spec fn spec_output_path(
    opts: ImageOptionView,
    content_hash: u64,
    format: Seq<char>,
) -> Seq<char> {
    opts.output_dir + seq!['/'] + spec_output_name(content_hash, format)
}

/// Builds the path the source of `info` is read from.
pub fn source_path(opts: &ImageOption, info: &ImageInfo) -> (r: String)
    ensures
        r@ == spec_source_path(opts@, info@),
{
    let mut s = String::from_str(opts.input_dir());
    s.append("/");
    let fname = info.fname();
    s.append(fname.as_str());
    proof {
        reveal_strlit("/");
        assert(s@ =~= spec_source_path(opts@, info@));
    }
    s
}

/// Builds the path an output with the given content hash is persisted at.
pub fn output_path(opts: &ImageOption, content_hash: u64, format: &str) -> (r: String)
    ensures
        r@ == spec_output_path(opts@, content_hash, format@),
{
    let mut s = String::from_str(opts.output_dir());
    s.append("/");
    let digits = u64_to_dec(content_hash);
    s.append(digits.as_str());
    s.append(".");
    s.append(format);
    proof {
        reveal_strlit("/");
        reveal_strlit(".");
        assert(s@ =~= spec_output_path(opts@, content_hash, format@));
    }
    s
}

} // verus!
