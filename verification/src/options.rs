//! The process-wide configuration of the pipeline: where sources are
//! read, where outputs are written, and which resampling filter a resize
//! uses.

use vstd::prelude::*;
use vstd::string::StringExecFns;
use crate::filter::FilterKind;

verus! {

/// Immutable configuration, built once at startup and shared read-only by
/// every request handler.
#[derive(Clone)]
pub struct ImageOption {
    input_dir: String,
    output_dir: String,
    filter_type: FilterKind,
}

/// The mathematical value of the configuration.
pub struct ImageOptionView {
    pub input_dir: Seq<char>,
    pub output_dir: Seq<char>,
    pub filter_type: FilterKind,
}

impl View for ImageOption {
    type V = ImageOptionView;

    closed spec fn view(&self) -> ImageOptionView {
        ImageOptionView {
            input_dir: self.input_dir@,
            output_dir: self.output_dir@,
            filter_type: self.filter_type,
        }
    }
}

impl ImageOption {
    pub fn new(input: &str, output: &str, filter_type: &FilterKind) -> (r: ImageOption)
        ensures
            r@ == (ImageOptionView {
                input_dir: input@,
                output_dir: output@,
                filter_type: *filter_type,
            }),
    {
        ImageOption {
            input_dir: String::from_str(input),
            output_dir: String::from_str(output),
            filter_type: *filter_type,
        }
    }

    /// The directory the source images are read from.
    pub fn input_dir(&self) -> (r: &str)
        ensures
            r@ == self@.input_dir,
    {
        self.input_dir.as_str()
    }

    /// The directory the transformed outputs are written to.
    pub fn output_dir(&self) -> (r: &str)
        ensures
            r@ == self@.output_dir,
    {
        self.output_dir.as_str()
    }

    /// The resampling filter every resize uses.
    pub fn filter_type(&self) -> (r: FilterKind)
        ensures
            r == self@.filter_type,
    {
        self.filter_type
    }
}

} // verus!
