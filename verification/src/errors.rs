//! Failure taxonomy of the transform pipeline and the mapping of core
//! failures to the outcome a web boundary reports.

use vstd::prelude::*;
use vstd::string::StringExecFns;

verus! {

/// Every way the core can fail: bad numeric input, the resource-protection
/// size bound, a missing or undecodable source, an invalid crop rectangle,
/// a persistence failure, a cache entry whose file is gone, or a broken
/// cache invariant.
#[derive(Clone, Copy, Debug, PartialEq, Eq, Structural)]
pub enum ImgError {
    InvalidParameter,
    SizeLimitExceeded,
    SourceNotFound,
    DecodeError,
    OutOfBounds,
    EncodeError,
    WriteError,
    MissingOutputFile,
    CacheInconsistency,
}

impl ImgError {
    /// The errors a web boundary maps to a "not found" outcome rather than a
    /// generic failure.
    pub open spec fn spec_is_not_found(self) -> bool {
        self == ImgError::SourceNotFound || self == ImgError::MissingOutputFile
    }

    pub open spec fn spec_message(self) -> Seq<char> {
        match self {
            ImgError::InvalidParameter => "invalid parameter"@,
            ImgError::SizeLimitExceeded => "size limit exceeded"@,
            ImgError::SourceNotFound => "source image not found"@,
            ImgError::DecodeError => "source image could not be decoded"@,
            ImgError::OutOfBounds => "crop rectangle out of bounds"@,
            ImgError::EncodeError => "output image could not be encoded"@,
            ImgError::WriteError => "output image could not be written"@,
            ImgError::MissingOutputFile => "recorded output file is missing"@,
            ImgError::CacheInconsistency => "result cache is inconsistent"@,
        }
    }

    /// A human-readable reason, carried by generic failure outcomes.
    pub fn message(&self) -> (r: &'static str)
        ensures
            r@ == self.spec_message(),
    {
        match self {
            ImgError::InvalidParameter => "invalid parameter",
            ImgError::SizeLimitExceeded => "size limit exceeded",
            ImgError::SourceNotFound => "source image not found",
            ImgError::DecodeError => "source image could not be decoded",
            ImgError::OutOfBounds => "crop rectangle out of bounds",
            ImgError::EncodeError => "output image could not be encoded",
            ImgError::WriteError => "output image could not be written",
            ImgError::MissingOutputFile => "recorded output file is missing",
            ImgError::CacheInconsistency => "result cache is inconsistent",
        }
    }

    /// True of the errors that map to a "not found" response.
    pub fn is_not_found(&self) -> (r: bool)
        ensures
            r == self.spec_is_not_found(),
    {
        *self == ImgError::SourceNotFound || *self == ImgError::MissingOutputFile
    }
}

/// Outcome of recovering a core error at the web boundary: either a
/// "not found" response or a generic failure carrying a reason.
#[derive(Debug)]
pub enum WebError {
    InternalError(String),
    NotFound,
}

impl WebError {
    /// Maps a core error to its response outcome: the "not found" errors
    /// become `NotFound`, every other one a generic failure with its message.
    pub fn internal(e: ImgError) -> (r: WebError)
        ensures
            e.spec_is_not_found() ==> r is NotFound,
            !e.spec_is_not_found() ==> (r matches WebError::InternalError(m) && m@
                == e.spec_message()),
    {
        if e.is_not_found() {
            WebError::NotFound
        } else {
            WebError::InternalError(String::from_str(e.message()))
        }
    }

    /// A generic failure for a malformed numeric parameter.
    pub fn parse(reason: String) -> (r: WebError)
        ensures
            r matches WebError::InternalError(m) && m@ == reason@,
    {
        WebError::InternalError(reason)
    }

    /// A generic failure for an input/output error at the boundary.
    pub fn io(reason: String) -> (r: WebError)
        ensures
            r matches WebError::InternalError(m) && m@ == reason@,
    {
        WebError::InternalError(reason)
    }
}

} // verus!
