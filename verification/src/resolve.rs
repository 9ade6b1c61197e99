//! Request resolution: consult the cache by parameter hash, run the
//! pipeline on a miss, record the mapping, and name the output path.
//! The boundary performs the reads and writes; every decision between
//! them stands here.

use vstd::prelude::*;
use image::DynamicImage;
use crate::cache::ResultCache;
use crate::errors::ImgError;
use crate::options::{ImageOption, ImageOptionView};
use crate::paths::{output_path, source_path, spec_output_path, spec_source_path};
use crate::pipeline::{img_model, spec_transform, transform, ImgModel};
use crate::request::{spec_param_hash, ImageInfo, ImageInfoView};

verus! {

/// What consulting the cache yields: a hit names the output file that
/// ought to exist, a miss names the source that must be loaded.
pub enum BeginOutcome {
    Hit { output_path: String },
    Miss { source_path: String },
}

/// Consults the cache for a request: on a recorded parameter hash the
/// content-addressed output path, else the path of the source to load.
pub fn resolve_begin(opts: &ImageOption, cache: &ResultCache, info: &ImageInfo) -> (r:
    BeginOutcome)
    ensures
        cache@.contains_key(spec_param_hash(info@)) ==> (r matches BeginOutcome::Hit {
            output_path: p,
        } && p@ == spec_output_path(opts@, cache@[spec_param_hash(info@)], info@.format)),
        !cache@.contains_key(spec_param_hash(info@)) ==> (r matches BeginOutcome::Miss {
            source_path: p,
        } && p@ == spec_source_path(opts@, info@)),
{
    let h = info.to_hash();
    match cache.lookup(h) {
        Some(content) => BeginOutcome::Hit {
            output_path: output_path(opts, content, info.format()),
        },
        None => BeginOutcome::Miss { source_path: source_path(opts, info) },
    }
}

/// Completes a cache hit once the boundary has looked for the recorded
/// file: present, the path is the answer; gone, the entry names a file
/// something else deleted.
pub fn hit_complete(exists: bool, path: String) -> (r: Result<String, ImgError>)
    ensures
        exists ==> (r matches Ok(p) && p@ == path@),
        !exists ==> r == Err::<String, ImgError>(ImgError::MissingOutputFile),
{
    if exists {
        Ok(path)
    } else {
        Err(ImgError::MissingOutputFile)
    }
}

/// The error a failed source open denotes: a file that is not there is
/// distinguishable from one that would not decode.
pub fn open_failure(not_found: bool) -> (r: ImgError)
    ensures
        r == (if not_found {
            ImgError::SourceNotFound
        } else {
            ImgError::DecodeError
        }),
{
    if not_found {
        ImgError::SourceNotFound
    } else {
        ImgError::DecodeError
    }
}

/// The error a failed save denotes: the write to disk failed, or the
/// encoding before it did.
pub fn save_failure(io_failed: bool) -> (r: ImgError)
    ensures
        r == (if io_failed {
            ImgError::WriteError
        } else {
            ImgError::EncodeError
        }),
{
    if io_failed {
        ImgError::WriteError
    } else {
        ImgError::EncodeError
    }
}

/// What a cache miss yields once the pipeline ran: the transformed image,
/// its content hash, and the path it is persisted at.
pub struct MissOutcome {
    pub image: DynamicImage,
    pub content_hash: u64,
    pub output_path: String,
}

/// Runs the pipeline on the decoded source of a missed request and names
/// the content-addressed path of the result.
pub fn resolve_transform(opts: &ImageOption, info: &ImageInfo, img: DynamicImage) -> (r: Result<
    MissOutcome,
    ImgError,
>)
    ensures
        (match spec_transform(opts@, info@, img_model(img)) {
            Ok(p) => r matches Ok(out) && img_model(out.image) == p.0 && out.content_hash == p.1
                && out.output_path@ == spec_output_path(opts@, p.1, info@.format),
            Err(e) => r matches Err(a) && a == e,
        }),
{
    match transform(opts, info, img) {
        Ok((image, h)) => {
            let path = output_path(opts, h, info.format());
            Ok(MissOutcome { image, content_hash: h, output_path: path })
        },
        Err(e) => Err(e),
    }
}

/// Whether a miss's output must still be encoded and written: only when
/// no file stands at its content-addressed path yet. An existing file
/// holds the same bytes by construction and is left untouched, so a
/// repeated request writes nothing new.
pub fn should_persist(exists: bool) -> (r: bool)
    ensures
        r == !exists,
{
    !exists
}

/// Records the parameter hash to content hash mapping after a miss ran
/// the pipeline.
pub fn resolve_record(cache: &mut ResultCache, info: &ImageInfo, content_hash: u64)
    ensures
        final(cache)@ == old(cache)@.insert(spec_param_hash(info@), content_hash),
{
    let h = info.to_hash();
    cache.record(h, content_hash);
}

/// A repeated identical request hits the cache, and resolves to the very
/// path whose file the first run persisted: resolution is idempotent, and
/// the second run writes nothing new.
pub proof fn lemma_repeat_request_hits_same_path(
    opts: ImageOptionView,
    cache: Map<u64, u64>,
    v1: ImageInfoView,
    v2: ImageInfoView,
    content_hash: u64,
)
    requires
        v1 == v2,
    ensures
        ({
            let after = cache.insert(spec_param_hash(v1), content_hash);
            after.contains_key(spec_param_hash(v2)) && spec_output_path(
                opts,
                after[spec_param_hash(v2)],
                v2.format,
            ) == spec_output_path(opts, content_hash, v1.format)
        }),
{
}

/// The transform is a function of the configuration, the request and the
/// decoded source alone: concurrent identical requests that each run the
/// pipeline all compute the same content hash, so they all name the same
/// output file.
pub proof fn lemma_transform_deterministic(
    opts: ImageOptionView,
    v1: ImageInfoView,
    v2: ImageInfoView,
    m1: ImgModel,
    m2: ImgModel,
)
    requires
        v1 == v2,
        m1 == m2,
    ensures
        spec_transform(opts, v1, m1) == spec_transform(opts, v2, m2),
{
}

} // verus!
