//! The transform pipeline: the dispatch policy that picks the stage list
//! from a request's fields, the tri-state resize, the bounds-checked crop,
//! the level-0-short-circuited blur, their ordered application, and the
//! content hash of the final pixels.

use vstd::prelude::*;
use image::DynamicImage;
use crate::errors::ImgError;
use crate::filter::FilterKind;
use crate::hashing::{fnv64, fnv64_bytes};
use crate::imgops::{
    blur_pixels, crop_pixels, do_blur, do_crop, do_resize_exact, do_resize_fit, img_color,
    img_height, img_pixels, img_width, pixel_bytes, resize_exact_pixels, resize_fit_pixels,
    spec_fit_dims,
};
use crate::options::{ImageOption, ImageOptionView};
use crate::request::{ImageInfo, ImageInfoView};

verus! {

/// One unit of transformation; the pipeline is a fixed-order list of
/// these, never an open-ended operation graph.
#[derive(Clone, Copy, Debug, PartialEq, Eq, Structural)]
pub enum Stage {
    Resize,
    Crop,
    Blur,
}

/// The abstract value of a decoded image: its dimensions, its color
/// type, and its raw pixels. The color type stands in the model because
/// the raw bytes alone do not say how a transform reads them.
pub struct ImgModel {
    pub width: u32,
    pub height: u32,
    pub color: int,
    pub pixels: Seq<u8>,
}

/// The abstract value of a concrete decoded image.
pub open spec fn img_model(img: DynamicImage) -> ImgModel {
    ImgModel {
        width: img_width(img),
        height: img_height(img),
        color: img_color(img),
        pixels: img_pixels(img),
    }
}

impl ImageInfoView {
    /// Whether any crop parameter was given.
    pub open spec fn has_crop(self) -> bool {
        self.crop_x is Some || self.crop_y is Some || self.crop_w is Some || self.crop_h is Some
    }
}

/// The dispatch policy: a crop runs first and a blur last, so a crop reads
/// the source's own extent and a blur's cost is bounded by the final size.
///   - crop given: crop, resize, and blur when given;
///   - no crop, blur given: resize, blur;
///   - neither: resize alone.
pub open spec fn spec_plan_stages(v: ImageInfoView) -> Seq<Stage> {
    if v.has_crop() {
        if v.blur_level is Some {
            seq![Stage::Crop, Stage::Resize, Stage::Blur]
        } else {
            seq![Stage::Crop, Stage::Resize]
        }
    } else if v.blur_level is Some {
        seq![Stage::Resize, Stage::Blur]
    } else {
        seq![Stage::Resize]
    }
}

/// Picks the stage list for a request.
pub fn plan_stages(info: &ImageInfo) -> (r: Vec<Stage>)
    ensures
        r@ == spec_plan_stages(info@),
{
    let mut stages: Vec<Stage> = Vec::new();
    if info.has_crop() {
        stages.push(Stage::Crop);
        stages.push(Stage::Resize);
        if info.blur_level().is_some() {
            stages.push(Stage::Blur);
        }
    } else if info.blur_level().is_some() {
        stages.push(Stage::Resize);
        stages.push(Stage::Blur);
    } else {
        stages.push(Stage::Resize);
    }
    proof {
        assert(stages@ =~= spec_plan_stages(info@));
    }
    stages
}

/// What the resize stage yields: unchanged without dimensions, an
/// aspect-preserving fit with exactly one, an exact scale with both.
pub open spec fn spec_resize_model(
    m: ImgModel,
    width: Option<u32>,
    height: Option<u32>,
    f: FilterKind,
) -> ImgModel {
    match (width, height) {
        (Option::None, Option::None) => m,
        (Option::Some(w), Option::Some(h)) => ImgModel {
            width: w,
            height: h,
            color: m.color,
            pixels: resize_exact_pixels(m.pixels, m.width, m.height, m.color, w, h, f),
        },
        _ => {
            let nw = match width {
                Option::Some(w) => w,
                Option::None => u32::MAX,
            };
            let nh = match height {
                Option::Some(h) => h,
                Option::None => u32::MAX,
            };
            let dims = spec_fit_dims(m.width, m.height, nw, nh);
            ImgModel {
                width: dims.0,
                height: dims.1,
                color: m.color,
                pixels: resize_fit_pixels(m.pixels, m.width, m.height, m.color, nw, nh, f),
            }
        },
    }
}

/// The crop rectangle a request denotes against a source of the given
/// dimensions: offsets default to the edge, extents to the remainder of
/// the image; a rectangle that does not lie within the source is out of
/// bounds.
pub open spec fn spec_crop_rect(v: ImageInfoView, iw: u32, ih: u32) -> Result<
    (u32, u32, u32, u32),
    ImgError,
> {
    let x = match v.crop_x {
        Option::Some(x) => x,
        Option::None => 0,
    };
    let y = match v.crop_y {
        Option::Some(y) => y,
        Option::None => 0,
    };
    if x > iw || y > ih {
        Err(ImgError::OutOfBounds)
    } else {
        let w = match v.crop_w {
            Option::Some(w) => w,
            Option::None => (iw - x) as u32,
        };
        let h = match v.crop_h {
            Option::Some(h) => h,
            Option::None => (ih - y) as u32,
        };
        if x + w > iw || y + h > ih {
            Err(ImgError::OutOfBounds)
        } else {
            Ok((x, y, w, h))
        }
    }
}

/// What the blur stage yields: level 0, like no level at all, is a strict
/// no-op, and an image with a zero dimension has no pixels to blur, so it
/// too passes through unchanged; a positive level on a non-empty image
/// blurs and keeps the dimensions.
pub open spec fn spec_blur_model(m: ImgModel, level: Option<u32>) -> ImgModel {
    match level {
        Option::None => m,
        Option::Some(l) => if l == 0 || m.width == 0 || m.height == 0 {
            m
        } else {
            ImgModel {
                width: m.width,
                height: m.height,
                color: m.color,
                pixels: blur_pixels(m.pixels, m.width, m.height, m.color, l),
            }
        },
    }
}

/// What one stage yields on an image, or the error that aborts the
/// pipeline; only the crop can fail.
pub open spec fn spec_apply_stage(
    opts: ImageOptionView,
    v: ImageInfoView,
    stage: Stage,
    m: ImgModel,
) -> Result<ImgModel, ImgError> {
    match stage {
        Stage::Resize => Ok(spec_resize_model(m, v.width, v.height, opts.filter_type)),
        Stage::Crop => match spec_crop_rect(v, m.width, m.height) {
            Ok(rect) => Ok(ImgModel {
                width: rect.2,
                height: rect.3,
                color: m.color,
                pixels: crop_pixels(m.pixels, m.width, m.height, rect.0, rect.1, rect.2, rect.3),
            }),
            Err(e) => Err(e),
        },
        Stage::Blur => Ok(spec_blur_model(m, v.blur_level)),
    }
}

/// Applies one stage to an image.
pub fn apply_stage(opts: &ImageOption, info: &ImageInfo, stage: Stage, img: DynamicImage) -> (r:
    Result<DynamicImage, ImgError>)
    ensures
        (match spec_apply_stage(opts@, info@, stage, img_model(img)) {
            Ok(m) => r matches Ok(out) && img_model(out) == m,
            Err(e) => r matches Err(a) && a == e,
        }),
{
    match stage {
        Stage::Resize => {
            match (info.width(), info.height()) {
                (Option::None, Option::None) => Ok(img),
                (Option::Some(w), Option::Some(h)) => Ok(
                    do_resize_exact(&img, w, h, opts.filter_type()),
                ),
                (w_opt, h_opt) => {
                    let nw = match w_opt {
                        Option::Some(w) => w,
                        Option::None => u32::MAX,
                    };
                    let nh = match h_opt {
                        Option::Some(h) => h,
                        Option::None => u32::MAX,
                    };
                    Ok(do_resize_fit(&img, nw, nh, opts.filter_type()))
                },
            }
        },
        Stage::Crop => {
            let iw = crate::imgops::image_size(&img).0;
            let ih = crate::imgops::image_size(&img).1;
            let x = match info.crop_x() {
                Option::Some(x) => x,
                Option::None => 0,
            };
            let y = match info.crop_y() {
                Option::Some(y) => y,
                Option::None => 0,
            };
            if x > iw || y > ih {
                return Err(ImgError::OutOfBounds);
            }
            let w = match info.crop_w() {
                Option::Some(w) => w,
                Option::None => iw - x,
            };
            let h = match info.crop_h() {
                Option::Some(h) => h,
                Option::None => ih - y,
            };
            if w > iw - x || h > ih - y {
                return Err(ImgError::OutOfBounds);
            }
            Ok(do_crop(&img, x, y, w, h))
        },
        Stage::Blur => {
            match info.blur_level() {
                Option::None => Ok(img),
                Option::Some(l) => if l == 0 {
                    Ok(img)
                } else {
                    let size = crate::imgops::image_size(&img);
                    if size.0 == 0 || size.1 == 0 {
                        Ok(img)
                    } else {
                        Ok(do_blur(&img, l))
                    }
                },
            }
        },
    }
}

/// What a whole stage list yields: each stage's output feeds the next;
/// the first failure aborts.
pub open spec fn spec_run_stages(
    opts: ImageOptionView,
    v: ImageInfoView,
    stages: Seq<Stage>,
    m: ImgModel,
) -> Result<ImgModel, ImgError>
    decreases stages.len(),
{
    if stages.len() == 0 {
        Ok(m)
    } else {
        match spec_apply_stage(opts, v, stages[0], m) {
            Ok(m2) => spec_run_stages(opts, v, stages.drop_first(), m2),
            Err(e) => Err(e),
        }
    }
}

/// Applies a stage list in order.
pub fn run_stages(opts: &ImageOption, info: &ImageInfo, stages: &Vec<Stage>, img: DynamicImage) -> (r: Result<DynamicImage, ImgError>)
    ensures
        (match spec_run_stages(opts@, info@, stages@, img_model(img)) {
            Ok(m) => r matches Ok(out) && img_model(out) == m,
            Err(e) => r matches Err(a) && a == e,
        }),
{
    let mut cur = img;
    let mut i: usize = 0;
    proof {
        assert(stages@.subrange(0, stages@.len() as int) =~= stages@);
    }
    while i < stages.len()
        invariant
            i <= stages@.len(),
            spec_run_stages(opts@, info@, stages@, img_model(img)) == spec_run_stages(
                opts@,
                info@,
                stages@.subrange(i as int, stages@.len() as int),
                img_model(cur),
            ),
        decreases stages@.len() - i,
    {
        let ghost pre = img_model(cur);
        let ghost suffix = stages@.subrange(i as int, stages@.len() as int);
        match apply_stage(opts, info, stages[i], cur) {
            Ok(next) => {
                proof {
                    assert(suffix[0] == stages@[i as int]);
                    assert(suffix.drop_first() =~= stages@.subrange(
                        i + 1,
                        stages@.len() as int,
                    ));
                }
                cur = next;
            },
            Err(e) => {
                proof {
                    assert(suffix[0] == stages@[i as int]);
                }
                return Err(e);
            },
        }
        i += 1;
    }
    proof {
        assert(stages@.subrange(stages@.len() as int, stages@.len() as int) =~= Seq::<
            Stage,
        >::empty());
    }
    Ok(cur)
}

/// The content hash: the digest of the final image's raw pixels, not of
/// its encoded bytes, so the same visual result always lands on the same
/// output file.
pub open spec fn spec_content_hash(m: ImgModel) -> u64 {
    fnv64(m.pixels)
}

/// Computes the content hash of a decoded image.
pub fn content_hash(img: &DynamicImage) -> (r: u64)
    ensures
        r == spec_content_hash(img_model(*img)),
{
    let bytes = pixel_bytes(img);
    fnv64_bytes(bytes.as_slice())
}

/// What the whole transform yields on a decoded source: the final image
/// and its content hash, or the first stage failure.
pub open spec fn spec_transform(opts: ImageOptionView, v: ImageInfoView, m: ImgModel) -> Result<
    (ImgModel, u64),
    ImgError,
> {
    match spec_run_stages(opts, v, spec_plan_stages(v), m) {
        Ok(m2) => Ok((m2, spec_content_hash(m2))),
        Err(e) => Err(e),
    }
}

/// Runs the stage list the dispatch policy picks for `info` over a
/// decoded source and computes the content hash of the result.
pub fn transform(opts: &ImageOption, info: &ImageInfo, img: DynamicImage) -> (r: Result<
    (DynamicImage, u64),
    ImgError,
>)
    ensures
        (match spec_transform(opts@, info@, img_model(img)) {
            Ok(p) => r matches Ok(out) && img_model(out.0) == p.0 && out.1 == p.1,
            Err(e) => r matches Err(a) && a == e,
        }),
{
    let stages = plan_stages(info);
    match run_stages(opts, info, &stages, img) {
        Ok(out) => {
            let h = content_hash(&out);
            Ok((out, h))
        },
        Err(e) => Err(e),
    }
}

/// A resize with neither dimension given passes the image through
/// unchanged: same dimensions, same pixels.
pub proof fn lemma_resize_no_dimensions_identity(m: ImgModel, f: FilterKind)
    ensures
        spec_resize_model(m, None, None, f) == m,
{
}

/// A resize with both dimensions given yields exactly that size, whatever
/// the source's aspect ratio.
pub proof fn lemma_resize_exact_dimensions(m: ImgModel, w: u32, h: u32, f: FilterKind)
    ensures
        spec_resize_model(m, Some(w), Some(h), f).width == w,
        spec_resize_model(m, Some(w), Some(h), f).height == h,
{
}

/// Blur level 0 is pixel-identical to no blur stage at all: both leave
/// the image exactly as it is.
pub proof fn lemma_blur_zero_identity(m: ImgModel)
    ensures
        spec_blur_model(m, Some(0u32)) == m,
        spec_blur_model(m, None) == m,
{
}

/// The stage order is fixed: a crop always runs first, against the source
/// image, and a blur always runs last, after the resize.
pub proof fn lemma_stage_order(v: ImageInfoView)
    ensures
        v.has_crop() ==> spec_plan_stages(v)[0] == Stage::Crop && spec_plan_stages(v)[1]
            == Stage::Resize,
        !v.has_crop() ==> spec_plan_stages(v)[0] == Stage::Resize,
        v.blur_level is Some ==> spec_plan_stages(v).last() == Stage::Blur,
        v.blur_level is None ==> spec_plan_stages(v).last() == Stage::Resize,
{
}

/// Resize and blur stages never fail.
proof fn lemma_run_stages_total_no_crop(
    opts: ImageOptionView,
    v: ImageInfoView,
    stages: Seq<Stage>,
    m: ImgModel,
)
    requires
        forall|i: int| 0 <= i < stages.len() ==> #[trigger] stages[i] != Stage::Crop,
    ensures
        spec_run_stages(opts, v, stages, m) is Ok,
    decreases stages.len(),
{
    if stages.len() > 0 {
        assert(stages[0] != Stage::Crop);
        match spec_apply_stage(opts, v, stages[0], m) {
            Ok(m2) => {
                assert(forall|i: int|
                    0 <= i < stages.drop_first().len() ==> #[trigger] stages.drop_first()[i]
                        != Stage::Crop);
                lemma_run_stages_total_no_crop(opts, v, stages.drop_first(), m2);
            },
            Err(_) => {
                assert(false);
            },
        }
    }
}

/// The pipeline owes success on everything but a bad crop: it fails
/// exactly when the request asks for a crop whose rectangle, after
/// defaulting, does not lie within the source image — and then with
/// `OutOfBounds`. The rectangle is judged against the source's own
/// dimensions, never the resized ones.
pub proof fn lemma_transform_total(opts: ImageOptionView, v: ImageInfoView, m: ImgModel)
    ensures
        (spec_transform(opts, v, m) is Err) <==> (v.has_crop() && spec_crop_rect(
            v,
            m.width,
            m.height,
        ) is Err),
        spec_transform(opts, v, m) is Err ==> spec_transform(opts, v, m) == Err::<
            (ImgModel, u64),
            ImgError,
        >(ImgError::OutOfBounds),
{
    let plan = spec_plan_stages(v);
    if v.has_crop() {
        assert(plan[0] == Stage::Crop);
        match spec_crop_rect(v, m.width, m.height) {
            Ok(rect) => {
                let m1 = ImgModel {
                    width: rect.2,
                    height: rect.3,
                    color: m.color,
                    pixels: crop_pixels(
                        m.pixels,
                        m.width,
                        m.height,
                        rect.0,
                        rect.1,
                        rect.2,
                        rect.3,
                    ),
                };
                assert(spec_run_stages(opts, v, plan, m) == spec_run_stages(
                    opts,
                    v,
                    plan.drop_first(),
                    m1,
                ));
                assert(forall|i: int|
                    0 <= i < plan.drop_first().len() ==> #[trigger] plan.drop_first()[i]
                        != Stage::Crop);
                lemma_run_stages_total_no_crop(opts, v, plan.drop_first(), m1);
            },
            Err(e) => {
                assert(e == ImgError::OutOfBounds);
                assert(spec_run_stages(opts, v, plan, m) == Err::<ImgModel, ImgError>(e));
            },
        }
    } else {
        assert(forall|i: int| 0 <= i < plan.len() ==> #[trigger] plan[i] != Stage::Crop);
        lemma_run_stages_total_no_crop(opts, v, plan, m);
    }
}

/// A crop rectangle that leaves the source image makes the whole
/// transform fail with `OutOfBounds`.
pub proof fn lemma_crop_out_of_bounds(opts: ImageOptionView, v: ImageInfoView, m: ImgModel)
    requires
        v.has_crop(),
        spec_crop_rect(v, m.width, m.height) is Err,
    ensures
        spec_transform(opts, v, m) == Err::<(ImgModel, u64), ImgError>(ImgError::OutOfBounds),
{
    lemma_transform_total(opts, v, m);
}

/// A request with no dimensions, no crop and no blur resolves to an output
/// whose pixels are exactly the source's.
pub proof fn lemma_passthrough_request(opts: ImageOptionView, v: ImageInfoView, m: ImgModel)
    requires
        v.width is None,
        v.height is None,
        v.blur_level is None,
        !v.has_crop(),
    ensures
        spec_transform(opts, v, m) == Ok::<(ImgModel, u64), ImgError>((m, spec_content_hash(m))),
{
    reveal_with_fuel(spec_run_stages, 3);
    let plan = spec_plan_stages(v);
    assert(plan =~= seq![Stage::Resize]);
    assert(spec_apply_stage(opts, v, plan[0], m) == Ok::<ImgModel, ImgError>(m));
    assert(plan.drop_first() =~= Seq::<Stage>::empty());
    assert(spec_run_stages(opts, v, plan, m) == Ok::<ImgModel, ImgError>(m));
}

/// With both dimensions given, any output the pipeline yields has exactly
/// those dimensions, whatever the source's size and whatever else the
/// request asks for.
pub proof fn lemma_exact_dimensions(
    opts: ImageOptionView,
    v: ImageInfoView,
    m: ImgModel,
    w: u32,
    h: u32,
)
    requires
        v.width == Some(w),
        v.height == Some(h),
    ensures
        (match spec_transform(opts, v, m) {
            Ok(p) => p.0.width == w && p.0.height == h,
            Err(e) => e == ImgError::OutOfBounds,
        }),
{
    reveal_with_fuel(spec_run_stages, 5);
    let plan = spec_plan_stages(v);
    lemma_transform_total(opts, v, m);
    if v.has_crop() {
        match spec_crop_rect(v, m.width, m.height) {
            Ok(rect) => {
                let m1 = ImgModel {
                    width: rect.2,
                    height: rect.3,
                    color: m.color,
                    pixels: crop_pixels(
                        m.pixels,
                        m.width,
                        m.height,
                        rect.0,
                        rect.1,
                        rect.2,
                        rect.3,
                    ),
                };
                let m2 = spec_resize_model(m1, v.width, v.height, opts.filter_type);
                assert(m2.width == w && m2.height == h);
                if v.blur_level is Some {
                    assert(plan =~= seq![Stage::Crop, Stage::Resize, Stage::Blur]);
                    assert(plan.drop_first() =~= seq![Stage::Resize, Stage::Blur]);
                    assert(plan.drop_first().drop_first() =~= seq![Stage::Blur]);
                    assert(plan.drop_first().drop_first().drop_first() =~= Seq::<
                        Stage,
                    >::empty());
                    let m3 = spec_blur_model(m2, v.blur_level);
                    assert(m3.width == w && m3.height == h);
                    assert(spec_run_stages(opts, v, plan, m) == Ok::<ImgModel, ImgError>(m3));
                } else {
                    assert(plan =~= seq![Stage::Crop, Stage::Resize]);
                    assert(plan.drop_first() =~= seq![Stage::Resize]);
                    assert(plan.drop_first().drop_first() =~= Seq::<Stage>::empty());
                    assert(spec_run_stages(opts, v, plan, m) == Ok::<ImgModel, ImgError>(m2));
                }
            },
            Err(_) => {
            },
        }
    } else {
        let m2 = spec_resize_model(m, v.width, v.height, opts.filter_type);
        assert(m2.width == w && m2.height == h);
        if v.blur_level is Some {
            assert(plan =~= seq![Stage::Resize, Stage::Blur]);
            assert(plan.drop_first() =~= seq![Stage::Blur]);
            assert(plan.drop_first().drop_first() =~= Seq::<Stage>::empty());
            let m3 = spec_blur_model(m2, v.blur_level);
            assert(m3.width == w && m3.height == h);
            assert(spec_run_stages(opts, v, plan, m) == Ok::<ImgModel, ImgError>(m3));
        } else {
            assert(plan =~= seq![Stage::Resize]);
            assert(plan.drop_first() =~= Seq::<Stage>::empty());
            assert(spec_run_stages(opts, v, plan, m) == Ok::<ImgModel, ImgError>(m2));
        }
    }
}

/// A request with only the width given and no crop resolves to an output
/// of exactly that width, its height scaled by the source's aspect ratio,
/// whenever that ratio is exact: width `w` on a `sw`-by-`sh` source gives
/// `w`-by-`(w*sh/sw)` when `sw` divides `w*sh`.
pub proof fn lemma_aspect_fit_dimensions(
    opts: ImageOptionView,
    v: ImageInfoView,
    m: ImgModel,
    w: u32,
)
    requires
        v.width == Some(w),
        v.height is None,
        !v.has_crop(),
        0 < m.width,
        0 < m.height,
        (w * m.height) % (m.width as int) == 0,
        1 <= (w * m.height) / (m.width as int) <= u32::MAX,
    ensures
        (match spec_transform(opts, v, m) {
            Ok(p) => p.0.width == w && p.0.height == (w * m.height) / (m.width as int),
            Err(_) => false,
        }),
{
    reveal_with_fuel(spec_run_stages, 4);
    let plan = spec_plan_stages(v);
    lemma_transform_total(opts, v, m);
    let m2 = spec_resize_model(m, v.width, v.height, opts.filter_type);
    assert(spec_fit_dims(m.width, m.height, w, u32::MAX) == (
        w,
        ((w * m.height) / (m.width as int)) as u32,
    ));
    assert(m2.width == w && m2.height == (w * m.height) / (m.width as int));
    if v.blur_level is Some {
        assert(plan =~= seq![Stage::Resize, Stage::Blur]);
        assert(plan.drop_first() =~= seq![Stage::Blur]);
        assert(plan.drop_first().drop_first() =~= Seq::<Stage>::empty());
        let m3 = spec_blur_model(m2, v.blur_level);
        assert(m3.width == m2.width && m3.height == m2.height);
        assert(spec_run_stages(opts, v, plan, m) == Ok::<ImgModel, ImgError>(m3));
    } else {
        assert(plan =~= seq![Stage::Resize]);
        assert(plan.drop_first() =~= Seq::<Stage>::empty());
        assert(spec_run_stages(opts, v, plan, m) == Ok::<ImgModel, ImgError>(m2));
    }
}

} // verus!
