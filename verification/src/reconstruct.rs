//! Rebuilding an alpha mask at the resolution of the upscaled picture.
//!
//! The mask is the original resampled to the new resolution and then taken
//! through the stages of the chosen policy. Two kinds of stage, the blur and
//! the warp, are numerical work that this crate leaves to its caller: a
//! [`Reconstruction`] says what is to be done to the mask it holds, takes
//! the transformed mask back and goes on from there.

use crate::error::Error;
use crate::geometry::{frame, inset_frame, is_warp_degenerate, warp_degenerate, Quad};
use crate::mask::{binary, contrast, contrasted, threshold, thresholded};
use crate::policy::CompositingPolicy;
use crate::raster::{Pixel, RasterImage, RasterView};
use crate::resample::{can_resample, resample, resample_fits, resampling_of};
use vstd::prelude::*;

verus! {

/// By how many pixels the guarded policy moves the corners inwards.
pub const INWARD_MARGIN: i32 = 2;

/// By how many pixels the guarded policy then moves the corners outwards.
pub const OUTWARD_MARGIN: i32 = INWARD_MARGIN + 2;

/// Standard deviation of the smoothing blur of the simple policy, in
/// hundredths of a pixel.
pub const SIMPLE_SMOOTHING: u32 = 600;

/// Standard deviation of the final blur of the simple policy, in hundredths
/// of a pixel.
pub const SIMPLE_ANTIALIAS: u32 = 50;

/// Standard deviation of the smoothing blur of the guarded policy, in
/// hundredths of a pixel.
pub const GUARDED_SMOOTHING: u32 = 300;

/// Standard deviation of the final blur of the guarded policy, in
/// hundredths of a pixel.
pub const GUARDED_ANTIALIAS: u32 = 75;

/// One step on the way from the resampled original to the finished mask.
#[derive(Clone, Copy, Debug, PartialEq, Eq, Structural)]
pub enum Stage {
    /// A projective warp that maps the corners of the mask onto the frame
    /// inset by `inset` pixels; a negative inset expands the mask.
    Warp { inset: i32 },
    /// An isotropic Gaussian blur with the given standard deviation, in
    /// hundredths of a pixel.
    Blur { sigma_hundredths: u32 },
    /// Contrast stretched around the midpoint.
    Contrast,
    /// Alpha driven to 0 or 255.
    Threshold,
}

/// How a warp fills in between the pixels of its source.
#[derive(Clone, Copy, Debug, PartialEq, Eq, Structural)]
pub enum Interpolation {
    Nearest,
    Bilinear,
    Bicubic,
}

/// Work on the current mask that the caller is asked to do.
#[derive(Clone, Copy, Debug, PartialEq, Eq, Structural)]
pub enum Request {
    /// Warp the mask by the projection that takes the control points `from`
    /// to the control points `to`, one by one. The result has the
    /// dimensions of the mask; where it would sample outside the mask it
    /// takes `fill`.
    Warp { from: Quad, to: Quad, interpolation: Interpolation, fill: Pixel },
    /// Blur the mask with an isotropic Gaussian of the given standard
    /// deviation, in hundredths of a pixel.
    Blur { sigma_hundredths: u32 },
}

/// The stages of a policy, in the order in which they are applied to the
/// resampled original.
pub open spec fn stages(policy: CompositingPolicy) -> Seq<Stage> {
    match policy {
        CompositingPolicy::Simple => seq![
            Stage::Blur { sigma_hundredths: SIMPLE_SMOOTHING },
            Stage::Contrast,
            Stage::Threshold,
            Stage::Blur { sigma_hundredths: SIMPLE_ANTIALIAS },
        ],
        CompositingPolicy::Guarded => seq![
            Stage::Warp { inset: INWARD_MARGIN },
            Stage::Blur { sigma_hundredths: GUARDED_SMOOTHING },
            Stage::Warp { inset: (0 - OUTWARD_MARGIN) as i32 },
            Stage::Threshold,
            Stage::Blur { sigma_hundredths: GUARDED_ANTIALIAS },
        ],
    }
}

/// What the caller is asked to do for a stage on a mask of the given
/// dimensions; nothing for the stages that this crate does itself.
pub open spec fn outside_work(stage: Stage, width: nat, height: nat) -> Option<Request> {
    match stage {
        Stage::Warp { inset } => Some(
            Request::Warp {
                from: frame(width, height, 0),
                to: frame(width, height, inset as int),
                interpolation: Interpolation::Bicubic,
                fill: Pixel { r: 0, g: 0, b: 0, a: 0 },
            },
        ),
        Stage::Blur { sigma_hundredths } => Some(Request::Blur { sigma_hundredths }),
        Stage::Contrast => None,
        Stage::Threshold => None,
    }
}

/// No warp of the policy is degenerate on a mask of the given dimensions.
pub open spec fn geometry_sound(policy: CompositingPolicy, width: nat, height: nat) -> bool {
    forall|k: int|
        0 <= k < stages(policy).len() ==> match #[trigger] stages(policy)[k] {
            Stage::Warp { inset } => !warp_degenerate(width, height, inset as int),
            _ => true,
        }
}

/// The mathematical content of a [`Reconstruction`].
pub struct ReconstructionView {
    pub policy: CompositingPolicy,
    /// The index of the stage whose result is awaited.
    pub awaiting: nat,
    /// The mask as it stands before that stage.
    pub mask: RasterView,
}

impl ReconstructionView {
    /// The awaited stage exists and is one that the caller does, and no
    /// warp of the policy is degenerate on the mask.
    pub open spec fn wf(self) -> bool {
        &&& self.mask.wf()
        &&& self.awaiting < stages(self.policy).len()
        &&& outside_work(
            stages(self.policy)[self.awaiting as int],
            self.mask.width,
            self.mask.height,
        ) is Some
        &&& geometry_sound(self.policy, self.mask.width, self.mask.height)
    }

    /// The work that is awaited.
    pub open spec fn request(self) -> Request {
        outside_work(
            stages(self.policy)[self.awaiting as int],
            self.mask.width,
            self.mask.height,
        )->Some_0
    }
}

/// The mathematical content of a [`Progress`].
pub enum ProgressView {
    Awaiting(ReconstructionView),
    Finished(RasterView),
}

impl ProgressView {
    /// The mask as it stands.
    pub open spec fn raster(self) -> RasterView {
        match self {
            ProgressView::Awaiting(state) => state.mask,
            ProgressView::Finished(mask) => mask,
        }
    }
}

/// Where a mask gets to from stage `from` on without the caller: the
/// stages that this crate does itself are applied until one that the caller
/// does is met, or none is left.
pub open spec fn settle(policy: CompositingPolicy, from: nat, mask: RasterView) -> ProgressView
    decreases stages(policy).len() - from,
{
    if from >= stages(policy).len() {
        ProgressView::Finished(mask)
    } else {
        match stages(policy)[from as int] {
            Stage::Contrast => settle(policy, from + 1, contrasted(mask)),
            Stage::Threshold => settle(policy, from + 1, thresholded(mask)),
            _ => ProgressView::Awaiting(ReconstructionView { policy, awaiting: from, mask }),
        }
    }
}

/// What becomes of a reconstruction when `transformed` comes back for the
/// awaited stage: a failure where nothing came back or the dimensions have
/// changed, else the next point at which the caller is needed, or the end.
pub open spec fn supplied(state: ReconstructionView, transformed: Option<RasterView>) -> Result<
    ProgressView,
    Error,
> {
    match transformed {
        Some(raster) if raster.same_shape(state.mask) => Ok(
            settle(state.policy, state.awaiting + 1, raster),
        ),
        _ => Err(Error::Geometry),
    }
}

/// A mask on its way through the stages of a policy, at a stage that the
/// caller does.
#[derive(Debug)]
pub struct Reconstruction {
    policy: CompositingPolicy,
    awaiting: usize,
    mask: RasterImage,
}

impl View for Reconstruction {
    type V = ReconstructionView;

    closed spec fn view(&self) -> ReconstructionView {
        ReconstructionView {
            policy: self.policy,
            awaiting: self.awaiting as nat,
            mask: self.mask@,
        }
    }
}

/// Either a reconstruction that awaits work of the caller, or the finished
/// mask.
#[derive(Debug)]
pub enum Progress {
    Awaiting(Reconstruction),
    Finished(RasterImage),
}

impl View for Progress {
    type V = ProgressView;

    open spec fn view(&self) -> ProgressView {
        match self {
            Progress::Awaiting(state) => ProgressView::Awaiting(state@),
            Progress::Finished(mask) => ProgressView::Finished(mask@),
        }
    }
}

/// A reconstruction of `original` at the target dimensions can begin: where
/// no warp of the policy is degenerate there, so that the original is
/// resampled, the resampling fits.
pub open spec fn can_begin(
    original: RasterView,
    target_width: nat,
    target_height: nat,
    policy: CompositingPolicy,
) -> bool {
    geometry_sound(policy, target_width, target_height) ==> resample_fits(
        original.width,
        original.height,
        target_width,
        target_height,
    )
}

/// `outcome` is a beginning of the reconstruction of `original` at the
/// target dimensions: a failure exactly where a warp of the policy is
/// degenerate there; else the point that the original, resampled to the
/// target dimensions, gets to without the caller.
pub open spec fn begins(
    original: RasterView,
    target_width: nat,
    target_height: nat,
    policy: CompositingPolicy,
    outcome: Result<Progress, Error>,
) -> bool {
    match outcome {
        Ok(progress) => {
            &&& geometry_sound(policy, target_width, target_height)
            &&& exists|resampled: RasterView|
                #[trigger] resampling_of(original, resampled, target_width, target_height)
                    && progress@ == settle(policy, 0, resampled)
            &&& progress@.raster().wf()
            &&& progress@.raster().width == target_width
            &&& progress@.raster().height == target_height
        },
        Err(e) => e == Error::Geometry && !geometry_sound(policy, target_width, target_height),
    }
}

/// The stage of `policy` at `index`, if there is one.
pub fn stage_at(policy: CompositingPolicy, index: usize) -> (r: Option<Stage>)
    ensures
        r == if index < stages(policy).len() {
            Some(stages(policy)[index as int])
        } else {
            None
        },
{
    match policy {
        CompositingPolicy::Simple => {
            if index == 0 {
                Some(Stage::Blur { sigma_hundredths: SIMPLE_SMOOTHING })
            } else if index == 1 {
                Some(Stage::Contrast)
            } else if index == 2 {
                Some(Stage::Threshold)
            } else if index == 3 {
                Some(Stage::Blur { sigma_hundredths: SIMPLE_ANTIALIAS })
            } else {
                None
            }
        },
        CompositingPolicy::Guarded => {
            if index == 0 {
                Some(Stage::Warp { inset: INWARD_MARGIN })
            } else if index == 1 {
                Some(Stage::Blur { sigma_hundredths: GUARDED_SMOOTHING })
            } else if index == 2 {
                Some(Stage::Warp { inset: -OUTWARD_MARGIN })
            } else if index == 3 {
                Some(Stage::Threshold)
            } else if index == 4 {
                Some(Stage::Blur { sigma_hundredths: GUARDED_ANTIALIAS })
            } else {
                None
            }
        },
    }
}

/// Tells whether every warp of `policy` can be built for a mask of the
/// given dimensions.
pub fn is_geometry_sound(policy: CompositingPolicy, width: u32, height: u32) -> (r: bool)
    ensures
        r == geometry_sound(policy, width as nat, height as nat),
{
    let mut index: usize = 0;
    loop
        invariant
            index <= stages(policy).len(),
            forall|k: int|
                0 <= k < index ==> match #[trigger] stages(policy)[k] {
                    Stage::Warp { inset } => !warp_degenerate(
                        width as nat,
                        height as nat,
                        inset as int,
                    ),
                    _ => true,
                },
        decreases stages(policy).len() - index,
    {
        match stage_at(policy, index) {
            None => {
                return true;
            },
            Some(Stage::Warp { inset }) => {
                if is_warp_degenerate(width, height, inset) {
                    return false;
                }
            },
            Some(_) => {},
        }
        index = index + 1;
    }
}

impl Clone for Reconstruction {
    fn clone(&self) -> (out: Self)
        ensures
            out@ == self@,
    {
        proof {
            use_type_invariant(self);
        }
        Reconstruction { policy: self.policy, awaiting: self.awaiting, mask: self.mask.clone() }
    }
}

impl Reconstruction {
    #[verifier::type_invariant]
    closed spec fn inv(&self) -> bool {
        self@.wf()
    }

    /// Resamples `original` to the target dimensions and takes the mask as
    /// far as it gets without the caller.
    ///
    /// Fails, before any work is done, where a warp of the policy is
    /// degenerate at the target dimensions.
    pub fn begin(
        original: &RasterImage,
        target_width: u32,
        target_height: u32,
        policy: CompositingPolicy,
    ) -> (r: Result<Progress, Error>)
        requires
            can_begin(original@, target_width as nat, target_height as nat, policy),
        ensures
            begins(original@, target_width as nat, target_height as nat, policy, r),
    {
        if !is_geometry_sound(policy, target_width, target_height) {
            return Err(Error::Geometry);
        }
        let resampled = resample(original, target_width, target_height);
        Reconstruction::start(resampled, policy)
    }

    /// As [`Reconstruction::begin`], for any input: `None` where the
    /// original would have to be resampled and the resampling does not fit.
    pub fn try_begin(
        original: &RasterImage,
        target_width: u32,
        target_height: u32,
        policy: CompositingPolicy,
    ) -> (r: Option<Result<Progress, Error>>)
        ensures
            r is Some <==> can_begin(original@, target_width as nat, target_height as nat, policy),
            r matches Some(outcome) ==> begins(
                original@,
                target_width as nat,
                target_height as nat,
                policy,
                outcome,
            ),
    {
        if is_geometry_sound(policy, target_width, target_height) && !can_resample(
            original.width(),
            original.height(),
            target_width,
            target_height,
        ) {
            return None;
        }
        Some(Reconstruction::begin(original, target_width, target_height, policy))
    }

    /// Takes a mask that is already at the target resolution as far as it
    /// gets without the caller.
    ///
    /// Fails where a warp of the policy is degenerate at the dimensions of
    /// the mask.
    pub fn start(resampled: RasterImage, policy: CompositingPolicy) -> (r: Result<Progress, Error>)
        ensures
            match r {
                Ok(progress) => geometry_sound(policy, resampled@.width, resampled@.height)
                    && progress@ == settle(policy, 0, resampled@),
                Err(e) => e == Error::Geometry && !geometry_sound(
                    policy,
                    resampled@.width,
                    resampled@.height,
                ),
            },
            r matches Ok(progress) ==> progress@.raster().wf() && progress@.raster().same_shape(
                resampled@,
            ),
    {
        if !is_geometry_sound(policy, resampled.width(), resampled.height()) {
            return Err(Error::Geometry);
        }
        let count = resampled.pixel_count();
        proof {
            lemma_settle_keeps_shape(policy, 0, resampled@);
        }
        Ok(Reconstruction::settle_from(policy, 0, resampled))
    }

    fn settle_from(policy: CompositingPolicy, from: usize, mask: RasterImage) -> (progress:
        Progress)
        requires
            geometry_sound(policy, mask@.width, mask@.height),
        ensures
            progress@ == settle(policy, from as nat, mask@),
    {
        let mut index: usize = from;
        let mut current = mask;
        loop
            invariant
                geometry_sound(policy, current@.width, current@.height),
                settle(policy, index as nat, current@) == settle(policy, from as nat, mask@),
            decreases stages(policy).len() - index,
        {
            match stage_at(policy, index) {
                None => {
                    return Progress::Finished(current);
                },
                Some(Stage::Contrast) => {
                    current = contrast(current);
                },
                Some(Stage::Threshold) => {
                    current = threshold(current);
                },
                Some(_) => {
                    let count = current.pixel_count();
                    return Progress::Awaiting(
                        Reconstruction { policy, awaiting: index, mask: current },
                    );
                },
            }
            index = index + 1;
        }
    }

    /// The policy that governs this reconstruction.
    pub fn policy(&self) -> (p: CompositingPolicy)
        ensures
            p == self@.policy,
    {
        self.policy
    }

    /// The mask as it stands: the input of the awaited work.
    pub fn mask(&self) -> (m: &RasterImage)
        ensures
            m@ == self@.mask,
            self@.wf(),
    {
        proof {
            use_type_invariant(self);
        }
        &self.mask
    }

    /// The work that the caller is asked to do on the mask.
    pub fn request(&self) -> (r: Request)
        ensures
            r == self@.request(),
            self@.wf(),
    {
        proof {
            use_type_invariant(self);
        }
        match stage_at(self.policy, self.awaiting) {
            Some(Stage::Warp { inset }) => Request::Warp {
                from: inset_frame(self.mask.width(), self.mask.height(), 0),
                to: inset_frame(self.mask.width(), self.mask.height(), inset),
                interpolation: Interpolation::Bicubic,
                fill: Pixel { r: 0, g: 0, b: 0, a: 0 },
            },
            Some(Stage::Blur { sigma_hundredths }) => Request::Blur { sigma_hundredths },
            _ => Request::Blur { sigma_hundredths: 0 },
        }
    }

    /// Takes the result of the awaited work and goes on from there.
    ///
    /// `None` says that the work could not be done because no projection
    /// through the control points exists. That, and a result whose
    /// dimensions are not those of the mask, ends the reconstruction with
    /// a geometry error.
    pub fn supply(self, transformed: Option<RasterImage>) -> (r: Result<Progress, Error>)
        ensures
            self@.wf(),
            match r {
                Ok(progress) => supplied(self@, view_of(transformed)) == Ok::<ProgressView, Error>(
                    progress@,
                ),
                Err(e) => supplied(self@, view_of(transformed)) == Err::<ProgressView, Error>(e),
            },
            r matches Ok(progress) ==> progress@.raster().wf() && progress@.raster().same_shape(
                self@.mask,
            ),
    {
        proof {
            use_type_invariant(&self);
        }
        match transformed {
            Some(raster) => {
                if raster.width() == self.mask.width() && raster.height() == self.mask.height() {
                    let count = raster.pixel_count();
                    proof {
                        lemma_settle_keeps_shape(self.policy, (self.awaiting + 1) as nat, raster@);
                    }
                    Ok(Reconstruction::settle_from(self.policy, self.awaiting + 1, raster))
                } else {
                    Err(Error::Geometry)
                }
            },
            None => Err(Error::Geometry),
        }
    }
}

/// The mathematical content of a raster that may be missing.
pub open spec fn view_of(raster: Option<RasterImage>) -> Option<RasterView> {
    match raster {
        Some(r) => Some(r@),
        None => None,
    }
}

/// The stages that this crate does itself leave the dimensions of the mask
/// as they are: wherever a mask gets to, it has the dimensions it set out
/// with.
pub proof fn lemma_settle_keeps_shape(policy: CompositingPolicy, from: nat, mask: RasterView)
    requires
        mask.wf(),
    ensures
        settle(policy, from, mask).raster().same_shape(mask),
        settle(policy, from, mask).raster().wf(),
    decreases stages(policy).len() - from,
{
    if from < stages(policy).len() {
        match stages(policy)[from as int] {
            Stage::Contrast => {
                lemma_settle_keeps_shape(policy, from + 1, contrasted(mask));
            },
            Stage::Threshold => {
                lemma_settle_keeps_shape(policy, from + 1, thresholded(mask));
            },
            _ => {},
        }
    }
}

/// The way of a mask under the simple policy. The caller is asked to blur
/// the resampled original with a standard deviation of 6; what comes back
/// is stretched and cut here; the caller is asked to blur that with a
/// standard deviation of 0.5; what comes back is the finished mask.
pub proof fn lemma_simple_route(
    resampled: RasterView,
    smoothed: RasterView,
    antialiased: RasterView,
)
    requires
        smoothed.same_shape(resampled),
        antialiased.same_shape(resampled),
    ensures
        ({
            let first = ReconstructionView {
                policy: CompositingPolicy::Simple,
                awaiting: 0,
                mask: resampled,
            };
            let last = ReconstructionView {
                policy: CompositingPolicy::Simple,
                awaiting: 3,
                mask: thresholded(contrasted(smoothed)),
            };
            &&& settle(CompositingPolicy::Simple, 0, resampled) == ProgressView::Awaiting(first)
            &&& first.request() == Request::Blur { sigma_hundredths: 600 }
            &&& supplied(first, Some(smoothed)) == Ok::<ProgressView, Error>(
                ProgressView::Awaiting(last),
            )
            &&& last.request() == Request::Blur { sigma_hundredths: 50 }
            &&& supplied(last, Some(antialiased)) == Ok::<ProgressView, Error>(
                ProgressView::Finished(antialiased),
            )
        }),
{
    reveal_with_fuel(settle, 4);
}

/// The way of a mask under the guarded policy. The caller is asked to warp
/// the resampled original onto the frame inset by 2, to blur the result
/// with a standard deviation of 3, and to warp that onto the frame set out
/// by 4; what comes back is cut here; the caller is asked to blur that
/// with a standard deviation of 0.75; what comes back is the finished mask.
pub proof fn lemma_guarded_route(
    resampled: RasterView,
    contracted: RasterView,
    smoothed: RasterView,
    expanded: RasterView,
    antialiased: RasterView,
)
    requires
        contracted.same_shape(resampled),
        smoothed.same_shape(resampled),
        expanded.same_shape(resampled),
        antialiased.same_shape(resampled),
    ensures
        ({
            let policy = CompositingPolicy::Guarded;
            let (width, height) = (resampled.width, resampled.height);
            let transparent = Pixel { r: 0, g: 0, b: 0, a: 0 };
            let first = ReconstructionView { policy, awaiting: 0, mask: resampled };
            let second = ReconstructionView { policy, awaiting: 1, mask: contracted };
            let third = ReconstructionView { policy, awaiting: 2, mask: smoothed };
            let last = ReconstructionView { policy, awaiting: 4, mask: thresholded(expanded) };
            &&& settle(policy, 0, resampled) == ProgressView::Awaiting(first)
            &&& first.request() == Request::Warp {
                from: frame(width, height, 0),
                to: frame(width, height, 2),
                interpolation: Interpolation::Bicubic,
                fill: transparent,
            }
            &&& supplied(first, Some(contracted)) == Ok::<ProgressView, Error>(
                ProgressView::Awaiting(second),
            )
            &&& second.request() == Request::Blur { sigma_hundredths: 300 }
            &&& supplied(second, Some(smoothed)) == Ok::<ProgressView, Error>(
                ProgressView::Awaiting(third),
            )
            &&& third.request() == Request::Warp {
                from: frame(width, height, 0),
                to: frame(width, height, -4),
                interpolation: Interpolation::Bicubic,
                fill: transparent,
            }
            &&& supplied(third, Some(expanded)) == Ok::<ProgressView, Error>(
                ProgressView::Awaiting(last),
            )
            &&& last.request() == Request::Blur { sigma_hundredths: 75 }
            &&& supplied(last, Some(antialiased)) == Ok::<ProgressView, Error>(
                ProgressView::Finished(antialiased),
            )
        }),
{
    reveal_with_fuel(settle, 4);
}

/// Whenever stages have been done here before the caller is asked again,
/// the mask that is handed out has no alpha but 0 and 255: under both
/// policies the threshold is the last stage before the final blur.
pub proof fn lemma_settled_mask_is_binary(policy: CompositingPolicy, from: nat, mask: RasterView)
    ensures
        settle(policy, from, mask) matches ProgressView::Awaiting(state) ==> (from < state.awaiting
            ==> binary(state.mask) && state.awaiting == stages(policy).len() - 1),
{
    reveal_with_fuel(settle, 4);
    crate::mask::lemma_thresholded_is_binary(mask);
    crate::mask::lemma_thresholded_is_binary(contrasted(mask));
}

/// Whatever raster of the mask's dimensions is supplied, the reconstruction
/// goes on, and the mask keeps its dimensions from there.
pub proof fn lemma_supplied_keeps_shape(state: ReconstructionView, raster: RasterView)
    requires
        raster.wf(),
        raster.same_shape(state.mask),
    ensures
        supplied(state, Some(raster)) matches Ok(progress) && progress.raster().same_shape(
            state.mask,
        ) && progress.raster().wf(),
{
    lemma_settle_keeps_shape(state.policy, state.awaiting + 1, raster);
}

/// Where the target dimensions are those of the original, and the original
/// is not empty, nothing is resampled: the reconstruction begins from the
/// original itself.
pub proof fn lemma_begins_from_original_at_same_dimensions(
    original: RasterView,
    policy: CompositingPolicy,
    progress: Progress,
)
    requires
        original.width != 0,
        original.height != 0,
        begins(original, original.width, original.height, policy, Ok(progress)),
    ensures
        progress@ == settle(policy, 0, original),
{
}

} // verus!
