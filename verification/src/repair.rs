//! The repair of one picture, from the two decoded rasters to the raster
//! that is to be written.
//!
//! Reading and writing files is the caller's part, and so is the numerical
//! work on the mask. A [`Repair`] decides what happens in between: whether
//! anything is to be repaired at all, what is asked of the caller next, and
//! what the finished picture is.

use crate::composite::{composite, composited};
use crate::error::Error;
use crate::opacity::{fully_opaque, is_fully_opaque};
use crate::policy::CompositingPolicy;
use crate::raster::{RasterImage, RasterView};
use crate::reconstruct::{
    geometry_sound, is_geometry_sound, settle, supplied, view_of, Progress, ProgressView,
    Reconstruction, ReconstructionView, Request,
};
use crate::resample::{can_resample, resample_fits, resampling_of};
use vstd::prelude::*;

verus! {

/// The mathematical content of a [`Repair`].
pub struct RepairView {
    /// The upscaled picture, untouched so far.
    pub upscaled: RasterView,
    /// The mask on its way.
    pub reconstruction: ReconstructionView,
}

impl RepairView {
    /// The reconstruction is well formed and its mask has the dimensions of
    /// the picture.
    pub open spec fn wf(self) -> bool {
        &&& self.upscaled.wf()
        &&& self.reconstruction.wf()
        &&& self.upscaled.same_shape(self.reconstruction.mask)
    }
}

/// The mathematical content of a [`Step`].
pub enum StepView {
    CopyVerbatim,
    Awaiting(RepairView),
    Finished(RasterView),
}

/// The step that the repair of `upscaled` is at when its mask is at
/// `progress`: while the mask awaits work, so does the repair; once the
/// mask is finished, it is merged into the picture under `policy`.
pub open spec fn step_at(
    upscaled: RasterView,
    policy: CompositingPolicy,
    progress: ProgressView,
) -> StepView {
    match progress {
        ProgressView::Awaiting(state) => StepView::Awaiting(
            RepairView { upscaled, reconstruction: state },
        ),
        ProgressView::Finished(mask) => StepView::Finished(composited(upscaled, mask, policy)),
    }
}

/// A picture under repair: the upscaled raster and its mask, at a stage
/// that the caller does.
#[derive(Debug)]
pub struct Repair {
    upscaled: RasterImage,
    reconstruction: Reconstruction,
}

impl View for Repair {
    type V = RepairView;

    closed spec fn view(&self) -> RepairView {
        RepairView { upscaled: self.upscaled@, reconstruction: self.reconstruction@ }
    }
}

/// What is to happen next to a picture.
#[derive(Debug)]
pub enum Step {
    /// The original has no transparency: the upscaled file is to be copied
    /// to the output as it is, byte for byte.
    CopyVerbatim,
    /// The mask awaits work of the caller.
    Awaiting(Repair),
    /// The repaired picture, to be written to the output.
    Finished(RasterImage),
}

impl View for Step {
    type V = StepView;

    open spec fn view(&self) -> StepView {
        match self {
            Step::CopyVerbatim => StepView::CopyVerbatim,
            Step::Awaiting(repair) => StepView::Awaiting(repair@),
            Step::Finished(picture) => StepView::Finished(picture@),
        }
    }
}

/// The repair of `upscaled` after `original` can begin: where the mask is
/// rebuilt, which is where the original has transparency and no warp of
/// the policy is degenerate, the resampling of the original to the
/// dimensions of the upscaled raster fits.
pub open spec fn can_begin(
    original: RasterView,
    upscaled: RasterView,
    policy: CompositingPolicy,
) -> bool {
    !fully_opaque(original) && geometry_sound(policy, upscaled.width, upscaled.height)
        ==> resample_fits(original.width, original.height, upscaled.width, upscaled.height)
}

/// `outcome` is a beginning of the repair of `upscaled` after `original`:
/// the copy exactly where the original is fully opaque; else a failure
/// exactly where a warp of the policy is degenerate at the dimensions of
/// the upscaled raster; else the step that the repair is at when the
/// original, resampled to those dimensions, has got as far as it gets
/// without the caller.
pub open spec fn begins(
    original: RasterView,
    upscaled: RasterView,
    policy: CompositingPolicy,
    outcome: Result<Step, Error>,
) -> bool {
    match outcome {
        Ok(step) => if fully_opaque(original) {
            step@ == StepView::CopyVerbatim
        } else {
            &&& geometry_sound(policy, upscaled.width, upscaled.height)
            &&& exists|resampled: RasterView|
                #[trigger] resampling_of(original, resampled, upscaled.width, upscaled.height)
                    && step@ == step_at(upscaled, policy, settle(policy, 0, resampled))
        },
        Err(e) => {
            &&& e == Error::Geometry
            &&& !fully_opaque(original)
            &&& !geometry_sound(policy, upscaled.width, upscaled.height)
        },
    }
}

impl Clone for Repair {
    fn clone(&self) -> (out: Self)
        ensures
            out@ == self@,
    {
        proof {
            use_type_invariant(self);
        }
        Repair { upscaled: self.upscaled.clone(), reconstruction: self.reconstruction.clone() }
    }
}

impl Repair {
    #[verifier::type_invariant]
    closed spec fn inv(&self) -> bool {
        self@.wf()
    }

    /// Decides what is to happen to a picture, given the decoded original
    /// and the decoded upscaled raster.
    ///
    /// Where every pixel of the original is fully opaque there is nothing to
    /// repair, and the upscaled file is to be copied. Else the alpha mask is
    /// rebuilt at the dimensions of the upscaled raster, which fails where a
    /// warp of the policy is degenerate at those dimensions.
    pub fn begin(original: &RasterImage, upscaled: RasterImage, policy: CompositingPolicy) -> (r:
        Result<Step, Error>)
        requires
            can_begin(original@, upscaled@, policy),
        ensures
            begins(original@, upscaled@, policy, r),
    {
        if is_fully_opaque(original) {
            return Ok(Step::CopyVerbatim);
        }
        match Reconstruction::begin(original, upscaled.width(), upscaled.height(), policy) {
            Ok(progress) => Ok(Repair::proceed(upscaled, policy, progress)),
            Err(e) => Err(e),
        }
    }

    /// As [`Repair::begin`], for any input: `None` where the mask would be
    /// rebuilt and the resampling of the original does not fit.
    pub fn try_begin(original: &RasterImage, upscaled: RasterImage, policy: CompositingPolicy) -> (r:
        Option<Result<Step, Error>>)
        ensures
            r is Some <==> can_begin(original@, upscaled@, policy),
            r matches Some(outcome) ==> begins(original@, upscaled@, policy, outcome),
    {
        if !is_fully_opaque(original) && is_geometry_sound(
            policy,
            upscaled.width(),
            upscaled.height(),
        ) && !can_resample(original.width(), original.height(), upscaled.width(), upscaled.height()) {
            return None;
        }
        Some(Repair::begin(original, upscaled, policy))
    }

    fn proceed(upscaled: RasterImage, policy: CompositingPolicy, progress: Progress) -> (step: Step)
        requires
            progress@.raster().same_shape(upscaled@),
        ensures
            step@ == step_at(upscaled@, policy, progress@),
    {
        match progress {
            Progress::Awaiting(state) => {
                let count = upscaled.pixel_count();
                let mask = state.mask();
                Step::Awaiting(Repair { upscaled, reconstruction: state })
            },
            Progress::Finished(mask) => Step::Finished(composite(upscaled, &mask, policy)),
        }
    }

    /// The policy that governs this repair.
    pub fn policy(&self) -> (p: CompositingPolicy)
        ensures
            p == self@.reconstruction.policy,
    {
        self.reconstruction.policy()
    }

    /// The mask as it stands: the input of the awaited work.
    pub fn mask(&self) -> (m: &RasterImage)
        ensures
            m@ == self@.reconstruction.mask,
            self@.wf(),
    {
        proof {
            use_type_invariant(self);
        }
        self.reconstruction.mask()
    }

    /// The work that the caller is asked to do on the mask.
    pub fn request(&self) -> (r: Request)
        ensures
            r == self@.reconstruction.request(),
            self@.wf(),
    {
        proof {
            use_type_invariant(self);
        }
        self.reconstruction.request()
    }

    /// Takes the result of the awaited work and goes on from there: to the
    /// next work that is asked of the caller, or, once the mask is
    /// finished, to the picture with the mask merged into it.
    ///
    /// `None` says that no projection through the control points of the
    /// requested warp exists. That, and a result whose dimensions are not
    /// those of the mask, ends the repair with a geometry error.
    pub fn supply(self, transformed: Option<RasterImage>) -> (r: Result<Step, Error>)
        ensures
            self@.wf(),
            match r {
                Ok(step) => supplied(self@.reconstruction, view_of(transformed)) matches Ok(
                    progress,
                ) && step@ == step_at(self@.upscaled, self@.reconstruction.policy, progress),
                Err(e) => supplied(self@.reconstruction, view_of(transformed)) == Err::<
                    ProgressView,
                    Error,
                >(e),
            },
    {
        proof {
            use_type_invariant(&self);
        }
        let Repair { upscaled, reconstruction } = self;
        let policy = reconstruction.policy();
        match reconstruction.supply(transformed) {
            Ok(progress) => {
                Ok(Repair::proceed(upscaled, policy, progress))
            },
            Err(e) => Err(e),
        }
    }
}

/// The repair never changes dimensions: while the mask awaits work the
/// picture is held as it came and the mask has its dimensions, and the
/// finished picture has them too. No step that follows a mask is the copy.
pub proof fn lemma_step_keeps_shape(
    upscaled: RasterView,
    policy: CompositingPolicy,
    progress: ProgressView,
)
    requires
        progress.raster().same_shape(upscaled),
    ensures
        match step_at(upscaled, policy, progress) {
            StepView::CopyVerbatim => false,
            StepView::Awaiting(repair) => repair.upscaled == upscaled
                && repair.reconstruction.mask.same_shape(upscaled),
            StepView::Finished(picture) => picture.same_shape(upscaled) && picture.pixels.len()
                == upscaled.pixels.len(),
        },
{
}

} // verus!
