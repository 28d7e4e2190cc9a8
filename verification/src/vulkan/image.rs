//! The changes of layout that an image can go through, and the barrier that
//! each of them needs.

use vstd::prelude::*;

verus! {

/// The layout of an image.
#[derive(Clone, Copy, Debug, PartialEq, Eq, Structural)]
pub enum ImageLayout {
    Undefined,
    TransferDstOptimal,
    ShaderReadOnlyOptimal,
    /// Any layout that no supported transition starts from or ends in.
    Other,
}

/// What the memory is accessed for on one side of a barrier.
#[derive(Clone, Copy, Debug, PartialEq, Eq, Structural)]
pub enum AccessMask {
    /// No access.
    Empty,
    TransferWrite,
    ShaderRead,
}

/// The stage of the pipeline on one side of a barrier.
#[derive(Clone, Copy, Debug, PartialEq, Eq, Structural)]
pub enum PipelineStage {
    TopOfPipe,
    Transfer,
    FragmentShader,
}

/// The barrier of a transition.
#[derive(Clone, Copy, Debug, PartialEq, Eq, Structural)]
pub struct Barrier {
    pub src_access_mask: AccessMask,
    pub dst_access_mask: AccessMask,
    pub src_stage_mask: PipelineStage,
    pub dst_stage_mask: PipelineStage,
}

/// The transition is none of those that are supported.
#[derive(Clone, Copy, Debug, PartialEq, Eq, Structural)]
pub struct UnsupportedTransition {
    pub old_layout: ImageLayout,
    pub new_layout: ImageLayout,
}

/// The barrier for the transition from `old_layout` to `new_layout`. Two
/// transitions are supported: from undefined to the destination of a
/// transfer, and from there to what a shader reads.
pub open spec fn spec_transition(old_layout: ImageLayout, new_layout: ImageLayout) -> Result<
    Barrier,
    UnsupportedTransition,
> {
    match (old_layout, new_layout) {
        (ImageLayout::Undefined, ImageLayout::TransferDstOptimal) => Ok(
            Barrier {
                src_access_mask: AccessMask::Empty,
                dst_access_mask: AccessMask::TransferWrite,
                src_stage_mask: PipelineStage::TopOfPipe,
                dst_stage_mask: PipelineStage::Transfer,
            },
        ),
        (ImageLayout::TransferDstOptimal, ImageLayout::ShaderReadOnlyOptimal) => Ok(
            Barrier {
                src_access_mask: AccessMask::TransferWrite,
                dst_access_mask: AccessMask::ShaderRead,
                src_stage_mask: PipelineStage::Transfer,
                dst_stage_mask: PipelineStage::FragmentShader,
            },
        ),
        _ => Err(UnsupportedTransition { old_layout, new_layout }),
    }
}

/// The barrier for the transition from `old_layout` to `new_layout`, or
/// the transition itself where it is not supported.
#[verifier::when_used_as_spec(spec_transition)]
pub fn transition(old_layout: ImageLayout, new_layout: ImageLayout) -> (barrier: Result<
    Barrier,
    UnsupportedTransition,
>)
    ensures
        barrier == spec_transition(old_layout, new_layout),
{
    match (old_layout, new_layout) {
        (ImageLayout::Undefined, ImageLayout::TransferDstOptimal) => Ok(
            Barrier {
                src_access_mask: AccessMask::Empty,
                dst_access_mask: AccessMask::TransferWrite,
                src_stage_mask: PipelineStage::TopOfPipe,
                dst_stage_mask: PipelineStage::Transfer,
            },
        ),
        (ImageLayout::TransferDstOptimal, ImageLayout::ShaderReadOnlyOptimal) => Ok(
            Barrier {
                src_access_mask: AccessMask::TransferWrite,
                dst_access_mask: AccessMask::ShaderRead,
                src_stage_mask: PipelineStage::Transfer,
                dst_stage_mask: PipelineStage::FragmentShader,
            },
        ),
        _ => Err(UnsupportedTransition { old_layout, new_layout }),
    }
}

/// Supported transitions chain: where one ends the next begins, with the
/// access and the stage that the first one left behind.
pub proof fn lemma_transitions_chain(first: ImageLayout, middle: ImageLayout, last: ImageLayout)
    requires
        transition(first, middle) is Ok,
        transition(middle, last) is Ok,
    ensures
        transition(first, middle)->Ok_0.dst_access_mask == transition(
            middle,
            last,
        )->Ok_0.src_access_mask,
        transition(first, middle)->Ok_0.dst_stage_mask == transition(
            middle,
            last,
        )->Ok_0.src_stage_mask,
{
}

} // verus!
