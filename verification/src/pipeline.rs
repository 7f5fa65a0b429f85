//! The one-time graphics pipeline: a fixed recipe (one triangle-list draw of
//! 2-component positions, no depth, overwrite blending, viewport baked to
//! the full extent) and the build protocol that creates it on the device.
//!
//! The shading collaborator and the device perform the actual work; their
//! per-step verdicts arrive as plain booleans. Shader modules are scoped to
//! the build: they are released before this module returns, whether or not
//! the build succeeded.

use vstd::prelude::*;
use crate::errors::PipelineError;
use crate::ledger::{Ledger, LedgerEntry, ResourceKind};
use crate::swapchain::Extent2d;

verus! {

/// How the vertex buffer is stepped through.
#[derive(Clone, Copy, Debug, PartialEq, Eq, Structural)]
pub enum VertexRate {
    PerVertex,
    PerInstance,
}

/// Blend factors used by the single color target.
#[derive(Clone, Copy, Debug, PartialEq, Eq, Structural)]
pub enum BlendFactor {
    One,
    Zero,
}

/// The fixed-function and layout state of the pipeline, as plain values.
#[derive(Clone, Copy, Debug, PartialEq, Eq, Structural)]
pub struct PipelineDesc {
    /// Triangle-list input assembly.
    pub triangle_list: bool,
    /// The single vertex buffer binding number.
    pub vertex_binding: u32,
    /// Bytes between consecutive vertices: two 4-byte floats.
    pub vertex_stride: u32,
    /// Vertices advance per vertex, not per instance.
    pub vertex_rate: VertexRate,
    /// The single position attribute: location and byte offset.
    pub attribute_location: u32,
    pub attribute_offset: u32,
    /// No face culling.
    pub cull_none: bool,
    /// Clockwise front faces.
    pub front_face_clockwise: bool,
    /// Depth and stencil tests are disabled: no depth buffer exists.
    pub depth_test: bool,
    pub stencil_test: bool,
    /// Blending equivalent to straight overwrite.
    pub blend_src: BlendFactor,
    pub blend_dst: BlendFactor,
    /// Logic op is copy.
    pub logic_op_copy: bool,
    /// Viewport and scissor baked to the full render extent.
    pub viewport: Extent2d,
    pub scissor: Extent2d,
    /// One descriptor set layout with no bindings, no push constants.
    pub descriptor_set_layouts: u32,
    pub descriptor_bindings: u32,
    pub push_constants: u32,
}

/// The pipeline recipe for a given render extent.
pub open spec fn spec_fixed_pipeline_desc(extent: Extent2d) -> PipelineDesc {
    PipelineDesc {
        triangle_list: true,
        vertex_binding: 0,
        vertex_stride: 8,
        vertex_rate: VertexRate::PerVertex,
        attribute_location: 0,
        attribute_offset: 0,
        cull_none: true,
        front_face_clockwise: true,
        depth_test: false,
        stencil_test: false,
        blend_src: BlendFactor::One,
        blend_dst: BlendFactor::Zero,
        logic_op_copy: true,
        viewport: extent,
        scissor: extent,
        descriptor_set_layouts: 1,
        descriptor_bindings: 0,
        push_constants: 0,
    }
}

/// Build the fixed pipeline description for `extent`. The recipe never
/// varies: only the baked viewport and scissor depend on the input.
pub fn fixed_pipeline_desc(extent: Extent2d) -> (d: PipelineDesc)
    ensures
        d == spec_fixed_pipeline_desc(extent),
{
    PipelineDesc {
        triangle_list: true,
        vertex_binding: 0,
        vertex_stride: 8,
        vertex_rate: VertexRate::PerVertex,
        attribute_location: 0,
        attribute_offset: 0,
        cull_none: true,
        front_face_clockwise: true,
        depth_test: false,
        stencil_test: false,
        blend_src: BlendFactor::One,
        blend_dst: BlendFactor::Zero,
        logic_op_copy: true,
        viewport: extent,
        scissor: extent,
        descriptor_set_layouts: 1,
        descriptor_bindings: 0,
        push_constants: 0,
    }
}

/// The per-step verdicts of the shading collaborator and the device while
/// building the pipeline.
#[derive(Clone, Copy, Debug, PartialEq, Eq, Structural)]
pub struct PipelineOutcomes {
    pub vertex_compile_ok: bool,
    pub fragment_compile_ok: bool,
    pub vertex_module_ok: bool,
    pub fragment_module_ok: bool,
    pub descriptor_set_layout_ok: bool,
    pub pipeline_layout_ok: bool,
    pub pipeline_ok: bool,
}

/// The handles a successful build leaves live.
#[derive(Clone, Copy, Debug, PartialEq, Eq, Structural)]
pub struct PipelineHandles {
    pub descriptor_set_layout: usize,
    pub pipeline_layout: usize,
    pub graphics_pipeline: usize,
}

/// Which error, if any, a build with the given verdicts reports: the first
/// failing sub-step wins.
pub open spec fn pipeline_verdict(o: PipelineOutcomes) -> Result<(), PipelineError> {
    if !o.vertex_compile_ok {
        Err(PipelineError::VertexCompileFailed)
    } else if !o.fragment_compile_ok {
        Err(PipelineError::FragmentCompileFailed)
    } else if !o.vertex_module_ok {
        Err(PipelineError::ShaderModuleFailed)
    } else if !o.fragment_module_ok {
        Err(PipelineError::ShaderModuleFailed)
    } else if !o.descriptor_set_layout_ok {
        Err(PipelineError::DescriptorSetLayoutFailed)
    } else if !o.pipeline_layout_ok {
        Err(PipelineError::PipelineLayoutFailed)
    } else if !o.pipeline_ok {
        Err(PipelineError::PipelineCreationFailed)
    } else {
        Ok(())
    }
}

/// Build the pipeline on the ledger: two shader modules, the descriptor set
/// layout, the pipeline layout, the pipeline object.
///
/// Succeeds exactly when every sub-step succeeded; the error names the first
/// failing step. The shader modules are always released before returning.
/// On failure every entry created by this call is dead again, and entries
/// that existed before are untouched either way.
pub fn build_pipeline(ledger: &mut Ledger, outcomes: &PipelineOutcomes) -> (r: Result<
    PipelineHandles,
    PipelineError,
>)
    requires
        old(ledger).entries@.len() + 5 <= usize::MAX,
    ensures
        (r is Ok) <==> (pipeline_verdict(*outcomes) is Ok),
        r matches Err(e) ==> Err::<(), PipelineError>(e) == pipeline_verdict(*outcomes),
        r matches Ok(h) ==> {
            let base = old(ledger).entries@.len() as int;
            &&& h.descriptor_set_layout == base + 2
            &&& h.pipeline_layout == base + 3
            &&& h.graphics_pipeline == base + 4
            &&& final(ledger).entries@.len() == base + 5
            &&& final(ledger).entries@[base] == (LedgerEntry {
                kind: ResourceKind::ShaderModule,
                alive: false,
            })
            &&& final(ledger).entries@[base + 1] == (LedgerEntry {
                kind: ResourceKind::ShaderModule,
                alive: false,
            })
            &&& final(ledger).entries@[base + 2] == (LedgerEntry {
                kind: ResourceKind::DescriptorSetLayout,
                alive: true,
            })
            &&& final(ledger).entries@[base + 3] == (LedgerEntry {
                kind: ResourceKind::PipelineLayout,
                alive: true,
            })
            &&& final(ledger).entries@[base + 4] == (LedgerEntry {
                kind: ResourceKind::GraphicsPipeline,
                alive: true,
            })
        },
        r is Err ==> forall|i: int|
            old(ledger).entries@.len() <= i < final(ledger).entries@.len()
                ==> !final(ledger).entries@[i].alive,
        forall|i: int|
            0 <= i < old(ledger).entries@.len() ==> final(ledger).entries@[i] == old(
                ledger,
            ).entries@[i],
{
    if !outcomes.vertex_compile_ok {
        return Err(PipelineError::VertexCompileFailed);
    }
    if !outcomes.fragment_compile_ok {
        return Err(PipelineError::FragmentCompileFailed);
    }
    if !outcomes.vertex_module_ok {
        return Err(PipelineError::ShaderModuleFailed);
    }
    let vertex_module = ledger.register(ResourceKind::ShaderModule);
    if !outcomes.fragment_module_ok {
        ledger.release(vertex_module);
        return Err(PipelineError::ShaderModuleFailed);
    }
    let fragment_module = ledger.register(ResourceKind::ShaderModule);
    if !outcomes.descriptor_set_layout_ok {
        ledger.release(fragment_module);
        ledger.release(vertex_module);
        return Err(PipelineError::DescriptorSetLayoutFailed);
    }
    let descriptor_set_layout = ledger.register(ResourceKind::DescriptorSetLayout);
    if !outcomes.pipeline_layout_ok {
        ledger.release(descriptor_set_layout);
        ledger.release(fragment_module);
        ledger.release(vertex_module);
        return Err(PipelineError::PipelineLayoutFailed);
    }
    let pipeline_layout = ledger.register(ResourceKind::PipelineLayout);
    if !outcomes.pipeline_ok {
        ledger.release(pipeline_layout);
        ledger.release(descriptor_set_layout);
        ledger.release(fragment_module);
        ledger.release(vertex_module);
        return Err(PipelineError::PipelineCreationFailed);
    }
    let graphics_pipeline = ledger.register(ResourceKind::GraphicsPipeline);
    // the modules are scoped to the build: release them now that the
    // pipeline exists, newest first
    ledger.release(fragment_module);
    ledger.release(vertex_module);
    Ok(PipelineHandles { descriptor_set_layout, pipeline_layout, graphics_pipeline })
}

} // verus!
