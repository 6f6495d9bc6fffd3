//! What the renderer does with an indirect draw once it has looked up the
//! resources that the draw names.
//!
//! A resource that cannot be resolved yet (an asset still loading) makes
//! the renderer skip that one draw for the frame; it never fails the frame.

use vstd::prelude::*;

verus! {

/// The width of the indices of an indexed mesh.
#[derive(Clone, Copy, Debug, PartialEq, Eq, Structural)]
pub enum IndexFormat {
    Uint16,
    Uint32,
}

/// Whether a mesh on the device is drawn through an index buffer.
#[derive(Clone, Copy, Debug, PartialEq, Eq, Structural)]
pub enum RenderMeshBufferInfo {
    Indexed { index_format: IndexFormat },
    NonIndexed,
}

/// A buffer on the device.
#[derive(Clone, Copy, Debug, PartialEq, Eq, Structural)]
pub struct GpuBuffer {
    pub id: u64,
}

/// What the renderer found when it looked up the parts of one indirect
/// draw. `None` stands for a part that is not there, or not there yet.
#[derive(Clone, Copy, Debug, PartialEq, Eq, Structural)]
pub struct IndirectLookup {
    /// The mesh that the drawn entity is queued with.
    pub mesh_instance: bool,
    /// The mesh on the device.
    pub gpu_mesh: Option<RenderMeshBufferInfo>,
    /// Whether the entity carries the buffers of an indirect draw.
    pub item_buffers: bool,
    /// The buffer of draw arguments on the device.
    pub indirect_buffer: Option<GpuBuffer>,
    /// Whether the draw names a vertex buffer of its own.
    pub has_vertex_override: bool,
    /// That vertex buffer on the device.
    pub vertex_override: Option<GpuBuffer>,
    /// The mesh's own vertex data on the device.
    pub mesh_vertex_slice: Option<GpuBuffer>,
    /// The mesh's index data on the device.
    pub mesh_index_slice: Option<GpuBuffer>,
}

/// What the render pass is told for one indirect draw.
#[derive(Clone, Copy, Debug, PartialEq, Eq, Structural)]
pub enum IndirectPass {
    /// Nothing: the draw is skipped.
    Skip,
    /// The vertex buffer is set; then the draw is skipped, the index data
    /// being missing.
    SkipAfterVertexBuffer { vertex_buffer: GpuBuffer },
    /// The vertex and index buffers are set and an indexed indirect draw is
    /// issued.
    DrawIndexedIndirect {
        vertex_buffer: GpuBuffer,
        index_buffer: GpuBuffer,
        index_format: IndexFormat,
        indirect_buffer: GpuBuffer,
    },
    /// The vertex buffer is set and an indirect draw is issued.
    DrawIndirect { vertex_buffer: GpuBuffer, indirect_buffer: GpuBuffer },
}

/// How a render command ended.
#[derive(Clone, Copy, Debug, PartialEq, Eq, Structural)]
pub enum RenderCommandResult {
    Success,
    Skip,
}

/// The vertex buffer that an indirect draw uses: its own where it names
/// one, the mesh's where it does not.
pub open spec fn spec_vertex_source(lookup: IndirectLookup) -> Option<GpuBuffer> {
    if lookup.has_vertex_override {
        lookup.vertex_override
    } else {
        lookup.mesh_vertex_slice
    }
}

/// Whether everything that an indirect draw needs before its topology is
/// looked at is there.
pub open spec fn spec_resolved(lookup: IndirectLookup) -> bool {
    &&& lookup.mesh_instance
    &&& lookup.gpu_mesh is Some
    &&& lookup.item_buffers
    &&& lookup.indirect_buffer is Some
    &&& spec_vertex_source(lookup) is Some
}

/// What the render pass is told for an indirect draw, given what was found.
pub open spec fn spec_plan_indirect_draw(lookup: IndirectLookup) -> IndirectPass {
    if !spec_resolved(lookup) {
        IndirectPass::Skip
    } else {
        let vertex_buffer = spec_vertex_source(lookup).unwrap();
        let indirect_buffer = lookup.indirect_buffer.unwrap();
        match lookup.gpu_mesh.unwrap() {
            RenderMeshBufferInfo::Indexed { index_format } => match lookup.mesh_index_slice {
                Some(index_buffer) => IndirectPass::DrawIndexedIndirect {
                    vertex_buffer,
                    index_buffer,
                    index_format,
                    indirect_buffer,
                },
                None => IndirectPass::SkipAfterVertexBuffer { vertex_buffer },
            },
            RenderMeshBufferInfo::NonIndexed => IndirectPass::DrawIndirect {
                vertex_buffer,
                indirect_buffer,
            },
        }
    }
}

impl IndirectPass {
    /// A pass ends well exactly if it issues a draw.
    pub open spec fn spec_result(self) -> RenderCommandResult {
        match self {
            IndirectPass::Skip => RenderCommandResult::Skip,
            IndirectPass::SkipAfterVertexBuffer { .. } => RenderCommandResult::Skip,
            _ => RenderCommandResult::Success,
        }
    }

    /// How the render command ends.
    pub fn result(&self) -> (result: RenderCommandResult)
        ensures
            result == self.spec_result(),
    {
        match self {
            IndirectPass::Skip => RenderCommandResult::Skip,
            IndirectPass::SkipAfterVertexBuffer { .. } => RenderCommandResult::Skip,
            _ => RenderCommandResult::Success,
        }
    }
}

/// Decides what the render pass is told for one indirect draw.
///
/// The draw is skipped where the mesh, the buffers or the vertex data it
/// names cannot be resolved. Else the vertex buffer is set, and the draw
/// is indexed or not as the mesh is.
pub fn plan_indirect_draw(lookup: &IndirectLookup) -> (pass: IndirectPass)
    ensures
        pass == spec_plan_indirect_draw(*lookup),
{
    if !lookup.mesh_instance {
        return IndirectPass::Skip;
    }
    let Some(buffer_info) = lookup.gpu_mesh else {
        return IndirectPass::Skip;
    };
    if !lookup.item_buffers {
        return IndirectPass::Skip;
    }
    let Some(indirect_buffer) = lookup.indirect_buffer else {
        return IndirectPass::Skip;
    };
    let vertex_source = if lookup.has_vertex_override {
        lookup.vertex_override
    } else {
        lookup.mesh_vertex_slice
    };
    let Some(vertex_buffer) = vertex_source else {
        return IndirectPass::Skip;
    };
    match buffer_info {
        RenderMeshBufferInfo::Indexed { index_format } => {
            let Some(index_buffer) = lookup.mesh_index_slice else {
                return IndirectPass::SkipAfterVertexBuffer { vertex_buffer };
            };
            IndirectPass::DrawIndexedIndirect {
                vertex_buffer,
                index_buffer,
                index_format,
                indirect_buffer,
            }
        },
        RenderMeshBufferInfo::NonIndexed => IndirectPass::DrawIndirect {
            vertex_buffer,
            indirect_buffer,
        },
    }
}

/// Decides which bind group of a shader model is set for a drawn entity:
/// the one of the model that the entity is drawn with, where both the
/// entity's model and its prepared form are there. Without one the draw is
/// skipped.
pub fn plan_bind_group(instance: Option<u128>, bind_group: Option<GpuBuffer>) -> (set: Option<
    GpuBuffer,
>)
    ensures
        set == (if instance is Some {
            bind_group
        } else {
            None
        }),
{
    let Some(_asset_id) = instance else {
        return None;
    };
    bind_group
}

} // verus!
