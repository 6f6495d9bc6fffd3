use nannou_draw::render::{
    plan_bind_group, plan_indirect_draw, GpuBuffer, IndexFormat, IndirectLookup, IndirectPass,
    RenderCommandResult, RenderMeshBufferInfo,
};
use nannou_draw::sampler::{sampler_filtering, FilterMode, SamplerFilters};
use nannou_draw::script::{update_script_source, Script};

fn complete() -> IndirectLookup {
    IndirectLookup {
        mesh_instance: true,
        gpu_mesh: Some(RenderMeshBufferInfo::Indexed { index_format: IndexFormat::Uint32 }),
        item_buffers: true,
        indirect_buffer: Some(GpuBuffer { id: 1 }),
        has_vertex_override: true,
        vertex_override: Some(GpuBuffer { id: 2 }),
        mesh_vertex_slice: Some(GpuBuffer { id: 3 }),
        mesh_index_slice: Some(GpuBuffer { id: 4 }),
    }
}

#[test]
fn indexed_mesh_is_drawn_indexed_with_the_override() {
    let pass = plan_indirect_draw(&complete());
    assert_eq!(
        pass,
        IndirectPass::DrawIndexedIndirect {
            vertex_buffer: GpuBuffer { id: 2 },
            index_buffer: GpuBuffer { id: 4 },
            index_format: IndexFormat::Uint32,
            indirect_buffer: GpuBuffer { id: 1 },
        }
    );
    assert_eq!(pass.result(), RenderCommandResult::Success);
}

#[test]
fn without_override_the_mesh_vertices_are_used() {
    let lookup = IndirectLookup {
        has_vertex_override: false,
        vertex_override: None,
        gpu_mesh: Some(RenderMeshBufferInfo::NonIndexed),
        ..complete()
    };
    let pass = plan_indirect_draw(&lookup);
    assert_eq!(
        pass,
        IndirectPass::DrawIndirect {
            vertex_buffer: GpuBuffer { id: 3 },
            indirect_buffer: GpuBuffer { id: 1 },
        }
    );
    assert_eq!(pass.result(), RenderCommandResult::Success);
}

#[test]
fn unresolved_parts_skip_the_draw() {
    let skipped = [
        IndirectLookup { mesh_instance: false, ..complete() },
        IndirectLookup { gpu_mesh: None, ..complete() },
        IndirectLookup { item_buffers: false, ..complete() },
        IndirectLookup { indirect_buffer: None, ..complete() },
        IndirectLookup { vertex_override: None, ..complete() },
        IndirectLookup { has_vertex_override: false, mesh_vertex_slice: None, ..complete() },
    ];
    for lookup in skipped.iter() {
        let pass = plan_indirect_draw(lookup);
        assert_eq!(pass, IndirectPass::Skip);
        assert_eq!(pass.result(), RenderCommandResult::Skip);
    }
}

#[test]
fn missing_index_data_skips_after_the_vertex_buffer() {
    let lookup = IndirectLookup { mesh_index_slice: None, ..complete() };
    let pass = plan_indirect_draw(&lookup);
    assert_eq!(pass, IndirectPass::SkipAfterVertexBuffer { vertex_buffer: GpuBuffer { id: 2 } });
    assert_eq!(pass.result(), RenderCommandResult::Skip);
}

#[test]
fn bind_group_needs_instance_and_model() {
    assert_eq!(plan_bind_group(Some(1), Some(GpuBuffer { id: 5 })), Some(GpuBuffer { id: 5 }));
    assert_eq!(plan_bind_group(None, Some(GpuBuffer { id: 5 })), None);
    assert_eq!(plan_bind_group(Some(1), None), None);
}

#[test]
fn sampler_filters_unless_all_nearest() {
    let nearest = SamplerFilters {
        mag_filter: FilterMode::Nearest,
        min_filter: FilterMode::Nearest,
        mipmap_filter: FilterMode::Nearest,
    };
    assert!(!sampler_filtering(&nearest));
    assert!(sampler_filtering(&SamplerFilters { mag_filter: FilterMode::Linear, ..nearest }));
    assert!(sampler_filtering(&SamplerFilters { min_filter: FilterMode::Linear, ..nearest }));
    assert!(sampler_filtering(&SamplerFilters { mipmap_filter: FilterMode::Linear, ..nearest }));
}

#[test]
fn update_source_appends_the_update_call() {
    let script = Script { code: String::from("function update(app, model) { return model }") };
    assert_eq!(
        update_script_source(&script),
        "function update(app, model) { return model };update(app, model);"
    );
    assert_eq!(update_script_source(&Script { code: String::new() }), ";update(app, model);");
}

#[test]
fn script_is_loaded_from_utf8_bytes_only() {
    let loaded = nannou_draw::script::load_script("let x = \"é\";".as_bytes().to_vec()).unwrap();
    assert_eq!(loaded.code, "let x = \"é\";");
    let refused = nannou_draw::script::load_script(vec![0x66, 0xFF, 0x6F]);
    assert_eq!(refused.err(), Some(nannou_draw::script::ScriptLoaderError::FromUtf8));
    assert_eq!(nannou_draw::script::load_script(Vec::new()).unwrap().code, "");
}
