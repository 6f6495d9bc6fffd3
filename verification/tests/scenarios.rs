use nannou_draw::command::{DrawCommand, DrawError};
use nannou_draw::context::{DrawContext, Matrix};
use nannou_draw::draw::Draw;
use nannou_draw::material::{
    BlendComponent, BlendFactor, BlendOperation, BlendState, CustomMaterial, DefaultMaterial,
    Material, MaterialError, MaterialId, MaterialType, PolygonMode,
};
use nannou_draw::primitive::{Dimensions, Primitive, Rect, Tri};
use nannou_draw::state::State;
use nannou_draw::value::{BufferHandle, Color, Point2};

fn bits(value: f32) -> u32 {
    value.to_bits()
}

fn translated_x(x: f32) -> DrawContext {
    let mut transform = Matrix::identity();
    transform.w_axis.x = bits(x);
    DrawContext { transform }
}

fn rect_of_width(width: f32) -> Primitive {
    match Primitive::rect() {
        Primitive::Rect(rect) => Primitive::Rect(Rect {
            dimensions: Dimensions { x: Some(bits(width)), y: None, z: None },
            ..rect
        }),
        other => other,
    }
}

fn count_terminals(commands: &[DrawCommand]) -> usize {
    commands.iter().filter(|command| command.is_terminal()).count()
}

#[test]
fn unconfigured_ellipse_yields_material_change_and_primitive() {
    let (draw, mut state) = Draw::with_instance_number(7, 42);
    let drawing = draw.ellipse(&mut state);
    assert_eq!(drawing.index(), 1);
    drawing.finish(&mut state).unwrap();
    let commands = draw.drain_commands(&mut state);
    assert_eq!(
        commands,
        vec![DrawCommand::Material(draw.material), DrawCommand::Primitive(Primitive::ellipse())]
    );
}

#[test]
fn derived_handle_appends_context_change_and_leaves_parent_alone() {
    let (h0, mut state) = Draw::with_instance_number(1, 0xA);
    let ellipse = h0.ellipse(&mut state);
    ellipse.finish(&mut state).unwrap();

    let h1 = h0.context(translated_x(5.0));
    let rect = h1.rect(&mut state).w(&mut state, bits(10.0));
    rect.finish(&mut state).unwrap();

    assert_eq!(h0.context, DrawContext::default());
    assert_eq!(h0.context.transform, Matrix::identity());
    assert_eq!(h1.context, translated_x(5.0));
    assert_eq!(h1.material, h0.material);
    assert_eq!(h1.window, h0.window);

    let commands = h0.drain_commands(&mut state);
    assert_eq!(
        commands,
        vec![
            DrawCommand::Material(h0.material),
            DrawCommand::Primitive(Primitive::ellipse()),
            DrawCommand::Context(translated_x(5.0)),
            DrawCommand::Primitive(rect_of_width(10.0)),
        ]
    );
}

#[test]
fn unfinished_drawings_are_committed_by_the_drain() {
    let (draw, mut state) = Draw::with_instance_number(1, 1);
    let _ellipse = draw.ellipse(&mut state);
    let _rect = draw.rect(&mut state);
    let commands = draw.drain_commands(&mut state);
    assert_eq!(
        commands,
        vec![
            DrawCommand::Material(draw.material),
            DrawCommand::Primitive(Primitive::ellipse()),
            DrawCommand::Primitive(Primitive::rect()),
        ]
    );
}

#[test]
fn every_started_primitive_yields_one_terminal_command() {
    let (draw, mut state) = Draw::with_instance_number(1, 1);
    let other = draw.material_with(&mut state, 2, Material::Default(DefaultMaterial::default()));
    let moved = other.context(translated_x(2.0));

    let a = draw.ellipse(&mut state);
    let b = other.rect(&mut state);
    let c = moved.tri(&mut state);
    let d = draw.line(&mut state);
    let e = moved.quad(&mut state);
    let _f = draw.polygon(&mut state);

    b.finish(&mut state).unwrap();
    c.instanced(&mut state, BufferHandle { id: 9 }).unwrap();
    d.indirect(&mut state, BufferHandle { id: 10 }, None).unwrap();
    a.finish(&mut state).unwrap();
    drop(e);

    let commands = draw.drain_commands(&mut state);
    assert_eq!(count_terminals(&commands), 6);
}

#[test]
fn change_commands_are_emitted_only_when_the_value_differs() {
    let (draw, mut state) = Draw::with_instance_number(1, 1);
    let moved = draw.context(translated_x(3.0));

    draw.ellipse(&mut state).finish(&mut state).unwrap();
    draw.ellipse(&mut state).finish(&mut state).unwrap();
    moved.ellipse(&mut state).finish(&mut state).unwrap();
    moved.ellipse(&mut state).finish(&mut state).unwrap();
    draw.ellipse(&mut state).finish(&mut state).unwrap();

    let ellipse = DrawCommand::Primitive(Primitive::ellipse());
    let commands = draw.drain_commands(&mut state);
    assert_eq!(
        commands,
        vec![
            DrawCommand::Material(draw.material),
            ellipse,
            ellipse,
            DrawCommand::Context(translated_x(3.0)),
            ellipse,
            ellipse,
            DrawCommand::Context(DrawContext::default()),
            ellipse,
        ]
    );
}

#[test]
fn remembered_values_carry_over_to_the_next_frame() {
    let (draw, mut state) = Draw::with_instance_number(1, 1);
    let moved = draw.context(translated_x(3.0));
    moved.ellipse(&mut state).finish(&mut state).unwrap();
    let first = moved.drain_commands(&mut state);
    assert_eq!(first.len(), 3);

    moved.rect(&mut state).finish(&mut state).unwrap();
    let second = moved.drain_commands(&mut state);
    assert_eq!(second, vec![DrawCommand::Primitive(Primitive::rect())]);
}

#[test]
fn material_change_is_emitted_per_handle_material() {
    let (draw, mut state) = Draw::with_instance_number(1, 1);
    let custom = Material::Custom(CustomMaterial { shape: 5, payload: 77 });
    let other = draw.material_with(&mut state, 2, custom);
    assert_eq!(other.material, MaterialId { type_tag: MaterialType::Custom(5), uuid: 2 });
    assert_eq!(other.context, draw.context);

    draw.rect(&mut state).finish(&mut state).unwrap();
    other.rect(&mut state).finish(&mut state).unwrap();
    other.rect(&mut state).finish(&mut state).unwrap();
    draw.rect(&mut state).finish(&mut state).unwrap();

    let rect = DrawCommand::Primitive(Primitive::rect());
    let commands = draw.drain_commands(&mut state);
    assert_eq!(
        commands,
        vec![
            DrawCommand::Material(draw.material),
            rect,
            DrawCommand::Material(other.material),
            rect,
            rect,
            DrawCommand::Material(draw.material),
            rect,
        ]
    );
}

#[test]
fn command_order_is_reservation_order() {
    let (draw, mut state) = Draw::with_instance_number(1, 1);
    let outer = draw.ellipse(&mut state);
    let inner = draw.rect(&mut state);
    let innermost = draw.tri(&mut state);
    assert_eq!(outer.index(), 1);
    assert_eq!(inner.index(), 2);
    assert_eq!(innermost.index(), 3);

    innermost.finish(&mut state).unwrap();
    inner.finish(&mut state).unwrap();
    outer.finish(&mut state).unwrap();

    let commands = draw.drain_commands(&mut state);
    assert_eq!(
        commands,
        vec![
            DrawCommand::Material(draw.material),
            DrawCommand::Primitive(Primitive::ellipse()),
            DrawCommand::Primitive(Primitive::rect()),
            DrawCommand::Primitive(Primitive::tri()),
        ]
    );
}

#[test]
fn second_drain_is_empty() {
    let (draw, mut state) = Draw::with_instance_number(1, 1);
    draw.ellipse(&mut state).finish(&mut state).unwrap();
    let first = draw.drain_commands(&mut state);
    assert_eq!(first.len(), 2);
    let second = draw.drain_commands(&mut state);
    assert_eq!(second, Vec::<DrawCommand>::new());
}

#[test]
fn drain_of_a_new_session_is_empty() {
    let (draw, mut state) = Draw::with_instance_number(1, 1);
    assert_eq!(draw.drain_commands(&mut state), Vec::<DrawCommand>::new());
    assert_eq!(draw.drain_commands(&mut state), Vec::<DrawCommand>::new());
    // Nothing was remembered by the empty drains: the material change is
    // still due when something is drawn.
    draw.rect(&mut state).finish(&mut state).unwrap();
    assert_eq!(
        draw.drain_commands(&mut state),
        vec![DrawCommand::Material(draw.material), DrawCommand::Primitive(Primitive::rect())]
    );
}

#[test]
fn drain_by_another_handle_after_a_drain_is_empty() {
    let (draw, mut state) = Draw::with_instance_number(1, 1);
    let other = draw.material_with(&mut state, 2, Material::Default(DefaultMaterial::default()));
    draw.ellipse(&mut state).finish(&mut state).unwrap();
    assert_eq!(draw.drain_commands(&mut state).len(), 2);
    assert_eq!(other.drain_commands(&mut state), Vec::<DrawCommand>::new());
    // The other handle's material is still not the one remembered.
    other.rect(&mut state).finish(&mut state).unwrap();
    assert_eq!(
        other.drain_commands(&mut state),
        vec![DrawCommand::Material(other.material), DrawCommand::Primitive(Primitive::rect())]
    );
}

#[test]
fn drain_closes_a_log_with_the_handles_material() {
    let (draw, mut state) = Draw::with_instance_number(1, 1);
    let other = draw.material_with(&mut state, 2, Material::Default(DefaultMaterial::default()));
    draw.ellipse(&mut state).finish(&mut state).unwrap();
    assert_eq!(
        other.drain_commands(&mut state),
        vec![
            DrawCommand::Material(draw.material),
            DrawCommand::Primitive(Primitive::ellipse()),
            DrawCommand::Material(other.material),
        ]
    );
}

#[test]
fn two_materials_of_one_value_have_distinct_ids() {
    let (draw, mut state) = Draw::with_instance_number(1, 1);
    let value = Material::Custom(CustomMaterial { shape: 3, payload: 11 });
    let first = draw.material(&mut state, value);
    let second = draw.material(&mut state, value);
    assert_ne!(first.material, second.material);
    assert_eq!(first.material.type_tag, MaterialType::Custom(3));
    assert_eq!(second.material.type_tag, MaterialType::Custom(3));
    assert_eq!(state.get_typed(first.material), Ok(&value));
    assert_eq!(state.get_typed(second.material), Ok(&value));

    let changed = Material::Custom(CustomMaterial { shape: 3, payload: 12 });
    *state.get_typed_mut(first.material).unwrap() = changed;
    assert_eq!(state.get_typed(first.material), Ok(&changed));
    assert_eq!(state.get_typed(second.material), Ok(&value));
}

#[test]
fn new_handles_get_random_instance_numbers() {
    let (first, first_state) = Draw::new(3);
    let (second, _second_state) = Draw::new(3);
    assert_ne!(first.material.uuid, second.material.uuid);
    assert_eq!(first.material.type_tag, MaterialType::Default);
    assert_eq!(first.window, 3);
    assert_eq!(first.context, DrawContext::default());
    let mask: u128 = 0x0000_0000_0000_F000_C000_0000_0000_0000;
    let fixed: u128 = 0x0000_0000_0000_4000_8000_0000_0000_0000;
    assert_eq!(first.material.uuid & mask, fixed);
    assert_eq!(second.material.uuid & mask, fixed);
    assert_eq!(
        first_state.get_typed(first.material),
        Ok(&Material::Default(DefaultMaterial { blend: None, polygon_mode: PolygonMode::Fill }))
    );
}

#[test]
fn indirect_without_vertex_override_has_no_vertex_buffer() {
    let (draw, mut state) = Draw::with_instance_number(1, 1);
    let drawing = draw.rect(&mut state);
    let indirect = draw.indirect().primitive(drawing).buffer(BufferHandle { id: 40 });
    assert_eq!(indirect.finish(&mut state), Ok(()));
    let commands = draw.drain_commands(&mut state);
    assert_eq!(
        commands,
        vec![
            DrawCommand::Material(draw.material),
            DrawCommand::Indirect(Primitive::rect(), BufferHandle { id: 40 }, None),
        ]
    );
}

#[test]
fn indirect_with_vertex_override_carries_it() {
    let (draw, mut state) = Draw::with_instance_number(1, 1);
    let first = draw.ellipse(&mut state);
    let second = draw.rect(&mut state);
    let indirect = draw
        .indirect()
        .primitive(first)
        .buffer(BufferHandle { id: 40 })
        .vertex_buffer(Some(BufferHandle { id: 41 }));
    assert_eq!(indirect.finish(&mut state), Ok(()));
    second.finish(&mut state).unwrap();
    let commands = draw.drain_commands(&mut state);
    assert_eq!(
        commands,
        vec![
            DrawCommand::Material(draw.material),
            DrawCommand::Indirect(
                Primitive::ellipse(),
                BufferHandle { id: 40 },
                Some(BufferHandle { id: 41 })
            ),
            DrawCommand::Primitive(Primitive::rect()),
        ]
    );
}

#[test]
fn indirect_without_arguments_fails_and_keeps_the_primitive() {
    let (draw, mut state) = Draw::with_instance_number(1, 1);
    let drawing = draw.tri(&mut state);
    let indirect = draw.indirect().primitive(drawing);
    assert_eq!(indirect.finish(&mut state), Err(DrawError::MissingIndirectBuffer));
    let commands = draw.drain_commands(&mut state);
    assert_eq!(
        commands,
        vec![DrawCommand::Material(draw.material), DrawCommand::Primitive(Primitive::tri())]
    );
}

#[test]
fn indirect_with_nothing_captured_does_nothing() {
    let (draw, mut state) = Draw::with_instance_number(1, 1);
    let indirect = draw.indirect().buffer(BufferHandle { id: 1 });
    assert_eq!(indirect.finish(&mut state), Ok(()));
    assert_eq!(draw.drain_commands(&mut state), Vec::<DrawCommand>::new());
}

#[test]
fn instanced_primitive_is_not_also_drawn_plainly() {
    let (draw, mut state) = Draw::with_instance_number(1, 1);
    let drawing = draw.ellipse(&mut state);
    let slot = drawing.index();
    let instanced = draw.instanced().with(&mut state, drawing, BufferHandle { id: 8 }).unwrap();
    assert_eq!(instanced.primitive_index(), Some(slot));

    // A plain finish of the slot leaves it to the instanced draw.
    assert_eq!(state.finish_drawing(slot), Ok(()));
    assert_eq!(instanced.finish(&mut state), Ok(()));

    let commands = draw.drain_commands(&mut state);
    assert_eq!(
        commands,
        vec![
            DrawCommand::Material(draw.material),
            DrawCommand::Instanced(Primitive::ellipse(), BufferHandle { id: 8 }),
        ]
    );
    assert!(!commands.contains(&DrawCommand::Primitive(Primitive::ellipse())));
}

#[test]
fn instanced_primitive_left_pending_is_committed_by_the_drain() {
    let (draw, mut state) = Draw::with_instance_number(1, 1);
    let drawing = draw.rect(&mut state);
    let instanced = draw.instanced().with(&mut state, drawing, BufferHandle { id: 8 }).unwrap();
    let commands = draw.drain_commands(&mut state);
    assert_eq!(
        commands,
        vec![
            DrawCommand::Material(draw.material),
            DrawCommand::Instanced(Primitive::rect(), BufferHandle { id: 8 }),
        ]
    );
    assert_eq!(instanced.finish(&mut state), Err(DrawError::AlreadyFinalized));
}

#[test]
fn instanced_with_nothing_attached_does_nothing() {
    let (draw, mut state) = Draw::with_instance_number(1, 1);
    assert_eq!(draw.instanced().primitive_index(), None);
    assert_eq!(draw.instanced().finish(&mut state), Ok(()));
}

#[test]
fn capturing_a_slot_twice_is_refused() {
    let (draw, mut state) = Draw::with_instance_number(1, 1);
    let drawing = draw.ellipse(&mut state);
    let slot = drawing.index();
    drawing.instanced(&mut state, BufferHandle { id: 1 }).unwrap();
    assert_eq!(
        state.capture_instanced(slot, BufferHandle { id: 2 }),
        Err(DrawError::CaptureConflict)
    );
    assert_eq!(
        state.insert_indirect_draw_command(slot, BufferHandle { id: 3 }, None),
        Err(DrawError::CaptureConflict)
    );
    let commands = draw.drain_commands(&mut state);
    assert_eq!(
        commands[1],
        DrawCommand::Instanced(Primitive::ellipse(), BufferHandle { id: 1 })
    );
    assert_eq!(commands.len(), 2);
}

#[test]
fn double_finalization_is_detected() {
    let (draw, mut state) = Draw::with_instance_number(1, 1);
    let first = draw.ellipse(&mut state);
    let second = draw.rect(&mut state);
    let slot = first.index();
    assert_eq!(first.finish(&mut state), Ok(()));
    assert_eq!(state.finish_drawing(slot), Err(DrawError::AlreadyFinalized));
    assert_eq!(state.finish_drawing(100), Err(DrawError::AlreadyFinalized));
    assert_eq!(state.finish_instanced(slot), Err(DrawError::AlreadyFinalized));
    assert_eq!(
        state.insert_indirect_draw_command(slot, BufferHandle { id: 1 }, None),
        Err(DrawError::AlreadyFinalized)
    );
    assert_eq!(
        state.capture_instanced(slot, BufferHandle { id: 1 }),
        Err(DrawError::AlreadyFinalized)
    );
    assert_eq!(state.set_primitive(slot, Primitive::tri()), Err(DrawError::AlreadyFinalized));
    second.finish(&mut state).unwrap();
    let commands = draw.drain_commands(&mut state);
    assert_eq!(
        commands,
        vec![
            DrawCommand::Material(draw.material),
            DrawCommand::Primitive(Primitive::ellipse()),
            DrawCommand::Primitive(Primitive::rect()),
        ]
    );
}

#[test]
fn setters_after_a_drain_change_nothing() {
    let (draw, mut state) = Draw::with_instance_number(1, 1);
    let drawing = draw.rect(&mut state);
    draw.drain_commands(&mut state);
    let drawing = drawing.w(&mut state, bits(4.0));
    assert_eq!(state.primitive(drawing.index()), None);
    assert_eq!(drawing.finish(&mut state), Err(DrawError::AlreadyFinalized));
    assert_eq!(draw.drain_commands(&mut state), Vec::<DrawCommand>::new());
}

#[test]
fn material_lookup_reports_unknown_and_mismatch() {
    let (draw, mut state) = Draw::with_instance_number(1, 1);
    let missing = MaterialId { type_tag: MaterialType::Default, uuid: 999 };
    assert_eq!(state.get_typed(missing), Err(MaterialError::Unknown));
    assert_eq!(state.get_typed_mut(missing).err(), Some(MaterialError::Unknown));
    // The same instance number under another shape is another id.
    let other_shape = MaterialId { type_tag: MaterialType::Custom(1), uuid: 1 };
    assert_eq!(state.get_typed(other_shape), Err(MaterialError::Unknown));
    assert_eq!(draw.clone_material(&state), Material::Default(DefaultMaterial::default()));

    // A material of another shape written in place of the bound one is a
    // mismatch from then on.
    *state.get_typed_mut(draw.material).unwrap() =
        Material::Custom(CustomMaterial { shape: 4, payload: 0 });
    assert_eq!(state.get_typed(draw.material), Err(MaterialError::TypeMismatch));
    assert_eq!(state.get_typed_mut(draw.material).err(), Some(MaterialError::TypeMismatch));
}

#[test]
fn blend_and_polygon_mode_bind_changed_copies() {
    let (draw, mut state) = Draw::with_instance_number(1, 1);
    let descriptor = BlendComponent {
        src_factor: BlendFactor::SrcAlpha,
        dst_factor: BlendFactor::OneMinusSrcAlpha,
        operation: BlendOperation::Add,
    };
    let blended = draw.color_blend(&mut state, descriptor).unwrap();
    assert_ne!(blended.material, draw.material);
    assert_eq!(blended.context, draw.context);
    assert_eq!(
        state.get_typed(blended.material),
        Ok(&Material::Default(DefaultMaterial {
            blend: Some(BlendState { color: descriptor, alpha: descriptor }),
            polygon_mode: PolygonMode::Fill,
        }))
    );
    let same = draw.blend(&mut state, descriptor).unwrap();
    assert_eq!(state.get_typed(same.material), state.get_typed(blended.material));

    let lines = blended.polygon_mode(&mut state, PolygonMode::Line).unwrap();
    assert_eq!(
        state.get_typed(lines.material),
        Ok(&Material::Default(DefaultMaterial {
            blend: Some(BlendState { color: descriptor, alpha: descriptor }),
            polygon_mode: PolygonMode::Line,
        }))
    );
    // The handle's own material is as it was.
    assert_eq!(draw.clone_material(&state), Material::Default(DefaultMaterial::default()));

    let custom = draw.material_with(
        &mut state,
        50,
        Material::Custom(CustomMaterial { shape: 1, payload: 1 }),
    );
    assert_eq!(
        custom.color_blend(&mut state, descriptor),
        Err(MaterialError::TypeMismatch)
    );
    assert_eq!(
        custom.polygon_mode(&mut state, PolygonMode::Point),
        Err(MaterialError::TypeMismatch)
    );
    let stray = Draw { material: MaterialId { type_tag: MaterialType::Default, uuid: 0 }, ..draw };
    assert_eq!(stray.blend(&mut state, descriptor), Err(MaterialError::Unknown));
    // A handle whose id declares another shape than the one bound finds
    // nothing under its id.
    let wrong = Draw { material: MaterialId { type_tag: MaterialType::Custom(9), uuid: 1 }, ..draw };
    assert_eq!(wrong.polygon_mode(&mut state, PolygonMode::Line), Err(MaterialError::Unknown));
}

#[test]
fn rebinding_an_id_replaces_the_material() {
    let mut state = State::default();
    let first = Material::Custom(CustomMaterial { shape: 1, payload: 1 });
    let second = Material::Custom(CustomMaterial { shape: 1, payload: 2 });
    let a = state.bind(5, first);
    let b = state.bind(5, second);
    assert_eq!(a, MaterialId { type_tag: MaterialType::Custom(1), uuid: 5 });
    assert_eq!(a, b);
    assert_eq!(state.get_typed(a), Ok(&second));
}

#[test]
fn one_instance_number_under_two_shapes_is_two_materials() {
    let mut state = State::default();
    let first = Material::Custom(CustomMaterial { shape: 1, payload: 1 });
    let second = Material::Custom(CustomMaterial { shape: 2, payload: 2 });
    let third = Material::Default(DefaultMaterial::default());
    let a = state.bind(5, first);
    let b = state.bind(5, second);
    let c = state.bind(5, third);
    assert_eq!(a.key(), (1, 1, 5));
    assert_eq!(b.key(), (1, 2, 5));
    assert_eq!(c.key(), (0, 0, 5));
    assert_eq!(state.get_typed(a), Ok(&first));
    assert_eq!(state.get_typed(b), Ok(&second));
    assert_eq!(state.get_typed(c), Ok(&third));
}

#[test]
fn reset_clears_the_session_and_rebinds_a_default_material() {
    let (mut draw, mut state) = Draw::with_instance_number(1, 1);
    let old_material = draw.material;
    let moved = draw.context(translated_x(1.0));
    let drawing = moved.text(&mut state, "abc");
    let slot = drawing.index();
    draw.background().color(&mut state, Color { red: 1, green: 2, blue: 3, alpha: 4 });
    assert_eq!(state.intermediary_state().text_buffer, b"abc".to_vec());

    draw.reset_with(&mut state, 2);
    assert_eq!(draw.material, MaterialId { type_tag: MaterialType::Default, uuid: 2 });
    assert_eq!(draw.window, 1);
    assert_eq!(state.get_typed(old_material), Err(MaterialError::Unknown));
    assert_eq!(
        state.get_typed(draw.material),
        Ok(&Material::Default(DefaultMaterial::default()))
    );
    assert_eq!(state.background_color(), None);
    assert_eq!(state.primitive(slot), None);
    assert!(state.intermediary_state().text_buffer.is_empty());
    assert_eq!(draw.drain_commands(&mut state), Vec::<DrawCommand>::new());

    draw.reset(&mut state);
    assert_ne!(draw.material.uuid, 2);
    assert_eq!(draw.material.type_tag, MaterialType::Default);
    // No context is remembered after a reset: the first primitive emits its
    // context change, also under the identity.
    draw.rect(&mut state).finish(&mut state).unwrap();
    assert_eq!(
        draw.drain_commands(&mut state),
        vec![
            DrawCommand::Context(DrawContext::default()),
            DrawCommand::Material(draw.material),
            DrawCommand::Primitive(Primitive::rect()),
        ]
    );
}

#[test]
fn background_is_recorded_and_replaces_the_pending_one() {
    let (draw, mut state) = Draw::with_instance_number(1, 1);
    let red = Color { red: bits(1.0), green: 0, blue: 0, alpha: bits(1.0) };
    let blue = Color { red: 0, green: 0, blue: bits(1.0), alpha: bits(1.0) };
    assert_eq!(state.background_color(), None);
    draw.background().color(&mut state, red).color(&mut state, blue);
    assert_eq!(state.background_color(), Some(blue));
    let commands = draw.drain_commands(&mut state);
    assert_eq!(
        commands,
        vec![
            DrawCommand::BackgroundColor(red),
            DrawCommand::BackgroundColor(blue),
            DrawCommand::Material(draw.material),
        ]
    );
}

#[test]
fn finish_remaining_drawings_fills_every_slot() {
    let (draw, mut state) = Draw::with_instance_number(1, 1);
    let first = draw.ellipse(&mut state);
    let second = draw.rect(&mut state);
    let (a, b) = (first.index(), second.index());
    draw.finish_remaining_drawings(&mut state);
    assert_eq!(state.primitive(a), None);
    assert_eq!(state.primitive(b), None);
    assert_eq!(first.finish(&mut state), Err(DrawError::AlreadyFinalized));
    let commands = draw.drain_commands(&mut state);
    assert_eq!(count_terminals(&commands), 2);
    assert_eq!(commands.len(), 3);
}

#[test]
fn setters_change_the_primitive_in_progress() {
    let (draw, mut state) = Draw::with_instance_number(1, 1);
    let green = Color { red: 0, green: bits(1.0), blue: 0, alpha: bits(1.0) };
    let drawing = draw
        .ellipse(&mut state)
        .w_h(&mut state, bits(20.0), bits(30.0))
        .h(&mut state, bits(5.0))
        .color(&mut state, green)
        .x_y(&mut state, bits(1.0), bits(2.0));
    let primitive = state.primitive(drawing.index()).unwrap();
    assert_eq!(
        primitive.dimensions(),
        Some(Dimensions { x: Some(bits(20.0)), y: Some(bits(5.0)), z: None })
    );
    assert_eq!(primitive.position().x, bits(1.0));
    assert_eq!(primitive.position().y, bits(2.0));
    assert_eq!(primitive.position().z, 0);
    match primitive {
        Primitive::Ellipse(ellipse) => assert_eq!(ellipse.polygon.color, Some(green)),
        other => panic!("expected an ellipse, got {:?}", other),
    }
    let drawing = drawing.x_y_z(&mut state, bits(7.0), bits(8.0), bits(9.0));
    assert_eq!(state.primitive(drawing.index()).unwrap().position().z, bits(9.0));

    // A line has no extent: setting a width leaves it as it is.
    let line = draw.line(&mut state).w(&mut state, bits(3.0));
    assert_eq!(state.primitive(line.index()), Some(Primitive::line()));
    // A mesh carries no colour.
    let mesh = draw.mesh(&mut state).color(&mut state, green);
    assert_eq!(state.primitive(mesh.index()), Some(Primitive::mesh()));
}

#[test]
fn tri_setters_and_defaults() {
    let tri = Tri::default();
    assert_eq!(tri.a, Point2 { x: bits(-50.0), y: bits(33.0) });
    assert_eq!(tri.b, Point2 { x: bits(50.0), y: bits(0.0) });
    assert_eq!(tri.c, Point2 { x: bits(-50.0), y: bits(-33.0) });
    assert_eq!(tri.dimensions, Dimensions::default());
    assert_eq!(tri.polygon.stroke_color, None);

    let a = Point2 { x: bits(1.0), y: bits(2.0) };
    let b = Point2 { x: bits(3.0), y: bits(4.0) };
    let c = Point2 { x: bits(5.0), y: bits(6.0) };
    let black = Color { red: 0, green: 0, blue: 0, alpha: bits(1.0) };
    let moved = tri.points(a, b, c).stroke(black);
    assert_eq!((moved.a, moved.b, moved.c), (a, b, c));
    assert_eq!(moved.polygon.stroke_color, Some(black));
    assert_eq!(Tri::from(a, b, c), tri.points(a, b, c));
    assert_eq!(Primitive::Tri(moved).as_tri(), Some(moved));
    assert_eq!(Primitive::rect().as_tri(), None);

    let (draw, mut state) = Draw::with_instance_number(1, 1);
    let drawing = draw.tri(&mut state).points(&mut state, a, b, c).stroke(&mut state, black);
    assert_eq!(state.primitive(drawing.index()), Some(Primitive::Tri(moved)));
    drawing.finish(&mut state).unwrap();
    assert_eq!(draw.drain_commands(&mut state)[1], DrawCommand::Primitive(Primitive::Tri(moved)));
}

#[test]
fn text_and_texture_carry_their_data() {
    let (draw, mut state) = Draw::with_instance_number(1, 1);
    let hello = draw.text(&mut state, "hello");
    let world = draw.text(&mut state, "wörld");
    assert_eq!(state.primitive(hello.index()), Some(Primitive::text(0, 5)));
    assert_eq!(state.primitive(world.index()), Some(Primitive::text(5, 11)));
    assert_eq!(state.intermediary_state().text_buffer, "hellowörld".as_bytes().to_vec());
    let texture = draw.texture(&mut state, 99, (640, 480));
    assert_eq!(state.primitive(texture.index()), Some(Primitive::texture(99, 640, 480)));
}

#[test]
fn every_constructor_starts_its_own_kind() {
    let (draw, mut state) = Draw::with_instance_number(1, 1);
    let path = draw.path(&mut state).index();
    let arrow = draw.arrow(&mut state).index();
    let quad = draw.quad(&mut state).index();
    let polygon = draw.polygon(&mut state).index();
    let polyline = draw.polyline(&mut state).index();
    let any = draw.a(&mut state, Tri::default()).index();
    assert_eq!(state.primitive(path), Some(Primitive::path()));
    assert_eq!(state.primitive(arrow), Some(Primitive::arrow()));
    assert_eq!(state.primitive(quad), Some(Primitive::quad()));
    assert_eq!(state.primitive(polygon), Some(Primitive::polygon()));
    assert_eq!(state.primitive(polyline), Some(Primitive::polyline()));
    assert_eq!(state.primitive(any), Some(Primitive::tri()));
    assert_eq!((path, arrow, quad, polygon, polyline, any), (1, 2, 3, 4, 5, 6));
}
