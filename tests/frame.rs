use learn_opengl::attributes::{interleaved_floats, AttribPointer};
use learn_opengl::clock::FrameClock;
use learn_opengl::frame::{frame_commands, uniform_location, DrawCall, FrameCommand};

#[test]
fn clock_deltas_are_never_negative() {
    let mut k = FrameClock::new();
    assert_eq!(k.tick(16_000_000), 16_000_000);
    assert_eq!(k.tick(33_000_000), 17_000_000);
    assert_eq!(k.tick(33_000_000), 0);
    assert_eq!(k.previous(), 33_000_000);
}

#[test]
fn clock_ignores_a_step_back() {
    let mut k = FrameClock::new();
    assert_eq!(k.tick(100), 100);
    assert_eq!(k.tick(40), 0);
    assert_eq!(k.previous(), 100);
    assert_eq!(k.tick(150), 50);
}

#[test]
fn cube_frame_order() {
    let textures = vec![11u32, 12];
    let draw = DrawCall::Arrays { first: 0, count: 36 };
    let plan = frame_commands(&textures, 2, draw);
    assert_eq!(
        plan,
        vec![
            FrameCommand::Clear,
            FrameCommand::BindTexture { unit: 0, texture: 11 },
            FrameCommand::BindTexture { unit: 1, texture: 12 },
            FrameCommand::SetView,
            FrameCommand::SetProjection,
            FrameCommand::BindVertexArray,
            FrameCommand::SetModel { object: 0 },
            FrameCommand::Draw(draw),
            FrameCommand::SetModel { object: 1 },
            FrameCommand::Draw(draw),
            FrameCommand::Swap,
        ]
    );
}

#[test]
fn indexed_quad_frame() {
    let draw = DrawCall::Elements { count: 6 };
    let plan = frame_commands(&Vec::new(), 1, draw);
    assert_eq!(plan.len(), 7);
    assert_eq!(plan[4], FrameCommand::SetModel { object: 0 });
    assert_eq!(plan[5], FrameCommand::Draw(DrawCall::Elements { count: 6 }));
}

#[test]
fn empty_scene_still_clears_and_swaps() {
    let plan = frame_commands(&Vec::new(), 0, DrawCall::Arrays { first: 0, count: 3 });
    assert_eq!(
        plan,
        vec![
            FrameCommand::Clear,
            FrameCommand::SetView,
            FrameCommand::SetProjection,
            FrameCommand::BindVertexArray,
            FrameCommand::Swap,
        ]
    );
}

#[test]
fn negative_uniform_location_is_missing() {
    assert_eq!(uniform_location(-1), None);
    assert_eq!(uniform_location(0), Some(0));
    assert_eq!(uniform_location(7), Some(7));
}

#[test]
fn position_and_uv_layout() {
    let layout = interleaved_floats(&vec![3, 2]).unwrap();
    assert_eq!(
        layout,
        vec![
            AttribPointer { index: 0, components: 3, stride_bytes: 20, offset_bytes: 0 },
            AttribPointer { index: 1, components: 2, stride_bytes: 20, offset_bytes: 12 },
        ]
    );
}

#[test]
fn position_color_uv_layout() {
    let layout = interleaved_floats(&vec![3, 3, 2]).unwrap();
    assert_eq!(layout.len(), 3);
    assert_eq!(layout[2], AttribPointer { index: 2, components: 2, stride_bytes: 32, offset_bytes: 24 });
    assert_eq!(interleaved_floats(&Vec::new()), Some(Vec::new()));
}

#[test]
fn bad_component_counts_are_refused() {
    assert_eq!(interleaved_floats(&vec![3, 0]), None);
    assert_eq!(interleaved_floats(&vec![5]), None);
}

