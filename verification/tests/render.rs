use polyfps::camera::{
    CameraTransformBuilder, PlayerCameraState, ViewMatrix, CAMERA_FOVY_DEG, FAR_CLIP, NEAR_CLIP,
};
use polyfps::command::{CommandBuffer, Cube, RenderCommand, RenderMask};
use polyfps::geometry::{Rgba, Vec2, Vec3, OUTLINE_INFLATION};
use polyfps::pass::{BackendOp, RenderError, RenderState};

const SKY: Rgba = Rgba { r: 102, g: 191, b: 255, a: 255 };

fn player(id: u32, x: i32, y: i32, height: i32, heading: i32) -> PlayerCameraState {
    PlayerCameraState { id, position: Vec2 { x, y }, height, heading }
}

fn session(p0: PlayerCameraState, p1: PlayerCameraState) -> RenderState {
    RenderState::new(800, 480, SKY, [p0, p1])
}

#[test]
fn camera_transform_is_deterministic() {
    let builder = CameraTransformBuilder::new(800, 480);
    let state = player(0, 1234, -567, 1000, 31416);
    let first = builder.build(&state);
    let second = builder.build(&state);
    assert_eq!(first, second);
}

#[test]
fn view_translation_equals_pose_before_rotation() {
    // player 0 at ground (0,0), one world unit high, facing heading 0
    let builder = CameraTransformBuilder::new(800, 480);
    let transform = builder.build(&player(0, 0, 0, 1000, 0));
    assert_eq!(transform.view.translation, Vec3 { x: 0, y: 1000, z: 0 });
    assert_eq!(transform.view.heading, 0);
}

#[test]
fn projection_constants_fixed_per_session() {
    let builder = CameraTransformBuilder::new(800, 480);
    let projection = builder.build(&player(0, 0, 0, 0, 0)).projection;
    assert_eq!(projection.fovy_deg, CAMERA_FOVY_DEG);
    assert_eq!(projection.fovy_deg, 70);
    assert_eq!(projection.aspect_w, 400);
    assert_eq!(projection.aspect_h, 480);
    assert_eq!(projection.near, NEAR_CLIP);
    assert_eq!(projection.far, FAR_CLIP);
}

fn push_pop_counts(ops: &[BackendOp]) -> (usize, usize) {
    let pushes = ops.iter().filter(|op| matches!(op, BackendOp::PushMatrices)).count();
    let pops = ops.iter().filter(|op| matches!(op, BackendOp::PopMatrices)).count();
    (pushes, pops)
}

#[test]
fn pass_pushes_and_pops_in_balance() {
    let state = session(player(0, 0, 0, 1000, 0), player(1, 2000, 0, 1000, 500));
    let mut buf = CommandBuffer::new();
    for i in 0..3u8 {
        buf.record(
            RenderCommand::Solid {
                position: Vec3 { x: i as i32 * 1000, y: 0, z: 0 },
                cube: Cube {
                    color: Rgba { r: i, g: 0, b: 0, a: 255 },
                    size: Vec3 { x: 1000, y: 1000, z: 1000 },
                },
            },
            RenderMask::Always,
        );
    }
    for player_id in [0u32, 1] {
        let ops = state.begin_player_pass(&buf, player_id).unwrap();
        assert_eq!(push_pop_counts(&ops), (1, 1));
    }
    // the pop comes even when there is nothing to draw
    let empty = CommandBuffer::new();
    let ops = state.begin_player_pass(&empty, 0).unwrap();
    assert_eq!(push_pop_counts(&ops), (1, 1));
    // and over a whole frame the counts still balance
    let frame = state.render_frame(&buf);
    assert_eq!(push_pop_counts(&frame), (2, 2));
}

#[test]
fn pass_ops_come_in_pipeline_order() {
    let state = session(player(0, 0, 0, 1000, 0), player(1, 0, 0, 1000, 0));
    let mut buf = CommandBuffer::new();
    let position = Vec3 { x: 3000, y: 0, z: -2000 };
    let color = Rgba { r: 10, g: 20, b: 30, a: 255 };
    buf.record(
        RenderCommand::Solid { position, cube: Cube { color, size: Vec3 { x: 1000, y: 2000, z: 3000 } } },
        RenderMask::Always,
    );
    let ops = state.begin_player_pass(&buf, 0).unwrap();
    let camera = CameraTransformBuilder::new(800, 480).build(&player(0, 0, 0, 1000, 0));
    assert_eq!(
        ops,
        vec![
            BackendOp::BindTarget { player_id: 0 },
            BackendOp::ClearTarget { color: SKY },
            BackendOp::UiOverlay,
            BackendOp::PushMatrices,
            BackendOp::SetProjection { projection: camera.projection },
            BackendOp::SetModelview { view: camera.view },
            BackendOp::DrawCube { position, size: Vec3 { x: 1000, y: 2000, z: 3000 }, color },
            BackendOp::PopMatrices,
            BackendOp::UnbindTarget,
        ]
    );
}

#[test]
fn outline_is_inflated_and_black() {
    let state = session(player(0, 0, 0, 1000, 0), player(1, 0, 0, 1000, 0));
    let mut buf = CommandBuffer::new();
    let position = Vec3 { x: 0, y: 0, z: 0 };
    let color = Rgba { r: 255, g: 255, b: 0, a: 255 };
    buf.record(
        RenderCommand::SolidWithOutline {
            position,
            cube: Cube { color, size: Vec3 { x: 1000, y: 2000, z: 3000 } },
        },
        RenderMask::Always,
    );
    let ops = state.begin_player_pass(&buf, 0).unwrap();
    assert_eq!(OUTLINE_INFLATION, 10);
    assert_eq!(
        &ops[6..8],
        &[
            BackendOp::DrawCube { position, size: Vec3 { x: 1000, y: 2000, z: 3000 }, color },
            BackendOp::DrawCubeWires {
                position,
                size: Vec3 { x: 1010, y: 2010, z: 3010 },
                color: Rgba { r: 0, g: 0, b: 0, a: 255 },
            },
        ]
    );
}

#[test]
fn largest_extent_still_inflates() {
    let state = session(player(0, 0, 0, 1000, 0), player(1, 0, 0, 1000, 0));
    let mut buf = CommandBuffer::new();
    let size = Vec3 { x: i32::MAX - 10, y: i32::MAX - 10, z: i32::MAX - 10 };
    buf.record(
        RenderCommand::SolidWithOutline {
            position: Vec3 { x: 0, y: 0, z: 0 },
            cube: Cube { color: Rgba { r: 0, g: 0, b: 0, a: 0 }, size },
        },
        RenderMask::Always,
    );
    let ops = state.begin_player_pass(&buf, 0).unwrap();
    assert!(ops.iter().any(|op| matches!(
        op,
        BackendOp::DrawCubeWires { size: Vec3 { x: i32::MAX, y: i32::MAX, z: i32::MAX }, .. }
    )));
}

fn modelview_of(ops: &[BackendOp]) -> ViewMatrix {
    let views: Vec<ViewMatrix> = ops
        .iter()
        .filter_map(|op| match op {
            BackendOp::SetModelview { view } => Some(*view),
            _ => None,
        })
        .collect();
    assert_eq!(views.len(), 1);
    views[0]
}

#[test]
fn passes_do_not_cross_contaminate_headings() {
    // two passes in the same frame with different headings
    let p0 = player(0, 0, 0, 1000, 250);
    let p1 = player(1, 4000, 2000, 1000, 750);
    let state = session(p0, p1);
    let mut buf = CommandBuffer::new();
    buf.record(
        RenderCommand::Solid {
            position: Vec3 { x: 0, y: 0, z: 0 },
            cube: Cube { color: Rgba { r: 1, g: 1, b: 1, a: 255 }, size: Vec3 { x: 1000, y: 1000, z: 1000 } },
        },
        RenderMask::Always,
    );
    let ops0 = state.begin_player_pass(&buf, 0).unwrap();
    let ops1 = state.begin_player_pass(&buf, 1).unwrap();
    let view0 = modelview_of(&ops0);
    let view1 = modelview_of(&ops1);
    assert_ne!(view0, view1);
    assert_eq!(view0.heading, 250);
    assert_eq!(view1.heading, 750);
    assert_eq!(view0.translation, Vec3 { x: 0, y: 1000, z: 0 });
    assert_eq!(view1.translation, Vec3 { x: 4000, y: 1000, z: 2000 });
}

#[test]
fn unknown_player_pass_is_skipped() {
    let state = session(player(0, 0, 0, 1000, 0), player(1, 0, 0, 1000, 0));
    let mut buf = CommandBuffer::new();
    buf.record(
        RenderCommand::Solid {
            position: Vec3 { x: 0, y: 0, z: 0 },
            cube: Cube { color: Rgba { r: 1, g: 1, b: 1, a: 255 }, size: Vec3 { x: 1000, y: 1000, z: 1000 } },
        },
        RenderMask::Always,
    );
    // player id 5 is invalid: no draw calls are issued, the frame goes on
    let result = state.begin_player_pass(&buf, 5);
    assert_eq!(result, Err(RenderError::UnknownPlayer(5)));
    // both real passes and the composite still run unharmed
    let frame = state.render_frame(&buf);
    assert!(!frame.is_empty());
}

#[test]
fn composite_blits_side_by_side() {
    let state = session(player(0, 0, 0, 1000, 0), player(1, 0, 0, 1000, 0));
    let blits = state.composite();
    assert_eq!(
        blits,
        vec![
            BackendOp::BlitTarget { player_id: 0, x: 0, y: 0 },
            BackendOp::BlitTarget { player_id: 1, x: 400, y: 0 },
        ]
    );
}

#[test]
fn targets_are_half_screen_sized() {
    let state = session(player(0, 0, 0, 1000, 0), player(1, 0, 0, 1000, 0));
    assert_eq!(state.players[0].target.width, 400);
    assert_eq!(state.players[0].target.height, 480);
    assert_eq!(state.players[1].target, state.players[0].target);
    assert_eq!(state.fb_width, 400);
}

#[test]
fn frame_is_two_passes_then_composite() {
    let state = session(player(0, 0, 0, 1000, 100), player(1, 0, 0, 1000, 200));
    let buf = CommandBuffer::new();
    let frame = state.render_frame(&buf);
    let mut expected = state.begin_player_pass(&buf, 0).unwrap();
    expected.extend(state.begin_player_pass(&buf, 1).unwrap());
    expected.extend(state.composite());
    assert_eq!(frame, expected);
}
