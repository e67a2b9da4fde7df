//! The viewport render pass and the compositor.
//!
//! A pass does not touch the graphics device itself: it emits the ordered
//! stream of backend operations for one player — bind that player's target,
//! clear it, let the 2D overlay draw, push and install the camera matrices,
//! replay the visibility-filtered command buffer, pop, unbind. The backend
//! interpreter performs each operation against the device in stream order,
//! so every property proved of the stream (ordering, matrix-stack balance)
//! holds of the device calls.

use vstd::prelude::*;

use crate::camera::{
    CameraTransform, CameraTransformBuilder, PlayerCameraState, ProjectionMatrix, ViewMatrix,
};
use crate::command::{
    spec_visible_to, valid_command, visible_drawables, CommandBuffer, RenderCommand, RenderMask,
};
use crate::geometry::{inflate, outline_color, spec_inflate, spec_outline_color, Rgba, Vec3};

verus! {

/// One operation of the graphics backend, in the order the interpreter must
/// perform it.
#[derive(Clone, Copy, PartialEq, Eq, Structural, Debug)]
pub enum BackendOp {
    /// Bind the given player's off-screen target as the draw destination.
    BindTarget { player_id: u32 },
    /// Clear the bound target to the given color.
    ClearTarget { color: Rgba },
    /// Run the caller's 2D overlay drawing, before the 3D matrices are
    /// installed.
    UiOverlay,
    /// Save the current projection and modelview matrices.
    PushMatrices,
    /// Install the pass's projection matrix.
    SetProjection { projection: ProjectionMatrix },
    /// Install the pass's view matrix as the modelview matrix.
    SetModelview { view: ViewMatrix },
    /// Draw a filled cube.
    DrawCube { position: Vec3, size: Vec3, color: Rgba },
    /// Draw a wireframe cube.
    DrawCubeWires { position: Vec3, size: Vec3, color: Rgba },
    /// Restore the matrices saved by the matching `PushMatrices`.
    PopMatrices,
    /// Unbind the off-screen target, restoring the previous destination.
    UnbindTarget,
    /// Draw the given player's target at the given screen offset, at native
    /// resolution, without blending.
    BlitTarget { player_id: u32, x: u32, y: u32 },
}

/// The draw operations for one buffered drawable: a filled cube, plus — for
/// an outlined drawable — the inflated wireframe in the fixed outline color.
pub open spec fn draw_ops_of(cmd: RenderCommand) -> Seq<BackendOp> {
    match cmd {
        RenderCommand::Solid { position, cube } => seq![
            BackendOp::DrawCube { position, size: cube.size, color: cube.color },
        ],
        RenderCommand::SolidWithOutline { position, cube } => seq![
            BackendOp::DrawCube { position, size: cube.size, color: cube.color },
            BackendOp::DrawCubeWires {
                position,
                size: spec_inflate(cube.size),
                color: spec_outline_color(),
            },
        ],
    }
}

/// The draw operations for a sequence of drawables, in buffer order.
pub open spec fn draw_ops_seq(cmds: Seq<RenderCommand>) -> Seq<BackendOp>
    decreases cmds.len(),
{
    if cmds.len() == 0 {
        Seq::empty()
    } else {
        draw_ops_seq(cmds.drop_last()) + draw_ops_of(cmds.last())
    }
}

/// Drawing one more drawable appends exactly its own operations.
pub proof fn lemma_draw_ops_seq_push(cmds: Seq<RenderCommand>, cmd: RenderCommand)
    ensures
        draw_ops_seq(cmds.push(cmd)) == draw_ops_seq(cmds) + draw_ops_of(cmd),
{
    assert(cmds.push(cmd).drop_last() =~= cmds);
}

/// Issues the draw operations for one drawable.
pub fn draw_command(cmd: &RenderCommand) -> (ops: Vec<BackendOp>)
    requires
        valid_command(*cmd),
    ensures
        ops@ == draw_ops_of(*cmd),
{
    let mut ops: Vec<BackendOp> = Vec::new();
    match cmd {
        RenderCommand::Solid { position, cube } => {
            ops.push(BackendOp::DrawCube {
                position: *position,
                size: cube.size,
                color: cube.color,
            });
        },
        RenderCommand::SolidWithOutline { position, cube } => {
            ops.push(BackendOp::DrawCube {
                position: *position,
                size: cube.size,
                color: cube.color,
            });
            ops.push(BackendOp::DrawCubeWires {
                position: *position,
                size: inflate(&cube.size),
                color: outline_color(),
            });
        },
    }
    proof {
        assert(ops@ =~= draw_ops_of(*cmd));
    }
    ops
}

/// Every drawable drained from a buffer of valid drawables is itself valid.
pub proof fn lemma_visible_drawables_valid(
    entries: Seq<(RenderCommand, RenderMask)>,
    player_id: u32,
)
    requires
        forall|j: int| 0 <= j < entries.len() ==> valid_command(#[trigger] entries[j].0),
    ensures
        forall|i: int|
            0 <= i < visible_drawables(entries, player_id).len() ==> valid_command(
                #[trigger] visible_drawables(entries, player_id)[i],
            ),
    decreases entries.len(),
{
    if entries.len() > 0 {
        assert(forall|j: int|
            0 <= j < entries.drop_last().len() ==> valid_command(
                #[trigger] entries.drop_last()[j].0,
            ));
        lemma_visible_drawables_valid(entries.drop_last(), player_id);
        assert(valid_command(entries.last().0));
        let rest = visible_drawables(entries.drop_last(), player_id);
        let whole = visible_drawables(entries, player_id);
        assert forall|i: int| 0 <= i < whole.len() implies valid_command(#[trigger] whole[i]) by {
            if spec_visible_to(entries.last().1, player_id) {
                assert(whole == rest.push(entries.last().0));
                if i < rest.len() {
                    assert(whole[i] == rest[i]);
                } else {
                    assert(whole[i] == entries.last().0);
                }
            } else {
                assert(whole == rest);
            }
        }
    }
}

/// One player's off-screen color target: half the screen wide, full screen
/// high, allocated once at session start.
#[derive(Clone, Copy, PartialEq, Eq, Structural, Debug)]
pub struct RenderTarget {
    pub width: u32,
    pub height: u32,
}

/// One player's slice of the render state: the pose snapshot and the
/// off-screen target it is rendered into.
#[derive(Clone, Copy, PartialEq, Eq, Structural, Debug)]
pub struct PlayerRenderState {
    pub player: PlayerCameraState,
    pub target: RenderTarget,
}

/// The error of a render pass request.
#[derive(Clone, Copy, PartialEq, Eq, Structural, Debug)]
pub enum RenderError {
    /// The requested player identity is outside the two live players; the
    /// pass is skipped as a no-op.
    UnknownPlayer(u32),
}

/// The session-wide render state: exactly two players, each with a camera
/// state and an off-screen target, plus the session's fixed projection
/// constants and background color.
#[derive(Clone, Copy, Debug)]
pub struct RenderState {
    pub players: [PlayerRenderState; 2],
    pub builder: CameraTransformBuilder,
    pub background: Rgba,
    pub fb_width: u32,
}

impl RenderState {
    /// Creates the state for a two-player session: both targets are sized
    /// to half the screen width and the full screen height.
    pub fn new(
        screen_width: u32,
        screen_height: u32,
        background: Rgba,
        players: [PlayerCameraState; 2],
    ) -> (r: Self)
        ensures
            r.players@[0].player == players@[0],
            r.players@[1].player == players@[1],
            r.players@[0].target == (RenderTarget {
                width: screen_width / 2,
                height: screen_height,
            }),
            r.players@[1].target == (RenderTarget {
                width: screen_width / 2,
                height: screen_height,
            }),
            r.builder == (CameraTransformBuilder {
                viewport_width: screen_width / 2,
                viewport_height: screen_height,
            }),
            r.background == background,
            r.fb_width == screen_width / 2,
    {
        let target = RenderTarget { width: screen_width / 2, height: screen_height };
        RenderState {
            players: [
                PlayerRenderState { player: players[0], target },
                PlayerRenderState { player: players[1], target },
            ],
            builder: CameraTransformBuilder::new(screen_width, screen_height),
            background,
            fb_width: screen_width / 2,
        }
    }

    /// The camera transform a pass for `player_id` installs.
    pub open spec fn camera_for(self, player_id: u32) -> CameraTransform {
        self.builder.spec_transform(self.players@[player_id as int].player)
    }

    /// The fixed prefix of a pass's operation stream: bind and clear the
    /// target, draw the overlay, then save and install the matrices.
    pub open spec fn pass_prologue(self, player_id: u32) -> Seq<BackendOp> {
        seq![
            BackendOp::BindTarget { player_id },
            BackendOp::ClearTarget { color: self.background },
            BackendOp::UiOverlay,
            BackendOp::PushMatrices,
            BackendOp::SetProjection { projection: self.camera_for(player_id).projection },
            BackendOp::SetModelview { view: self.camera_for(player_id).view },
        ]
    }

    /// The fixed suffix of a pass's operation stream: restore the saved
    /// matrices — unconditionally, even for an empty drawable sequence —
    /// then unbind the target.
    pub open spec fn pass_epilogue(self) -> Seq<BackendOp> {
        seq![BackendOp::PopMatrices, BackendOp::UnbindTarget]
    }

    /// The full operation stream of one pass over the given drawables.
    pub open spec fn pass_ops(self, player_id: u32, cmds: Seq<RenderCommand>) -> Seq<BackendOp> {
        self.pass_prologue(player_id) + draw_ops_seq(cmds) + self.pass_epilogue()
    }

    /// The compositor's operation stream: target 0 at the left half of the
    /// screen, target 1 at the right half, both at native resolution.
    pub open spec fn composite_ops(self) -> Seq<BackendOp> {
        seq![
            BackendOp::BlitTarget { player_id: 0, x: 0, y: 0 },
            BackendOp::BlitTarget { player_id: 1, x: self.fb_width, y: 0 },
        ]
    }

    /// Runs one player's full render pass over the buffer, emitting the
    /// pass's operation stream. A request for a player outside the two live
    /// players is reported and skipped: no operation is emitted and nothing
    /// is modified.
    pub fn begin_player_pass(&self, buffer: &CommandBuffer, player_id: u32) -> (r: Result<
        Vec<BackendOp>,
        RenderError,
    >)
        requires
            buffer.inv(),
        ensures
            player_id < 2 ==> (r matches Ok(ops) && ops@ == self.pass_ops(
                player_id,
                visible_drawables(buffer@, player_id),
            )),
            player_id >= 2 ==> r == Err::<Vec<BackendOp>, RenderError>(
                RenderError::UnknownPlayer(player_id),
            ),
    {
        if player_id >= 2 {
            return Err(RenderError::UnknownPlayer(player_id));
        }
        let idx = player_id as usize;
        let camera = self.builder.build(&self.players[idx].player);
        let mut ops: Vec<BackendOp> = Vec::new();
        ops.push(BackendOp::BindTarget { player_id });
        ops.push(BackendOp::ClearTarget { color: self.background });
        ops.push(BackendOp::UiOverlay);
        ops.push(BackendOp::PushMatrices);
        ops.push(BackendOp::SetProjection { projection: camera.projection });
        ops.push(BackendOp::SetModelview { view: camera.view });
        proof {
            assert(ops@ =~= self.pass_prologue(player_id));
        }
        let drawables = buffer.drain_for(player_id);
        proof {
            lemma_visible_drawables_valid(buffer@, player_id);
        }
        let ghost prologue = self.pass_prologue(player_id);
        let mut k: usize = 0;
        while k < drawables.len()
            invariant
                k <= drawables.len(),
                ops@ == prologue + draw_ops_seq(drawables@.take(k as int)),
                forall|i: int|
                    0 <= i < drawables@.len() ==> valid_command(#[trigger] drawables@[i]),
            decreases drawables.len() - k,
        {
            let mut cube_ops = draw_command(&drawables[k]);
            ops.append(&mut cube_ops);
            proof {
                assert(drawables@.take(k + 1int).drop_last() =~= drawables@.take(k as int));
                lemma_draw_ops_seq_push(drawables@.take(k as int), drawables@[k as int]);
                assert(drawables@.take(k + 1int) =~= drawables@.take(k as int).push(
                    drawables@[k as int],
                ));
            }
            k = k + 1;
        }
        ops.push(BackendOp::PopMatrices);
        ops.push(BackendOp::UnbindTarget);
        proof {
            assert(drawables@.take(drawables@.len() as int) =~= drawables@);
            assert(ops@ =~= self.pass_ops(player_id, visible_drawables(buffer@, player_id)));
        }
        Ok(ops)
    }

    /// Emits the compositor's operation stream. Runs strictly after both
    /// passes have completed, once their matrix stacks are fully unwound.
    pub fn composite(&self) -> (ops: Vec<BackendOp>)
        ensures
            ops@ == self.composite_ops(),
    {
        let mut ops: Vec<BackendOp> = Vec::new();
        ops.push(BackendOp::BlitTarget { player_id: 0, x: 0, y: 0 });
        ops.push(BackendOp::BlitTarget { player_id: 1, x: self.fb_width, y: 0 });
        proof {
            assert(ops@ =~= self.composite_ops());
        }
        ops
    }

    /// The operation stream of one whole frame: player 0's pass, then
    /// player 1's pass — never interleaved — then the composite.
    pub open spec fn frame_ops(self, entries: Seq<(RenderCommand, RenderMask)>)
        -> Seq<BackendOp> {
        self.pass_ops(0, visible_drawables(entries, 0)) + self.pass_ops(
            1,
            visible_drawables(entries, 1),
        ) + self.composite_ops()
    }

    /// Renders one whole frame: both viewport passes in player order, each
    /// completed before the next begins, then the composite.
    pub fn render_frame(&self, buffer: &CommandBuffer) -> (ops: Vec<BackendOp>)
        requires
            buffer.inv(),
        ensures
            ops@ == self.frame_ops(buffer@),
    {
        let mut ops = match self.begin_player_pass(buffer, 0) {
            Ok(ops) => ops,
            Err(_) => unreached(),
        };
        let mut pass1 = match self.begin_player_pass(buffer, 1) {
            Ok(ops) => ops,
            Err(_) => unreached(),
        };
        ops.append(&mut pass1);
        let mut blits = self.composite();
        ops.append(&mut blits);
        ops
    }
}

} // verus!
