//! The render-pass state machine and the matrix-stack discipline.
//!
//! The two viewport passes share one global pipeline matrix stack, so their
//! operation streams must observe a strict discipline: target-bind before
//! matrix-push, matrix-pop before target-unbind, one pass fully completed
//! before the next begins. This module states that discipline as a state
//! machine over backend operations and proves that every stream the library
//! emits observes it, and that each pass pushes and pops the matrix stack in
//! balance.

use vstd::prelude::*;

use crate::command::{visible_drawables, RenderCommand, RenderMask};
use crate::pass::{draw_ops_of, draw_ops_seq, BackendOp, RenderState};

verus! {

/// The per-pass pipeline states. Unbinding the target completes the pass
/// and returns the machine to `Idle`.
#[derive(Clone, Copy, PartialEq, Eq, Structural, Debug)]
pub enum PassState {
    /// No target bound, no matrices pushed; composites may run.
    Idle,
    /// A player's off-screen target is the draw destination.
    TargetBound,
    /// The previous matrices are saved and the pass's camera is installed.
    MatricesPushed,
    /// At least one drawable has been issued under the installed camera.
    Drawing,
    /// The saved matrices are restored; only unbinding remains.
    MatricesPopped,
}

/// The transition relation of the pipeline: the state after performing `op`
/// in state `s`, or `None` if the discipline forbids `op` there.
pub open spec fn pass_step(s: PassState, op: BackendOp) -> Option<PassState> {
    match (s, op) {
        (PassState::Idle, BackendOp::BindTarget { .. }) => Some(PassState::TargetBound),
        (PassState::Idle, BackendOp::BlitTarget { .. }) => Some(PassState::Idle),
        (PassState::TargetBound, BackendOp::ClearTarget { .. }) => Some(PassState::TargetBound),
        (PassState::TargetBound, BackendOp::UiOverlay) => Some(PassState::TargetBound),
        (PassState::TargetBound, BackendOp::PushMatrices) => Some(PassState::MatricesPushed),
        (PassState::MatricesPushed, BackendOp::SetProjection { .. }) => Some(
            PassState::MatricesPushed,
        ),
        (PassState::MatricesPushed, BackendOp::SetModelview { .. }) => Some(
            PassState::MatricesPushed,
        ),
        (PassState::MatricesPushed, BackendOp::DrawCube { .. }) => Some(PassState::Drawing),
        (PassState::MatricesPushed, BackendOp::DrawCubeWires { .. }) => Some(PassState::Drawing),
        (PassState::Drawing, BackendOp::DrawCube { .. }) => Some(PassState::Drawing),
        (PassState::Drawing, BackendOp::DrawCubeWires { .. }) => Some(PassState::Drawing),
        (PassState::MatricesPushed, BackendOp::PopMatrices) => Some(PassState::MatricesPopped),
        (PassState::Drawing, BackendOp::PopMatrices) => Some(PassState::MatricesPopped),
        (PassState::MatricesPopped, BackendOp::UnbindTarget) => Some(PassState::Idle),
        _ => None,
    }
}

/// Runs a whole operation stream through the state machine: the final state,
/// or `None` if some operation breaks the discipline.
pub open spec fn run_ops(s: PassState, ops: Seq<BackendOp>) -> Option<PassState>
    decreases ops.len(),
{
    if ops.len() == 0 {
        Some(s)
    } else {
        match pass_step(s, ops[0]) {
            Some(next) => run_ops(next, ops.drop_first()),
            None => None,
        }
    }
}

/// Running a concatenated stream runs its parts in order.
pub proof fn lemma_run_ops_add(s: PassState, a: Seq<BackendOp>, b: Seq<BackendOp>)
    ensures
        run_ops(s, a + b) == match run_ops(s, a) {
            Some(mid) => run_ops(mid, b),
            None => None::<PassState>,
        },
    decreases a.len(),
{
    if a.len() == 0 {
        assert(a + b =~= b);
    } else {
        assert((a + b)[0] == a[0]);
        match pass_step(s, a[0]) {
            Some(next) => {
                assert((a + b).drop_first() =~= a.drop_first() + b);
                lemma_run_ops_add(next, a.drop_first(), b);
            },
            None => {},
        }
    }
}

/// The number of matrix-stack saves in a stream.
pub open spec fn push_count(ops: Seq<BackendOp>) -> nat
    decreases ops.len(),
{
    if ops.len() == 0 {
        0
    } else {
        push_count(ops.drop_last()) + if ops.last() is PushMatrices {
            1nat
        } else {
            0nat
        }
    }
}

/// The number of matrix-stack restores in a stream.
pub open spec fn pop_count(ops: Seq<BackendOp>) -> nat
    decreases ops.len(),
{
    if ops.len() == 0 {
        0
    } else {
        pop_count(ops.drop_last()) + if ops.last() is PopMatrices {
            1nat
        } else {
            0nat
        }
    }
}

/// Save and restore counts add over concatenation — so balance of each pass
/// gives balance of any sequence of passes.
pub proof fn lemma_counts_add(a: Seq<BackendOp>, b: Seq<BackendOp>)
    ensures
        push_count(a + b) == push_count(a) + push_count(b),
        pop_count(a + b) == pop_count(a) + pop_count(b),
    decreases b.len(),
{
    if b.len() == 0 {
        assert(a + b =~= a);
    } else {
        lemma_counts_add(a, b.drop_last());
        assert((a + b).drop_last() =~= a + b.drop_last());
        assert((a + b).last() == b.last());
    }
}

/// Draw operations never touch the matrix stack.
pub proof fn lemma_draw_ops_counts(cmds: Seq<RenderCommand>)
    ensures
        push_count(draw_ops_seq(cmds)) == 0,
        pop_count(draw_ops_seq(cmds)) == 0,
    decreases cmds.len(),
{
    if cmds.len() == 0 {
    } else {
        lemma_draw_ops_counts(cmds.drop_last());
        lemma_counts_add(draw_ops_seq(cmds.drop_last()), draw_ops_of(cmds.last()));
        let tail = draw_ops_of(cmds.last());
        reveal_with_fuel(push_count, 3);
        reveal_with_fuel(pop_count, 3);
        match cmds.last() {
            RenderCommand::Solid { .. } => {
                assert(push_count(tail) == 0);
                assert(pop_count(tail) == 0);
            },
            RenderCommand::SolidWithOutline { .. } => {
                assert(tail.drop_last().drop_last() =~= Seq::<BackendOp>::empty());
                assert(push_count(tail) == 0);
                assert(pop_count(tail) == 0);
            },
        }
    }
}

/// Law: the save in a pass's prologue and the restore in its epilogue are a
/// strictly paired, unique push/pop pair — the net matrix-stack depth after
/// any `begin_player_pass` stream returns to its pre-pass depth.
pub proof fn lemma_pass_stack_balanced(
    state: RenderState,
    player_id: u32,
    cmds: Seq<RenderCommand>,
)
    ensures
        push_count(state.pass_ops(player_id, cmds)) == 1,
        pop_count(state.pass_ops(player_id, cmds)) == 1,
{
    let prologue = state.pass_prologue(player_id);
    let epilogue = state.pass_epilogue();
    reveal_with_fuel(push_count, 8);
    reveal_with_fuel(pop_count, 8);
    assert(push_count(prologue) == 1 && pop_count(prologue) == 0) by {
        assert(prologue.drop_last().drop_last().drop_last().drop_last().drop_last().drop_last()
            =~= Seq::<BackendOp>::empty());
    }
    assert(push_count(epilogue) == 0 && pop_count(epilogue) == 1) by {
        assert(epilogue.drop_last().drop_last() =~= Seq::<BackendOp>::empty());
    }
    lemma_draw_ops_counts(cmds);
    lemma_counts_add(prologue, draw_ops_seq(cmds));
    lemma_counts_add(prologue + draw_ops_seq(cmds), epilogue);
}

/// Replaying any drawable sequence keeps the machine under the installed
/// camera: it stays in `MatricesPushed` when there is nothing to draw and
/// ends in `Drawing` otherwise.
pub proof fn lemma_draw_ops_run(s: PassState, cmds: Seq<RenderCommand>)
    requires
        s == PassState::MatricesPushed || s == PassState::Drawing,
    ensures
        run_ops(s, draw_ops_seq(cmds)) == Some(
            if cmds.len() == 0 {
                s
            } else {
                PassState::Drawing
            },
        ),
    decreases cmds.len(),
{
    if cmds.len() == 0 {
    } else {
        lemma_draw_ops_run(s, cmds.drop_last());
        lemma_run_ops_add(s, draw_ops_seq(cmds.drop_last()), draw_ops_of(cmds.last()));
        let mid = if cmds.drop_last().len() == 0 {
            s
        } else {
            PassState::Drawing
        };
        reveal_with_fuel(run_ops, 3);
        match cmds.last() {
            RenderCommand::Solid { .. } => {
                assert(run_ops(mid, draw_ops_of(cmds.last())) == Some(PassState::Drawing));
            },
            RenderCommand::SolidWithOutline { .. } => {
                let tail = draw_ops_of(cmds.last());
                assert(tail.drop_first().drop_first() =~= Seq::<BackendOp>::empty());
                assert(run_ops(mid, tail) == Some(PassState::Drawing));
            },
        }
    }
}

/// Law: every pass stream the library emits observes the pipeline
/// discipline and drives the machine from `Idle` back to `Idle` — the
/// target is bound before the push, the pop precedes the unbind, and the
/// pop happens even when the drawable sequence is empty.
pub proof fn lemma_pass_ops_well_formed(
    state: RenderState,
    player_id: u32,
    cmds: Seq<RenderCommand>,
)
    ensures
        run_ops(PassState::Idle, state.pass_ops(player_id, cmds)) == Some(PassState::Idle),
{
    let prologue = state.pass_prologue(player_id);
    let epilogue = state.pass_epilogue();
    reveal_with_fuel(run_ops, 8);
    assert(run_ops(PassState::Idle, prologue) == Some(PassState::MatricesPushed)) by {
        assert(prologue.drop_first().drop_first().drop_first().drop_first().drop_first()
            .drop_first() =~= Seq::<BackendOp>::empty());
    }
    lemma_draw_ops_run(PassState::MatricesPushed, cmds);
    let after_draws = if cmds.len() == 0 {
        PassState::MatricesPushed
    } else {
        PassState::Drawing
    };
    assert(run_ops(after_draws, epilogue) == Some(PassState::Idle)) by {
        assert(epilogue.drop_first().drop_first() =~= Seq::<BackendOp>::empty());
    }
    lemma_run_ops_add(PassState::Idle, prologue, draw_ops_seq(cmds));
    lemma_run_ops_add(PassState::MatricesPushed, prologue + draw_ops_seq(cmds), epilogue);
    assert(run_ops(PassState::Idle, prologue + draw_ops_seq(cmds)) == Some(after_draws));
    lemma_run_ops_add(PassState::Idle, prologue + draw_ops_seq(cmds), epilogue);
}

/// Law: a whole frame — both passes in order, then the composite — observes
/// the discipline, returns the machine to `Idle`, and saves and restores the
/// matrix stack exactly once per pass.
pub proof fn lemma_frame_ops_well_formed(
    state: RenderState,
    entries: Seq<(RenderCommand, RenderMask)>,
)
    ensures
        run_ops(PassState::Idle, state.frame_ops(entries)) == Some(PassState::Idle),
        push_count(state.frame_ops(entries)) == 2,
        pop_count(state.frame_ops(entries)) == 2,
{
    let pass0 = state.pass_ops(0, visible_drawables(entries, 0));
    let pass1 = state.pass_ops(1, visible_drawables(entries, 1));
    let blits = state.composite_ops();
    lemma_pass_ops_well_formed(state, 0, visible_drawables(entries, 0));
    lemma_pass_ops_well_formed(state, 1, visible_drawables(entries, 1));
    reveal_with_fuel(run_ops, 4);
    reveal_with_fuel(push_count, 4);
    reveal_with_fuel(pop_count, 4);
    assert(run_ops(PassState::Idle, blits) == Some(PassState::Idle)) by {
        assert(blits.drop_first().drop_first() =~= Seq::<BackendOp>::empty());
    }
    assert(push_count(blits) == 0 && pop_count(blits) == 0) by {
        assert(blits.drop_last().drop_last() =~= Seq::<BackendOp>::empty());
    }
    lemma_run_ops_add(PassState::Idle, pass0, pass1);
    lemma_run_ops_add(PassState::Idle, pass0 + pass1, blits);
    lemma_pass_stack_balanced(state, 0, visible_drawables(entries, 0));
    lemma_pass_stack_balanced(state, 1, visible_drawables(entries, 1));
    lemma_counts_add(pass0, pass1);
    lemma_counts_add(pass0 + pass1, blits);
}

} // verus!
