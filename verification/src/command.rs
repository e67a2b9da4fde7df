//! The per-frame command buffer and the visibility rule evaluator.
//!
//! Upstream simulation systems record `(drawable, rule)` pairs once per
//! frame; each of the two viewport passes replays the buffer filtered by its
//! player's identity, and the buffer is cleared at end of frame.

use vstd::prelude::*;

use crate::geometry::{valid_extent, Rgba, Vec3};

verus! {

/// A cube drawable payload: extent and fill color.
#[derive(Clone, Copy, PartialEq, Eq, Structural, Debug)]
pub struct Cube {
    pub color: Rgba,
    pub size: Vec3,
}

/// A buffered drawable: a filled cube, optionally with a slightly larger
/// wireframe outline in the fixed outline color.
#[derive(Clone, Copy, PartialEq, Eq, Structural, Debug)]
pub enum RenderCommand {
    Solid { position: Vec3, cube: Cube },
    SolidWithOutline { position: Vec3, cube: Cube },
}

/// A visibility rule attached to each buffered drawable.
#[derive(Clone, Copy, PartialEq, Eq, Structural, Debug, Default)]
pub enum RenderMask {
    /// Visible only to the given player.
    OnlyFor(u32),
    /// Hidden from the given player, visible to every other.
    ExcludeFor(u32),
    /// Visible to every player.
    #[default]
    Always,
}

/// A drawable's extent admits the outline inflation without overflow.
pub open spec fn valid_command(cmd: RenderCommand) -> bool {
    match cmd {
        RenderCommand::Solid { cube, .. } => valid_extent(cube.size),
        RenderCommand::SolidWithOutline { cube, .. } => valid_extent(cube.size),
    }
}

/// Whether a rule lets the given player see the drawable it is attached to.
pub open spec fn spec_visible_to(mask: RenderMask, player_id: u32) -> bool {
    match mask {
        RenderMask::OnlyFor(x) => player_id == x,
        RenderMask::ExcludeFor(x) => player_id != x,
        RenderMask::Always => true,
    }
}

/// The visibility rule evaluator: decides, for one viewer identity, whether
/// a buffered drawable is visible.
pub fn visible_to(mask: &RenderMask, player_id: u32) -> (r: bool)
    ensures
        r == spec_visible_to(*mask, player_id),
{
    match mask {
        RenderMask::OnlyFor(x) => player_id == *x,
        RenderMask::ExcludeFor(x) => player_id != *x,
        RenderMask::Always => true,
    }
}

/// Law: `ExcludeFor(x)` and `OnlyFor(x)` are complements — for every viewer,
/// exactly one of the two rules admits the drawable.
pub proof fn lemma_exclude_only_complement(x: u32, player_id: u32)
    ensures
        spec_visible_to(RenderMask::ExcludeFor(x), player_id) == !spec_visible_to(
            RenderMask::OnlyFor(x),
            player_id,
        ),
{
}

/// The entries of `entries` whose rule admits `player_id`, in insertion
/// order, stripped of their rules.
pub open spec fn visible_drawables(
    entries: Seq<(RenderCommand, RenderMask)>,
    player_id: u32,
) -> Seq<RenderCommand>
    decreases entries.len(),
{
    if entries.len() == 0 {
        Seq::empty()
    } else {
        let rest = visible_drawables(entries.drop_last(), player_id);
        if spec_visible_to(entries.last().1, player_id) {
            rest.push(entries.last().0)
        } else {
            rest
        }
    }
}

/// Law: draining an empty buffer yields an empty sequence, for any player —
/// in particular right after `clear()`.
pub proof fn lemma_empty_buffer_drains_empty(player_id: u32)
    ensures
        visible_drawables(Seq::<(RenderCommand, RenderMask)>::empty(), player_id)
            == Seq::<RenderCommand>::empty(),
{
}

/// Law: the filtered sequence is the buffer filtered to the entries whose
/// rule admits the player, in insertion order, stripped of the rules.
pub proof fn lemma_visible_drawables_is_ordered_filter(
    entries: Seq<(RenderCommand, RenderMask)>,
    player_id: u32,
)
    ensures
        visible_drawables(entries, player_id) == entries.filter(
            |e: (RenderCommand, RenderMask)| spec_visible_to(e.1, player_id),
        ).map_values(|e: (RenderCommand, RenderMask)| e.0),
    decreases entries.len(),
{
    let pred = |e: (RenderCommand, RenderMask)| spec_visible_to(e.1, player_id);
    let strip = |e: (RenderCommand, RenderMask)| e.0;
    reveal(Seq::filter);
    if entries.len() == 0 {
        assert(entries.filter(pred).map_values(strip) =~= Seq::<RenderCommand>::empty());
    } else {
        lemma_visible_drawables_is_ordered_filter(entries.drop_last(), player_id);
        if pred(entries.last()) {
            assert(entries.filter(pred).map_values(strip) =~= entries.drop_last().filter(
                pred,
            ).map_values(strip).push(entries.last().0));
        } else {
            assert(entries.filter(pred).map_values(strip) =~= entries.drop_last().filter(
                pred,
            ).map_values(strip));
        }
    }
}

/// The ordered per-frame command buffer.
///
/// Append-only during a frame, replayed (never mutated) by each viewport
/// pass, and cleared at end of frame; clearing keeps the allocated capacity
/// for the next frame.
#[derive(Debug)]
pub struct CommandBuffer {
    commands: Vec<(RenderCommand, RenderMask)>,
}

impl View for CommandBuffer {
    type V = Seq<(RenderCommand, RenderMask)>;

    closed spec fn view(&self) -> Seq<(RenderCommand, RenderMask)> {
        self.commands@
    }
}

impl CommandBuffer {
    /// Every buffered drawable admits the outline inflation.
    pub open spec fn inv(&self) -> bool {
        forall|i: int| 0 <= i < self@.len() ==> valid_command(#[trigger] self@[i].0)
    }

    /// Creates an empty buffer.
    pub fn new() -> (r: Self)
        ensures
            r@ == Seq::<(RenderCommand, RenderMask)>::empty(),
            r.inv(),
    {
        CommandBuffer { commands: Vec::new() }
    }

    /// The number of buffered entries.
    pub fn len(&self) -> (n: usize)
        ensures
            n == self@.len(),
    {
        self.commands.len()
    }

    /// Appends one drawable with its visibility rule.
    pub fn record(&mut self, command: RenderCommand, mask: RenderMask)
        requires
            old(self).inv(),
            valid_command(command),
        ensures
            final(self)@ == old(self)@.push((command, mask)),
            final(self).inv(),
    {
        self.commands.push((command, mask));
        proof {
            assert forall|i: int| 0 <= i < self@.len() implies valid_command(
                #[trigger] self@[i].0,
            ) by {
                if i < old(self)@.len() {
                    assert(self@[i] == old(self)@[i]);
                } else {
                    assert(self@[i] == (command, mask));
                }
            }
        }
    }

    /// Replays the buffer for one player: the drawables whose rule admits
    /// `player_id`, in insertion order. The buffer itself is not changed.
    pub fn drain_for(&self, player_id: u32) -> (r: Vec<RenderCommand>)
        ensures
            r@ == visible_drawables(self@, player_id),
    {
        let mut out: Vec<RenderCommand> = Vec::new();
        let mut i: usize = 0;
        while i < self.commands.len()
            invariant
                i <= self.commands.len(),
                out@ == visible_drawables(self@.take(i as int), player_id),
            decreases self.commands.len() - i,
        {
            let (command, mask) = self.commands[i];
            proof {
                assert(self@.take(i + 1int).drop_last() =~= self@.take(i as int));
                assert(self@.take(i + 1int).last() == self@[i as int]);
            }
            if visible_to(&mask, player_id) {
                out.push(command);
            }
            i = i + 1;
        }
        proof {
            assert(self@.take(self@.len() as int) =~= self@);
        }
        out
    }

    /// Empties the buffer for the next frame, keeping its capacity.
    pub fn clear(&mut self)
        ensures
            final(self)@ == Seq::<(RenderCommand, RenderMask)>::empty(),
            final(self).inv(),
    {
        self.commands.clear();
    }
}

} // verus!
