use polyfps::command::{CommandBuffer, Cube, RenderCommand, RenderMask};
use polyfps::command::visible_to;
use polyfps::geometry::{Rgba, Vec3};

fn cube(r: u8) -> Cube {
    Cube { color: Rgba { r, g: 0, b: 0, a: 255 }, size: Vec3 { x: 1000, y: 1000, z: 1000 } }
}

fn solid(r: u8) -> RenderCommand {
    RenderCommand::Solid { position: Vec3 { x: 0, y: 0, z: 0 }, cube: cube(r) }
}

#[test]
fn record_preserves_order_and_filters() {
    let a = solid(1);
    let b = solid(2);
    let c = solid(3);
    let d = solid(4);
    let mut buf = CommandBuffer::new();
    buf.record(a, RenderMask::Always);
    buf.record(b, RenderMask::ExcludeFor(0));
    buf.record(c, RenderMask::OnlyFor(0));
    buf.record(d, RenderMask::Always);
    assert_eq!(buf.len(), 4);
    assert_eq!(buf.drain_for(0), vec![a, c, d]);
    assert_eq!(buf.drain_for(1), vec![a, b, d]);
    // replay is restartable: a second drain within the frame sees the same
    assert_eq!(buf.drain_for(0), vec![a, c, d]);
    assert_eq!(buf.len(), 4);
}

#[test]
fn exclude_and_only_are_complements() {
    for player_id in [0u32, 1, 2, 5] {
        for x in [0u32, 1, 5] {
            let excl = visible_to(&RenderMask::ExcludeFor(x), player_id);
            let only = visible_to(&RenderMask::OnlyFor(x), player_id);
            assert_ne!(excl, only);
        }
    }
    // a drawable visible to "all but player 0" is invisible specifically to 0
    assert!(!visible_to(&RenderMask::ExcludeFor(0), 0));
    assert!(visible_to(&RenderMask::ExcludeFor(0), 1));
}

#[test]
fn clear_then_drain_is_empty() {
    let mut buf = CommandBuffer::new();
    buf.record(solid(1), RenderMask::Always);
    buf.record(solid(2), RenderMask::OnlyFor(1));
    buf.clear();
    assert_eq!(buf.len(), 0);
    assert_eq!(buf.drain_for(0), vec![]);
    assert_eq!(buf.drain_for(1), vec![]);
    assert_eq!(buf.drain_for(7), vec![]);
}

#[test]
fn empty_buffer_drains_empty() {
    let buf = CommandBuffer::new();
    assert_eq!(buf.drain_for(0), vec![]);
    assert_eq!(buf.drain_for(1), vec![]);
}

#[test]
fn solid_with_always_visible_to_both() {
    let a = solid(9);
    let mut buf = CommandBuffer::new();
    buf.record(a, RenderMask::Always);
    assert_eq!(buf.drain_for(0), vec![a]);
    assert_eq!(buf.drain_for(1), vec![a]);
}

#[test]
fn outlined_drawable_hidden_from_excluded_player() {
    let a = RenderCommand::SolidWithOutline {
        position: Vec3 { x: 500, y: 0, z: 500 },
        cube: cube(7),
    };
    let mut buf = CommandBuffer::new();
    buf.record(a, RenderMask::ExcludeFor(1));
    assert_eq!(buf.drain_for(0), vec![a]);
    assert_eq!(buf.drain_for(1), vec![]);
}

#[test]
fn always_is_the_default_rule() {
    assert_eq!(RenderMask::default(), RenderMask::Always);
}
