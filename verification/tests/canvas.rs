use lib::geometry::Rect;
use lib::host::{Clips, Renderer};
use lib::testing::{DrawOp, TestHost};

/// Every clip the host was given, in order: `None` for a lifted clip.
fn clips(host: &TestHost) -> Vec<Option<Rect>> {
    host.ops()
        .iter()
        .filter_map(|op| match op {
            DrawOp::Clip(rect) => Some(*rect),
            _ => None,
        })
        .collect()
}

#[test]
fn an_inner_clip_stays_inside_the_outer_and_gives_it_back() {
    let mut host = TestHost::new();
    let mut stack = Clips::new();
    let outer = Rect::new(0, 60, 480, 700);

    Renderer::clip(&mut host, &mut stack, outer);
    Renderer::clip(&mut host, &mut stack, Rect::new(16, 40, 200, 100));
    Renderer::clear_clip(&mut host, &mut stack);
    Renderer::clear_clip(&mut host, &mut stack);

    assert_eq!(
        clips(&host),
        [Some(outer), Some(Rect::new(16, 60, 200, 80)), Some(outer), None],
        "clearing the inner clip must restore the outer, not lift both"
    );
}

#[test]
fn a_clip_outside_the_outer_confines_to_nothing() {
    let mut host = TestHost::new();
    let mut stack = Clips::new();
    Renderer::clip(&mut host, &mut stack, Rect::new(0, 0, 100, 100));
    Renderer::clip(&mut host, &mut stack, Rect::new(200, 200, 50, 50));
    Renderer::clear_clip(&mut host, &mut stack);
    Renderer::clear_clip(&mut host, &mut stack);

    let inner = clips(&host)[1].expect("a clip, not a lift");
    assert_eq!((inner.width(), inner.height()), (0, 0));
}

#[test]
fn a_clip_past_the_depth_stays_inside_the_deepest_remembered() {
    let mut host = TestHost::new();
    let mut stack = Clips::new();
    let nested = |level: i32| Rect::new(level, level, 100 - 2 * level, 100 - 2 * level);
    for level in 0..10 {
        Renderer::clip(&mut host, &mut stack, nested(level));
    }
    for _ in 0..10 {
        Renderer::clear_clip(&mut host, &mut stack);
    }

    let clips = clips(&host);
    assert_eq!(&clips[..10], (0..10).map(|l| Some(nested(l))).collect::<Vec<_>>());
    assert_eq!(
        clips[10],
        Some(nested(7)),
        "clearing the tenth restores the eighth: the ninth was never remembered"
    );
    assert_eq!(clips[11], Some(nested(7)), "clearing the ninth, the eighth");
    assert_eq!(clips[12], Some(nested(6)), "and below it, the stack is exact");
    assert_eq!(clips[19], None);
}

#[test]
fn an_unmatched_clear_lifts_the_clip_and_is_forgotten() {
    let mut host = TestHost::new();
    let mut stack = Clips::new();
    let rect = Rect::new(0, 0, 50, 50);
    Renderer::clear_clip(&mut host, &mut stack);
    Renderer::clip(&mut host, &mut stack, rect);
    Renderer::clear_clip(&mut host, &mut stack);
    assert_eq!(clips(&host), [None, Some(rect), None]);
}
