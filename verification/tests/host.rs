use lib::geometry::{Point, Rect};
use lib::host::{Button, Canvas, Chrome, Clock, InputSource, SwipeDir};
use lib::host::{ControlState, FontId, FontStyle, Hint, ListRowText};
use lib::testing::{render, DrawOp, RectKind, Recorder, TestHost};

#[test]
fn a_press_reads_the_same_until_the_frame_ends() {
    let mut host = TestHost::new();
    host.press(Button::Down);
    assert!(host.was_pressed(Button::Down));
    assert!(
        host.was_pressed(Button::Down),
        "reading an edge twice in one frame must not consume it"
    );
    assert!(!host.was_pressed(Button::Up));

    host.next_frame();
    assert!(!host.was_pressed(Button::Down), "an edge lasts one frame");
}

#[test]
fn a_swipe_reads_the_same_until_the_frame_ends() {
    let mut host = TestHost::new();
    host.set_swipe(SwipeDir::Up);
    assert_eq!(host.swipe(), SwipeDir::Up);
    assert_eq!(host.swipe(), SwipeDir::Up, "not consumed by reading");

    host.next_frame();
    assert_eq!(host.swipe(), SwipeDir::NoSwipe);
}

#[test]
fn a_write_after_a_read_starts_the_next_frame() {
    let mut host = TestHost::new();
    host.hold(Button::Up);
    assert!(host.was_pressed(Button::Up));

    host.set_millis(500);
    assert!(!host.was_pressed(Button::Up), "the edge was last frame's");
    assert!(host.is_pressed(Button::Up), "and the level is still down");

    // Two writes before any read describe one frame together.
    host.press(Button::Confirm);
    host.set_swipe(SwipeDir::Left);
    assert!(host.was_pressed(Button::Confirm));
    assert_eq!(host.swipe(), SwipeDir::Left);

    host.release();
    assert!(!host.was_pressed(Button::Confirm));
    assert!(!host.is_pressed(Button::Up));
    host.set_millis(0);
    assert_eq!(host.millis(), 0);
}

#[test]
fn the_fake_records_a_dither_with_its_shade() {
    let mut host = TestHost::new();
    host.fill_rect_dither(Rect::new(0, 0, 10, 10), true);
    host.fill_rect_dither(Rect::new(10, 0, 10, 10), false);
    let ops = host.ops();
    assert_eq!(ops.len(), 2);
    assert_eq!(
        ops[0],
        DrawOp::Rect { rect: Rect::new(0, 0, 10, 10), kind: RectKind::Dither, black: true }
    );
    assert_eq!(
        ops[1],
        DrawOp::Rect { rect: Rect::new(10, 0, 10, 10), kind: RectKind::Dither, black: false }
    );
}

#[test]
fn the_fake_counts_repaint_requests() {
    let mut host = TestHost::new();
    host.request_update();
    host.request_update();
    assert_eq!(host.updates(), 2);
    host.clear_ops();
    assert_eq!(host.updates(), 0);
}

#[test]
fn touch_is_an_edge_and_a_level() {
    let mut host = TestHost::new();
    host.touch_at(Point::new(5, 6));
    assert!(host.has_touch());
    assert_eq!(host.touch_held(), Some(Point::new(5, 6)));
    host.lift();
    assert_eq!(host.touch_held(), None);
    assert!(host.touch_released());
    host.tap_at(Point::new(1, 2));
    assert!(!host.touch_released(), "the lift was last frame's");
    assert_eq!(host.tap(), Some(Point::new(1, 2)));
}


/// The recorder's log and the fake's, in the order the calls were made:
/// each call is recorded by the recorder, then by the fake it forwards to.
fn interleaved(recorder: &Recorder<TestHost>) -> Vec<DrawOp> {
    recorder
        .ops()
        .iter()
        .zip(recorder.inner().ops())
        .flat_map(|(mine, theirs)| [mine.clone(), theirs.clone()])
        .collect()
}

#[test]
fn a_recorded_dither_marks_the_shade_the_fake_marks() {
    let mut recorder = Recorder::wrap(TestHost::new());
    recorder.fill_rect_dither(Rect::new(0, 0, 10, 10), true);
    recorder.fill_rect_dither(Rect::new(10, 0, 10, 10), false);

    // Wrapping the fake records each call twice: the recorder's, then the fake's.
    let ops = interleaved(&recorder);
    assert_eq!(ops.len(), 4);
    assert_eq!(ops[0], ops[1], "a golden taken through `Ui` must read as the fake's");
    assert_eq!(ops[2], ops[3]);
    assert_eq!(ops[0].to_line(), "rect        (0,0 10x10) dither light");
    assert_eq!(ops[2].to_line(), "rect        (10,0 10x10) dither");
}

#[test]
fn a_recorder_counts_the_repaints_it_forwards() {
    let mut recorder = Recorder::wrap(TestHost::new());
    recorder.request_update();
    assert_eq!(
        recorder.updates() + recorder.inner().updates(),
        2,
        "counted once by the recorder and once by the fake it forwards to"
    );
}

#[test]
fn every_record_reads_as_one_line_of_a_golden() {
    let mut host = TestHost::new();
    host.clear();
    host.draw_text(Point::new(3, -4), "say \"hi\"\n", FontId(1003), FontStyle::Bold);
    host.draw_text(Point::new(0, 0), "omitted", FontId(0), FontStyle::Regular);
    host.fill_rect(Rect::new(1, 2, 3, 4), false);
    host.set_clip(None);
    host.draw_header(Some("Title"), None);
    host.draw_button_hints(&Hint::Standard, &Hint::Edit, &Hint::Blank, &Hint::text("Next"));
    host.draw_slider(Rect::new(0, 0, 100, 20), 5, 10, ControlState::Focused);
    host.draw_list(
        Rect::new(0, 60, 480, 80),
        &[ListRowText { title: Some("A".into()), subtitle: None, value: Some("On".into()) }],
        0,
    );
    assert_eq!(
        render(host.ops()),
        "clear\n\
         text        (3,-4) \"say \\\"hi\\\"\\n\" font=1003 bold\n\
         rect        (1,2 3x4) filled background\n\
         clip        none\n\
         header      title=\"Title\" subtitle=-\n\
         hints       back=- confirm=\"<edit>\" previous=\"\" next=\"Next\"\n\
         slider      (0,0 100x20) 5/10 focused\n\
         list        (0,60 480x80) rows=1 selected=0\n  row 0  title=\"A\" subtitle=- value=\"On\"\n"
    );
}
