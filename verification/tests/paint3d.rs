use plotter::paint3d::{
    hear, held_of, on_fault, step, Action, Button, Fault, InteractionEvent, InteractionSession,
    Mode, MouseEvent, Paint3d,
};
use plotter::view::{Held, ViewState};
use plotter::xcbshow::{Event, InteractDevice, InteractKind, Mouse, Pos, RawEvent};

type Segment = ((i32, i32, i32), (i32, i32, i32));

fn keys(mask: u16) -> InteractDevice {
    InteractDevice::KeyBoard(mask)
}

fn left_press(pos: Pos) -> Event {
    Event::Interact(InteractKind::LeftPress { state: keys(0), pos })
}

fn left_release(pos: Pos) -> Event {
    Event::Interact(InteractKind::LeftRelease { state: keys(256), pos })
}

fn right_press(pos: Pos) -> Event {
    Event::Interact(InteractKind::RightPress { state: keys(0), pos })
}

fn right_release(pos: Pos) -> Event {
    Event::Interact(InteractKind::RightRelease { state: keys(1024), pos })
}

fn move_to(button: Mouse, pos: Pos) -> Event {
    Event::Interact(InteractKind::Move { state: InteractDevice::Mouse(button), pos })
}

fn wheel(mask: u16, step: i16) -> Event {
    Event::Interact(InteractKind::Wheel { state: keys(mask), step })
}

fn viewer() -> Paint3d<Segment> {
    Paint3d::new(500, 500)
}

#[test]
fn new_viewer_is_idle_with_the_default_view() {
    let paint = viewer();
    assert_eq!(paint.state(), ViewState::new(500, 500));
    assert_eq!(paint.state().camera_center, (1000, 1000, 1000));
    assert_eq!(paint.state().k, 4);
    assert_eq!(paint.session(), InteractionSession::new());
    assert_eq!(paint.session().mode, Mode::Idle);
    assert!(paint.stored().is_empty());
}

#[test]
fn segments_replace_what_was_loaded() {
    let mut paint = viewer();
    paint.segments(vec![((0, 0, 0), (1, 1, 1)), ((1, 1, 1), (2, 2, 2))]);
    assert_eq!(paint.stored().len(), 2);
    paint.segments(vec![((5, 5, 5), (6, 6, 6))]);
    assert_eq!(paint.stored(), &[((5, 5, 5), (6, 6, 6))]);
    assert_eq!(paint.state(), ViewState::new(500, 500));
}

#[test]
fn left_drag_commits_its_offset_on_release() {
    let mut paint = viewer();
    let before = paint.state();
    assert_eq!(paint.on_event(left_press((100, 100))), Action::Ignore);
    assert_eq!(paint.session().mode, Mode::Dragging(Button::Left));
    assert_eq!(paint.session().anchor, (100, 100));
    paint.on_event(move_to(Mouse::Left, (120, 90)));
    assert_eq!(paint.state(), before);
    let action = paint.on_event(left_release((120, 90)));
    let after = paint.state();
    assert_eq!(
        after.translation,
        (before.translation.0 + 2 * 20, before.translation.1 - 2 * 10, before.translation.2)
    );
    assert_eq!(after, ViewState { translation: (40, -20, 0), ..before });
    assert_eq!(paint.session(), InteractionSession::new());
    assert_eq!(
        action,
        Action::Redraw(InteractionEvent::Mouse(MouseEvent::LeftDrag((40, -20, 0))))
    );
}

#[test]
fn second_drag_previews_without_committing() {
    let mut paint = viewer();
    paint.on_event(left_press((100, 100)));
    paint.on_event(move_to(Mouse::Left, (120, 90)));
    paint.on_event(left_release((120, 90)));
    let committed = paint.state();
    assert_eq!(committed.translation, (40, -20, 0));

    paint.on_event(left_press((50, 50)));
    let action = paint.on_event(move_to(Mouse::Left, (60, 60)));
    assert_eq!(
        action,
        Action::Redraw(InteractionEvent::Mouse(MouseEvent::LeftDrag((60, 0, 0))))
    );
    assert_eq!(paint.state(), committed);
    assert_eq!(paint.session().delta, (10, 10));
    let preview = paint.event_handler(InteractionEvent::Mouse(MouseEvent::LeftDrag((60, 0, 0))));
    assert_eq!(preview, ViewState { translation: (60, 0, 0), ..committed });
    assert_ne!(paint.state().translation, preview.translation);

    paint.on_event(left_release((60, 60)));
    assert_eq!(paint.state(), preview);
}

#[test]
fn the_path_of_a_drag_does_not_matter() {
    let mut straight = viewer();
    straight.on_event(left_press((10, 10)));
    straight.on_event(left_release((-5, 30)));
    let mut winding = viewer();
    winding.on_event(left_press((10, 10)));
    for pos in [(400, -300), (0, 0), (i16::MAX, i16::MIN), (-5, 31)] {
        winding.on_event(move_to(Mouse::Left, pos));
    }
    winding.on_event(left_release((-5, 30)));
    assert_eq!(straight.state(), winding.state());
    assert_eq!(straight.state().translation, (-30, 40, 0));
}

#[test]
fn right_drag_turns_about_x_and_z() {
    let mut paint = viewer();
    let before = paint.state();
    paint.on_event(right_press((200, 200)));
    let action = paint.on_event(move_to(Mouse::Right, (230, 190)));
    assert_eq!(
        action,
        Action::Redraw(InteractionEvent::Mouse(MouseEvent::RightDrag((-20, 0, 60))))
    );
    assert_eq!(paint.state(), before);
    let action = paint.on_event(right_release((245, 200)));
    assert_eq!(paint.state(), ViewState { rotation: (0, 0, 90), ..before });
    assert_eq!(
        action,
        Action::Redraw(InteractionEvent::Mouse(MouseEvent::RightDrag((0, 0, 90))))
    );
    assert_eq!(paint.session().mode, Mode::Idle);
}

#[test]
fn drag_over_the_whole_window_range_is_exact() {
    let mut paint = viewer();
    paint.on_event(left_press((i16::MIN, i16::MAX)));
    paint.on_event(left_release((i16::MAX, i16::MIN)));
    assert_eq!(paint.state().translation, (2 * 65535, -2 * 65535, 0));
}

#[test]
fn wheel_round_trip_restores_the_camera_centre() {
    let mut paint = viewer();
    let before = paint.state();
    let action = paint.on_event(wheel(0, 2));
    assert_eq!(action, Action::Redraw(InteractionEvent::Mouse(MouseEvent::Scroll)));
    assert_eq!(paint.state().camera_center, (1200, 1000, 1000));
    paint.on_event(wheel(0, -2));
    assert_eq!(paint.state().camera_center, before.camera_center);
    assert_eq!(paint.state(), before);
}

#[test]
fn wheel_with_left_held_moves_in_depth() {
    let mut paint = viewer();
    let before = paint.state();
    let action = paint.on_event(wheel(256, 1));
    assert_eq!(paint.state(), ViewState { translation: (0, 0, 50), ..before });
    assert_eq!(
        action,
        Action::Redraw(InteractionEvent::Mouse(MouseEvent::LeftDrag((0, 0, 50))))
    );
    paint.on_event(wheel(256, -1));
    assert_eq!(paint.state(), before);
}

#[test]
fn wheel_with_right_held_spins_by_half_degrees() {
    let mut paint = viewer();
    let before = paint.state();
    let action = paint.on_event(wheel(1024, 3));
    assert_eq!(paint.state(), ViewState { rotation: (0, 3, 0), ..before });
    assert_eq!(
        action,
        Action::Redraw(InteractionEvent::Mouse(MouseEvent::RightDrag((0, 3, 0))))
    );
}

#[test]
fn wheel_with_anything_else_held_is_ignored() {
    let mut paint = viewer();
    let before = paint.state();
    paint.on_event(left_press((1, 1)));
    let session = paint.session();
    assert_eq!(paint.on_event(wheel(1, 1)), Action::Ignore);
    assert_eq!(paint.on_event(wheel(256 | 1024, 1)), Action::Ignore);
    assert_eq!(paint.on_event(wheel(512, -1)), Action::Ignore);
    assert_eq!(paint.state(), before);
    assert_eq!(paint.session(), session);
}

#[test]
fn wheel_ends_a_drag_without_committing_it() {
    let mut paint = viewer();
    paint.on_event(left_press((10, 10)));
    paint.on_event(move_to(Mouse::Left, (50, 50)));
    paint.on_event(wheel(256, 1));
    assert_eq!(paint.session(), InteractionSession::new());
    assert_eq!(paint.state().translation, (0, 0, 50));
    assert_eq!(paint.on_event(move_to(Mouse::Left, (60, 60))), Action::Ignore);
    assert_eq!(paint.on_event(left_release((60, 60))), Action::Ignore);
    assert_eq!(paint.state().translation, (0, 0, 50));
}

#[test]
fn held_tells_modifier_masks_apart() {
    assert_eq!(held_of(keys(0)), Held::Nothing);
    assert_eq!(held_of(keys(256)), Held::Left);
    assert_eq!(held_of(keys(1024)), Held::Right);
    assert_eq!(held_of(keys(512)), Held::Other);
    assert_eq!(held_of(keys(1)), Held::Other);
    assert_eq!(held_of(InteractDevice::Mouse(Mouse::Left)), Held::Left);
    assert_eq!(held_of(InteractDevice::Mouse(Mouse::Right)), Held::Right);
    assert_eq!(held_of(InteractDevice::Mouse(Mouse::Wheel)), Held::Other);
}

#[test]
fn resize_updates_only_the_viewport() {
    let mut paint = viewer();
    paint.on_event(left_press((0, 0)));
    paint.on_event(left_release((7, 9)));
    paint.on_event(wheel(1024, 4));
    let before = paint.state();
    assert_eq!(before.viewport, (500, 500));
    let action = paint.on_event(Event::Expose { width: 800, height: 600 });
    assert_eq!(action, Action::Redraw(InteractionEvent::Expose));
    assert_eq!(paint.state(), ViewState { viewport: (800, 600), ..before });
    assert_eq!(paint.event_handler(InteractionEvent::Expose), paint.state());
    assert_eq!(
        paint.event_handler(InteractionEvent::Expose),
        paint.event_handler(InteractionEvent::Expose)
    );
}

#[test]
fn resize_during_a_drag_keeps_the_drag() {
    let mut paint = viewer();
    paint.on_event(right_press((5, 5)));
    paint.on_event(move_to(Mouse::Right, (6, 8)));
    let session = paint.session();
    let action = paint.on_event(Event::Expose { width: 300, height: 200 });
    assert_eq!(action, Action::Redraw(InteractionEvent::Expose));
    assert_eq!(paint.session(), session);
    assert_eq!(paint.state().viewport, (300, 200));
    assert_eq!(paint.state().rotation, (0, 0, 0));
}

#[test]
fn close_quits_from_any_state() {
    let mut idle = viewer();
    assert_eq!(idle.on_event(Event::Close), Action::Quit);
    let mut dragging = viewer();
    dragging.on_event(left_press((1, 2)));
    let session = dragging.session();
    assert_eq!(dragging.on_event(Event::Close), Action::Quit);
    assert_eq!(dragging.session(), session);
    assert_eq!(dragging.state(), ViewState::new(500, 500));
}

#[test]
fn the_quit_key_quits_and_other_keys_do_nothing() {
    let mut paint = viewer();
    let key = |key: u8| Event::Interact(InteractKind::KeyPress { state: keys(0), key });
    assert_eq!(paint.on_event(key(0x19)), Action::Ignore);
    assert_eq!(paint.on_event(key(0)), Action::Ignore);
    assert_eq!(paint.on_event(key(0x18)), Action::Quit);
    assert_eq!(paint.state(), ViewState::new(500, 500));
}

#[test]
fn noop_and_stray_events_are_ignored() {
    let mut paint = viewer();
    let before = paint.state();
    assert_eq!(paint.on_event(Event::Noop), Action::Ignore);
    assert_eq!(paint.on_event(move_to(Mouse::Left, (3, 3))), Action::Ignore);
    assert_eq!(paint.on_event(left_release((3, 3))), Action::Ignore);
    assert_eq!(paint.on_event(right_release((3, 3))), Action::Ignore);
    assert_eq!(paint.state(), before);
    assert_eq!(paint.session(), InteractionSession::new());
}

#[test]
fn a_second_button_during_a_drag_is_ignored() {
    let mut paint = viewer();
    paint.on_event(left_press((10, 10)));
    assert_eq!(paint.on_event(right_press((20, 20))), Action::Ignore);
    assert_eq!(paint.on_event(left_press((30, 30))), Action::Ignore);
    assert_eq!(paint.session().anchor, (10, 10));
    assert_eq!(paint.on_event(right_release((40, 40))), Action::Ignore);
    assert_eq!(paint.session().mode, Mode::Dragging(Button::Left));
    paint.on_event(left_release((11, 12)));
    assert_eq!(paint.state().translation, (2, 4, 0));
}

#[test]
fn event_handler_shows_the_dragged_part_only() {
    let mut paint = viewer();
    paint.on_event(wheel(0, 1));
    let committed = paint.state();
    assert_eq!(
        paint.event_handler(InteractionEvent::Mouse(MouseEvent::Scroll)),
        committed
    );
    assert_eq!(
        paint.event_handler(InteractionEvent::Mouse(MouseEvent::LeftDrag((1, 2, 3)))),
        ViewState { translation: (1, 2, 3), ..committed }
    );
    assert_eq!(
        paint.event_handler(InteractionEvent::Mouse(MouseEvent::RightDrag((4, 5, 6)))),
        ViewState { rotation: (4, 5, 6), ..committed }
    );
}

#[test]
fn step_agrees_with_the_viewer() {
    let mut paint = viewer();
    let events = [
        left_press((1, 1)),
        move_to(Mouse::Left, (9, 9)),
        Event::Expose { width: 640, height: 480 },
        left_release((4, 2)),
        wheel(0, -1),
        right_press((0, 0)),
        right_release((-90, 180)),
        Event::Close,
    ];
    let mut state = paint.state();
    let mut session = paint.session();
    for event in events {
        let out = step(state, session, event);
        let action = paint.on_event(event);
        assert_eq!(action, out.action);
        assert_eq!(paint.state(), out.state);
        assert_eq!(paint.session(), out.session);
        state = out.state;
        session = out.session;
    }
    assert_eq!(
        state,
        ViewState {
            translation: (6, 2, 0),
            rotation: (360, 0, -180),
            camera_center: (900, 1000, 1000),
            k: 4,
            viewport: (640, 480),
        }
    );
}

fn record(kind: u8, detail: u8, state: u16, x: i16, y: i16) -> RawEvent {
    RawEvent { width: 640, height: 480, x, y, state, detail, kind }
}

#[test]
fn a_notch_counts_once_when_it_goes_down() {
    assert_eq!(hear(&record(4, 4, 0, 0, 0)), wheel(0, 1));
    assert_eq!(hear(&record(4, 5, 256, 0, 0)), wheel(256, -1));
    assert_eq!(hear(&record(5, 4, 0, 0, 0)), Event::Noop);
    assert_eq!(hear(&record(5, 5, 1024, 0, 0)), Event::Noop);
}

#[test]
fn a_push_on_the_wheel_is_no_notch() {
    assert_eq!(hear(&record(4, 2, 0, 0, 0)), Event::Noop);
    assert_eq!(hear(&record(5, 2, 0, 0, 0)), Event::Noop);
}

#[test]
fn other_records_are_heard_as_they_decode() {
    for raw in [
        record(1, 0, 0, 0, 0),
        record(2, 0, 0, 0, 0),
        record(3, 0, 256, 7, 8),
        record(4, 1, 0, 7, 8),
        record(4, 3, 0, 7, 8),
        record(5, 1, 256, 7, 8),
        record(5, 3, 1024, 7, 8),
        record(6, 0x18, 0, 0, 0),
        record(9, 4, 0, 0, 0),
    ] {
        assert_eq!(hear(&raw), raw.decode());
    }
}

#[test]
fn records_of_a_wheel_notch_move_the_camera_once() {
    let mut paint = viewer();
    assert_eq!(
        paint.on_raw(&record(4, 4, 0, 10, 10)),
        Action::Redraw(InteractionEvent::Mouse(MouseEvent::Scroll))
    );
    assert_eq!(paint.on_raw(&record(5, 4, 0, 10, 10)), Action::Ignore);
    assert_eq!(paint.state().camera_center, (1100, 1000, 1000));
}

#[test]
fn records_of_a_drag_commit_it() {
    let mut paint = viewer();
    assert_eq!(paint.on_raw(&record(4, 1, 0, 100, 100)), Action::Ignore);
    assert_eq!(
        paint.on_raw(&record(3, 0, 256, 110, 105)),
        Action::Redraw(InteractionEvent::Mouse(MouseEvent::LeftDrag((20, 10, 0))))
    );
    assert_eq!(
        paint.on_raw(&record(5, 1, 256, 120, 90)),
        Action::Redraw(InteractionEvent::Mouse(MouseEvent::LeftDrag((40, -20, 0))))
    );
    assert_eq!(paint.state().translation, (40, -20, 0));
    assert_eq!(paint.on_raw(&record(2, 0, 0, 0, 0)), Action::Redraw(InteractionEvent::Expose));
    assert_eq!(paint.state().viewport, (640, 480));
    assert_eq!(paint.on_raw(&record(6, 0x18, 0, 0, 0)), Action::Quit);
}

#[test]
fn a_canvas_with_one_side_only_has_a_view() {
    let paint: Paint3d<Segment> = Paint3d::new(0, 1);
    assert_eq!(paint.state().camera_center, (1, 1, 1));
    let paint: Paint3d<Segment> = Paint3d::new(u16::MAX, 0);
    assert_eq!(paint.state().camera_center, (65535, 65535, 65535));
    assert_eq!(paint.state().viewport, (u16::MAX, 0));
}

#[test]
fn a_broken_stream_ends_the_session_in_good_order() {
    assert_eq!(on_fault(Fault::Connection), Ok(()));
}

#[test]
fn every_other_fault_is_handed_to_the_host() {
    for fault in [
        Fault::ClosedExtNotSupported,
        Fault::ClosedMemInsufficient,
        Fault::ClosedReqLenExceed,
        Fault::ClosedParseErr,
        Fault::ClosedInvalidScreen,
        Fault::ClosedFdPassingFailed,
        Fault::Protocol,
    ] {
        assert_eq!(on_fault(fault), Err(fault));
    }
}
