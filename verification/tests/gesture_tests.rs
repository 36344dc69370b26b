use tablet_utils::actions::{match_interaction, match_interactions, Actions, LineDirection};
use tablet_utils::clock::Timestamp;
use tablet_utils::input::{EventHolder, StylusAction, StylusButtonAction, StylusData, StylusInput};
use tablet_utils::interaction::{ActionType, BtnEvent};

fn button(x: i32, y: i32, secs: i64, millis: u32, down: bool) -> StylusButtonAction {
    StylusButtonAction {
        x,
        y,
        action: StylusInput {
            date: Timestamp::from_timestamp(secs, millis * 1_000_000).unwrap(),
            data: StylusData::Action(StylusAction::Btn1(down)),
        },
    }
}

fn stroke(px: i32, py: i32, rx: i32, ry: i32, duration_ms: u32) -> BtnEvent {
    BtnEvent {
        pressed: button(px, py, 1_000, 0, true),
        released: Some(button(rx, ry, 1_000 + (duration_ms / 1000) as i64, duration_ms % 1000, false)),
        type_: None,
    }
}

fn kind(event: &BtnEvent) -> ActionType {
    let mut path = vec![(1, 2)];
    let res = match_interaction(event, &mut path);
    assert_eq!(path, vec![(1, 2)]);
    res
}

#[test]
fn short_still_touch_is_a_point() {
    assert_eq!(kind(&stroke(5_000, 5_000, 5_100, 4_900, 100)), ActionType::Point);
    assert_eq!(kind(&stroke(5_000, 5_000, 5_999, 5_999, 299)), ActionType::Point);
}

#[test]
fn long_still_touch_is_a_line() {
    assert_eq!(kind(&stroke(5_000, 5_000, 5_100, 5_000, 300)), ActionType::Line);
    assert_eq!(kind(&stroke(5_000, 5_000, 5_000, 5_000, 2_000)), ActionType::Line);
}

#[test]
fn moving_touch_is_not_a_point() {
    assert_eq!(kind(&stroke(5_000, 5_000, 6_000, 5_000, 100)), ActionType::Line);
}

#[test]
fn horizontal_strokes() {
    assert_eq!(
        kind(&stroke(20_000, 10_000, 10_000, 10_500, 400)),
        ActionType::StraigthLine(LineDirection::RigthLeft)
    );
    assert_eq!(
        kind(&stroke(10_000, 10_000, 20_000, 9_000, 599)),
        ActionType::StraigthLine(LineDirection::LeftRigth)
    );
}

#[test]
fn vertical_strokes() {
    assert_eq!(
        kind(&stroke(10_000, 15_000, 10_500, 5_000, 300)),
        ActionType::StraigthLine(LineDirection::BottomUp)
    );
    assert_eq!(
        kind(&stroke(10_000, 15_000, 10_500, 10_000, 300)),
        ActionType::StraigthLine(LineDirection::BottomUp)
    );
    assert_eq!(
        kind(&stroke(10_000, 5_000, 9_000, 9_000, 450)),
        ActionType::StraigthLine(LineDirection::UpBottom)
    );
}

#[test]
fn stroke_too_slow_or_too_short_is_a_line() {
    assert_eq!(kind(&stroke(20_000, 10_000, 10_000, 10_000, 600)), ActionType::Line);
    assert_eq!(kind(&stroke(10_000, 10_000, 10_600, 10_800, 400)), ActionType::Line);
    // Exactly 1000 units long is not longer than 1000.
    assert_eq!(kind(&stroke(10_000, 10_000, 10_600, 10_800, 350)), ActionType::Line);
    assert_eq!(
        kind(&stroke(10_000, 10_000, 10_600, 10_801, 350)),
        ActionType::StraigthLine(LineDirection::LeftRigth)
    );
}

#[test]
fn diagonal_stroke_is_a_line() {
    assert_eq!(kind(&stroke(10_000, 5_000, 15_000, 10_000, 400)), ActionType::Line);
}

#[test]
fn unreleased_press_is_a_line() {
    let event = BtnEvent { pressed: button(1, 1, 1_000, 0, true), released: None, type_: None };
    assert_eq!(kind(&event), ActionType::Line);
}

fn classified(event: BtnEvent) -> BtnEvent {
    let t = kind(&event);
    BtnEvent { type_: Some(t), ..event }
}

#[test]
fn second_button_history_never_acts() {
    let mut h = EventHolder::new(5);
    h.push(classified(stroke(5_000, 5_000, 5_000, 5_000, 50)));
    h.push(classified(stroke(5_000, 5_000, 5_000, 5_000, 50)));
    assert_eq!(match_interactions(&mut h, false), Actions::NoAction);
    assert_eq!(h.len(), 2);
}

#[test]
fn two_taps_change_wallpaper() {
    let mut h = EventHolder::new(5);
    h.push(classified(stroke(5_000, 5_000, 5_000, 5_000, 50)));
    h.push(BtnEvent {
        pressed: button(5_000, 5_000, 1_000, 200, true),
        released: Some(button(5_000, 5_000, 1_000, 250, false)),
        type_: Some(ActionType::Point),
    });
    assert_eq!(match_interactions(&mut h, true), Actions::ChangeWallpaper);
}

fn tap(pressed_ms: u32, released_ms: u32) -> BtnEvent {
    BtnEvent {
        pressed: button(5_000, 5_000, 1_000, pressed_ms, true),
        released: Some(button(5_000, 5_000, 1_000, released_ms, false)),
        type_: Some(ActionType::Point),
    }
}

fn two_taps(first: BtnEvent, second: BtnEvent) -> Actions {
    let mut h = EventHolder::new(5);
    h.push(first);
    h.push(second);
    match_interactions(&mut h, true)
}

#[test]
fn taps_far_apart_do_not_change_wallpaper() {
    // The second tap starts 700 ms after the first one ended.
    assert_eq!(two_taps(tap(0, 50), tap(750, 800)), Actions::NoAction);
}

#[test]
fn double_tap_pause_limit() {
    assert_eq!(two_taps(tap(0, 50), tap(649, 700)), Actions::ChangeWallpaper);
    assert_eq!(two_taps(tap(0, 50), tap(650, 700)), Actions::NoAction);
    assert_eq!(two_taps(tap(0, 50), tap(50, 100)), Actions::ChangeWallpaper);
}

#[test]
fn overlapping_taps_change_wallpaper() {
    // A second press before the first release counts as no pause at all.
    assert_eq!(two_taps(tap(0, 200), tap(100, 150)), Actions::ChangeWallpaper);
}

#[test]
fn unreleased_older_tap_is_no_double_tap() {
    let older = BtnEvent {
        pressed: button(5_000, 5_000, 1_000, 0, true),
        released: None,
        type_: Some(ActionType::Point),
    };
    let mut h = EventHolder::new(5);
    h.push(older);
    h.push(tap(100, 150));
    assert_eq!(match_interactions(&mut h, true), Actions::NoAction);
    assert_eq!(h.len(), 2);
    assert!(h.get_ref(0).released.is_none());
}

#[test]
fn straight_stroke_changes_workspace() {
    let mut h = EventHolder::new(5);
    h.push(classified(stroke(5_000, 5_000, 5_000, 5_000, 50)));
    h.push(classified(stroke(20_000, 10_000, 10_000, 10_000, 400)));
    assert_eq!(match_interactions(&mut h, true), Actions::ChangeWorkspace(LineDirection::RigthLeft));
}

#[test]
fn line_and_pending_press_do_nothing() {
    let mut h = EventHolder::new(5);
    h.push(classified(stroke(5_000, 5_000, 5_000, 5_000, 2_000)));
    assert_eq!(match_interactions(&mut h, true), Actions::NoAction);
    h.push(BtnEvent { pressed: button(1, 1, 1_000, 0, true), released: None, type_: None });
    assert_eq!(match_interactions(&mut h, true), Actions::NoAction);
}
