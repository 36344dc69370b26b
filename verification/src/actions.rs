//! Gesture recognition: what a press-and-release of a pen button was, and which
//! desktop action a history of such gestures asks for.

use crate::clock::millis_between;
use crate::input::EventHolder;
use crate::interaction::{ActionType, BtnEvent};
use vstd::prelude::*;

verus! {

/// The direction of a straight stroke on the screen.
#[derive(Debug, PartialEq, Eq, Structural, Clone, Copy)]
pub enum LineDirection {
    BottomUp,
    UpBottom,
    LeftRigth,
    RigthLeft,
    NoLine,
}

/// The desktop action that a gesture asks for.
#[derive(Debug, PartialEq, Eq, Structural, Clone, Copy)]
pub enum Actions {
    ChangeWallpaper,
    ChangeWorkspace(LineDirection),
    NoAction,
}

/// A tap moves less than this along each axis.
pub const MAX_DIFFERENCE_COORDS: i32 = 1000i32;

/// A tap lasts less than this many milliseconds.
pub const MIN_TIME_POINT: i64 = 300i64;

/// A stroke, and the gap between the two taps of a double tap, last less than this
/// many milliseconds.
pub const MAX_TIME_LINE: i64 = 600i64;

/// The height of the screen in device units.
pub const SCREEN_HEIGTH: i32 = 20000i32;

/// The width of the screen in device units.
pub const SCREEN_WIDTH: i32 = 35000i32;

/// A stroke covers more than this distance (in device units) from press to release.
pub const MIN_LINE_LENGTH: i64 = 1000i64;

/// The distance between two integers.
pub open spec fn abs_diff(a: int, b: int) -> int {
    if a >= b {
        a - b
    } else {
        b - a
    }
}

/// The direction of the stroke from `(px, py)` to `(rx, ry)` that lasted `milis`
/// milliseconds: a stroke is longer than `MIN_LINE_LENGTH`, lasts between 300 ms and
/// `MAX_TIME_LINE`, and either stays within a tenth of the screen's width vertically
/// (horizontal strokes) or within a seventh of its height horizontally (vertical ones).
pub open spec fn line_direction(milis: int, px: int, py: int, rx: int, ry: int) -> LineDirection {
    let dx = abs_diff(rx, px);
    let dy = abs_diff(ry, py);
    if (rx - px) * (rx - px) + (ry - py) * (ry - py) > MIN_LINE_LENGTH * MIN_LINE_LENGTH
        && milis < MAX_TIME_LINE {
        if dy < SCREEN_WIDTH / 10 && 300 <= milis < 1000 {
            if px > rx {
                LineDirection::RigthLeft
            } else {
                LineDirection::LeftRigth
            }
        } else if dx < SCREEN_HEIGTH / 7 && 300 <= milis < 1000 {
            if py > ry {
                LineDirection::BottomUp
            } else {
                LineDirection::UpBottom
            }
        } else {
            LineDirection::NoLine
        }
    } else {
        LineDirection::NoLine
    }
}

/// What a press at `(px, py)` released at `(rx, ry)` after `milis` milliseconds was:
/// a tap when short and nearly still, a straight stroke when it has a direction, and a
/// free line otherwise.
pub open spec fn gesture(milis: int, px: int, py: int, rx: int, ry: int) -> ActionType {
    if milis < MIN_TIME_POINT && abs_diff(rx, px) < MAX_DIFFERENCE_COORDS && abs_diff(ry, py)
        < MAX_DIFFERENCE_COORDS {
        ActionType::Point
    } else if line_direction(milis, px, py, rx, ry) != LineDirection::NoLine {
        ActionType::StraigthLine(line_direction(milis, px, py, rx, ry))
    } else {
        ActionType::Line
    }
}

/// What a button event was: the gesture from its press to its release, or a free line
/// while it has not been released.
pub open spec fn interaction_kind(event: BtnEvent) -> ActionType {
    match event.released {
        Some(released) => gesture(
            millis_between(released.action.date@, event.pressed.action.date@),
            event.pressed.x as int,
            event.pressed.y as int,
            released.x as int,
            released.y as int,
        ),
        None => ActionType::Line,
    }
}

/// The difference `a - b` fits in an `i32` together with its absolute value.
pub open spec fn diff_fits(a: i32, b: i32) -> bool {
    -i32::MAX <= a - b <= i32::MAX
}

/// The displacement from the press to the release can be computed in `i32`.
pub open spec fn classifiable(event: BtnEvent) -> bool {
    event.released matches Some(released) ==> diff_fits(released.x, event.pressed.x) && diff_fits(
        released.y,
        event.pressed.y,
    )
}

fn abs_i32(value: i32) -> (res: i32)
    requires
        value > i32::MIN,
    ensures
        res == abs_diff(value as int, 0),
{
    if value < 0 {
        -value
    } else {
        value
    }
}

/// Classifies a button event from its press and release: a tap (`Point`), a straight
/// stroke with its direction, or a free `Line`. The path of the stroke is not read.
pub fn match_interaction(interaction: &BtnEvent, path: &mut Vec<(i32, i32)>) -> (res: ActionType)
    requires
        classifiable(*interaction),
    ensures
        res == interaction_kind(*interaction),
        final(path)@ == old(path)@,
        res != ActionType::StraigthLine(LineDirection::NoLine),
        interaction.released matches Some(released) ==> {
            &&& res == ActionType::StraigthLine(LineDirection::RigthLeft) ==> interaction.pressed.x
                > released.x
            &&& res == ActionType::StraigthLine(LineDirection::LeftRigth) ==> interaction.pressed.x
                <= released.x
            &&& res == ActionType::StraigthLine(LineDirection::BottomUp) ==> interaction.pressed.y
                > released.y
            &&& res == ActionType::StraigthLine(LineDirection::UpBottom) ==> interaction.pressed.y
                <= released.y
        },
{
    proof {
        lemma_classification_follows_motion(*interaction);
    }
    let pressed = &interaction.pressed;
    match &interaction.released {
        Some(released) => {
            let milis = released.action.date.millis_since(&pressed.action.date);
            let diff_x = abs_i32(released.x - pressed.x);
            let diff_y = abs_i32(released.y - pressed.y);
            if milis < MIN_TIME_POINT && diff_x < MAX_DIFFERENCE_COORDS && diff_y
                < MAX_DIFFERENCE_COORDS {
                return ActionType::Point;
            }
            let dx = released.x as i64 - pressed.x as i64;
            let dy = released.y as i64 - pressed.y as i64;
            assert(0 <= dx * dx <= 0x3fff_ffff_0000_0001) by (nonlinear_arith)
                requires
                    -0x7fff_ffff <= dx <= 0x7fff_ffff,
            ;
            assert(0 <= dy * dy <= 0x3fff_ffff_0000_0001) by (nonlinear_arith)
                requires
                    -0x7fff_ffff <= dy <= 0x7fff_ffff,
            ;
            let dx_squared = dx * dx;
            let dy_squared = dy * dy;
            let squared_length = dx_squared + dy_squared;
            let line_dir = if squared_length > MIN_LINE_LENGTH * MIN_LINE_LENGTH && milis
                < MAX_TIME_LINE {
                if diff_y < SCREEN_WIDTH / 10 && 300 <= milis && milis < 1000 {
                    if pressed.x > released.x {
                        LineDirection::RigthLeft
                    } else {
                        LineDirection::LeftRigth
                    }
                } else if diff_x < SCREEN_HEIGTH / 7 && 300 <= milis && milis < 1000 {
                    if pressed.y > released.y {
                        LineDirection::BottomUp
                    } else {
                        LineDirection::UpBottom
                    }
                } else {
                    LineDirection::NoLine
                }
            } else {
                LineDirection::NoLine
            };
            if line_dir != LineDirection::NoLine {
                return ActionType::StraigthLine(line_dir);
            }
            ActionType::Line
        },
        None => ActionType::Line,
    }
}

/// The last two events of `events` were both taps.
pub open spec fn ends_with_two_taps(events: Seq<BtnEvent>) -> bool {
    &&& events.len() >= 2
    &&& events[events.len() - 2].type_ == Some(ActionType::Point)
    &&& events[events.len() - 1].type_ == Some(ActionType::Point)
}

/// The last two events end with two taps and the newer tap was pressed less than
/// `MAX_TIME_LINE` after the older one was released (a press before that release
/// counts as no pause at all). When the older tap has no release there is no pause to
/// measure, and the two taps do not count as a double tap.
pub open spec fn double_tap(events: Seq<BtnEvent>) -> bool {
    &&& ends_with_two_taps(events)
    &&& events[events.len() - 2].released matches Some(released) && millis_between(
        events.last().pressed.action.date@,
        released.action.date@,
    ) < MAX_TIME_LINE
}

/// The action that a button's history asks for: only the first button acts; a double
/// tap changes the wallpaper, and a straight stroke as the newest event changes the
/// workspace in its direction.
pub open spec fn chosen_action(events: Seq<BtnEvent>, btn1: bool) -> Actions {
    if !btn1 {
        Actions::NoAction
    } else if double_tap(events) {
        Actions::ChangeWallpaper
    } else {
        match events.last().type_ {
            Some(ActionType::StraigthLine(line)) => Actions::ChangeWorkspace(line),
            _ => Actions::NoAction,
        }
    }
}

/// The history can be read as `match_interactions` reads it: the first button's
/// history is not empty.
pub open spec fn history_readable(events: Seq<BtnEvent>, btn1: bool) -> bool {
    btn1 ==> events.len() > 0
}

/// The action that the history of one button asks for (`btn1` tells whether it is the
/// first button's history). The history is left as it was.
pub fn match_interactions(vec: &mut EventHolder<BtnEvent>, btn1: bool) -> (res: Actions)
    requires
        history_readable(old(vec)@, btn1),
    ensures
        res == chosen_action(old(vec)@, btn1),
        final(vec)@ == old(vec)@,
        final(vec).capacity() == old(vec).capacity(),
        res == Actions::ChangeWallpaper ==> {
            &&& btn1
            &&& old(vec)@.len() >= 2
            &&& old(vec)@[old(vec)@.len() - 2].type_ == Some(ActionType::Point)
            &&& old(vec)@[old(vec)@.len() - 1].type_ == Some(ActionType::Point)
        },
        res matches Actions::ChangeWorkspace(direction) ==> btn1 && old(vec)@[old(vec)@.len()
            - 1].type_ == Some(ActionType::StraigthLine(direction)),
{
    proof {
        lemma_action_follows_history(old(vec)@, btn1);
    }
    if !btn1 {
        return Actions::NoAction;
    }
    let len = vec.len();
    if len >= 2 {
        let b1 = vec.get_ref(len - 1);
        let b2 = vec.get_ref(len - 2);
        if let Some(ActionType::Point) = &b2.type_ {
            if let Some(ActionType::Point) = &b1.type_ {
                match &b2.released {
                    Some(released) => {
                        let gap = b1.pressed.action.date.millis_since(&released.action.date);
                        if gap < MAX_TIME_LINE {
                            return Actions::ChangeWallpaper;
                        }
                    },
                    None => {},
                }
            }
        }
    }
    match &vec.last().type_ {
        Some(ActionType::StraigthLine(line)) => Actions::ChangeWorkspace(*line),
        _ => Actions::NoAction,
    }
}

/// What a classification tells of the gesture itself: a tap was released within
/// `MIN_TIME_POINT` and moved less than `MAX_DIFFERENCE_COORDS` along each axis; a
/// straight stroke was released after 300 to `MAX_TIME_LINE` milliseconds, covered
/// more than `MIN_LINE_LENGTH`, and its direction follows the pen's motion (right to
/// left exactly when the release lies left of the press, bottom up exactly when it
/// lies above it); an event that was never released is a free line.
pub proof fn lemma_classification_follows_motion(event: BtnEvent)
    ensures
        event.released is None ==> interaction_kind(event) == ActionType::Line,
        event.released matches Some(released) ==> {
            let kind = interaction_kind(event);
            let milis = millis_between(released.action.date@, event.pressed.action.date@);
            let dx = released.x - event.pressed.x;
            let dy = released.y - event.pressed.y;
            &&& kind == ActionType::Point ==> milis < MIN_TIME_POINT && -MAX_DIFFERENCE_COORDS
                < dx < MAX_DIFFERENCE_COORDS && -MAX_DIFFERENCE_COORDS < dy
                < MAX_DIFFERENCE_COORDS
            &&& kind is StraigthLine ==> 300 <= milis < MAX_TIME_LINE && dx * dx + dy * dy
                > MIN_LINE_LENGTH * MIN_LINE_LENGTH
            &&& kind != ActionType::StraigthLine(LineDirection::NoLine)
            &&& kind == ActionType::StraigthLine(LineDirection::RigthLeft) ==> event.pressed.x
                > released.x
            &&& kind == ActionType::StraigthLine(LineDirection::LeftRigth) ==> event.pressed.x
                <= released.x
            &&& kind == ActionType::StraigthLine(LineDirection::BottomUp) ==> event.pressed.y
                > released.y
            &&& kind == ActionType::StraigthLine(LineDirection::UpBottom) ==> event.pressed.y
                <= released.y
            &&& (kind == ActionType::StraigthLine(LineDirection::RigthLeft) || kind
                == ActionType::StraigthLine(LineDirection::LeftRigth)) ==> -SCREEN_WIDTH / 10 < dy
                < SCREEN_WIDTH / 10
            &&& (kind == ActionType::StraigthLine(LineDirection::BottomUp) || kind
                == ActionType::StraigthLine(LineDirection::UpBottom)) ==> -SCREEN_HEIGTH / 7 < dx
                < SCREEN_HEIGTH / 7
        },
{
}

/// What the chosen action tells of the history: only the first button acts; the
/// wallpaper changes only after two taps, the newer pressed less than
/// `MAX_TIME_LINE` after the older was released, and always then; the workspace
/// changes only when the newest event is a straight stroke, in its direction, and
/// always when it is one.
pub proof fn lemma_action_follows_history(events: Seq<BtnEvent>, btn1: bool)
    requires
        btn1 ==> events.len() > 0,
    ensures
        !btn1 ==> chosen_action(events, btn1) == Actions::NoAction,
        chosen_action(events, btn1) == Actions::ChangeWallpaper ==> {
            &&& btn1
            &&& events.len() >= 2
            &&& events[events.len() - 2].type_ == Some(ActionType::Point)
            &&& events[events.len() - 1].type_ == Some(ActionType::Point)
            &&& events[events.len() - 2].released matches Some(first) && millis_between(
                events[events.len() - 1].pressed.action.date@,
                first.action.date@,
            ) < MAX_TIME_LINE
        },
        ({
            &&& btn1
            &&& events.len() >= 2
            &&& events[events.len() - 2].type_ == Some(ActionType::Point)
            &&& events[events.len() - 1].type_ == Some(ActionType::Point)
            &&& events[events.len() - 2].released matches Some(first) && millis_between(
                events[events.len() - 1].pressed.action.date@,
                first.action.date@,
            ) < MAX_TIME_LINE
        }) ==> chosen_action(events, btn1) == Actions::ChangeWallpaper,
        forall|direction: LineDirection|
            chosen_action(events, btn1) == Actions::ChangeWorkspace(direction) <==> btn1
                && events[events.len() - 1].type_ == Some(ActionType::StraigthLine(direction)),
{
}

} // verus!
