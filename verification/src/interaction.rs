//! The state machine that follows the stylus: it records button events, classifies
//! them, and tells which desktop action and which live adjustment to perform.

use crate::actions::{
    abs_diff, chosen_action, diff_fits, interaction_kind, match_interaction, match_interactions,
    Actions, LineDirection, MAX_TIME_LINE, MIN_TIME_POINT,
};
use crate::clock::millis_between;
use crate::clock::{duration_as_millis, instant_elapsed, instant_now};
use crate::input::{
    convertible, decode_stylus_input, decoded_event, event_data, event_nanos,
    lemma_push_then_last, native_order_probe, pushed_within, EventHolder, StylusAction, StylusButtonAction,
    StylusCoord, StylusData, StylusInput, StylusInputRaw, RAW_EVENT_SIZE,
};
use std::time::Instant;
use vstd::prelude::*;

verus! {

/// What a press-and-release of a button was.
#[derive(Debug, PartialEq, Eq, Structural, Clone, Copy)]
pub enum ActionType {
    Point,
    Line,
    StraigthLine(LineDirection),
}

/// A press of a button, its release once it came, and what the two made.
#[derive(Debug)]
pub struct BtnEvent {
    pub pressed: StylusButtonAction,
    pub released: Option<StylusButtonAction>,
    pub type_: Option<ActionType>,
}

/// The button that produced the latest button event.
#[derive(Debug, PartialEq, Eq, Structural, Clone, Copy)]
pub enum LastAction {
    Btn1,
    Btn2,
    NoButton,
}

/// How many button events of each button are remembered.
pub const HISTORY_SIZE: usize = 5usize;

/// A point of the stroke is recorded at most once per this many milliseconds.
pub const SAMPLE_INTERVAL_MS: u128 = 20u128;

/// A point of the stroke is recorded only when the pen moved at least this far along
/// one axis since the last recorded point.
pub const SAMPLE_MIN_MOVE: i32 = 100i32;

/// Everything the stylus state machine remembers.
pub struct State {
    pub btn1_events: EventHolder<BtnEvent>,
    pub btn2_events: EventHolder<BtnEvent>,
    pub btn1_path: Vec<(i32, i32)>,
    pub btn2_path: Vec<(i32, i32)>,
    pub latest_x: i32,
    pub latest_y: i32,
    pub latest_x_pushed: i32,
    pub latest_y_pushed: i32,
    pub last: LastAction,
    pub latest_data_saved: Instant,
    pub pression_status: bool,
    pub btn1_pressed: bool,
    pub btn2_pressed: bool,
    pub btn2_status: bool,
    /// The byte order in which this state decodes device records: the machine's,
    /// read once when the state is made.
    pub little_endian: bool,
}

/// The state as plain values: all of it but the clock reading of the last recorded
/// stroke point.
pub struct StateView {
    pub btn1_events: Seq<BtnEvent>,
    pub btn2_events: Seq<BtnEvent>,
    pub btn1_path: Seq<(i32, i32)>,
    pub btn2_path: Seq<(i32, i32)>,
    pub latest_x: i32,
    pub latest_y: i32,
    pub latest_x_pushed: i32,
    pub latest_y_pushed: i32,
    pub last: LastAction,
    pub pression_status: bool,
    pub btn1_pressed: bool,
    pub btn2_pressed: bool,
    pub btn2_status: bool,
}

/// `events` with the press of its newest event moved to `x` along the first axis.
pub open spec fn with_pressed_x(events: Seq<BtnEvent>, x: i32) -> Seq<BtnEvent> {
    let e = events.last();
    events.update(
        events.len() - 1,
        BtnEvent {
            pressed: StylusButtonAction { x: x, y: e.pressed.y, action: e.pressed.action },
            released: e.released,
            type_: e.type_,
        },
    )
}

/// `events` with the press of its newest event moved to `y` along the second axis.
pub open spec fn with_pressed_y(events: Seq<BtnEvent>, y: i32) -> Seq<BtnEvent> {
    let e = events.last();
    events.update(
        events.len() - 1,
        BtnEvent {
            pressed: StylusButtonAction { x: e.pressed.x, y: y, action: e.pressed.action },
            released: e.released,
            type_: e.type_,
        },
    )
}

/// The newest event of `events` released at `point`, and classified.
pub open spec fn released_event(events: Seq<BtnEvent>, point: StylusButtonAction) -> BtnEvent {
    let e = events.last();
    let released = BtnEvent { pressed: e.pressed, released: Some(point), type_: None };
    BtnEvent { pressed: e.pressed, released: Some(point), type_: Some(interaction_kind(released)) }
}

/// `events` after a press (`pressed`) or a release at `point`.
pub open spec fn after_press_or_release(
    events: Seq<BtnEvent>,
    pressed: bool,
    point: StylusButtonAction,
) -> Seq<BtnEvent> {
    if pressed {
        pushed_within(
            events,
            HISTORY_SIZE as nat,
            BtnEvent { pressed: point, released: None, type_: None },
        )
    } else {
        events.update(events.len() - 1, released_event(events, point))
    }
}

/// Every event of `events` has a classification exactly when it has a release.
pub open spec fn classified_when_released(events: Seq<BtnEvent>) -> bool {
    forall|i: int|
        0 <= i < events.len() ==> ((#[trigger] events[i]).type_ is Some <==> events[i].released
            is Some)
}

/// The newest event of `events` is a press that has not been released.
pub open spec fn pending_press(events: Seq<BtnEvent>) -> bool {
    events.len() > 0 && events.last().released is None
}

impl StateView {
    /// The invariant of the state: each history within its size; the history of the
    /// button named by `last` not empty; in each history an event is classified
    /// exactly when it was released; and a button counts as pressed exactly when the
    /// newest event of its history has not been released.
    pub open spec fn consistent(self) -> bool {
        &&& self.btn1_events.len() <= HISTORY_SIZE
        &&& self.btn2_events.len() <= HISTORY_SIZE
        &&& self.last == LastAction::Btn1 ==> self.btn1_events.len() > 0
        &&& self.last == LastAction::Btn2 ==> self.btn2_events.len() > 0
        &&& classified_when_released(self.btn1_events)
        &&& classified_when_released(self.btn2_events)
        &&& self.btn1_pressed == pending_press(self.btn1_events)
        &&& self.btn2_pressed == pending_press(self.btn2_events)
    }

    /// The event can be handled without an arithmetic overflow and without reading a
    /// missing press: a position keeps its distance to the last recorded point within
    /// `i32`, and a release follows a press whose position is within `i32` distance.
    pub open spec fn accepts(self, data: StylusData) -> bool {
        match data {
            StylusData::Coord(StylusCoord::X(x)) => diff_fits(x, self.latest_x_pushed)
                && diff_fits(self.latest_y, self.latest_y_pushed),
            StylusData::Coord(StylusCoord::Y(y)) => diff_fits(self.latest_x, self.latest_x_pushed)
                && diff_fits(y, self.latest_y_pushed),
            StylusData::Action(StylusAction::Btn1(false)) => self.release_readable(true),
            StylusData::Action(StylusAction::Btn2(false)) => self.release_readable(false),
            _ => true,
        }
    }

    /// A release of the first (`btn1`) or second button can be recorded: that
    /// button's history is not empty and the current position is within `i32`
    /// distance of its newest press.
    pub open spec fn release_readable(self, btn1: bool) -> bool {
        let events = if btn1 {
            self.btn1_events
        } else {
            self.btn2_events
        };
        &&& events.len() > 0
        &&& diff_fits(self.latest_x, events.last().pressed.x)
        &&& diff_fits(self.latest_y, events.last().pressed.y)
    }

    /// The state after a position reading: the first reading of an axis after a
    /// release also moves the press of the latest button event.
    pub open spec fn moved(self, coord: StylusCoord) -> StateView {
        match coord {
            StylusCoord::X(x) => StateView {
                btn1_events: if self.latest_x == 0 && self.last == LastAction::Btn1 {
                    with_pressed_x(self.btn1_events, x)
                } else {
                    self.btn1_events
                },
                btn2_events: if self.latest_x == 0 && self.last == LastAction::Btn2 {
                    with_pressed_x(self.btn2_events, x)
                } else {
                    self.btn2_events
                },
                latest_x: x,
                ..self
            },
            StylusCoord::Y(y) => StateView {
                btn1_events: if self.latest_y == 0 && self.last == LastAction::Btn1 {
                    with_pressed_y(self.btn1_events, y)
                } else {
                    self.btn1_events
                },
                btn2_events: if self.latest_y == 0 && self.last == LastAction::Btn2 {
                    with_pressed_y(self.btn2_events, y)
                } else {
                    self.btn2_events
                },
                latest_y: y,
                ..self
            },
        }
    }

    /// A stroke point is recorded when enough time has passed, the pen is on the
    /// screen (both coordinates positive) and it moved far enough along one axis.
    pub open spec fn takes_sample(self, elapsed_ms: int) -> bool {
        &&& elapsed_ms >= SAMPLE_INTERVAL_MS
        &&& self.latest_x > 0
        &&& self.latest_y > 0
        &&& abs_diff(self.latest_y as int, self.latest_y_pushed as int) >= SAMPLE_MIN_MOVE
            || abs_diff(self.latest_x as int, self.latest_x_pushed as int) >= SAMPLE_MIN_MOVE
    }

    /// The state with the current position recorded as a stroke point.
    pub open spec fn sampled(self) -> StateView {
        StateView {
            btn1_path: self.btn1_path.push((self.latest_x, self.latest_y)),
            latest_x_pushed: self.latest_x,
            latest_y_pushed: self.latest_y,
            ..self
        }
    }

    /// The state after the first (`btn1`) or second button went down (`pressed`) or up.
    pub open spec fn after_button(self, pressed: bool, btn1: bool, input: StylusInput) -> StateView {
        let point = StylusButtonAction { x: self.latest_x, y: self.latest_y, action: input };
        StateView {
            btn1_events: if btn1 {
                after_press_or_release(self.btn1_events, pressed, point)
            } else {
                self.btn1_events
            },
            btn2_events: if btn1 {
                self.btn2_events
            } else {
                after_press_or_release(self.btn2_events, pressed, point)
            },
            btn1_path: if btn1 && !pressed {
                Seq::empty()
            } else {
                self.btn1_path
            },
            btn2_path: if !btn1 && !pressed {
                Seq::empty()
            } else {
                self.btn2_path
            },
            btn1_pressed: if btn1 {
                pressed
            } else {
                self.btn1_pressed
            },
            btn2_pressed: if btn1 {
                self.btn2_pressed
            } else {
                pressed
            },
            latest_x: if pressed {
                self.latest_x
            } else {
                0
            },
            latest_y: if pressed {
                self.latest_y
            } else {
                0
            },
            last: if btn1 {
                LastAction::Btn1
            } else {
                LastAction::Btn2
            },
            ..self
        }
    }

    /// Whether the event records a stroke point, `elapsed_ms` after the last one.
    pub open spec fn sample_taken(self, data: StylusData, elapsed_ms: int) -> bool {
        match data {
            StylusData::Coord(coord) => self.moved(coord).takes_sample(elapsed_ms),
            _ => false,
        }
    }

    /// The state after `input`, `elapsed_ms` after the last recorded stroke point.
    pub open spec fn after_event(self, input: StylusInput, elapsed_ms: int) -> StateView {
        match input.data {
            StylusData::Coord(coord) => if self.moved(coord).takes_sample(elapsed_ms) {
                self.moved(coord).sampled()
            } else {
                self.moved(coord)
            },
            StylusData::Action(StylusAction::Btn1(pressed)) => self.after_button(
                pressed,
                true,
                input,
            ),
            StylusData::Action(StylusAction::Btn2(pressed)) => self.after_button(
                pressed,
                false,
                input,
            ),
            StylusData::Pression => StateView { pression_status: !self.pression_status, ..self },
            _ => self,
        }
    }

    /// The desktop action that `input` asks for: only an event of the first button
    /// can ask for one, as its history then reads.
    pub open spec fn action_for(self, input: StylusInput) -> Actions {
        match input.data {
            StylusData::Action(StylusAction::Btn1(pressed)) => chosen_action(
                self.after_button(pressed, true, input).btn1_events,
                true,
            ),
            _ => Actions::NoAction,
        }
    }
}

/// The state before any event: empty histories and paths, no position, no button.
pub open spec fn initial_view() -> StateView {
    StateView {
        btn1_events: Seq::empty(),
        btn2_events: Seq::empty(),
        btn1_path: Seq::empty(),
        btn2_path: Seq::empty(),
        latest_x: 0,
        latest_y: 0,
        latest_x_pushed: 0,
        latest_y_pushed: 0,
        last: LastAction::NoButton,
        pression_status: false,
        btn1_pressed: false,
        btn2_pressed: false,
        btn2_status: false,
    }
}

/// The data is a button going down or up.
pub open spec fn is_button(data: StylusData) -> bool {
    data matches StylusData::Action(StylusAction::Btn1(_)) || data matches StylusData::Action(
        StylusAction::Btn2(_),
    )
}

impl View for State {
    type V = StateView;

    open spec fn view(&self) -> StateView {
        StateView {
            btn1_events: self.btn1_events@,
            btn2_events: self.btn2_events@,
            btn1_path: self.btn1_path@,
            btn2_path: self.btn2_path@,
            latest_x: self.latest_x,
            latest_y: self.latest_y,
            latest_x_pushed: self.latest_x_pushed,
            latest_y_pushed: self.latest_y_pushed,
            last: self.last,
            pression_status: self.pression_status,
            btn1_pressed: self.btn1_pressed,
            btn2_pressed: self.btn2_pressed,
            btn2_status: self.btn2_status,
        }
    }
}

/// Whether `a - b` fits in an `i32` together with its absolute value.
fn diff_fits_exec(a: i32, b: i32) -> (res: bool)
    ensures
        res == diff_fits(a, b),
{
    let d = a as i64 - b as i64;
    -0x7fff_ffffi64 <= d && d <= 0x7fff_ffffi64
}

fn abs_diff_i32(a: i32, b: i32) -> (res: i32)
    requires
        diff_fits(a, b),
    ensures
        res == abs_diff(a as int, b as int),
{
    let d = a - b;
    if d < 0 {
        -d
    } else {
        d
    }
}

/// A press adds an unreleased, unclassified event and a release releases and
/// classifies the newest one, so classification still goes with release, and the
/// button counts as pressed exactly after a press.
pub proof fn lemma_press_or_release_pairing(
    events: Seq<BtnEvent>,
    pressed: bool,
    point: StylusButtonAction,
)
    requires
        classified_when_released(events),
        events.len() <= HISTORY_SIZE,
        !pressed ==> events.len() > 0,
    ensures
        classified_when_released(after_press_or_release(events, pressed, point)),
        pending_press(after_press_or_release(events, pressed, point)) == pressed,
        0 < after_press_or_release(events, pressed, point).len() <= HISTORY_SIZE,
{
    let after = after_press_or_release(events, pressed, point);
    assert forall|i: int| 0 <= i < after.len() implies ((#[trigger] after[i]).type_ is Some
        <==> after[i].released is Some) by {
        if i < after.len() - 1 {
            if pressed && events.len() == HISTORY_SIZE {
                assert(after[i] == events[i + 1]);
            } else {
                assert(after[i] == events[i]);
            }
        }
    }
}

/// Moving the press of the newest event keeps what was released and classified.
pub proof fn lemma_moved_press_pairing(events: Seq<BtnEvent>, coord: StylusCoord)
    requires
        classified_when_released(events),
        events.len() > 0,
    ensures
        ({
            let moved = match coord {
                StylusCoord::X(x) => with_pressed_x(events, x),
                StylusCoord::Y(y) => with_pressed_y(events, y),
            };
            &&& classified_when_released(moved)
            &&& pending_press(moved) == pending_press(events)
            &&& moved.len() == events.len()
        }),
{
    let moved = match coord {
        StylusCoord::X(x) => with_pressed_x(events, x),
        StylusCoord::Y(y) => with_pressed_y(events, y),
    };
    assert forall|i: int| 0 <= i < moved.len() implies ((#[trigger] moved[i]).type_ is Some
        <==> moved[i].released is Some) by {
        if i < moved.len() - 1 {
            assert(moved[i] == events[i]);
        }
    }
}

/// Records a press of a button in its history, or its release: the release completes
/// and classifies the newest event and clears the stroke path. Returns the action
/// that the history then asks for.
fn record_button(
    events: &mut EventHolder<BtnEvent>,
    pressed_stated: &mut bool,
    path: &mut Vec<(i32, i32)>,
    pressed: bool,
    btn_event: StylusButtonAction,
    btn1: bool,
) -> (res: Actions)
    requires
        old(events).wf(),
        old(events).capacity() == HISTORY_SIZE,
        classified_when_released(old(events)@),
        !pressed ==> {
            &&& old(events)@.len() > 0
            &&& diff_fits(btn_event.x, old(events)@.last().pressed.x)
            &&& diff_fits(btn_event.y, old(events)@.last().pressed.y)
        },
    ensures
        final(events).wf(),
        final(events).capacity() == HISTORY_SIZE,
        final(events)@ == after_press_or_release(old(events)@, pressed, btn_event),
        *final(pressed_stated) == pressed,
        final(path)@ == (if pressed {
            old(path)@
        } else {
            Seq::empty()
        }),
        res == chosen_action(final(events)@, btn1),
        classified_when_released(final(events)@),
        pending_press(final(events)@) == pressed,
{
    proof {
        lemma_press_or_release_pairing(old(events)@, pressed, btn_event);
    }
    if pressed {
        let item = BtnEvent { pressed: btn_event, released: None, type_: None };
        events.push(item);
        *pressed_stated = true;
    } else {
        let first = events.last_mut();
        first.released = Some(btn_event);
        let inter = match_interaction(first, path);
        first.type_ = Some(inter);
        *path = Vec::new();
        *pressed_stated = false;
    }
    match_interactions(events, btn1)
}

/// The value shown for a height on the screen: 100 at height 2000, falling by 99
/// per 16000 units, kept within 1 to 100.
pub open spec fn mapped_value(input: int) -> int {
    let v = 100 - (input - 2000) * 99 / 16000;
    if v < 1 {
        1
    } else if v > 100 {
        100
    } else {
        v
    }
}

/// The heights that `map_value` can take without an arithmetic overflow.
pub open spec fn map_value_domain(input: int) -> bool {
    &&& 2000 <= input
    &&& (input - 2000) * 99 <= u32::MAX
    &&& (input - 2000) * 99 / 16000 <= 100
}

/// Maps a height on the screen to a level from 1 to 100, the top being highest.
pub fn map_value(input: u32) -> (res: u32)
    requires
        map_value_domain(input as int),
    ensures
        res == mapped_value(input as int),
{
    let v = 100 - (input - 2000) * 99 / 16000;
    if v < 1 {
        1
    } else if v > 100 {
        100
    } else {
        v
    }
}

/// A live adjustment that the pen's position asks for.
#[derive(Debug, PartialEq, Eq, Structural, Clone, Copy)]
pub enum LiveControl {
    Volume(u32),
    Brightness(u32),
    NoChange,
}

/// The adjustment for a pen at `(x, y)`: along the right edge the volume, along the
/// left edge the brightness, at a level given by the height.
pub open spec fn live_control_at(x: int, y: int) -> LiveControl {
    if 3_000 <= y < 17_000 {
        if 31_000 <= x < 35_000 {
            LiveControl::Volume(mapped_value(y) as u32)
        } else if 0 <= x < 4_000 {
            LiveControl::Brightness(mapped_value(y) as u32)
        } else {
            LiveControl::NoChange
        }
    } else {
        LiveControl::NoChange
    }
}

impl State {
    /// The well-formedness of the state: both histories keep `HISTORY_SIZE` events and
    /// the plain view is consistent.
    pub open spec fn wf(&self) -> bool {
        &&& self.btn1_events.wf()
        &&& self.btn2_events.wf()
        &&& self.btn1_events.capacity() == HISTORY_SIZE
        &&& self.btn2_events.capacity() == HISTORY_SIZE
        &&& self@.consistent()
    }

    /// The state before any event.
    pub fn new() -> (res: Self)
        ensures
            res.wf(),
            res@ == initial_view(),
    {
        Self {
            btn1_events: EventHolder::new(HISTORY_SIZE),
            btn2_events: EventHolder::new(HISTORY_SIZE),
            latest_x: 0,
            latest_y: 0,
            latest_x_pushed: 0,
            latest_y_pushed: 0,
            btn1_path: Vec::new(),
            btn2_path: Vec::new(),
            last: LastAction::NoButton,
            latest_data_saved: instant_now(),
            pression_status: false,
            btn1_pressed: false,
            btn2_pressed: false,
            btn2_status: false,
            little_endian: native_order_probe() == 1,
        }
    }

    /// The adjustment that the current position asks for.
    pub fn handle_live(&self) -> (res: LiveControl)
        ensures
            res == live_control_at(self@.latest_x as int, self@.latest_y as int),
            res matches LiveControl::Volume(v) ==> 31_000 <= self.latest_x < 35_000 && v
                == mapped_value(self.latest_y as int),
            res matches LiveControl::Brightness(v) ==> 0 <= self.latest_x < 4_000 && v
                == mapped_value(self.latest_y as int),
    {
        proof {
            lemma_edges_share_level(0, 31_000, self.latest_y as int);
        }
        if 3_000 <= self.latest_y && self.latest_y < 17_000 {
            let val = map_value(self.latest_y as u32);
            if 31_000 <= self.latest_x && self.latest_x < 35_000 {
                LiveControl::Volume(val)
            } else if 0 <= self.latest_x && self.latest_x < 4_000 {
                LiveControl::Brightness(val)
            } else {
                LiveControl::NoChange
            }
        } else {
            LiveControl::NoChange
        }
    }

    /// Whether `process` can take `input` in this state.
    pub fn can_process(&self, input: &StylusInput) -> (res: bool)
        requires
            self.wf(),
        ensures
            res == self@.accepts(input.data),
    {
        match input.data {
            StylusData::Coord(StylusCoord::X(x)) => diff_fits_exec(x, self.latest_x_pushed)
                && diff_fits_exec(self.latest_y, self.latest_y_pushed),
            StylusData::Coord(StylusCoord::Y(y)) => diff_fits_exec(
                self.latest_x,
                self.latest_x_pushed,
            ) && diff_fits_exec(y, self.latest_y_pushed),
            StylusData::Action(StylusAction::Btn1(false)) => {
                if self.btn1_events.len() == 0 {
                    false
                } else {
                    let last = self.btn1_events.last();
                    diff_fits_exec(self.latest_x, last.pressed.x) && diff_fits_exec(
                        self.latest_y,
                        last.pressed.y,
                    )
                }
            },
            StylusData::Action(StylusAction::Btn2(false)) => {
                if self.btn2_events.len() == 0 {
                    false
                } else {
                    let last = self.btn2_events.last();
                    diff_fits_exec(self.latest_x, last.pressed.x) && diff_fits_exec(
                        self.latest_y,
                        last.pressed.y,
                    )
                }
            },
            _ => true,
        }
    }

    /// Takes a position reading and records it as a stroke point when it is due.
    fn record_position(&mut self, coord: StylusCoord, elapsed_ms: u128) -> (sampled: bool)
        requires
            old(self).wf(),
            old(self)@.accepts(StylusData::Coord(coord)),
        ensures
            final(self).wf(),
            sampled == old(self)@.moved(coord).takes_sample(elapsed_ms as int),
            final(self).latest_data_saved == old(self).latest_data_saved,
            final(self).little_endian == old(self).little_endian,
            final(self)@ == (if sampled {
                old(self)@.moved(coord).sampled()
            } else {
                old(self)@.moved(coord)
            }),
    {
        match coord {
            StylusCoord::X(x) => {
                if self.latest_x == 0 {
                    match self.last {
                        LastAction::Btn1 => {
                            let prim = self.btn1_events.last_mut();
                            prim.pressed.x = x;
                        },
                        LastAction::Btn2 => {
                            let prim = self.btn2_events.last_mut();
                            prim.pressed.x = x;
                        },
                        LastAction::NoButton => {},
                    }
                }
                self.latest_x = x;
            },
            StylusCoord::Y(y) => {
                if self.latest_y == 0 {
                    match self.last {
                        LastAction::Btn1 => {
                            let prim = self.btn1_events.last_mut();
                            prim.pressed.y = y;
                        },
                        LastAction::Btn2 => {
                            let prim = self.btn2_events.last_mut();
                            prim.pressed.y = y;
                        },
                        LastAction::NoButton => {},
                    }
                }
                self.latest_y = y;
            },
        }
        let diff_x = abs_diff_i32(self.latest_x, self.latest_x_pushed);
        let diff_y = abs_diff_i32(self.latest_y, self.latest_y_pushed);
        if elapsed_ms >= SAMPLE_INTERVAL_MS && self.latest_x > 0 && self.latest_y > 0 && (diff_y
            >= SAMPLE_MIN_MOVE || diff_x >= SAMPLE_MIN_MOVE) {
            self.btn1_path.push((self.latest_x, self.latest_y));
            self.latest_x_pushed = self.latest_x;
            self.latest_y_pushed = self.latest_y;
            true
        } else {
            false
        }
    }

    /// Records a button event of the first (`events`) or second button, as a press
    /// (`pressed`) or a release, and returns the action its history then asks for.
    /// Data that is not a button event changes nothing. The latest button is not
    /// updated here.
    fn handle_button_event(&mut self, pressed: bool, events: bool, data: StylusInput) -> (res: Actions)
        requires
            old(self).wf(),
            is_button(data.data) && !pressed ==> old(self)@.release_readable(events),
        ensures
            final(self).wf(),
            final(self).latest_data_saved == old(self).latest_data_saved,
            final(self).little_endian == old(self).little_endian,
            !is_button(data.data) ==> final(self)@ == old(self)@ && res == Actions::NoAction,
            is_button(data.data) ==> {
                &&& final(self)@ == (StateView {
                    last: old(self)@.last,
                    ..old(self)@.after_button(pressed, events, data)
                })
                &&& res == chosen_action(
                    if events {
                        old(self)@.after_button(pressed, events, data).btn1_events
                    } else {
                        old(self)@.after_button(pressed, events, data).btn2_events
                    },
                    events,
                )
            },
    {
        if let StylusData::Action(StylusAction::Btn1(_) | StylusAction::Btn2(_)) = data.data {
        } else {
            return Actions::NoAction;
        }
        let btn_event = StylusButtonAction { x: self.latest_x, y: self.latest_y, action: data };
        let r = if events {
            record_button(
                &mut self.btn1_events,
                &mut self.btn1_pressed,
                &mut self.btn1_path,
                pressed,
                btn_event,
                true,
            )
        } else {
            record_button(
                &mut self.btn2_events,
                &mut self.btn2_pressed,
                &mut self.btn2_path,
                pressed,
                btn_event,
                false,
            )
        };
        if !pressed {
            self.latest_x = 0;
            self.latest_y = 0;
        }
        r
    }

    /// Takes one event, `elapsed_ms` milliseconds after the last recorded stroke
    /// point, and returns the desktop action it asks for and whether it recorded a
    /// stroke point.
    pub fn apply_event(&mut self, data: StylusInput, elapsed_ms: u128) -> (res: (Actions, bool))
        requires
            old(self).wf(),
            old(self)@.accepts(data.data),
        ensures
            final(self).wf(),
            final(self)@ == old(self)@.after_event(data, elapsed_ms as int),
            res.0 == old(self)@.action_for(data),
            res.1 == old(self)@.sample_taken(data.data, elapsed_ms as int),
            final(self).latest_data_saved == old(self).latest_data_saved,
            final(self).little_endian == old(self).little_endian,
    {
        let kind = data.data;
        match kind {
            StylusData::Coord(coord) => {
                let sampled = self.record_position(coord, elapsed_ms);
                (Actions::NoAction, sampled)
            },
            StylusData::Action(StylusAction::Btn1(pressed)) => {
                let r = self.handle_button_event(pressed, true, data);
                self.last = LastAction::Btn1;
                (r, false)
            },
            StylusData::Action(StylusAction::Btn2(pressed)) => {
                self.handle_button_event(pressed, false, data);
                self.last = LastAction::Btn2;
                (Actions::NoAction, false)
            },
            StylusData::Pression => {
                self.pression_status = !self.pression_status;
                (Actions::NoAction, false)
            },
            _ => (Actions::NoAction, false),
        }
    }

    /// Takes one event from the stylus and returns the desktop action it asks for.
    /// The time since the last recorded stroke point is read from the clock, and
    /// whatever it is, the state moves as `after_event` says for it.
    pub fn process(&mut self, data: StylusInput) -> (res: Actions)
        requires
            old(self).wf(),
            old(self)@.accepts(data.data),
        ensures
            final(self).wf(),
            res == old(self)@.action_for(data),
            final(self).little_endian == old(self).little_endian,
            exists|elapsed_ms: int|
                {
                    &&& 0 <= elapsed_ms
                    &&& final(self)@ == old(self)@.after_event(data, elapsed_ms)
                    &&& !old(self)@.sample_taken(data.data, elapsed_ms)
                        ==> final(self).latest_data_saved == old(self).latest_data_saved
                },
    {
        let elapsed_ms = match data.data {
            StylusData::Coord(_) => {
                let elapsed = instant_elapsed(&self.latest_data_saved);
                duration_as_millis(&elapsed)
            },
            _ => 0,
        };
        let ghost before = self@;
        let ghost clock_before = self.latest_data_saved;
        let (action, sampled) = self.apply_event(data, elapsed_ms);
        if sampled {
            self.latest_data_saved = instant_now();
        }
        assert(0 <= elapsed_ms as int && self@ == before.after_event(data, elapsed_ms as int) && (
        !before.sample_taken(data.data, elapsed_ms as int) ==> self.latest_data_saved
            == clock_before));
        action
    }
}

/// What became of one record read from the device.
#[derive(Debug, PartialEq, Eq, Structural, Clone, Copy)]
pub enum RecordOutcome {
    /// The record had the wrong length or reports nothing the library understands.
    Ignored,
    /// The record's time cannot be represented.
    TimeOutOfRange,
    /// The current state cannot take the event: it releases a button with no
    /// recorded press, or a distance to it would overflow.
    EventRefused,
    /// The event was taken: the desktop action it asks for, and the live adjustment
    /// that the position then asks for.
    Handled(Actions, LiveControl),
}

/// What `handle_record` does with the decoded record `raw`: a record with an
/// unrepresentable time, or one the state does not accept, is refused and one the library
/// does not understand is ignored, both leaving the state as it was; any other is
/// processed as `process` says, and the outcome carries the action and the live
/// adjustment for the new position.
pub open spec fn record_handled(before: State, after: State, raw: StylusInputRaw, res: RecordOutcome) -> bool {
    let unchanged = after@ == before@ && after.latest_data_saved == before.latest_data_saved;
    if !convertible(raw) {
        res == RecordOutcome::TimeOutOfRange && unchanged
    } else {
        match event_data(raw.type_, raw.code, raw.val) {
            None => res == RecordOutcome::Ignored && unchanged,
            Some(data) => if !before@.accepts(data) {
                res == RecordOutcome::EventRefused && unchanged
            } else {
                exists|input: StylusInput, elapsed_ms: int|
                    {
                        &&& input.date@ == (raw.tv_sec, event_nanos(raw.tv_usec))
                        &&& input.data == data
                        &&& 0 <= elapsed_ms
                        &&& after@ == before@.after_event(input, elapsed_ms)
                        &&& res == RecordOutcome::Handled(
                            before@.action_for(input),
                            live_control_at(after.latest_x as int, after.latest_y as int),
                        )
                    }
            },
        }
    }
}

impl State {
    /// Takes one record read from the device, which is expected to hold `event_size`
    /// bytes: decodes it in the state's byte order (the machine's, the same for every
    /// record), stamps it, and processes it.
    pub fn handle_record(&mut self, buffer: &Vec<u8>, event_size: usize) -> (res: RecordOutcome)
        requires
            old(self).wf(),
            buffer@.len() == event_size ==> event_size >= RAW_EVENT_SIZE,
        ensures
            final(self).wf(),
            buffer@.len() != event_size ==> res == RecordOutcome::Ignored && final(self)@ == old(
                self,
            )@ && final(self).latest_data_saved == old(self).latest_data_saved,
            buffer@.len() == event_size ==> record_handled(
                *old(self),
                *final(self),
                decoded_event(buffer@, old(self).little_endian),
                res,
            ),
            final(self).little_endian == old(self).little_endian,
    {
        if buffer.len() != event_size {
            return RecordOutcome::Ignored;
        }
        let raw = decode_stylus_input(buffer.as_slice(), self.little_endian);
        let ghost little_endian = self.little_endian;
        if !StylusInput::can_convert(&raw) {
            assert(record_handled(*old(self), *self, decoded_event(buffer@, little_endian), RecordOutcome::TimeOutOfRange));
            return RecordOutcome::TimeOutOfRange;
        }
        let ghost raw_copy = raw;
        let data = match StylusInput::from_raw(raw) {
            Some(data) => data,
            None => {
                assert(record_handled(*old(self), *self, decoded_event(buffer@, little_endian), RecordOutcome::Ignored));
                return RecordOutcome::Ignored;
            },
        };
        if !self.can_process(&data) {
            assert(record_handled(*old(self), *self, decoded_event(buffer@, little_endian), RecordOutcome::EventRefused));
            return RecordOutcome::EventRefused;
        }
        let ghost input = data;
        let ghost before = *self;
        let action = self.process(data);
        let live = self.handle_live();
        let res = RecordOutcome::Handled(action, live);
        proof {
            let elapsed_ms = choose|elapsed_ms: int|
                {
                    &&& 0 <= elapsed_ms
                    &&& self@ == before@.after_event(input, elapsed_ms)
                    &&& !before@.sample_taken(input.data, elapsed_ms)
                        ==> self.latest_data_saved == before.latest_data_saved
                };
            assert(record_handled(before, *self, raw_copy, res)) by {
                assert(input.date@ == (raw_copy.tv_sec, event_nanos(raw_copy.tv_usec)));
            }
        }
        res
    }
}

/// The level given to the volume control for a volume of `v` percent.
pub open spec fn volume_level_of(v: int) -> int {
    (65000int / 100) * v
}

/// The mixer level that sets the volume to `v` percent.
pub fn volume_level(v: u32) -> (res: i64)
    ensures
        res == volume_level_of(v as int),
{
    (65000 / 100) * v as i64
}

/// Every height in the domain of `map_value` gives a level from 1 to 100.
pub proof fn lemma_mapped_value_range(input: int)
    requires
        map_value_domain(input),
    ensures
        1 <= mapped_value(input) <= 100,
{
}

/// A higher point on the screen (a smaller height) never gives a lower level.
pub proof fn lemma_mapped_value_monotone(a: int, b: int)
    requires
        map_value_domain(a),
        map_value_domain(b),
        a <= b,
    ensures
        mapped_value(a) >= mapped_value(b),
{
    assert((a - 2000) * 99 <= (b - 2000) * 99) by (nonlinear_arith)
        requires
            2000 <= a <= b,
    ;
    vstd::arithmetic::div_mod::lemma_div_is_ordered((a - 2000) * 99, (b - 2000) * 99, 16000);
}

/// Every event that `process` accepts keeps the state consistent.
pub proof fn lemma_after_event_consistent(v: StateView, input: StylusInput, elapsed_ms: int)
    requires
        v.consistent(),
        v.accepts(input.data),
    ensures
        v.after_event(input, elapsed_ms).consistent(),
{
}

/// Only the release of the first button asks for a desktop action: a press, the
/// second button, positions, tilt, pressure and report ends never do.
pub proof fn lemma_only_first_button_release_acts(v: StateView, input: StylusInput)
    requires
        v.consistent(),
        v.action_for(input) != Actions::NoAction,
    ensures
        input.data == StylusData::Action(StylusAction::Btn1(false)),
{
    if input.data == StylusData::Action(StylusAction::Btn1(true)) {
        let point = StylusButtonAction { x: v.latest_x, y: v.latest_y, action: input };
        let item = BtnEvent { pressed: point, released: None, type_: None };
        lemma_push_then_last(v.btn1_events, HISTORY_SIZE as nat, item);
    }
}

/// A double tap of the first button changes the wallpaper: when the newest event of
/// the first button was a tap, a press that comes less than `MAX_TIME_LINE` after
/// that tap's release, followed by a release that makes it a tap
/// too (shorter than `MIN_TIME_POINT`, without moving), asks for a wallpaper change.
pub proof fn lemma_double_tap_changes_wallpaper(
    v: StateView,
    press: StylusInput,
    release: StylusInput,
    elapsed_ms: int,
)
    requires
        v.consistent(),
        v.btn1_events.len() > 0,
        v.btn1_events.last().type_ == Some(ActionType::Point),
        press.data == StylusData::Action(StylusAction::Btn1(true)),
        release.data == StylusData::Action(StylusAction::Btn1(false)),
        millis_between(release.date@, press.date@) < MIN_TIME_POINT,
        v.btn1_events.last().released matches Some(first_release) && millis_between(
            press.date@,
            first_release.action.date@,
        ) < MAX_TIME_LINE,
    ensures
        v.after_event(press, elapsed_ms).action_for(release) == Actions::ChangeWallpaper,
{
    let point = StylusButtonAction { x: v.latest_x, y: v.latest_y, action: press };
    let item = BtnEvent { pressed: point, released: None, type_: None };
    let s = pushed_within(v.btn1_events, HISTORY_SIZE as nat, item);
    lemma_push_then_last(v.btn1_events, HISTORY_SIZE as nat, item);
    assert(s[s.len() - 2] == v.btn1_events.last());
}

/// Taps too far apart do not change the wallpaper: a second tap pressed
/// `MAX_TIME_LINE` or more after the first tap was released asks for nothing.
pub proof fn lemma_slow_second_tap_does_nothing(
    v: StateView,
    press: StylusInput,
    release: StylusInput,
    elapsed_ms: int,
)
    requires
        v.consistent(),
        v.btn1_events.len() > 0,
        v.btn1_events.last().type_ == Some(ActionType::Point),
        press.data == StylusData::Action(StylusAction::Btn1(true)),
        release.data == StylusData::Action(StylusAction::Btn1(false)),
        millis_between(release.date@, press.date@) < MIN_TIME_POINT,
        v.btn1_events.last().released matches Some(first_release) && millis_between(
            press.date@,
            first_release.action.date@,
        ) >= MAX_TIME_LINE,
    ensures
        v.after_event(press, elapsed_ms).action_for(release) == Actions::NoAction,
{
    let point = StylusButtonAction { x: v.latest_x, y: v.latest_y, action: press };
    let item = BtnEvent { pressed: point, released: None, type_: None };
    let s = pushed_within(v.btn1_events, HISTORY_SIZE as nat, item);
    lemma_push_then_last(v.btn1_events, HISTORY_SIZE as nat, item);
    assert(s[s.len() - 2] == v.btn1_events.last());
}

/// A straight stroke of the first button changes the workspace in its direction.
pub proof fn lemma_stroke_changes_workspace(v: StateView, release: StylusInput, direction: LineDirection)
    requires
        v.consistent(),
        v.btn1_events.len() > 0,
        release.data == StylusData::Action(StylusAction::Btn1(false)),
        released_event(
            v.btn1_events,
            StylusButtonAction { x: v.latest_x, y: v.latest_y, action: release },
        ).type_ == Some(ActionType::StraigthLine(direction)),
    ensures
        v.action_for(release) == Actions::ChangeWorkspace(direction),
{
}

/// Two pressure events leave the state as it was.
pub proof fn lemma_pression_twice(v: StateView, first: StylusInput, second: StylusInput, e1: int, e2: int)
    requires
        first.data == StylusData::Pression,
        second.data == StylusData::Pression,
    ensures
        v.after_event(first, e1).after_event(second, e2) == v,
{
}

/// Both edges give the same level for the same height, and it is the height's level:
/// within the active band of heights, the left edge asks for that brightness and the
/// right edge for that volume, the level being `100 - (y - 2000) * 99 / 16000` kept
/// within 1 to 100; outside the band, and away from the edges, nothing is asked.
pub proof fn lemma_edges_share_level(left_x: int, right_x: int, y: int)
    ensures
        3_000 <= y < 17_000 && 0 <= left_x < 4_000 ==> live_control_at(left_x, y)
            == LiveControl::Brightness(
            (if 100 - (y - 2000) * 99 / 16000 < 1 {
                1
            } else if 100 - (y - 2000) * 99 / 16000 > 100 {
                100
            } else {
                100 - (y - 2000) * 99 / 16000
            }) as u32,
        ),
        3_000 <= y < 17_000 && 31_000 <= right_x < 35_000 ==> live_control_at(right_x, y)
            == LiveControl::Volume(
            (if 100 - (y - 2000) * 99 / 16000 < 1 {
                1
            } else if 100 - (y - 2000) * 99 / 16000 > 100 {
                100
            } else {
                100 - (y - 2000) * 99 / 16000
            }) as u32,
        ),
        3_000 <= y < 17_000 && 0 <= left_x < 4_000 && 31_000 <= right_x < 35_000 ==> (
        live_control_at(left_x, y) matches LiveControl::Brightness(b) && live_control_at(
            right_x,
            y,
        ) == LiveControl::Volume(b)),
        !(3_000 <= y < 17_000) ==> live_control_at(left_x, y) == LiveControl::NoChange,
        !(0 <= left_x < 4_000) && !(31_000 <= left_x < 35_000) ==> live_control_at(left_x, y)
            == LiveControl::NoChange,
{
}

} // verus!
