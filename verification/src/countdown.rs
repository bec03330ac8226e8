//! Countdown engine: advances exactly one player's remaining time per
//! elapsed wall-clock interval, detects expiry, drives the buzzer cue and
//! the lazy redraw, and hands the turn over on a button edge.
//!
//! Elapsed time is computed on demand as the difference between the current
//! millisecond count and the timestamp anchored at the last turn change;
//! remaining time is never accumulated frame by frame, so a variable loop
//! latency cannot drift it.

use vstd::prelude::*;

use crate::debounce::{Debouncer, Edge};
use crate::serial::SerialMsg;
use crate::time_set::TimeSetting;

verus! {

/// Loop ticks one buzzer cue lasts.
pub const BUZZER_LENGTH: u16 = 20;

/// Inter-iteration delay in milliseconds when nothing was rendered.
pub const LOOP_DELAY: u16 = 5;

/// Largest anchored millisecond value: the largest settable seconds count,
/// in milliseconds.
pub const MAX_ANCHOR_MS: u32 = 65535 * 1000;

/// How a countdown round ended: a player's time expired, or the start
/// button froze both clocks.
#[derive(PartialEq, Eq, Structural, Clone, Copy, Debug)]
pub enum CountdownResult {
    FinishedP1,
    FinishedP2,
    Paused,
}

/// Whose remaining time is currently decreasing.
#[derive(PartialEq, Eq, Structural, Clone, Copy, Debug)]
pub enum Turn {
    P1,
    P2,
}

/// A millisecond count as a whole-second time value.
pub fn convert_time(x: u32) -> (r: TimeSetting)
    requires
        x <= MAX_ANCHOR_MS + 999,
    ensures
        r == spec_time_of_ms(x),
        r.0 == x as int / 1000,
{
    proof {
        reveal(spec_time_of_ms);
        assert(x <= 65_535_999 ==> x / 1000 < 65536) by (bit_vector);
    }
    TimeSetting::new((x / 1000) as u16)
}

/// State of one countdown round: each player's remaining time anchored at
/// the last turn change, the anchor timestamp, the buzzer pulse counter,
/// what was last rendered, and the three button filters.
pub struct CountdownState {
    pub turn: Turn,
    /// P1's remaining milliseconds, measured at `last_change_time`.
    pub p1_ms: u32,
    /// P2's remaining milliseconds, measured at `last_change_time`.
    pub p2_ms: u32,
    /// Millisecond stamp at which the anchored values were authoritative.
    pub last_change_time: u32,
    /// Loop ticks the buzzer pulse has left; zero when silent.
    pub buzzer_ticks: u16,
    pub last_p1_time: TimeSetting,
    pub last_p2_time: TimeSetting,
    pub last_turn: Turn,
    pub down: Debouncer,
    pub up: Debouncer,
    pub start: Debouncer,
}

/// Raw samples for one countdown iteration: the current millisecond count
/// and the pressed level of each button.
#[derive(PartialEq, Eq, Structural, Clone, Copy, Debug)]
pub struct CountdownInput {
    pub now: u32,
    pub down_pressed: bool,
    pub up_pressed: bool,
    pub start_pressed: bool,
}

/// Commands one countdown iteration leaves for the hardware: buzzer level
/// changes (off is applied before on), whether to redraw, up to two turn
/// messages in order, and whether the round ended.
pub struct CountdownOutput {
    pub buzzer_off: bool,
    pub buzzer_on: bool,
    pub render: bool,
    pub msg1: Option<SerialMsg>,
    pub msg2: Option<SerialMsg>,
    pub done: bool,
}

/// Remaining time after `elapsed` milliseconds ran against an anchored
/// value: the difference, clamped at zero.
pub open spec fn remaining_ms(anchor: u32, elapsed: u32) -> u32 {
    if elapsed <= anchor {
        (anchor - elapsed) as u32
    } else {
        0
    }
}

/// A millisecond count as the whole-second time value it displays as.
#[verifier::opaque]
pub open spec fn spec_time_of_ms(ms: u32) -> TimeSetting {
    TimeSetting((ms as int / 1000) as u16)
}

impl CountdownState {
    /// Anchored values small enough that every displayed value fits the
    /// seconds type; holds from construction on since they only decrease.
    pub open spec fn wf(self) -> bool {
        self.p1_ms <= MAX_ANCHOR_MS && self.p2_ms <= MAX_ANCHOR_MS
    }

    /// Milliseconds since the anchors were authoritative.
    pub open spec fn spec_elapsed(self, now: u32) -> u32 {
        (now - self.last_change_time) as u32
    }

    /// The active player's anchored remaining milliseconds.
    pub open spec fn spec_active_anchor(self) -> u32 {
        if self.turn is P1 {
            self.p1_ms
        } else {
            self.p2_ms
        }
    }

    /// The active player ran past their anchored remaining time.
    pub open spec fn spec_expired(self, now: u32) -> bool {
        self.spec_elapsed(now) > self.spec_active_anchor()
    }

    /// P1's remaining milliseconds as shown this iteration.
    #[verifier::opaque]
    pub open spec fn spec_shown_p1(self, now: u32) -> u32 {
        if self.turn is P1 {
            remaining_ms(self.p1_ms, self.spec_elapsed(now))
        } else {
            self.p1_ms
        }
    }

    /// P2's remaining milliseconds as shown this iteration.
    #[verifier::opaque]
    pub open spec fn spec_shown_p2(self, now: u32) -> u32 {
        if self.turn is P2 {
            remaining_ms(self.p2_ms, self.spec_elapsed(now))
        } else {
            self.p2_ms
        }
    }

    /// The active player's remaining milliseconds as shown this iteration.
    #[verifier::opaque]
    pub open spec fn spec_shown_active(self, now: u32) -> u32 {
        if self.turn is P1 {
            self.spec_shown_p1(now)
        } else {
            self.spec_shown_p2(now)
        }
    }

    /// The state after expiry: the active player's anchor forced to zero,
    /// everything else untouched.
    pub open spec fn spec_expire(self) -> CountdownState {
        if self.turn is P1 {
            CountdownState { p1_ms: 0, ..self }
        } else {
            CountdownState { p2_ms: 0, ..self }
        }
    }

    /// The buzzer cue fires on each whole-second boundary inside the last
    /// ten seconds of the active player's time.
    #[verifier::opaque]
    pub open spec fn spec_buzzer_trigger(self, now: u32) -> bool {
        self.spec_shown_active(now) <= 10000 && self.spec_shown_active(now) % 1000 == 0
    }

    /// A redraw is owed when the turn or either displayed whole-second
    /// value differs from what was last rendered.
    #[verifier::opaque]
    pub open spec fn spec_render_needed(self, now: u32) -> bool {
        self.turn != self.last_turn || spec_time_of_ms(self.spec_shown_p1(now))
            != self.last_p1_time || spec_time_of_ms(self.spec_shown_p2(now)) != self.last_p2_time
    }

    /// The start button reported a falling edge: the player released it,
    /// freezing the round.
    pub open spec fn spec_pause_requested(self, start_pressed: bool) -> bool {
        self.start.spec_edge(start_pressed) == Some(Edge::Falling)
    }

    /// The active P1 hands the turn over: a rising edge of the down button.
    pub open spec fn spec_down_switch(self, down_pressed: bool) -> bool {
        self.down.spec_edge(down_pressed) == Some(Edge::Rising) && self.turn is P1
    }

    /// The active P2 hands the turn over: a rising edge of the up button.
    /// After a same-iteration down switch P2 is the active player, so both
    /// can fire in one iteration.
    pub open spec fn spec_up_switch(self, down_pressed: bool, up_pressed: bool) -> bool {
        self.up.spec_edge(up_pressed) == Some(Edge::Rising) && (self.turn is P2
            || self.spec_down_switch(down_pressed))
    }

    /// A fresh round: both anchors taken from the configured times, the
    /// anchor stamped `now`, the buzzer silent, the last-rendered values
    /// out of range so the first iteration renders, and released buttons.
    pub fn new(p1_time: TimeSetting, p2_time: TimeSetting, turn: Turn, now: u32) -> (r:
        CountdownState)
        ensures
            r.wf(),
            r.turn == turn,
            r.p1_ms == p1_time.0 as int * 1000,
            r.p2_ms == p2_time.0 as int * 1000,
            r.last_change_time == now,
            r.buzzer_ticks == 0,
            r.last_p1_time.0 == u16::MAX,
            r.last_p2_time.0 == u16::MAX,
            r.last_turn == turn,
            r.down == Debouncer::new_spec(false),
            r.up == Debouncer::new_spec(false),
            r.start == Debouncer::new_spec(false),
    {
        CountdownState {
            turn,
            p1_ms: p1_time.into_millis(),
            p2_ms: p2_time.into_millis(),
            last_change_time: now,
            buzzer_ticks: 0,
            last_p1_time: TimeSetting::new(u16::MAX),
            last_p2_time: TimeSetting::new(u16::MAX),
            last_turn: turn,
            down: Debouncer::new(false),
            up: Debouncer::new(false),
            start: Debouncer::new(false),
        }
    }
}

/// One iteration of the countdown loop.
///
/// Expiry is evaluated first and ends the round before any input is read,
/// so an expiring clock cannot be saved by a same-tick button press. While
/// the round runs, the iteration updates the buzzer pulse, decides the lazy
/// redraw, and then reads the buttons: a start release freezes the active
/// player's time and pauses; a rising edge of the active player's button
/// commits their elapsed time, re-anchors both clocks at `now`, emits the
/// turn message, and hands the turn over.
#[verifier::rlimit(100)]
pub fn countdown(st: &mut CountdownState, input: CountdownInput) -> (out: CountdownOutput)
    requires
        old(st).wf(),
        input.now >= old(st).last_change_time,
    ensures
        final(st).wf(),
        old(st).spec_expired(input.now) ==> *final(st) == old(st).spec_expire() && out.done
            && !out.buzzer_off && !out.buzzer_on && !out.render && out.msg1 is None
            && out.msg2 is None,
        !old(st).spec_expired(input.now) ==> out.buzzer_off == (old(st).buzzer_ticks == 1),
        !old(st).spec_expired(input.now) ==> out.buzzer_on == old(st).spec_buzzer_trigger(
            input.now,
        ),
        !old(st).spec_expired(input.now) ==> final(st).buzzer_ticks == (if old(st).spec_buzzer_trigger(input.now) {
            BUZZER_LENGTH as int
        } else if old(st).buzzer_ticks > 0 {
            old(st).buzzer_ticks - 1
        } else {
            0
        }),
        !old(st).spec_expired(input.now) ==> out.render == old(st).spec_render_needed(input.now),
        !old(st).spec_expired(input.now) ==> final(st).last_turn == (if old(st).spec_render_needed(input.now) {
            old(st).turn
        } else {
            old(st).last_turn
        }),
        !old(st).spec_expired(input.now) ==> final(st).last_p1_time == (if old(st).spec_render_needed(input.now) {
            spec_time_of_ms(old(st).spec_shown_p1(input.now))
        } else {
            old(st).last_p1_time
        }),
        !old(st).spec_expired(input.now) ==> final(st).last_p2_time == (if old(st).spec_render_needed(input.now) {
            spec_time_of_ms(old(st).spec_shown_p2(input.now))
        } else {
            old(st).last_p2_time
        }),
        !old(st).spec_expired(input.now) ==> final(st).start == old(st).start.spec_step(
            input.start_pressed,
        ),
        !old(st).spec_expired(input.now) && old(st).spec_pause_requested(input.start_pressed)
            ==> out.done && out.msg1 is None && out.msg2 is None,
        !old(st).spec_expired(input.now) && old(st).spec_pause_requested(input.start_pressed)
            ==> final(st).turn == old(st).turn && final(st).last_change_time == old(st).last_change_time && final(st).down == old(st).down && final(st).up == old(st).up,
        !old(st).spec_expired(input.now) && old(st).spec_pause_requested(input.start_pressed)
            ==> final(st).p1_ms == old(st).spec_shown_p1(input.now) && final(st).p2_ms == old(st).spec_shown_p2(input.now),
        !old(st).spec_expired(input.now) && !old(st).spec_pause_requested(input.start_pressed)
            ==> !out.done && final(st).down == old(st).down.spec_step(input.down_pressed) && final(st).up == old(st).up.spec_step(input.up_pressed),
        !old(st).spec_expired(input.now) && !old(st).spec_pause_requested(input.start_pressed)
            ==> final(st).p1_ms == (if old(st).spec_down_switch(input.down_pressed) {
            old(st).spec_shown_p1(input.now) as int
        } else {
            old(st).p1_ms as int
        }),
        !old(st).spec_expired(input.now) && !old(st).spec_pause_requested(input.start_pressed)
            ==> final(st).p2_ms == (if old(st).spec_up_switch(input.down_pressed, input.up_pressed) {
            if old(st).spec_down_switch(input.down_pressed) {
                old(st).p2_ms as int
            } else {
                old(st).spec_shown_p2(input.now) as int
            }
        } else {
            old(st).p2_ms as int
        }),
        !old(st).spec_expired(input.now) && !old(st).spec_pause_requested(input.start_pressed)
            ==> final(st).turn == (if old(st).spec_up_switch(input.down_pressed, input.up_pressed) {
            Turn::P1
        } else if old(st).spec_down_switch(input.down_pressed) {
            Turn::P2
        } else {
            old(st).turn
        }),
        !old(st).spec_expired(input.now) && !old(st).spec_pause_requested(input.start_pressed)
            ==> final(st).last_change_time == (if old(st).spec_down_switch(input.down_pressed)
            || old(st).spec_up_switch(input.down_pressed, input.up_pressed) {
            input.now
        } else {
            old(st).last_change_time
        }),
        !old(st).spec_expired(input.now) && !old(st).spec_pause_requested(input.start_pressed)
            ==> out.msg1 == (if old(st).spec_down_switch(input.down_pressed) {
            Some(SerialMsg::StartP2 { p1_time: old(st).spec_shown_p1(input.now) })
        } else {
            Option::<SerialMsg>::None
        }),
        !old(st).spec_expired(input.now) && !old(st).spec_pause_requested(input.start_pressed)
            ==> out.msg2 == (if old(st).spec_up_switch(input.down_pressed, input.up_pressed) {
            Some(SerialMsg::StartP1 { p2_time: final(st).p2_ms })
        } else {
            Option::<SerialMsg>::None
        }),
{
    let ghost pre = *st;
    let (expired, new_p1_ms, new_p2_ms) = compute_remaining(st, input.now);
    if expired {
        apply_expiry(st);
        return CountdownOutput {
            buzzer_off: false,
            buzzer_on: false,
            render: false,
            msg1: None,
            msg2: None,
            done: true,
        };
    }
    let (buzzer_off, buzzer_on) = apply_buzzer(
        st,
        new_p1_ms,
        new_p2_ms,
        Ghost(pre),
        Ghost(input.now),
    );
    let render = apply_render(st, new_p1_ms, new_p2_ms, Ghost(pre), Ghost(input.now));
    let (done, msg1, msg2) = read_buttons(st, input, new_p1_ms, new_p2_ms, Ghost(pre));
    CountdownOutput { buzzer_off, buzzer_on, render, msg1, msg2, done }
}

/// Compute whether the active player expired and, if not, both players'
/// shown remaining milliseconds for this iteration.
fn compute_remaining(st: &CountdownState, now: u32) -> (r: (bool, u32, u32))
    requires
        st.wf(),
        now >= st.last_change_time,
    ensures
        r.0 == st.spec_expired(now),
        !st.spec_expired(now) ==> r.1 == st.spec_shown_p1(now) && r.2 == st.spec_shown_p2(now),
        r.1 <= st.p1_ms && r.2 <= st.p2_ms,
{
    let elapsed = now - st.last_change_time;
    let active_anchor = match st.turn {
        Turn::P1 => st.p1_ms,
        Turn::P2 => st.p2_ms,
    };
    if elapsed > active_anchor {
        return (true, 0, 0);
    }
    // A single authoritative remaining-time computation; its result is
    // reused for every later decision of the iteration.
    let new_active_ms = active_anchor - elapsed;
    let new_p1_ms = match st.turn {
        Turn::P1 => new_active_ms,
        Turn::P2 => st.p1_ms,
    };
    let new_p2_ms = match st.turn {
        Turn::P1 => st.p2_ms,
        Turn::P2 => new_active_ms,
    };
    proof {
        assert(new_p1_ms == st.spec_shown_p1(now)) by {
            reveal(CountdownState::spec_shown_p1);
        }
        assert(new_p2_ms == st.spec_shown_p2(now)) by {
            reveal(CountdownState::spec_shown_p2);
        }
    }
    (false, new_p1_ms, new_p2_ms)
}

/// Force the active player's anchored value to zero on expiry.
fn apply_expiry(st: &mut CountdownState)
    ensures
        *final(st) == old(st).spec_expire(),
{
    match st.turn {
        Turn::P1 => st.p1_ms = 0,
        Turn::P2 => st.p2_ms = 0,
    }
}

/// Update the buzzer pulse for one iteration: report whether the previous
/// pulse ends, count it down, and restart it on a whole-second trigger.
fn apply_buzzer(
    st: &mut CountdownState,
    new_p1_ms: u32,
    new_p2_ms: u32,
    Ghost(pre): Ghost<CountdownState>,
    Ghost(now): Ghost<u32>,
) -> (r: (bool, bool))
    requires
        old(st).buzzer_ticks == pre.buzzer_ticks,
        old(st).turn == pre.turn,
        new_p1_ms == pre.spec_shown_p1(now),
        new_p2_ms == pre.spec_shown_p2(now),
    ensures
        r.0 == (pre.buzzer_ticks == 1),
        r.1 == pre.spec_buzzer_trigger(now),
        *final(st) == (CountdownState {
            buzzer_ticks: (if pre.spec_buzzer_trigger(now) {
                BUZZER_LENGTH
            } else if pre.buzzer_ticks > 0 {
                (pre.buzzer_ticks - 1) as u16
            } else {
                0
            }),
            ..*old(st)
        }),
{
    let buzzer_off = st.buzzer_ticks == 1;
    if st.buzzer_ticks > 0 {
        st.buzzer_ticks = st.buzzer_ticks - 1;
    }
    let new_active_ms = match st.turn {
        Turn::P1 => new_p1_ms,
        Turn::P2 => new_p2_ms,
    };
    let buzzer_on = new_active_ms <= 10000 && new_active_ms % 1000 == 0;
    if buzzer_on {
        st.buzzer_ticks = BUZZER_LENGTH;
    }
    proof {
        assert(buzzer_on == pre.spec_buzzer_trigger(now)) by {
            reveal(CountdownState::spec_buzzer_trigger);
            reveal(CountdownState::spec_shown_active);
        }
    }
    (buzzer_off, buzzer_on)
}

/// Decide the lazy redraw for one iteration and record what it shows.
fn apply_render(
    st: &mut CountdownState,
    new_p1_ms: u32,
    new_p2_ms: u32,
    Ghost(pre): Ghost<CountdownState>,
    Ghost(now): Ghost<u32>,
) -> (r: bool)
    requires
        new_p1_ms <= MAX_ANCHOR_MS,
        new_p2_ms <= MAX_ANCHOR_MS,
        old(st).turn == pre.turn,
        old(st).last_turn == pre.last_turn,
        old(st).last_p1_time == pre.last_p1_time,
        old(st).last_p2_time == pre.last_p2_time,
        new_p1_ms == pre.spec_shown_p1(now),
        new_p2_ms == pre.spec_shown_p2(now),
    ensures
        r == pre.spec_render_needed(now),
        *final(st) == (CountdownState {
            last_turn: (if pre.spec_render_needed(now) {
                pre.turn
            } else {
                pre.last_turn
            }),
            last_p1_time: (if pre.spec_render_needed(now) {
                spec_time_of_ms(pre.spec_shown_p1(now))
            } else {
                pre.last_p1_time
            }),
            last_p2_time: (if pre.spec_render_needed(now) {
                spec_time_of_ms(pre.spec_shown_p2(now))
            } else {
                pre.last_p2_time
            }),
            ..*old(st)
        }),
{
    let new_p1_time = convert_time(new_p1_ms);
    let new_p2_time = convert_time(new_p2_ms);
    // Strict lazy redraw: only when something perceptible changed.
    let render = !(st.turn == st.last_turn) || !(new_p1_time == st.last_p1_time) || !(new_p2_time
        == st.last_p2_time);
    proof {
        assert(render == pre.spec_render_needed(now)) by {
            reveal(CountdownState::spec_render_needed);
        }
    }
    if render {
        st.last_turn = st.turn;
        st.last_p1_time = new_p1_time;
        st.last_p2_time = new_p2_time;
    }
    render
}

/// Read the three buttons for one iteration and apply their effect: a start
/// release freezes both values and pauses; a rising edge of the active
/// player's button commits the elapsed time, re-anchors at `now`, and hands
/// the turn over, emitting the matching turn message.
fn read_buttons(
    st: &mut CountdownState,
    input: CountdownInput,
    new_p1_ms: u32,
    new_p2_ms: u32,
    Ghost(pre): Ghost<CountdownState>,
) -> (r: (bool, Option<SerialMsg>, Option<SerialMsg>))
    requires
        old(st).wf(),
        input.now >= old(st).last_change_time,
        old(st).start == pre.start,
        old(st).down == pre.down,
        old(st).up == pre.up,
        old(st).turn == pre.turn,
        old(st).p1_ms == pre.p1_ms,
        old(st).p2_ms == pre.p2_ms,
        old(st).last_change_time == pre.last_change_time,
        !pre.spec_expired(input.now),
        new_p1_ms == pre.spec_shown_p1(input.now),
        new_p2_ms == pre.spec_shown_p2(input.now),
    ensures
        final(st).wf(),
        final(st).buzzer_ticks == old(st).buzzer_ticks,
        final(st).last_turn == old(st).last_turn,
        final(st).last_p1_time == old(st).last_p1_time,
        final(st).last_p2_time == old(st).last_p2_time,
        final(st).start == pre.start.spec_step(input.start_pressed),
        pre.spec_pause_requested(input.start_pressed) ==> r.0 && r.1 is None && r.2 is None
            && final(st).turn == pre.turn && final(st).last_change_time == pre.last_change_time
            && final(st).down == pre.down && final(st).up == pre.up && final(st).p1_ms
            == pre.spec_shown_p1(input.now) && final(st).p2_ms == pre.spec_shown_p2(input.now),
        !pre.spec_pause_requested(input.start_pressed) ==> !r.0 && final(st).down
            == pre.down.spec_step(input.down_pressed) && final(st).up == pre.up.spec_step(
            input.up_pressed,
        ),
        !pre.spec_pause_requested(input.start_pressed) ==> final(st).p1_ms == (if pre.spec_down_switch(input.down_pressed) {
            pre.spec_shown_p1(input.now) as int
        } else {
            pre.p1_ms as int
        }),
        !pre.spec_pause_requested(input.start_pressed) ==> final(st).p2_ms == (if pre.spec_up_switch(input.down_pressed, input.up_pressed) {
            if pre.spec_down_switch(input.down_pressed) {
                pre.p2_ms as int
            } else {
                pre.spec_shown_p2(input.now) as int
            }
        } else {
            pre.p2_ms as int
        }),
        !pre.spec_pause_requested(input.start_pressed) ==> final(st).turn == (if pre.spec_up_switch(input.down_pressed, input.up_pressed) {
            Turn::P1
        } else if pre.spec_down_switch(input.down_pressed) {
            Turn::P2
        } else {
            pre.turn
        }),
        !pre.spec_pause_requested(input.start_pressed) ==> final(st).last_change_time == (if pre.spec_down_switch(input.down_pressed) || pre.spec_up_switch(input.down_pressed, input.up_pressed) {
            input.now as int
        } else {
            pre.last_change_time as int
        }),
        !pre.spec_pause_requested(input.start_pressed) ==> r.1 == (if pre.spec_down_switch(input.down_pressed) {
            Some(SerialMsg::StartP2 { p1_time: pre.spec_shown_p1(input.now) })
        } else {
            Option::<SerialMsg>::None
        }),
        !pre.spec_pause_requested(input.start_pressed) ==> r.2 == (if pre.spec_up_switch(input.down_pressed, input.up_pressed) {
            Some(SerialMsg::StartP1 { p2_time: final(st).p2_ms })
        } else {
            Option::<SerialMsg>::None
        }),
{
    proof {
        reveal(CountdownState::spec_shown_p1);
        reveal(CountdownState::spec_shown_p2);
    }
    let elapsed = input.now - st.last_change_time;
    let start_edge = st.start.update(input.start_pressed);
    let start_released = match start_edge {
        Some(Edge::Falling) => true,
        _ => false,
    };
    proof {
        assert(start_released == pre.spec_pause_requested(input.start_pressed));
    }
    if start_released {
        // Freeze the active player's time at the just-computed value.
        st.p1_ms = new_p1_ms;
        st.p2_ms = new_p2_ms;
        return (true, None, None);
    }

    let mut msg1: Option<SerialMsg> = None;
    let mut msg2: Option<SerialMsg> = None;
    // Milliseconds not yet charged against the active player; zero once the
    // clocks were re-anchored at `now`.
    let mut elapsed_left = elapsed;

    let down_edge = st.down.update(input.down_pressed);
    let down_rising = match down_edge {
        Some(Edge::Rising) => true,
        _ => false,
    };
    proof {
        assert((down_rising && st.turn == Turn::P1) == pre.spec_down_switch(input.down_pressed));
    }
    if down_rising && st.turn == Turn::P1 {
        st.p1_ms = new_p1_ms;
        msg1 = Some(SerialMsg::StartP2 { p1_time: st.p1_ms });
        st.last_change_time = input.now;
        st.turn = Turn::P2;
        elapsed_left = 0;
    }

    let up_edge = st.up.update(input.up_pressed);
    let up_rising = match up_edge {
        Some(Edge::Rising) => true,
        _ => false,
    };
    proof {
        assert((up_rising && st.turn == Turn::P2) == pre.spec_up_switch(
            input.down_pressed,
            input.up_pressed,
        ));
    }
    if up_rising && st.turn == Turn::P2 {
        st.p2_ms = st.p2_ms - elapsed_left;
        msg2 = Some(SerialMsg::StartP1 { p2_time: st.p2_ms });
        st.last_change_time = input.now;
        st.turn = Turn::P1;
    }

    (false, msg1, msg2)
}

/// Write both players' frozen millisecond values back as whole-second time
/// values and name the round's outcome: a player at zero lost (P1 takes
/// precedence), otherwise the round merely paused.
pub fn finish_countdown(
    p1_ms: u32,
    p2_ms: u32,
    p1_time: &mut TimeSetting,
    p2_time: &mut TimeSetting,
) -> (r: CountdownResult)
    requires
        p1_ms <= MAX_ANCHOR_MS,
        p2_ms <= MAX_ANCHOR_MS,
    ensures
        *final(p1_time) == spec_time_of_ms(p1_ms),
        *final(p2_time) == spec_time_of_ms(p2_ms),
        final(p1_time).0 == p1_ms as int / 1000,
        final(p2_time).0 == p2_ms as int / 1000,
        r == (if p1_ms == 0 {
            CountdownResult::FinishedP1
        } else if p2_ms == 0 {
            CountdownResult::FinishedP2
        } else {
            CountdownResult::Paused
        }),
{
    proof {
        reveal(spec_time_of_ms);
    }
    *p1_time = convert_time(p1_ms);
    *p2_time = convert_time(p2_ms);
    if p1_ms == 0 {
        CountdownResult::FinishedP1
    } else if p2_ms == 0 {
        CountdownResult::FinishedP2
    } else {
        CountdownResult::Paused
    }
}

/// Countdown monotonicity: against a fixed anchored value, a larger elapsed
/// time never yields a larger remaining time, and the remaining time is
/// exactly zero as soon as the elapsed time reaches the anchored value.
pub proof fn lemma_remaining_monotonic(anchor: u32, e1: u32, e2: u32)
    requires
        e1 <= e2,
    ensures
        remaining_ms(anchor, e2) <= remaining_ms(anchor, e1),
        e2 >= anchor ==> remaining_ms(anchor, e2) == 0,
{
}

} // verus!
