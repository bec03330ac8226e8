//! Time setup: the bounded countdown-time value type and the time-set
//! sub-machine that lets the players configure their initial times.

use vstd::prelude::*;

use crate::debounce::{Debouncer, Edge};

verus! {

/// Which digit group of the two configured times is being edited.
#[derive(PartialEq, Eq, Structural, Clone, Copy, Debug)]
pub enum TimeSetPart {
    P1SetMin,
    P1SetSec,
    P2SetMin,
    P2SetSec,
}

/// A seconds count meant to stay in `[0, MAX_TIME]` (just under ten hours).
///
/// Arithmetic enforces the bound by wrapping: an addition that would pass
/// `MAX_TIME` rolls back to zero, a subtraction that would pass zero wraps to
/// `MAX_TIME`. The constructor itself does not clamp; out-of-range values are
/// used only as sentinels that force a first render.
#[derive(PartialEq, Eq, Structural, Clone, Copy, Debug)]
pub struct TimeSetting(pub u16);

impl TimeSetting {
    /// Largest settable seconds value: one second under ten hours.
    pub const MAX_TIME: u16 = 60 * 60 * 10 - 1;

    pub fn new(seconds: u16) -> (r: TimeSetting)
        ensures
            r.0 == seconds,
    {
        TimeSetting(seconds)
    }

    /// Decompose into whole hours, minutes and seconds.
    pub fn into_hrs_mins_secs(&self) -> (r: (u8, u8, u8))
        ensures
            r.0 == self.0 as int / 3600,
            r.1 == (self.0 as int / 60) % 60,
            r.2 == self.0 as int % 60,
    {
        ((self.0 / (60 * 60)) as u8, ((self.0 / 60) % 60) as u8, (self.0 % 60) as u8)
    }

    /// The value in milliseconds, widened so the product cannot overflow.
    pub fn into_millis(&self) -> (r: u32)
        ensures
            r == self.0 as int * 1000,
    {
        self.0 as u32 * 1000
    }

    /// The value after a wrapping addition: past `MAX_TIME` it is zero.
    pub open spec fn spec_add_wrap(self, rhs: u16) -> TimeSetting {
        if self.0 + rhs <= TimeSetting::MAX_TIME {
            TimeSetting((self.0 + rhs) as u16)
        } else {
            TimeSetting(0)
        }
    }

    /// The value after a wrapping subtraction: below zero it is `MAX_TIME`.
    pub open spec fn spec_sub_wrap(self, rhs: u16) -> TimeSetting {
        if self.0 >= rhs {
            TimeSetting((self.0 - rhs) as u16)
        } else {
            TimeSetting(TimeSetting::MAX_TIME)
        }
    }

    /// Add seconds; a result past `MAX_TIME` (numeric overflow included)
    /// rolls back to zero.
    pub fn add_assign(&mut self, rhs: u16)
        ensures
            *final(self) == old(self).spec_add_wrap(rhs),
            old(self).0 + rhs <= TimeSetting::MAX_TIME ==> final(self).0 == old(self).0 + rhs,
            old(self).0 + rhs > TimeSetting::MAX_TIME ==> final(self).0 == 0,
    {
        let sum: u32 = self.0 as u32 + rhs as u32;
        if sum <= TimeSetting::MAX_TIME as u32 {
            self.0 = sum as u16;
        } else {
            self.0 = 0;
        }
    }

    /// Subtract seconds; a result below zero wraps to `MAX_TIME`.
    pub fn sub_assign(&mut self, rhs: u16)
        ensures
            *final(self) == old(self).spec_sub_wrap(rhs),
            old(self).0 >= rhs ==> final(self).0 == old(self).0 - rhs,
            old(self).0 < rhs ==> final(self).0 == TimeSetting::MAX_TIME,
    {
        if self.0 >= rhs {
            self.0 = self.0 - rhs;
        } else {
            self.0 = TimeSetting::MAX_TIME;
        }
    }
}

/// Loop ticks of one blink half-cycle while editing.
pub const BLINK_DURATION: u16 = 100;

/// Loop ticks a button must stay held before auto-repeat begins.
pub const HOLD_THRESHOLD: u16 = 150;

/// Loop ticks between the hold counter's cap and the threshold, so a
/// release and re-press restarts the delay.
pub const REPEAT_THRESHOLD: u16 = 20;

/// Inter-iteration delay in milliseconds when nothing was rendered.
pub const LOOP_DELAY: u16 = 5;

impl TimeSetPart {
    /// The edited digit group belongs to P1.
    pub open spec fn spec_targets_p1(self) -> bool {
        self is P1SetMin || self is P1SetSec
    }

    /// Seconds one discrete press adjusts by: a minute in the minutes
    /// groups, a second in the seconds groups.
    pub open spec fn spec_press_step(self) -> u16 {
        match self {
            TimeSetPart::P1SetMin => 60,
            TimeSetPart::P1SetSec => 1,
            TimeSetPart::P2SetMin => 60,
            TimeSetPart::P2SetSec => 1,
        }
    }

    /// Seconds one auto-repeat tick adjusts by: a minute in the minutes
    /// groups, five seconds in the seconds groups.
    pub open spec fn spec_hold_step(self) -> u16 {
        match self {
            TimeSetPart::P1SetMin => 60,
            TimeSetPart::P1SetSec => 5,
            TimeSetPart::P2SetMin => 60,
            TimeSetPart::P2SetSec => 5,
        }
    }
}

/// State of the time-set sub-machine: the digit group being edited, both
/// configured times, the three button filters with the up/down hold
/// counters, the blink counter, and what was last rendered.
pub struct TimeSetState {
    pub part: TimeSetPart,
    pub p1_setting: TimeSetting,
    pub p2_setting: TimeSetting,
    pub down: Debouncer,
    pub down_hold: u16,
    pub up: Debouncer,
    pub up_hold: u16,
    pub start: Debouncer,
    /// Loop ticks into the current blink cycle.
    pub blink_count: u16,
    pub last_p1_setting: TimeSetting,
    pub last_p2_setting: TimeSetting,
    /// The digit group blanked by the render that last happened, if any.
    pub last_blink: Option<TimeSetPart>,
}

/// What one time-set iteration asks of the caller: whether the sub-machine
/// finished (both times configured), and whether to redraw the time row.
pub struct TimeSetOutput {
    pub done: bool,
    pub render: bool,
}

impl TimeSetState {
    /// Counters inside their caps; holds from construction on.
    pub open spec fn wf(self) -> bool {
        self.up_hold <= HOLD_THRESHOLD + REPEAT_THRESHOLD && self.down_hold <= HOLD_THRESHOLD
            + REPEAT_THRESHOLD && self.blink_count < 2 * BLINK_DURATION
    }

    /// The up button reported a rising edge this iteration.
    pub open spec fn spec_up_press(self, up_pressed: bool) -> bool {
        self.up.spec_edge(up_pressed) == Some(Edge::Rising)
    }

    /// The up hold counter sits exactly at the threshold: one auto-repeat
    /// adjustment fires.
    pub open spec fn spec_up_hold_fire(self, up_pressed: bool) -> bool {
        !self.spec_up_press(up_pressed) && self.up_hold == HOLD_THRESHOLD
    }

    /// Seconds the up button adds this iteration, if any.
    pub open spec fn spec_up_delta(self, up_pressed: bool) -> Option<u16> {
        if self.spec_up_press(up_pressed) {
            Some(self.part.spec_press_step())
        } else if self.spec_up_hold_fire(up_pressed) {
            Some(self.part.spec_hold_step())
        } else {
            None
        }
    }

    /// The up hold counter after one iteration: zeroed by a press, stepped
    /// past the threshold by a repeat, counted while the button sits
    /// pressed, and capped so a release restarts the delay.
    pub open spec fn spec_up_hold_after(self, up_pressed: bool) -> u16 {
        let h1: u16 = if self.spec_up_press(up_pressed) {
            0
        } else {
            self.up_hold
        };
        let h2: u16 = if self.spec_up_hold_fire(up_pressed) {
            (h1 + 1) as u16
        } else {
            h1
        };
        let h3: u16 = if self.up.spec_step(up_pressed).spec_all_at(true) {
            (h2 + 1) as u16
        } else {
            h2
        };
        if h3 >= HOLD_THRESHOLD + REPEAT_THRESHOLD {
            HOLD_THRESHOLD
        } else {
            h3
        }
    }

    /// The down button reported a rising edge this iteration.
    pub open spec fn spec_down_press(self, down_pressed: bool) -> bool {
        self.down.spec_edge(down_pressed) == Some(Edge::Rising)
    }

    /// The down hold counter sits exactly at the threshold.
    pub open spec fn spec_down_hold_fire(self, down_pressed: bool) -> bool {
        !self.spec_down_press(down_pressed) && self.down_hold == HOLD_THRESHOLD
    }

    /// Seconds the down button subtracts this iteration, if any.
    pub open spec fn spec_down_delta(self, down_pressed: bool) -> Option<u16> {
        if self.spec_down_press(down_pressed) {
            Some(self.part.spec_press_step())
        } else if self.spec_down_hold_fire(down_pressed) {
            Some(self.part.spec_hold_step())
        } else {
            None
        }
    }

    /// The down hold counter after one iteration.
    pub open spec fn spec_down_hold_after(self, down_pressed: bool) -> u16 {
        let h1: u16 = if self.spec_down_press(down_pressed) {
            0
        } else {
            self.down_hold
        };
        let h2: u16 = if self.spec_down_hold_fire(down_pressed) {
            (h1 + 1) as u16
        } else {
            h1
        };
        let h3: u16 = if self.down.spec_step(down_pressed).spec_all_at(true) {
            (h2 + 1) as u16
        } else {
            h2
        };
        if h3 >= HOLD_THRESHOLD + REPEAT_THRESHOLD {
            HOLD_THRESHOLD
        } else {
            h3
        }
    }

    /// P1's configured time after this iteration's adjustments: the up
    /// button adds, then the down button subtracts, both wrapping.
    pub open spec fn spec_p1_after(self, down_pressed: bool, up_pressed: bool) -> TimeSetting {
        if self.part.spec_targets_p1() {
            let a = match self.spec_up_delta(up_pressed) {
                Some(d) => self.p1_setting.spec_add_wrap(d),
                None => self.p1_setting,
            };
            match self.spec_down_delta(down_pressed) {
                Some(d) => a.spec_sub_wrap(d),
                None => a,
            }
        } else {
            self.p1_setting
        }
    }

    /// P2's configured time after this iteration's adjustments.
    pub open spec fn spec_p2_after(self, down_pressed: bool, up_pressed: bool) -> TimeSetting {
        if !self.part.spec_targets_p1() {
            let a = match self.spec_up_delta(up_pressed) {
                Some(d) => self.p2_setting.spec_add_wrap(d),
                None => self.p2_setting,
            };
            match self.spec_down_delta(down_pressed) {
                Some(d) => a.spec_sub_wrap(d),
                None => a,
            }
        } else {
            self.p2_setting
        }
    }

    /// Some adjustment happened, which restarts the blink cycle.
    pub open spec fn spec_adjusted(self, down_pressed: bool, up_pressed: bool) -> bool {
        self.spec_up_delta(up_pressed) is Some || self.spec_down_delta(down_pressed) is Some
    }

    /// The blink phase shows blanked digits this iteration.
    pub open spec fn spec_blink_on(self) -> bool {
        self.blink_count + 1 >= BLINK_DURATION
    }

    /// The blink counter after this iteration: restarted by an adjustment,
    /// wrapped at a full cycle, else advanced.
    pub open spec fn spec_blink_count_after(self, down_pressed: bool, up_pressed: bool) -> u16 {
        if self.spec_adjusted(down_pressed, up_pressed) {
            0
        } else if self.blink_count + 1 >= 2 * BLINK_DURATION {
            0
        } else {
            (self.blink_count + 1) as u16
        }
    }

    /// The start button reported a falling edge from the last digit group:
    /// the sub-machine finishes.
    pub open spec fn spec_done(self, start_pressed: bool) -> bool {
        self.start.spec_edge(start_pressed) == Some(Edge::Falling) && self.part is P2SetSec
    }

    /// The digit group being edited after this iteration: a start release
    /// advances to the next group.
    pub open spec fn spec_part_after(self, start_pressed: bool) -> TimeSetPart {
        if self.start.spec_edge(start_pressed) == Some(Edge::Falling) {
            match self.part {
                TimeSetPart::P1SetMin => TimeSetPart::P1SetSec,
                TimeSetPart::P1SetSec => TimeSetPart::P2SetMin,
                TimeSetPart::P2SetMin => TimeSetPart::P2SetSec,
                TimeSetPart::P2SetSec => TimeSetPart::P2SetSec,
            }
        } else {
            self.part
        }
    }

    /// The digit group a render would blank this iteration: the edited one
    /// in the blanking blink phase, none otherwise.
    pub open spec fn spec_new_blink(self, start_pressed: bool) -> Option<TimeSetPart> {
        if self.spec_blink_on() {
            Some(self.spec_part_after(start_pressed))
        } else {
            None
        }
    }

    /// A redraw is owed when either configured time or the blanked digit
    /// group differs from what was last rendered.
    pub open spec fn spec_render_needed(
        self,
        down_pressed: bool,
        up_pressed: bool,
        start_pressed: bool,
    ) -> bool {
        self.spec_p1_after(down_pressed, up_pressed) != self.last_p1_setting || self.spec_p2_after(
            down_pressed,
            up_pressed,
        ) != self.last_p2_setting || self.spec_new_blink(start_pressed) != self.last_blink
    }

    /// A fresh sub-machine: editing P1's minutes, both times zero, released
    /// buttons, and last-rendered values that force a first render.
    pub fn new() -> (r: TimeSetState)
        ensures
            r.wf(),
            r.part == TimeSetPart::P1SetMin,
            r.p1_setting.0 == 0,
            r.p2_setting.0 == 0,
            r.down == Debouncer::new_spec(false),
            r.down_hold == 0,
            r.up == Debouncer::new_spec(false),
            r.up_hold == 0,
            r.start == Debouncer::new_spec(false),
            r.blink_count == 0,
            r.last_p1_setting.0 == u16::MAX,
            r.last_p2_setting.0 == u16::MAX,
            r.last_blink == Some(TimeSetPart::P1SetMin),
    {
        TimeSetState {
            part: TimeSetPart::P1SetMin,
            p1_setting: TimeSetting::new(0),
            p2_setting: TimeSetting::new(0),
            down: Debouncer::new(false),
            down_hold: 0,
            up: Debouncer::new(false),
            up_hold: 0,
            start: Debouncer::new(false),
            blink_count: 0,
            last_p1_setting: TimeSetting::new(u16::MAX),
            last_p2_setting: TimeSetting::new(u16::MAX),
            last_blink: Some(TimeSetPart::P1SetMin),
        }
    }
}

/// Advance the blink counter one tick, wrapping after a full cycle, and
/// report whether this iteration is in the blanking phase.
fn tick_blink(st: &mut TimeSetState) -> (blink: bool)
    requires
        old(st).wf(),
    ensures
        final(st).wf(),
        blink == old(st).spec_blink_on(),
        *final(st) == (TimeSetState {
            blink_count: (if old(st).blink_count + 1 >= 2 * BLINK_DURATION {
                0u16
            } else {
                (old(st).blink_count + 1) as u16
            }),
            ..*old(st)
        }),
{
    st.blink_count = st.blink_count + 1;
    let blink = st.blink_count >= BLINK_DURATION;
    if st.blink_count >= 2 * BLINK_DURATION {
        st.blink_count = 0;
    }
    blink
}

/// Read the up button and apply its adjustment: a discrete press adds one
/// step and restarts the hold delay; holding past the threshold repeats at
/// the larger step; either restarts the blink cycle.
#[verifier::rlimit(100)]
fn handle_up(st: &mut TimeSetState, up_pressed: bool, Ghost(pre): Ghost<TimeSetState>)
    requires
        old(st).wf(),
        old(st).up == pre.up,
        old(st).up_hold == pre.up_hold,
        old(st).part == pre.part,
        old(st).p1_setting == pre.p1_setting,
        old(st).p2_setting == pre.p2_setting,
    ensures
        final(st).wf(),
        *final(st) == (TimeSetState {
            up: pre.up.spec_step(up_pressed),
            up_hold: pre.spec_up_hold_after(up_pressed),
            p1_setting: (if pre.part.spec_targets_p1() {
                match pre.spec_up_delta(up_pressed) {
                    Some(d) => pre.p1_setting.spec_add_wrap(d),
                    None => pre.p1_setting,
                }
            } else {
                pre.p1_setting
            }),
            p2_setting: (if !pre.part.spec_targets_p1() {
                match pre.spec_up_delta(up_pressed) {
                    Some(d) => pre.p2_setting.spec_add_wrap(d),
                    None => pre.p2_setting,
                }
            } else {
                pre.p2_setting
            }),
            blink_count: (if pre.spec_up_delta(up_pressed) is Some {
                0u16
            } else {
                old(st).blink_count
            }),
            ..*old(st)
        }),
{
    let edge = st.up.update(up_pressed);
    let press = match edge {
        Some(Edge::Rising) => true,
        _ => false,
    };
    if press {
        match st.part {
            TimeSetPart::P1SetMin => st.p1_setting.add_assign(60),
            TimeSetPart::P1SetSec => st.p1_setting.add_assign(1),
            TimeSetPart::P2SetMin => st.p2_setting.add_assign(60),
            TimeSetPart::P2SetSec => st.p2_setting.add_assign(1),
        }
        st.up_hold = 0;
        st.blink_count = 0;
    }
    if st.up_hold == HOLD_THRESHOLD {
        match st.part {
            TimeSetPart::P1SetMin => st.p1_setting.add_assign(60),
            TimeSetPart::P1SetSec => st.p1_setting.add_assign(5),
            TimeSetPart::P2SetMin => st.p2_setting.add_assign(60),
            TimeSetPart::P2SetSec => st.p2_setting.add_assign(5),
        }
        st.blink_count = 0;
        st.up_hold = st.up_hold + 1;
    }
    if st.up.is_high() {
        st.up_hold = st.up_hold + 1;
    }
    if st.up_hold >= HOLD_THRESHOLD + REPEAT_THRESHOLD {
        st.up_hold = HOLD_THRESHOLD;
    }
}

/// Read the down button and apply its adjustment, mirroring the up button
/// with a wrapping subtraction.
#[verifier::rlimit(100)]
fn handle_down(st: &mut TimeSetState, down_pressed: bool, Ghost(pre): Ghost<TimeSetState>)
    requires
        old(st).wf(),
        old(st).down == pre.down,
        old(st).down_hold == pre.down_hold,
        old(st).part == pre.part,
    ensures
        final(st).wf(),
        *final(st) == (TimeSetState {
            down: pre.down.spec_step(down_pressed),
            down_hold: pre.spec_down_hold_after(down_pressed),
            p1_setting: (if pre.part.spec_targets_p1() {
                match pre.spec_down_delta(down_pressed) {
                    Some(d) => old(st).p1_setting.spec_sub_wrap(d),
                    None => old(st).p1_setting,
                }
            } else {
                old(st).p1_setting
            }),
            p2_setting: (if !pre.part.spec_targets_p1() {
                match pre.spec_down_delta(down_pressed) {
                    Some(d) => old(st).p2_setting.spec_sub_wrap(d),
                    None => old(st).p2_setting,
                }
            } else {
                old(st).p2_setting
            }),
            blink_count: (if pre.spec_down_delta(down_pressed) is Some {
                0u16
            } else {
                old(st).blink_count
            }),
            ..*old(st)
        }),
{
    let edge = st.down.update(down_pressed);
    let press = match edge {
        Some(Edge::Rising) => true,
        _ => false,
    };
    if press {
        match st.part {
            TimeSetPart::P1SetMin => st.p1_setting.sub_assign(60),
            TimeSetPart::P1SetSec => st.p1_setting.sub_assign(1),
            TimeSetPart::P2SetMin => st.p2_setting.sub_assign(60),
            TimeSetPart::P2SetSec => st.p2_setting.sub_assign(1),
        }
        st.down_hold = 0;
        st.blink_count = 0;
    }
    if st.down_hold == HOLD_THRESHOLD {
        match st.part {
            TimeSetPart::P1SetMin => st.p1_setting.sub_assign(60),
            TimeSetPart::P1SetSec => st.p1_setting.sub_assign(5),
            TimeSetPart::P2SetMin => st.p2_setting.sub_assign(60),
            TimeSetPart::P2SetSec => st.p2_setting.sub_assign(5),
        }
        st.blink_count = 0;
        st.down_hold = st.down_hold + 1;
    }
    if st.down.is_high() {
        st.down_hold = st.down_hold + 1;
    }
    if st.down_hold >= HOLD_THRESHOLD + REPEAT_THRESHOLD {
        st.down_hold = HOLD_THRESHOLD;
    }
}

/// Read the start button: a release advances to the next digit group, and
/// from the last group finishes the sub-machine.
fn handle_start(st: &mut TimeSetState, start_pressed: bool, Ghost(pre): Ghost<TimeSetState>) -> (
    done: bool
)
    requires
        old(st).start == pre.start,
        old(st).part == pre.part,
    ensures
        done == pre.spec_done(start_pressed),
        *final(st) == (TimeSetState {
            start: pre.start.spec_step(start_pressed),
            part: pre.spec_part_after(start_pressed),
            ..*old(st)
        }),
{
    let edge = st.start.update(start_pressed);
    let released = match edge {
        Some(Edge::Falling) => true,
        _ => false,
    };
    if released {
        match st.part {
            TimeSetPart::P1SetMin => st.part = TimeSetPart::P1SetSec,
            TimeSetPart::P1SetSec => st.part = TimeSetPart::P2SetMin,
            TimeSetPart::P2SetMin => st.part = TimeSetPart::P2SetSec,
            TimeSetPart::P2SetSec => {
                return true;
            },
        }
    }
    false
}

/// Decide the lazy redraw of the time row and record what it shows.
fn apply_render(
    st: &mut TimeSetState,
    blink: bool,
    down_pressed: bool,
    up_pressed: bool,
    start_pressed: bool,
    Ghost(pre): Ghost<TimeSetState>,
) -> (render: bool)
    requires
        old(st).p1_setting == pre.spec_p1_after(down_pressed, up_pressed),
        old(st).p2_setting == pre.spec_p2_after(down_pressed, up_pressed),
        old(st).part == pre.spec_part_after(start_pressed),
        old(st).last_p1_setting == pre.last_p1_setting,
        old(st).last_p2_setting == pre.last_p2_setting,
        old(st).last_blink == pre.last_blink,
        blink == pre.spec_blink_on(),
    ensures
        render == pre.spec_render_needed(down_pressed, up_pressed, start_pressed),
        *final(st) == (TimeSetState {
            last_p1_setting: (if pre.spec_render_needed(down_pressed, up_pressed, start_pressed) {
                pre.spec_p1_after(down_pressed, up_pressed)
            } else {
                pre.last_p1_setting
            }),
            last_p2_setting: (if pre.spec_render_needed(down_pressed, up_pressed, start_pressed) {
                pre.spec_p2_after(down_pressed, up_pressed)
            } else {
                pre.last_p2_setting
            }),
            last_blink: (if pre.spec_render_needed(down_pressed, up_pressed, start_pressed) {
                pre.spec_new_blink(start_pressed)
            } else {
                pre.last_blink
            }),
            ..*old(st)
        }),
{
    let new_blink = if blink {
        Some(st.part)
    } else {
        None
    };
    let same_blink = match (new_blink, st.last_blink) {
        (None, None) => true,
        (Some(a), Some(b)) => a == b,
        _ => false,
    };
    let render = !(st.p1_setting == st.last_p1_setting) || !(st.p2_setting == st.last_p2_setting)
        || !same_blink;
    proof {
        assert(render == pre.spec_render_needed(down_pressed, up_pressed, start_pressed));
    }
    if render {
        st.last_p1_setting = st.p1_setting;
        st.last_p2_setting = st.p2_setting;
        st.last_blink = new_blink;
    }
    render
}

/// One iteration of the time-set loop.
///
/// The blink counter advances first; then each button is read once: the up
/// and down buttons adjust the edited digit group (discrete press, or
/// auto-repeat past the hold threshold), and a start release advances to
/// the next group, finishing the sub-machine from the last one. Unless the
/// sub-machine finished, the iteration ends by deciding the lazy redraw.
pub fn time_set(
    st: &mut TimeSetState,
    down_pressed: bool,
    up_pressed: bool,
    start_pressed: bool,
) -> (out: TimeSetOutput)
    requires
        old(st).wf(),
    ensures
        final(st).wf(),
        out.done == old(st).spec_done(start_pressed),
        final(st).up == old(st).up.spec_step(up_pressed),
        final(st).down == old(st).down.spec_step(down_pressed),
        final(st).start == old(st).start.spec_step(start_pressed),
        final(st).up_hold == old(st).spec_up_hold_after(up_pressed),
        final(st).down_hold == old(st).spec_down_hold_after(down_pressed),
        final(st).p1_setting == old(st).spec_p1_after(down_pressed, up_pressed),
        final(st).p2_setting == old(st).spec_p2_after(down_pressed, up_pressed),
        final(st).blink_count == old(st).spec_blink_count_after(down_pressed, up_pressed),
        final(st).part == old(st).spec_part_after(start_pressed),
        out.done ==> !out.render && final(st).last_p1_setting == old(st).last_p1_setting && final(st).last_p2_setting == old(st).last_p2_setting && final(st).last_blink == old(st).last_blink,
        !out.done ==> out.render == old(st).spec_render_needed(
            down_pressed,
            up_pressed,
            start_pressed,
        ),
        !out.done ==> final(st).last_p1_setting == (if old(st).spec_render_needed(
            down_pressed,
            up_pressed,
            start_pressed,
        ) {
            old(st).spec_p1_after(down_pressed, up_pressed)
        } else {
            old(st).last_p1_setting
        }),
        !out.done ==> final(st).last_p2_setting == (if old(st).spec_render_needed(
            down_pressed,
            up_pressed,
            start_pressed,
        ) {
            old(st).spec_p2_after(down_pressed, up_pressed)
        } else {
            old(st).last_p2_setting
        }),
        !out.done ==> final(st).last_blink == (if old(st).spec_render_needed(
            down_pressed,
            up_pressed,
            start_pressed,
        ) {
            old(st).spec_new_blink(start_pressed)
        } else {
            old(st).last_blink
        }),
{
    let ghost pre = *st;
    let blink = tick_blink(st);
    handle_up(st, up_pressed, Ghost(pre));
    handle_down(st, down_pressed, Ghost(pre));
    proof {
        assert(st.p1_setting == pre.spec_p1_after(down_pressed, up_pressed));
        assert(st.p2_setting == pre.spec_p2_after(down_pressed, up_pressed));
        assert(st.blink_count == pre.spec_blink_count_after(down_pressed, up_pressed));
    }
    let done = handle_start(st, start_pressed, Ghost(pre));
    if done {
        return TimeSetOutput { done: true, render: false };
    }
    let render = apply_render(st, blink, down_pressed, up_pressed, start_pressed, Ghost(pre));
    TimeSetOutput { done: false, render }
}

/// The ASCII digit of a single decimal value.
pub open spec fn spec_digit(d: int) -> u8 {
    (48 + d) as u8
}

/// A two-digit zero-padded decimal field.
pub open spec fn spec_two_digits(v: int) -> Seq<u8> {
    seq![spec_digit(v / 10), spec_digit(v % 10)]
}

/// An `H:MM:` field: the hour clamped to one digit for the fixed-width
/// row, then the two-digit minutes.
pub open spec fn spec_hr_min_cells(t: TimeSetting) -> Seq<u8> {
    seq![
        spec_digit(if t.0 as int / 3600 > 9 {
            9
        } else {
            t.0 as int / 3600
        }),
        58u8,
    ] + spec_two_digits((t.0 as int / 60) % 60) + seq![58u8]
}

/// The sixteen bytes of the time row: both times as `H:MM:SS`, two spaces
/// between them, with the digit group being blanked replaced by spaces.
pub open spec fn spec_render_time(
    p1_time: TimeSetting,
    p2_time: TimeSetting,
    blink_off_part: Option<TimeSetPart>,
) -> Seq<u8> {
    (if blink_off_part == Some(TimeSetPart::P1SetMin) {
        seq![32u8, 58u8, 32u8, 32u8, 58u8]
    } else {
        spec_hr_min_cells(p1_time)
    }) + (if blink_off_part == Some(TimeSetPart::P1SetSec) {
        seq![32u8, 32u8, 32u8, 32u8]
    } else {
        spec_two_digits(p1_time.0 as int % 60) + seq![32u8, 32u8]
    }) + (if blink_off_part == Some(TimeSetPart::P2SetMin) {
        seq![32u8, 58u8, 32u8, 32u8, 58u8]
    } else {
        spec_hr_min_cells(p2_time)
    }) + (if blink_off_part == Some(TimeSetPart::P2SetSec) {
        seq![32u8, 32u8]
    } else {
        spec_two_digits(p2_time.0 as int % 60)
    })
}

/// Append a two-digit zero-padded decimal field.
fn push_two_digits(out: &mut Vec<u8>, v: u8)
    requires
        v < 100,
    ensures
        final(out)@ == old(out)@ + spec_two_digits(v as int),
{
    out.push(48 + v / 10);
    out.push(48 + v % 10);
    proof {
        assert(out@ =~= old(out)@ + spec_two_digits(v as int));
    }
}

/// Append one player's `H:MM:` cells and, unless blanked, the seconds.
fn push_time_cells(out: &mut Vec<u8>, t: &TimeSetting, blank_min: bool, blank_sec: bool)
    ensures
        final(out)@ == old(out)@ + (if blank_min {
            seq![32u8, 58u8, 32u8, 32u8, 58u8]
        } else {
            spec_hr_min_cells(*t)
        }) + (if blank_sec {
            Seq::<u8>::empty()
        } else {
            spec_two_digits(t.0 as int % 60)
        }),
{
    let ghost orig = out@;
    let (hrs, mins, secs) = t.into_hrs_mins_secs();
    if blank_min {
        out.push(32);
        out.push(58);
        out.push(32);
        out.push(32);
        out.push(58);
    } else {
        let h = if hrs > 9 {
            9
        } else {
            hrs
        };
        out.push(48 + h);
        out.push(58);
        push_two_digits(out, mins);
        out.push(58);
    }
    proof {
        assert(out@ =~= orig + (if blank_min {
            seq![32u8, 58u8, 32u8, 32u8, 58u8]
        } else {
            spec_hr_min_cells(*t)
        }));
    }
    if !blank_sec {
        push_two_digits(out, secs);
    }
}

/// The sixteen bytes of the time row showing both configured times, with
/// the digit group being edited blanked in the blink phase that hides it.
pub fn render_time(
    p1_time: &TimeSetting,
    p2_time: &TimeSetting,
    blink_off_part: Option<TimeSetPart>,
) -> (r: Vec<u8>)
    ensures
        r@ == spec_render_time(*p1_time, *p2_time, blink_off_part),
{
    let mut out: Vec<u8> = Vec::new();
    let blank_p1_min = match blink_off_part {
        Some(TimeSetPart::P1SetMin) => true,
        _ => false,
    };
    let blank_p1_sec = match blink_off_part {
        Some(TimeSetPart::P1SetSec) => true,
        _ => false,
    };
    let blank_p2_min = match blink_off_part {
        Some(TimeSetPart::P2SetMin) => true,
        _ => false,
    };
    let blank_p2_sec = match blink_off_part {
        Some(TimeSetPart::P2SetSec) => true,
        _ => false,
    };
    push_time_cells(&mut out, p1_time, blank_p1_min, blank_p1_sec);
    if blank_p1_sec {
        out.push(32);
        out.push(32);
    }
    out.push(32);
    out.push(32);
    push_time_cells(&mut out, p2_time, blank_p2_min, blank_p2_sec);
    if blank_p2_sec {
        out.push(32);
        out.push(32);
    }
    proof {
        assert(out@ =~= spec_render_time(*p1_time, *p2_time, blink_off_part));
    }
    out
}

} // verus!
