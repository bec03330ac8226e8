//! Pause sub-machine: shows both frozen times with a three-phase blinking
//! prompt, and waits for a player button to resume or the start button to
//! abandon the round.

use vstd::prelude::*;

use crate::debounce::{Debouncer, Edge};

verus! {

/// Loop ticks of one prompt phase.
pub const BLINK_DURATION: u16 = 400;

/// Inter-iteration delay in milliseconds when nothing was rendered.
pub const LOOP_DELAY: u16 = 5;

/// How the pause ended: a player resumed (either may, whatever the prior
/// turn), or the start button abandoned the round back to time setup.
#[derive(PartialEq, Eq, Structural, Clone, Copy, Debug)]
pub enum PauseResult {
    ResumedP1,
    ResumedP2,
    Stopped,
}

/// State of one pause: whether this is the initial pause before the first
/// move, the three button filters, the blink counter, and the prompt phase
/// last rendered.
pub struct PauseState {
    pub initial_pause: bool,
    pub down: Debouncer,
    pub up: Debouncer,
    pub start: Debouncer,
    /// Loop ticks into the current three-phase prompt cycle.
    pub blink_count: u16,
    /// The prompt phase last rendered; out of range at first so the first
    /// iteration renders.
    pub last_blink: u8,
}

/// What one pause iteration asks of the caller: whether to redraw the
/// prompt row (the phase to draw is `last_blink` afterwards), and how the
/// pause ended, if it did.
pub struct PauseOutput {
    pub render: bool,
    pub result: Option<PauseResult>,
}

impl PauseState {
    /// The blink counter inside its cycle; holds from construction on.
    pub open spec fn wf(self) -> bool {
        self.blink_count < 3 * BLINK_DURATION
    }

    /// The blink counter after one iteration: advanced, wrapping after a
    /// full three-phase cycle.
    pub open spec fn spec_blink_count_after(self) -> u16 {
        if self.blink_count + 1 >= 3 * BLINK_DURATION {
            0
        } else {
            (self.blink_count + 1) as u16
        }
    }

    /// The prompt phase this iteration shows.
    pub open spec fn spec_phase(self) -> u8 {
        (self.spec_blink_count_after() / BLINK_DURATION) as u8
    }

    /// A redraw is owed when the prompt phase changed.
    pub open spec fn spec_render_needed(self) -> bool {
        self.spec_phase() != self.last_blink
    }

    /// The start button was released: abandon the round.
    pub open spec fn spec_stop(self, start_pressed: bool) -> bool {
        self.start.spec_edge(start_pressed) == Some(Edge::Falling)
    }

    /// The down button was pressed (and start was not released first):
    /// resume with P1 counting down.
    pub open spec fn spec_resume_p1(self, down_pressed: bool, start_pressed: bool) -> bool {
        !self.spec_stop(start_pressed) && self.down.spec_edge(down_pressed) == Some(Edge::Rising)
    }

    /// The up button was pressed (and neither earlier button fired):
    /// resume with P2 counting down.
    pub open spec fn spec_resume_p2(
        self,
        down_pressed: bool,
        up_pressed: bool,
        start_pressed: bool,
    ) -> bool {
        !self.spec_stop(start_pressed) && !self.spec_resume_p1(down_pressed, start_pressed)
            && self.up.spec_edge(up_pressed) == Some(Edge::Rising)
    }

    /// A fresh pause: released buttons, the blink cycle at its start, and a
    /// last-rendered phase that forces a first render.
    pub fn new(initial_pause: bool) -> (r: PauseState)
        ensures
            r.wf(),
            r.initial_pause == initial_pause,
            r.down == Debouncer::new_spec(false),
            r.up == Debouncer::new_spec(false),
            r.start == Debouncer::new_spec(false),
            r.blink_count == 0,
            r.last_blink == u8::MAX,
    {
        PauseState {
            initial_pause,
            down: Debouncer::new(false),
            up: Debouncer::new(false),
            start: Debouncer::new(false),
            blink_count: 0,
            last_blink: u8::MAX,
        }
    }
}

/// One iteration of the pause loop.
///
/// The prompt cycles through three phases; the row is redrawn only when the
/// phase changes. Then the buttons are read in order: a start release
/// abandons the round, a down press resumes with P1, an up press resumes
/// with P2; the buttons after the first that fired are not read this
/// iteration.
#[verifier::rlimit(100)]
pub fn pause(
    st: &mut PauseState,
    down_pressed: bool,
    up_pressed: bool,
    start_pressed: bool,
) -> (out: PauseOutput)
    requires
        old(st).wf(),
    ensures
        final(st).wf(),
        final(st).initial_pause == old(st).initial_pause,
        final(st).blink_count == old(st).spec_blink_count_after(),
        out.render == old(st).spec_render_needed(),
        final(st).last_blink == (if old(st).spec_render_needed() {
            old(st).spec_phase()
        } else {
            old(st).last_blink
        }),
        final(st).start == old(st).start.spec_step(start_pressed),
        out.result == (if old(st).spec_stop(start_pressed) {
            Some(PauseResult::Stopped)
        } else if old(st).spec_resume_p1(down_pressed, start_pressed) {
            Some(PauseResult::ResumedP1)
        } else if old(st).spec_resume_p2(down_pressed, up_pressed, start_pressed) {
            Some(PauseResult::ResumedP2)
        } else {
            Option::<PauseResult>::None
        }),
        old(st).spec_stop(start_pressed) ==> final(st).down == old(st).down && final(st).up == old(
            st,
        ).up,
        !old(st).spec_stop(start_pressed) ==> final(st).down == old(st).down.spec_step(
            down_pressed,
        ),
        old(st).spec_resume_p1(down_pressed, start_pressed) ==> final(st).up == old(st).up,
        !old(st).spec_stop(start_pressed) && !old(st).spec_resume_p1(down_pressed, start_pressed)
            ==> final(st).up == old(st).up.spec_step(up_pressed),
{
    let ghost pre = *st;
    let render = tick_prompt(st);
    let result = read_pause_buttons(st, down_pressed, up_pressed, start_pressed, Ghost(pre));
    PauseOutput { render, result }
}

/// Advance the three-phase blink cycle and decide the lazy redraw of the
/// prompt row.
#[verifier::rlimit(100)]
fn tick_prompt(st: &mut PauseState) -> (render: bool)
    requires
        old(st).wf(),
    ensures
        final(st).wf(),
        render == old(st).spec_render_needed(),
        *final(st) == (PauseState {
            blink_count: old(st).spec_blink_count_after(),
            last_blink: (if old(st).spec_render_needed() {
                old(st).spec_phase()
            } else {
                old(st).last_blink
            }),
            ..*old(st)
        }),
{
    let ghost pre = *st;
    st.blink_count = st.blink_count + 1;
    if st.blink_count >= 3 * BLINK_DURATION {
        st.blink_count = 0;
    }
    proof {
        assert(st.blink_count == pre.spec_blink_count_after());
    }
    let phase = (st.blink_count / BLINK_DURATION) as u8;
    proof {
        let bc = st.blink_count;
        assert(bc < 1200 ==> bc / 400u16 < 3) by (bit_vector);
        assert(phase == pre.spec_phase());
    }
    let render = phase != st.last_blink;
    if render {
        st.last_blink = phase;
    }
    render
}

/// Read the three buttons in order: start release stops, down press
/// resumes with P1, up press resumes with P2; the buttons after the first
/// that fired are not read this iteration.
fn read_pause_buttons(
    st: &mut PauseState,
    down_pressed: bool,
    up_pressed: bool,
    start_pressed: bool,
    Ghost(pre): Ghost<PauseState>,
) -> (result: Option<PauseResult>)
    requires
        old(st).down == pre.down,
        old(st).up == pre.up,
        old(st).start == pre.start,
    ensures
        final(st).initial_pause == old(st).initial_pause,
        final(st).blink_count == old(st).blink_count,
        final(st).last_blink == old(st).last_blink,
        final(st).start == pre.start.spec_step(start_pressed),
        result == (if pre.spec_stop(start_pressed) {
            Some(PauseResult::Stopped)
        } else if pre.spec_resume_p1(down_pressed, start_pressed) {
            Some(PauseResult::ResumedP1)
        } else if pre.spec_resume_p2(down_pressed, up_pressed, start_pressed) {
            Some(PauseResult::ResumedP2)
        } else {
            Option::<PauseResult>::None
        }),
        pre.spec_stop(start_pressed) ==> final(st).down == pre.down && final(st).up == pre.up,
        !pre.spec_stop(start_pressed) ==> final(st).down == pre.down.spec_step(down_pressed),
        pre.spec_resume_p1(down_pressed, start_pressed) ==> final(st).up == pre.up,
        !pre.spec_stop(start_pressed) && !pre.spec_resume_p1(down_pressed, start_pressed) ==> final(st).up == pre.up.spec_step(up_pressed),
{
    let start_edge = st.start.update(start_pressed);
    let stopped = match start_edge {
        Some(Edge::Falling) => true,
        _ => false,
    };
    if stopped {
        return Some(PauseResult::Stopped);
    }
    let down_edge = st.down.update(down_pressed);
    let down_rising = match down_edge {
        Some(Edge::Rising) => true,
        _ => false,
    };
    if down_rising {
        return Some(PauseResult::ResumedP1);
    }
    let up_edge = st.up.update(up_pressed);
    let up_rising = match up_edge {
        Some(Edge::Rising) => true,
        _ => false,
    };
    if up_rising {
        return Some(PauseResult::ResumedP2);
    }
    None
}

/// The prompt text of each phase: distinct per phase, and different for the
/// initial pause before the first move versus a pause mid-round.
pub fn pause_prompt(initial_pause: bool, phase: u8) -> (r: &'static str)
    ensures
        r@ == spec_pause_prompt(initial_pause, phase),
{
    if initial_pause {
        match phase {
            0 => " P1/P2 to begin ",
            1 => "START to cancel ",
            _ => " P1          P2 ",
        }
    } else {
        match phase {
            0 => " P1  Paused  P2 ",
            1 => "START to restart",
            _ => "P1/P2 to resume ",
        }
    }
}

/// The prompt text of each phase.
pub open spec fn spec_pause_prompt(initial_pause: bool, phase: u8) -> Seq<char> {
    if initial_pause {
        if phase == 0 {
            " P1/P2 to begin "@
        } else if phase == 1 {
            "START to cancel "@
        } else {
            " P1          P2 "@
        }
    } else {
        if phase == 0 {
            " P1  Paused  P2 "@
        } else if phase == 1 {
            "START to restart"@
        } else {
            "P1/P2 to resume "@
        }
    }
}

} // verus!
