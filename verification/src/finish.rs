//! Finish sub-machine: announces the loser, holds the buzzer for a fixed
//! pulse, and waits for a start press to begin a new round.

use vstd::prelude::*;

use crate::countdown::Turn;
use crate::debounce::{Debouncer, Edge};

verus! {

/// Loop ticks the end-of-round buzzer pulse lasts.
pub const BUZZER_LENGTH: u16 = 120;

/// Inter-iteration delay in milliseconds.
pub const LOOP_DELAY: u16 = 5;

/// State of the finish screen: the start button filter and how many loop
/// ticks have passed since the buzzer came on.
pub struct FinishState {
    pub start: Debouncer,
    pub elapsed_ticks: u16,
}

/// What one finish iteration asks of the caller: whether to turn the buzzer
/// off (the pulse ran out), and whether a start press ended the screen.
pub struct FinishOutput {
    pub buzzer_off: bool,
    pub done: bool,
}

impl FinishState {
    /// The tick counter never passes the pulse length.
    pub open spec fn wf(self) -> bool {
        self.elapsed_ticks <= BUZZER_LENGTH
    }

    /// A fresh finish screen; the caller turns the buzzer on as it enters.
    pub fn new() -> (r: FinishState)
        ensures
            r.wf(),
            r.start == Debouncer::new_spec(false),
            r.elapsed_ticks == 0,
    {
        FinishState { start: Debouncer::new(false), elapsed_ticks: 0 }
    }
}

/// One iteration of the finish loop: count the buzzer pulse down (asking
/// for it to be off once the pulse length passed), and end the screen on a
/// start press.
pub fn finish(st: &mut FinishState, start_pressed: bool) -> (out: FinishOutput)
    requires
        old(st).wf(),
    ensures
        final(st).wf(),
        out.buzzer_off == (old(st).elapsed_ticks >= BUZZER_LENGTH),
        final(st).elapsed_ticks == (if old(st).elapsed_ticks < BUZZER_LENGTH {
            old(st).elapsed_ticks + 1
        } else {
            old(st).elapsed_ticks as int
        }),
        final(st).start == old(st).start.spec_step(start_pressed),
        out.done == (old(st).start.spec_edge(start_pressed) == Some(Edge::Rising)),
{
    let buzzer_off = st.elapsed_ticks >= BUZZER_LENGTH;
    if st.elapsed_ticks < BUZZER_LENGTH {
        st.elapsed_ticks = st.elapsed_ticks + 1;
    }
    let edge = st.start.update(start_pressed);
    let done = match edge {
        Some(Edge::Rising) => true,
        _ => false,
    };
    FinishOutput { buzzer_off, done }
}

/// The top-row text of the finish screen, naming the player whose time ran
/// out.
pub fn finish_banner(loser: &Turn) -> (r: &'static str)
    ensures
        r@ == spec_finish_banner(*loser),
{
    match *loser {
        Turn::P1 => "[P1]  Time's up!",
        Turn::P2 => "Time's up!  [P2]",
    }
}

/// The top-row text of the finish screen.
pub open spec fn spec_finish_banner(loser: Turn) -> Seq<char> {
    match loser {
        Turn::P1 => "[P1]  Time's up!"@,
        Turn::P2 => "Time's up!  [P2]"@,
    }
}

} // verus!
