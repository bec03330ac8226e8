//! Top-level orchestrator: the game phase machine that sequences time
//! setup, the initial pause, the countdown/pause loop, and the finish
//! screen, emitting the protocol message owed at each transition.
//!
//! The blocking loops themselves live with the caller; this machine only
//! decides, from the finished sub-machine's result, which phase follows and
//! what to send.

use vstd::prelude::*;

use crate::countdown::{CountdownResult, Turn};
use crate::error::RuntimeError;
use crate::pause::PauseResult;
use crate::serial::SerialMsg;
use crate::time_set::TimeSetting;

verus! {

/// The control-flow position of the orchestrator. Within a round it runs
/// time setup, then the initial pause, then countdown and mid-round pauses
/// in turn until a player's time expires; the finish screen loops back to
/// time setup. A hardware error ends normal operation for good.
#[derive(PartialEq, Eq, Structural, Clone, Copy, Debug)]
pub enum GamePhase {
    TimeSet,
    InitialPause,
    Countdown,
    MidPause,
    Finish,
    Failed,
}

/// The orchestrator's state: the phase, both configured times, whose time
/// decreases when a countdown runs, who lost the round that reached the
/// finish screen, and the error that ended normal operation, if any.
pub struct Game {
    pub phase: GamePhase,
    pub p1_time: TimeSetting,
    pub p2_time: TimeSetting,
    pub turn: Turn,
    pub loser: Turn,
    pub error: Option<RuntimeError>,
}

impl Game {
    /// A fresh device: about to prompt for the times.
    pub fn new() -> (r: Game)
        ensures
            r.phase is TimeSet,
            r.p1_time.0 == 0,
            r.p2_time.0 == 0,
            r.turn == Turn::P1,
            r.error is None,
    {
        Game {
            phase: GamePhase::TimeSet,
            p1_time: TimeSetting::new(0),
            p2_time: TimeSetting::new(0),
            turn: Turn::P1,
            loser: Turn::P1,
            error: None,
        }
    }

    /// Time setup finished: keep the configured times and enter the
    /// initial pause.
    pub fn on_time_set_done(&mut self, p1_time: TimeSetting, p2_time: TimeSetting)
        requires
            old(self).phase is TimeSet,
        ensures
            *final(self) == (Game {
                phase: GamePhase::InitialPause,
                p1_time,
                p2_time,
                ..*old(self)
            }),
    {
        self.phase = GamePhase::InitialPause;
        self.p1_time = p1_time;
        self.p2_time = p2_time;
    }

    /// A pause ended. A player's press starts their countdown and announces
    /// it with the matching turn message carrying the opponent's
    /// milliseconds; a start release abandons the round back to time setup
    /// and sends nothing.
    pub fn on_pause_result(&mut self, r: PauseResult) -> (msg: Option<SerialMsg>)
        requires
            old(self).phase is InitialPause || old(self).phase is MidPause,
        ensures
            final(self).p1_time == old(self).p1_time,
            final(self).p2_time == old(self).p2_time,
            final(self).loser == old(self).loser,
            final(self).error == old(self).error,
            r is ResumedP1 ==> final(self).phase is Countdown && final(self).turn == Turn::P1
                && msg == Some(
                SerialMsg::StartP1 { p2_time: (old(self).p2_time.0 * 1000) as u32 },
            ),
            r is ResumedP2 ==> final(self).phase is Countdown && final(self).turn == Turn::P2
                && msg == Some(
                SerialMsg::StartP2 { p1_time: (old(self).p1_time.0 * 1000) as u32 },
            ),
            r is Stopped ==> final(self).phase is TimeSet && final(self).turn == old(self).turn
                && msg is None,
    {
        match r {
            PauseResult::ResumedP1 => {
                self.phase = GamePhase::Countdown;
                self.turn = Turn::P1;
                Some(SerialMsg::StartP1 { p2_time: self.p2_time.into_millis() })
            },
            PauseResult::ResumedP2 => {
                self.phase = GamePhase::Countdown;
                self.turn = Turn::P2;
                Some(SerialMsg::StartP2 { p1_time: self.p1_time.into_millis() })
            },
            PauseResult::Stopped => {
                self.phase = GamePhase::TimeSet;
                None
            },
        }
    }

    /// A countdown ended with the given frozen times and active turn. An
    /// expiry enters the finish screen, naming the loser on the wire; a
    /// pause enters the mid-round pause, announcing the active player's
    /// frozen milliseconds.
    pub fn on_countdown_result(
        &mut self,
        r: CountdownResult,
        turn: Turn,
        p1_time: TimeSetting,
        p2_time: TimeSetting,
    ) -> (msg: Option<SerialMsg>)
        requires
            old(self).phase is Countdown,
        ensures
            final(self).p1_time == p1_time,
            final(self).p2_time == p2_time,
            final(self).turn == turn,
            final(self).error == old(self).error,
            r is FinishedP1 ==> final(self).phase is Finish && final(self).loser == Turn::P1
                && msg == Some(SerialMsg::P1Finish),
            r is FinishedP2 ==> final(self).phase is Finish && final(self).loser == Turn::P2
                && msg == Some(SerialMsg::P2Finish),
            r is Paused ==> final(self).phase is MidPause && final(self).loser == old(self).loser
                && msg == Some(
                SerialMsg::Pause {
                    time: ((if turn is P1 {
                        p1_time.0
                    } else {
                        p2_time.0
                    }) * 1000) as u32,
                },
            ),
    {
        self.p1_time = p1_time;
        self.p2_time = p2_time;
        self.turn = turn;
        match r {
            CountdownResult::FinishedP1 => {
                self.phase = GamePhase::Finish;
                self.loser = Turn::P1;
                Some(SerialMsg::P1Finish)
            },
            CountdownResult::FinishedP2 => {
                self.phase = GamePhase::Finish;
                self.loser = Turn::P2;
                Some(SerialMsg::P2Finish)
            },
            CountdownResult::Paused => {
                self.phase = GamePhase::MidPause;
                let time = match self.turn {
                    Turn::P1 => self.p1_time.into_millis(),
                    Turn::P2 => self.p2_time.into_millis(),
                };
                Some(SerialMsg::Pause { time })
            },
        }
    }

    /// The finish screen was dismissed: back to time setup.
    pub fn on_finish_done(&mut self)
        requires
            old(self).phase is Finish,
        ensures
            *final(self) == (Game { phase: GamePhase::TimeSet, ..*old(self) }),
    {
        self.phase = GamePhase::TimeSet;
    }

    /// A hardware channel failed: normal operation ends for good.
    pub fn on_error(&mut self, e: RuntimeError)
        ensures
            *final(self) == (Game { phase: GamePhase::Failed, error: Some(e), ..*old(self) }),
    {
        self.phase = GamePhase::Failed;
        self.error = Some(e);
    }
}

} // verus!
