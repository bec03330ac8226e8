use chess_clock::countdown::{CountdownResult, Turn};
use chess_clock::error::RuntimeError;
use chess_clock::game::{Game, GamePhase};
use chess_clock::pause::PauseResult;
use chess_clock::serial::SerialMsg;
use chess_clock::time_set::TimeSetting;

#[test]
fn a_round_walks_through_the_phases_with_its_messages() {
    let mut g = Game::new();
    assert_eq!(g.phase, GamePhase::TimeSet);

    g.on_time_set_done(TimeSetting::new(10), TimeSetting::new(60));
    assert_eq!(g.phase, GamePhase::InitialPause);
    assert_eq!(g.p1_time.0, 10);
    assert_eq!(g.p2_time.0, 60);

    let msg = g.on_pause_result(PauseResult::ResumedP1);
    assert_eq!(g.phase, GamePhase::Countdown);
    assert_eq!(g.turn, Turn::P1);
    assert_eq!(msg, Some(SerialMsg::StartP1 { p2_time: 60_000 }));

    let msg = g.on_countdown_result(
        CountdownResult::Paused,
        Turn::P1,
        TimeSetting::new(8),
        TimeSetting::new(60),
    );
    assert_eq!(g.phase, GamePhase::MidPause);
    assert_eq!(msg, Some(SerialMsg::Pause { time: 8_000 }));

    let msg = g.on_pause_result(PauseResult::ResumedP2);
    assert_eq!(g.phase, GamePhase::Countdown);
    assert_eq!(g.turn, Turn::P2);
    assert_eq!(msg, Some(SerialMsg::StartP2 { p1_time: 8_000 }));

    let msg = g.on_countdown_result(
        CountdownResult::FinishedP2,
        Turn::P2,
        TimeSetting::new(8),
        TimeSetting::new(0),
    );
    assert_eq!(g.phase, GamePhase::Finish);
    assert_eq!(g.loser, Turn::P2);
    assert_eq!(msg, Some(SerialMsg::P2Finish));

    g.on_finish_done();
    assert_eq!(g.phase, GamePhase::TimeSet);
}

#[test]
fn stopping_a_pause_discards_the_round() {
    let mut g = Game::new();
    g.on_time_set_done(TimeSetting::new(5), TimeSetting::new(5));
    let msg = g.on_pause_result(PauseResult::Stopped);
    assert_eq!(g.phase, GamePhase::TimeSet);
    assert_eq!(msg, None);
}

#[test]
fn p1_expiry_is_announced() {
    let mut g = Game::new();
    g.on_time_set_done(TimeSetting::new(1), TimeSetting::new(1));
    g.on_pause_result(PauseResult::ResumedP1);
    let msg = g.on_countdown_result(
        CountdownResult::FinishedP1,
        Turn::P1,
        TimeSetting::new(0),
        TimeSetting::new(1),
    );
    assert_eq!(g.phase, GamePhase::Finish);
    assert_eq!(g.loser, Turn::P1);
    assert_eq!(msg, Some(SerialMsg::P1Finish));
}

#[test]
fn a_hardware_error_ends_normal_operation() {
    let mut g = Game::new();
    g.on_error(RuntimeError::DisplayError);
    assert_eq!(g.phase, GamePhase::Failed);
    assert_eq!(g.error, Some(RuntimeError::DisplayError));
}
