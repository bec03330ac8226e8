use chess_clock::countdown::{
    convert_time, countdown, finish_countdown, CountdownInput, CountdownResult, CountdownState,
    Turn,
};
use chess_clock::serial::SerialMsg;
use chess_clock::time_set::TimeSetting;

fn input(now: u32, down: bool, up: bool, start: bool) -> CountdownInput {
    CountdownInput { now, down_pressed: down, up_pressed: up, start_pressed: start }
}

#[test]
fn convert_time_truncates_to_whole_seconds() {
    assert_eq!(convert_time(0).0, 0);
    assert_eq!(convert_time(999).0, 0);
    assert_eq!(convert_time(29_800).0, 29);
    assert_eq!(convert_time(65_535_000).0, 65535);
}

#[test]
fn finish_countdown_names_the_loser() {
    let mut p1 = TimeSetting::new(1);
    let mut p2 = TimeSetting::new(1);
    let r = finish_countdown(0, 60_000, &mut p1, &mut p2);
    assert!(matches!(r, CountdownResult::FinishedP1));
    assert_eq!(p1.0, 0);
    assert_eq!(p2.0, 60);

    let r = finish_countdown(5_500, 0, &mut p1, &mut p2);
    assert!(matches!(r, CountdownResult::FinishedP2));
    assert_eq!(p1.0, 5);
    assert_eq!(p2.0, 0);

    let r = finish_countdown(29_800, 60_000, &mut p1, &mut p2);
    assert!(matches!(r, CountdownResult::Paused));
    assert_eq!(p1.0, 29);
    assert_eq!(p2.0, 60);
}

#[test]
fn expiry_ends_the_round_with_the_active_player_at_zero() {
    // P1 has 10 s, P2 has 60 s, P1 active, no input.
    let mut st = CountdownState::new(TimeSetting::new(10), TimeSetting::new(60), Turn::P1, 0);
    let mut now: u32 = 0;
    let done = loop {
        now += 5;
        let out = countdown(&mut st, input(now, false, false, false));
        if out.done {
            break now;
        }
        assert!(now < 20_000);
    };
    // Remaining hits zero exactly at 10 000 ms; the round ends on the
    // first iteration past it.
    assert_eq!(done, 10_005);
    let mut p1 = TimeSetting::new(10);
    let mut p2 = TimeSetting::new(60);
    let r = finish_countdown(st.p1_ms, st.p2_ms, &mut p1, &mut p2);
    assert!(matches!(r, CountdownResult::FinishedP1));
    assert_eq!(p1.0, 0);
    assert_eq!(p2.0, 60);
}

#[test]
fn start_release_pauses_with_the_elapsed_time_committed() {
    // 30 s remaining on the active P1; the start button is pressed and
    // released so the falling edge lands at 200 ms elapsed.
    let mut st = CountdownState::new(TimeSetting::new(30), TimeSetting::new(60), Turn::P1, 0);
    let times: [u32; 8] = [25, 50, 75, 100, 125, 150, 175, 200];
    for (i, &t) in times.iter().enumerate() {
        let pressed = i < 4;
        let out = countdown(&mut st, input(t, false, false, pressed));
        if i < 7 {
            assert!(!out.done);
        } else {
            assert!(out.done);
        }
    }
    assert_eq!(st.p1_ms, 29_800);
    assert_eq!(st.p2_ms, 60_000);
    let mut p1 = TimeSetting::new(30);
    let mut p2 = TimeSetting::new(60);
    let r = finish_countdown(st.p1_ms, st.p2_ms, &mut p1, &mut p2);
    assert!(matches!(r, CountdownResult::Paused));
    assert_eq!(p1.0, 29);
    assert_eq!(p2.0, 60);
}

#[test]
fn turn_switch_preserves_the_inactive_players_time() {
    let mut st = CountdownState::new(TimeSetting::new(10), TimeSetting::new(60), Turn::P1, 0);
    // Press the down button; the rising edge lands at 40 ms elapsed.
    for &t in [10u32, 20, 30].iter() {
        let out = countdown(&mut st, input(t, true, false, false));
        assert!(out.msg1.is_none());
    }
    let out = countdown(&mut st, input(40, true, false, false));
    assert!(!out.done);
    // The formerly active P1 is charged the elapsed time; P2 is untouched.
    assert_eq!(st.p1_ms, 9_960);
    assert_eq!(st.p2_ms, 60_000);
    assert_eq!(st.turn, Turn::P2);
    assert_eq!(st.last_change_time, 40);
    assert_eq!(out.msg1, Some(SerialMsg::StartP2 { p1_time: 9_960 }));
    assert_eq!(out.msg2, None);
}

#[test]
fn switch_from_the_inactive_side_is_ignored() {
    let mut st = CountdownState::new(TimeSetting::new(10), TimeSetting::new(60), Turn::P2, 0);
    // P1's (down) button rises while P2 is active: nothing switches.
    for &t in [10u32, 20, 30, 40].iter() {
        let out = countdown(&mut st, input(t, true, false, false));
        assert!(out.msg1.is_none() && out.msg2.is_none());
    }
    assert_eq!(st.turn, Turn::P2);
    assert_eq!(st.p1_ms, 10_000);
}

#[test]
fn remaining_time_is_monotone_in_elapsed_time() {
    let mut st = CountdownState::new(TimeSetting::new(10), TimeSetting::new(60), Turn::P1, 0);
    let mut last = u32::MAX;
    for k in 1..100u32 {
        countdown(&mut st, input(k * 7, false, false, false));
        // The anchor never moves without input; the shown remaining time
        // never grows.
        let shown = st.p1_ms - (k * 7);
        assert!(shown <= last);
        last = shown;
    }
    assert_eq!(st.p1_ms, 10_000);
}

#[test]
fn buzzer_fires_on_whole_seconds_inside_the_last_ten() {
    // 5 s remaining: the very first iteration sits on a second boundary.
    let mut st = CountdownState::new(TimeSetting::new(5), TimeSetting::new(60), Turn::P1, 0);
    let out = countdown(&mut st, input(0, false, false, false));
    assert!(out.buzzer_on);
    assert!(!out.buzzer_off);
    assert_eq!(st.buzzer_ticks, 20);
    // The pulse counts down and asks to be switched off when it runs out.
    let mut saw_off = false;
    for k in 1..=20u32 {
        let out = countdown(&mut st, input(k, false, false, false));
        assert!(!out.buzzer_on);
        if out.buzzer_off {
            saw_off = true;
            assert_eq!(k, 20);
        }
    }
    assert!(saw_off);
}

#[test]
fn buzzer_stays_silent_above_ten_seconds() {
    let mut st = CountdownState::new(TimeSetting::new(30), TimeSetting::new(60), Turn::P1, 0);
    let out = countdown(&mut st, input(0, false, false, false));
    assert!(!out.buzzer_on);
}

#[test]
fn redraw_only_when_something_perceptible_changed() {
    let mut st = CountdownState::new(TimeSetting::new(30), TimeSetting::new(60), Turn::P1, 0);
    // The first iteration always renders (the sentinel differs).
    let out = countdown(&mut st, input(0, false, false, false));
    assert!(out.render);
    // At the same instant nothing perceptible changed: no redraw.
    let out = countdown(&mut st, input(0, false, false, false));
    assert!(!out.render);
    // The truncated whole-second value drops as soon as time passes.
    let out = countdown(&mut st, input(5, false, false, false));
    assert!(out.render);
    // Within the same displayed second it stays quiet again.
    let out = countdown(&mut st, input(10, false, false, false));
    assert!(!out.render);
}
