use chess_clock::countdown::Turn;
use chess_clock::finish::{finish, finish_banner, FinishState};
use chess_clock::pause::{pause, pause_prompt, PauseResult, PauseState};

#[test]
fn first_iteration_renders_the_first_prompt_phase() {
    let mut st = PauseState::new(false);
    let out = pause(&mut st, false, false, false);
    assert!(out.render);
    assert_eq!(st.last_blink, 0);
    assert_eq!(out.result, None);
    // The phase holds for the rest of its 400 ticks: no redraw.
    let out = pause(&mut st, false, false, false);
    assert!(!out.render);
}

#[test]
fn prompt_cycles_through_three_phases() {
    let mut st = PauseState::new(true);
    let mut phases = Vec::new();
    for _ in 0..1300 {
        let out = pause(&mut st, false, false, false);
        if out.render {
            phases.push(st.last_blink);
        }
    }
    assert_eq!(phases, vec![0, 1, 2, 0]);
}

#[test]
fn prompt_texts_are_distinct_per_phase_and_kind() {
    assert_eq!(pause_prompt(true, 0), " P1/P2 to begin ");
    assert_eq!(pause_prompt(true, 1), "START to cancel ");
    assert_eq!(pause_prompt(true, 2), " P1          P2 ");
    assert_eq!(pause_prompt(false, 0), " P1  Paused  P2 ");
    assert_eq!(pause_prompt(false, 1), "START to restart");
    assert_eq!(pause_prompt(false, 2), "P1/P2 to resume ");
}

#[test]
fn down_press_resumes_with_p1() {
    let mut st = PauseState::new(true);
    for _ in 0..3 {
        assert_eq!(pause(&mut st, true, false, false).result, None);
    }
    assert_eq!(pause(&mut st, true, false, false).result, Some(PauseResult::ResumedP1));
}

#[test]
fn up_press_resumes_with_p2() {
    let mut st = PauseState::new(false);
    for _ in 0..3 {
        assert_eq!(pause(&mut st, false, true, false).result, None);
    }
    assert_eq!(pause(&mut st, false, true, false).result, Some(PauseResult::ResumedP2));
}

#[test]
fn start_release_stops_the_round() {
    let mut st = PauseState::new(false);
    for _ in 0..4 {
        assert_eq!(pause(&mut st, false, false, true).result, None);
    }
    for _ in 0..3 {
        assert_eq!(pause(&mut st, false, false, false).result, None);
    }
    assert_eq!(pause(&mut st, false, false, false).result, Some(PauseResult::Stopped));
}

#[test]
fn buzzer_pulse_runs_out_after_its_length() {
    let mut st = FinishState::new();
    for _ in 0..120 {
        let out = finish(&mut st, false);
        assert!(!out.buzzer_off);
        assert!(!out.done);
    }
    let out = finish(&mut st, false);
    assert!(out.buzzer_off);
}

#[test]
fn start_press_leaves_the_finish_screen() {
    let mut st = FinishState::new();
    for _ in 0..3 {
        assert!(!finish(&mut st, true).done);
    }
    assert!(finish(&mut st, true).done);
}

#[test]
fn banner_names_the_loser() {
    assert_eq!(finish_banner(&Turn::P1), "[P1]  Time's up!");
    assert_eq!(finish_banner(&Turn::P2), "Time's up!  [P2]");
}
