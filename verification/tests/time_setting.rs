use chess_clock::time_set::{render_time, time_set, TimeSetPart, TimeSetState, TimeSetting};

#[test]
fn new_keeps_the_seconds() {
    assert_eq!(TimeSetting::new(90).0, 90);
}

#[test]
fn hours_minutes_seconds_decomposition() {
    assert_eq!(TimeSetting::new(3725).into_hrs_mins_secs(), (1, 2, 5));
    assert_eq!(TimeSetting::new(0).into_hrs_mins_secs(), (0, 0, 0));
    assert_eq!(TimeSetting::new(35999).into_hrs_mins_secs(), (9, 59, 59));
    assert_eq!(TimeSetting::new(59).into_hrs_mins_secs(), (0, 0, 59));
}

#[test]
fn into_millis_multiplies_by_one_thousand() {
    assert_eq!(TimeSetting::new(0).into_millis(), 0);
    assert_eq!(TimeSetting::new(60).into_millis(), 60_000);
    assert_eq!(TimeSetting::new(65535).into_millis(), 65_535_000);
}

#[test]
fn add_past_max_rolls_back_to_zero() {
    let mut t = TimeSetting::new(35999);
    t.add_assign(1);
    assert_eq!(t.0, 0);
    let mut t = TimeSetting::new(35990);
    t.add_assign(9);
    assert_eq!(t.0, 35999);
    let mut t = TimeSetting::new(65535);
    t.add_assign(65535);
    assert_eq!(t.0, 0);
}

#[test]
fn subtract_below_zero_wraps_to_max() {
    let mut t = TimeSetting::new(0);
    t.sub_assign(1);
    assert_eq!(t.0, 35999);
    let mut t = TimeSetting::new(60);
    t.sub_assign(60);
    assert_eq!(t.0, 0);
}

#[test]
fn render_time_formats_both_times() {
    let r = render_time(&TimeSetting::new(3725), &TimeSetting::new(0), None);
    assert_eq!(r, b"1:02:05  0:00:00".to_vec());
}

#[test]
fn render_time_clamps_hours_to_one_digit() {
    let r = render_time(&TimeSetting::new(65535), &TimeSetting::new(36000), None);
    assert_eq!(r, b"9:12:15  9:00:00".to_vec());
}

#[test]
fn render_time_blanks_the_edited_group() {
    let p1 = TimeSetting::new(3725);
    let p2 = TimeSetting::new(59);
    let r = render_time(&p1, &p2, Some(TimeSetPart::P1SetMin));
    assert_eq!(r, b" :  :05  0:00:59".to_vec());
    let r = render_time(&p1, &p2, Some(TimeSetPart::P1SetSec));
    assert_eq!(r, b"1:02:    0:00:59".to_vec());
    let r = render_time(&p1, &p2, Some(TimeSetPart::P2SetMin));
    assert_eq!(r, b"1:02:05   :  :59".to_vec());
    let r = render_time(&p1, &p2, Some(TimeSetPart::P2SetSec));
    assert_eq!(r, b"1:02:05  0:00:  ".to_vec());
}

fn press(st: &mut TimeSetState, down: bool, up: bool, start: bool) {
    // A full debounced press and release of the chosen buttons.
    for _ in 0..4 {
        time_set(st, down, up, start);
    }
    for _ in 0..4 {
        time_set(st, false, false, false);
    }
}

#[test]
fn presses_adjust_and_start_advances() {
    let mut st = TimeSetState::new();
    // One up press in the P1 minutes group adds a minute.
    press(&mut st, false, true, false);
    assert_eq!(st.p1_setting.0, 60);
    assert_eq!(st.p2_setting.0, 0);
    // A start release moves to the P1 seconds group.
    press(&mut st, false, false, true);
    assert_eq!(st.part, TimeSetPart::P1SetSec);
    // One up press there adds a second.
    press(&mut st, false, true, false);
    assert_eq!(st.p1_setting.0, 61);
    // Down below zero wraps to the top.
    press(&mut st, false, false, true);
    assert_eq!(st.part, TimeSetPart::P2SetMin);
    press(&mut st, true, false, false);
    assert_eq!(st.p2_setting.0, 35999);
    // Walk to the last group and finish.
    press(&mut st, false, false, true);
    assert_eq!(st.part, TimeSetPart::P2SetSec);
    for _ in 0..4 {
        let out = time_set(&mut st, false, false, true);
        assert!(!out.done);
    }
    let mut done = false;
    for _ in 0..4 {
        let out = time_set(&mut st, false, false, false);
        if out.done {
            done = true;
        }
    }
    assert!(done);
    assert_eq!(st.p1_setting.0, 61);
    assert_eq!(st.p2_setting.0, 35999);
}

#[test]
fn holding_a_button_repeats_at_the_larger_step() {
    let mut st = TimeSetState::new();
    // Move to the P1 seconds group first.
    press(&mut st, false, false, true);
    assert_eq!(st.part, TimeSetPart::P1SetSec);
    // Press and hold the up button: the press adds one second.
    for _ in 0..4 {
        time_set(&mut st, false, true, false);
    }
    assert_eq!(st.p1_setting.0, 1);
    // Keep holding until the hold counter reaches the threshold.
    while st.up_hold < 150 {
        time_set(&mut st, false, true, false);
    }
    let before = st.p1_setting.0;
    // The next iteration fires one auto-repeat of five seconds.
    time_set(&mut st, false, true, false);
    assert_eq!(st.p1_setting.0, before + 5);
}
