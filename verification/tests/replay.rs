use swan_ag::event::{Event, KeyState, MOTION_SCALE};
use swan_ag::replay::{
    correct_axis, delay_before, replay_events, replay_step, time_of, AxisStep, Command, Notice,
    Options, ReplayState, Span, SPEED_UNIT,
};
use swan_ag::uinput::uinput_sys::{input_event, timeval};
use swan_ag::uinput::UInput;

fn created() -> UInput {
    let mut dev = UInput::new();
    dev.setup();
    dev
}

fn rec(kind: u16, code: u16, value: i32) -> Command {
    Command::Write(input_event { time: timeval { tv_sec: 0, tv_usec: 0 }, kind, code, value })
}

fn sync() -> Command {
    rec(0, 0, 0)
}

fn key(code: u32, state: KeyState, ms: u64) -> Event {
    Event::KeyEvent { code, state, timestamp_usec: ms * 1000 }
}

fn motion(dx: i64, dy: i64, ms: u64) -> Event {
    Event::PointerMotion { dx, dy, timestamp_usec: ms * 1000 }
}

fn options(speed: u64) -> Options {
    Options { speed, record_delay: None, record_length: None }
}

fn sleeps(script: &[Command]) -> Vec<u64> {
    let mut out = Vec::new();
    for c in script {
        if let Command::Sleep(ms) = c {
            out.push(*ms);
        }
    }
    out
}

fn rel_sum(script: &[Command], axis: u16) -> i64 {
    let mut sum = 0i64;
    for c in script {
        if let Command::Write(r) = c {
            if r.kind == 2 && r.code == axis {
                sum += r.value as i64;
            }
        }
    }
    sum
}

#[test]
fn default_options_replay_at_recorded_pace() {
    let o = Options::default();
    assert_eq!(o.speed, SPEED_UNIT);
    assert_eq!(o.speed, 1_000_000);
    assert_eq!(o.record_delay, None);
    assert_eq!(o.record_length, None);
}

#[test]
fn instant_setting_overrides_speed() {
    let length = Some(Span { secs: 2, nanos: 0 });
    let o = Options::from_settings(2_500_000, true, None, length);
    assert_eq!(o, Options { speed: 0, record_delay: None, record_length: length });
    let p = Options::from_settings(2_500_000, false, length, None);
    assert_eq!(p, Options { speed: 2_500_000, record_delay: length, record_length: None });
}

#[test]
fn empty_store_replays_to_the_notice_alone() {
    let mut dev = created();
    let script = replay_events(&options(1_000_000), &Vec::new(), &mut dev);
    assert_eq!(script, vec![Command::Report(Notice::ReplayBegins)]);
}

#[test]
fn key_and_button_order_matches_capture() {
    let events = vec![
        key(30, KeyState::Pressed, 1000),
        Event::PointerButton { button: 0x110, seat_count: 1 },
        motion(3 * MOTION_SCALE, 0, 1010),
        key(30, KeyState::Released, 1020),
        Event::Other,
        Event::PointerButton { button: 0x110, seat_count: 0 },
        Event::PointerButton { button: 0x111, seat_count: 1 },
        key(31, KeyState::Pressed, 1030),
        Event::PointerButton { button: 0x111, seat_count: 0 },
        key(31, KeyState::Released, 1040),
    ];
    let mut dev = created();
    let script = replay_events(&options(0), &events, &mut dev);
    let mut keys = Vec::new();
    for c in &script {
        if let Command::Write(r) = c {
            if r.kind == 1 {
                keys.push((r.code, r.value));
            }
        }
    }
    assert_eq!(
        keys,
        vec![
            (30, 1),
            (0x110, 1),
            (30, 0),
            (0x110, 0),
            (0x111, 1),
            (31, 1),
            (0x111, 0),
            (31, 0)
        ]
    );
}

#[test]
fn every_event_closes_with_one_sync() {
    let events = vec![
        key(30, KeyState::Pressed, 1000),
        Event::Other,
        Event::PointerButton { button: 0x112, seat_count: 1 },
        Event::PointerButton { button: 0x110, seat_count: 2 },
        motion(MOTION_SCALE, -MOTION_SCALE, 1001),
    ];
    let mut dev = created();
    let script = replay_events(&options(0), &events, &mut dev);
    assert_eq!(
        script,
        vec![
            Command::Report(Notice::ReplayBegins),
            rec(1, 30, 1),
            sync(),
            Command::Report(Notice::SkippedEvent),
            sync(),
            Command::Report(Notice::UnsupportedButton),
            sync(),
            Command::Report(Notice::UnsupportedButton),
            sync(),
            rec(2, 0, 1),
            rec(2, 1, -1),
            sync(),
        ]
    );
}

#[test]
fn fractional_motion_is_caught_up() {
    let d = 600_000;
    let events = vec![motion(d, 0, 1000), motion(d, 0, 1001), motion(d, 0, 1002)];
    let mut dev = created();
    let script = replay_events(&options(0), &events, &mut dev);
    assert_eq!(
        script,
        vec![
            Command::Report(Notice::ReplayBegins),
            rec(2, 0, 0),
            rec(2, 1, 0),
            sync(),
            rec(2, 0, 0),
            rec(2, 1, 0),
            rec(2, 0, 1),
            sync(),
            rec(2, 0, 0),
            rec(2, 1, 0),
            sync(),
        ]
    );
    let sum = rel_sum(&script, 0);
    assert!((sum - 2).abs() <= 1);
    assert_eq!(sum, 1);
    assert_eq!(rel_sum(&script, 1), 0);
}

#[test]
fn running_error_stays_within_one_unit() {
    let mut dev = created();
    let mut state = ReplayState::new();
    let mut script = Vec::new();
    let mut owed = Vec::new();
    for i in 0..3u64 {
        replay_step(&mut state, 0, &motion(600_000, -600_000, 1000 + i), &mut dev, &mut script);
        assert!(state.err_x.abs() <= MOTION_SCALE);
        assert!(state.err_y.abs() <= MOTION_SCALE);
        owed.push((state.err_x, state.err_y));
    }
    assert_eq!(owed, vec![(600_000, -600_000), (200_000, -200_000), (800_000, -800_000)]);
    assert_eq!(rel_sum(&script, 0) * MOTION_SCALE + state.err_x, 1_800_000);
    assert_eq!(rel_sum(&script, 1) * MOTION_SCALE + state.err_y, -1_800_000);
}

#[test]
fn motion_is_conserved_over_a_long_run() {
    let deltas: [i64; 8] =
        [1_250_000, -300_000, 999_999, 999_999, -2_750_000, 1, 5_000_000, -999_999];
    let mut events = Vec::new();
    let mut total = 0i64;
    for (i, d) in deltas.iter().enumerate() {
        events.push(motion(*d, -*d, 1000 + i as u64));
        total += *d;
    }
    let mut dev = created();
    let mut state = ReplayState::new();
    let mut script = Vec::new();
    for e in &events {
        replay_step(&mut state, 1_000_000, e, &mut dev, &mut script);
        assert!(state.err_x.abs() <= MOTION_SCALE);
    }
    assert_eq!(rel_sum(&script, 0) * MOTION_SCALE + state.err_x, total);
    assert_eq!(rel_sum(&script, 1) * MOTION_SCALE + state.err_y, -total);
}

#[test]
fn catch_up_units_follow_both_whole_moves() {
    let mut dev = created();
    let mut state = ReplayState { prev_time: 0, err_x: 900_000, err_y: -900_000 };
    let mut script = Vec::new();
    replay_step(&mut state, 0, &motion(2_300_000, -1_200_000, 5), &mut dev, &mut script);
    assert_eq!(script, vec![rec(2, 0, 2), rec(2, 1, -1), rec(2, 0, 1), rec(2, 1, -1), sync()]);
    assert_eq!(state, ReplayState { prev_time: 5, err_x: 200_000, err_y: -100_000 });
}

#[test]
fn axis_correction_values() {
    assert_eq!(correct_axis(0, 2_500_000), AxisStep { whole: 2, extra: 0, err: 500_000 });
    assert_eq!(correct_axis(0, -2_500_000), AxisStep { whole: -2, extra: 0, err: -500_000 });
    assert_eq!(correct_axis(600_000, 600_000), AxisStep { whole: 0, extra: 1, err: 200_000 });
    assert_eq!(correct_axis(-600_000, -600_000), AxisStep { whole: 0, extra: -1, err: -200_000 });
    assert_eq!(correct_axis(0, 0), AxisStep { whole: 0, extra: 0, err: 0 });
}

#[test]
fn exactly_one_unit_owed_is_not_yet_caught_up() {
    assert_eq!(correct_axis(500_000, 500_000), AxisStep { whole: 0, extra: 0, err: 1_000_000 });
    assert_eq!(correct_axis(1_000_000, 1), AxisStep { whole: 0, extra: 1, err: 1 });
    assert_eq!(correct_axis(-1_000_000, -999_999), AxisStep { whole: 0, extra: -1, err: -999_999 });
}

#[test]
fn whole_units_saturate_at_the_value_range() {
    let top = correct_axis(0, i64::MAX);
    assert_eq!(top, AxisStep { whole: i32::MAX, extra: 0, err: 775_807 });
    let bottom = correct_axis(0, i64::MIN);
    assert_eq!(bottom, AxisStep { whole: i32::MIN, extra: 0, err: -775_808 });
    let edge = correct_axis(0, -2_147_483_648 * MOTION_SCALE);
    assert_eq!(edge, AxisStep { whole: i32::MIN, extra: 0, err: 0 });
    let over = correct_axis(0, 2_147_483_648 * MOTION_SCALE);
    assert_eq!(over, AxisStep { whole: i32::MAX, extra: 0, err: 0 });
}

#[test]
fn delays_scale_with_speed() {
    let events = vec![
        key(30, KeyState::Pressed, 1000),
        key(30, KeyState::Released, 1100),
        key(31, KeyState::Pressed, 1300),
    ];
    let mut dev = created();
    assert_eq!(sleeps(&replay_events(&options(2_000_000), &events, &mut dev)), vec![50, 100]);
    assert_eq!(sleeps(&replay_events(&options(1_000_000), &events, &mut dev)), vec![100, 200]);
    assert_eq!(sleeps(&replay_events(&options(500_000), &events, &mut dev)), vec![200, 400]);
    assert_eq!(sleeps(&replay_events(&options(3_000_000), &events, &mut dev)), vec![33, 66]);
    assert_eq!(sleeps(&replay_events(&options(0), &events, &mut dev)), Vec::<u64>::new());
}

#[test]
fn delay_comes_before_the_records_of_its_event() {
    let events = vec![key(30, KeyState::Pressed, 1000), key(30, KeyState::Released, 1100)];
    let mut dev = created();
    let script = replay_events(&options(2_000_000), &events, &mut dev);
    assert_eq!(
        script,
        vec![
            Command::Report(Notice::ReplayBegins),
            rec(1, 30, 1),
            sync(),
            Command::Sleep(50),
            rec(1, 30, 0),
            sync(),
        ]
    );
}

#[test]
fn no_delay_where_time_stands_still_or_runs_back() {
    let events = vec![
        key(30, KeyState::Pressed, 2000),
        key(30, KeyState::Released, 2000),
        motion(0, 0, 1500),
        key(31, KeyState::Pressed, 1400),
    ];
    let mut dev = created();
    assert_eq!(sleeps(&replay_events(&options(1_000_000), &events, &mut dev)), Vec::<u64>::new());
}

#[test]
fn untimed_events_inherit_the_time_before() {
    let events = vec![
        key(30, KeyState::Pressed, 1000),
        Event::PointerButton { button: 0x110, seat_count: 1 },
        Event::Other,
        key(30, KeyState::Released, 1250),
    ];
    let mut dev = created();
    let script = replay_events(&options(1_000_000), &events, &mut dev);
    assert_eq!(sleeps(&script), vec![250]);
    assert_eq!(script[script.len() - 3], Command::Sleep(250));
}

#[test]
fn first_timed_event_is_never_delayed() {
    assert_eq!(delay_before(1_000_000, 0, 5000), None);
    assert_eq!(delay_before(1_000_000, 1, 5000), Some(4999));
    assert_eq!(delay_before(0, 1, 5000), None);
    assert_eq!(delay_before(1_000_000, 5000, 5000), None);
    assert_eq!(delay_before(1_000_000, 5001, 5000), None);
    assert_eq!(delay_before(4_000_000, 10, 11), Some(0));
}

#[test]
fn delays_follow_fine_speeds() {
    assert_eq!(delay_before(333_300, 1, 1001), Some(3000));
    assert_eq!(delay_before(333_000, 1, 1001), Some(3003));
    assert_eq!(delay_before(1_500_000, 1, 1001), Some(666));
    assert_eq!(delay_before(1, 1, 2), Some(1_000_000));
    assert_eq!(delay_before(u64::MAX, 1, 1001), Some(0));
}

#[test]
fn delays_stop_at_what_a_command_holds() {
    assert_eq!(delay_before(1_000_000, 1, u64::MAX), Some(u64::MAX - 1));
    assert_eq!(delay_before(999_999, 1, u64::MAX), Some(u64::MAX));
    assert_eq!(delay_before(1, 1, 18446744073709551), Some(u64::MAX));
    assert_eq!(delay_before(1, 1, 18446744073710), Some(18446744073709000000));
}

#[test]
fn event_times_are_milliseconds() {
    assert_eq!(time_of(7, &key(1, KeyState::Pressed, 12)), 12);
    assert_eq!(time_of(7, &Event::KeyEvent { code: 1, state: KeyState::Pressed, timestamp_usec: 1999 }), 1);
    assert_eq!(time_of(7, &Event::PointerMotion { dx: 0, dy: 0, timestamp_usec: u64::MAX }), 18446744073709551);
    assert_eq!(time_of(7, &Event::PointerButton { button: 0x110, seat_count: 0 }), 7);
    assert_eq!(time_of(7, &Event::Other), 7);
}

#[test]
fn wide_key_codes_are_replayed_whole() {
    let events = vec![
        key(300, KeyState::Pressed, 1000),
        key(257, KeyState::Pressed, 1001),
        key(300, KeyState::Released, 1002),
        key(0xffff, KeyState::Released, 1003),
    ];
    let mut dev = created();
    let script = replay_events(&options(0), &events, &mut dev);
    assert_eq!(
        script,
        vec![
            Command::Report(Notice::ReplayBegins),
            rec(1, 300, 1),
            sync(),
            rec(1, 257, 1),
            sync(),
            rec(1, 300, 0),
            sync(),
            rec(1, 0xffff, 0),
            sync(),
        ]
    );
}

#[test]
fn key_codes_beyond_a_record_are_passed_over() {
    let events = vec![
        key(0x1_0000 + 30, KeyState::Pressed, 1000),
        key(30, KeyState::Pressed, 1100),
        key(u32::MAX, KeyState::Released, 1200),
    ];
    let mut dev = created();
    let script = replay_events(&options(1_000_000), &events, &mut dev);
    assert_eq!(
        script,
        vec![
            Command::Report(Notice::ReplayBegins),
            Command::Report(Notice::UnsupportedKey),
            sync(),
            Command::Sleep(100),
            rec(1, 30, 1),
            sync(),
            Command::Sleep(100),
            Command::Report(Notice::UnsupportedKey),
            sync(),
        ]
    );
}
