use led_strip::color::{Color, Hsv};
use led_strip::cursor::{Cursor, Frame, Pattern};
use led_strip::engine::{
    next_slot, rotation_at, Action, Engine, Event, OutOfTurn, PatternRun, Phase, ROTATION_LEN,
};
use led_strip::interrupt::handler;
use led_strip::patterns::{rainbow, rocket_start, rotate, warm_white, white, NUM_LEDS};
use led_strip::signal::{shoud_switch, SwitchSignal};

fn tick(engine: &mut Engine, switch: bool) {
    assert_eq!(engine.step(Event::Sent), Ok(()));
    assert_eq!(engine.step(Event::Slept), Ok(()));
    assert_eq!(engine.step(Event::Polled(switch)), Ok(()));
}

#[test]
fn intervals_of_the_patterns() {
    assert_eq!(Pattern::Rainbow.interval_ms(), 25);
    assert_eq!(Pattern::White.interval_ms(), 5000);
    assert_eq!(Pattern::WarmWhite.interval_ms(), 1000);
    assert_eq!(Pattern::Rotate.interval_ms(), 750);
    assert_eq!(Pattern::RocketStart.interval_ms(), 500);
}

#[test]
fn cursors_start_where_their_patterns_start() {
    assert_eq!(Cursor::start(Pattern::Rainbow), Cursor::Rainbow { hue: 0 });
    assert_eq!(Cursor::start(Pattern::White), Cursor::White);
    assert_eq!(Cursor::start(Pattern::WarmWhite), Cursor::WarmWhite);
    assert_eq!(Cursor::start(Pattern::Rotate), Cursor::Rotate { offset: 0 });
    assert_eq!(Cursor::start(Pattern::RocketStart), Cursor::RocketStart { counter: 8 });
    for pattern in [
        Pattern::Rainbow,
        Pattern::White,
        Pattern::WarmWhite,
        Pattern::Rotate,
        Pattern::RocketStart,
    ] {
        assert_eq!(Cursor::start(pattern).pattern(), pattern);
    }
}

#[test]
fn cursors_advance_within_their_pattern() {
    assert_eq!(Cursor::Rainbow { hue: 0 }.advance(), Cursor::Rainbow { hue: 2 });
    assert_eq!(Cursor::Rainbow { hue: 358 }.advance(), Cursor::Rainbow { hue: 0 });
    assert_eq!(Cursor::White.advance(), Cursor::White);
    assert_eq!(Cursor::WarmWhite.advance(), Cursor::WarmWhite);
    assert_eq!(Cursor::Rotate { offset: 0 }.advance(), Cursor::Rotate { offset: 1 });
    assert_eq!(Cursor::Rotate { offset: 7 }.advance(), Cursor::Rotate { offset: 0 });
    assert_eq!(Cursor::RocketStart { counter: 8 }.advance(), Cursor::RocketStart { counter: 7 });
    assert_eq!(Cursor::RocketStart { counter: 0 }.advance(), Cursor::RocketStart { counter: 8 });
}

#[test]
fn cursors_render_the_frames_of_their_patterns() {
    assert_eq!(Cursor::Rainbow { hue: 4 }.render(72), Frame::Hsv(rainbow(4, 72)));
    assert_eq!(Cursor::White.render(72), Frame::Rgb(white(72)));
    assert_eq!(Cursor::WarmWhite.render(72), Frame::Rgb(warm_white(72)));
    assert_eq!(Cursor::Rotate { offset: 3 }.render(72), Frame::Rgb(rotate(3, 72)));
    assert_eq!(Cursor::RocketStart { counter: 5 }.render(72), Frame::Rgb(rocket_start(5, 72)));
    assert_eq!(Cursor::Rotate { offset: 3 }.render(72).len(), 72);
    assert_eq!(Cursor::Rainbow { hue: 4 }.render(9).len(), 9);
}

#[test]
fn rotate_cursor_returns_after_one_turn_of_the_ring() {
    let start = Cursor::start(Pattern::Rotate);
    let first = start.render(NUM_LEDS);
    let mut cursor = start;
    for _ in 0..8 {
        cursor = cursor.advance();
    }
    assert_eq!(cursor, start);
    assert_eq!(cursor.render(NUM_LEDS), first);
}

#[test]
fn rocket_start_cursor_counts_down_over_ten_ticks() {
    let mut cursor = Cursor::start(Pattern::RocketStart);
    let mut seen: Vec<Cursor> = Vec::new();
    for _ in 0..10 {
        seen.push(cursor);
        cursor = cursor.advance();
    }
    let expected: Vec<Cursor> = [8usize, 7, 6, 5, 4, 3, 2, 1, 0, 8]
        .iter()
        .map(|counter| Cursor::RocketStart { counter: *counter })
        .collect();
    assert_eq!(seen, expected);
}

#[test]
fn a_run_sends_then_sleeps_then_polls() {
    let run = PatternRun::start(Pattern::Rotate);
    assert_eq!(run, PatternRun { cursor: Cursor::Rotate { offset: 0 }, phase: Phase::Render });
    assert_eq!(run.action(16), Action::Send(Frame::Rgb(rotate(0, 16))));

    let run = run.step(Event::Sent).unwrap().unwrap();
    assert_eq!(run, PatternRun { cursor: Cursor::Rotate { offset: 0 }, phase: Phase::Sleep });
    assert_eq!(run.action(16), Action::Sleep(750));

    let run = run.step(Event::Slept).unwrap().unwrap();
    assert_eq!(run, PatternRun { cursor: Cursor::Rotate { offset: 1 }, phase: Phase::Poll });
    assert_eq!(run.action(16), Action::Poll);

    let run = run.step(Event::Polled(false)).unwrap().unwrap();
    assert_eq!(run, PatternRun { cursor: Cursor::Rotate { offset: 1 }, phase: Phase::Render });
    assert_eq!(run.action(16), Action::Send(Frame::Rgb(rotate(1, 16))));
}

#[test]
fn a_run_ends_when_a_poll_finds_a_request() {
    let run = PatternRun { cursor: Cursor::RocketStart { counter: 4 }, phase: Phase::Poll };
    assert_eq!(run.step(Event::Polled(true)), Ok(None));
    assert_eq!(
        run.step(Event::Polled(false)),
        Ok(Some(PatternRun { cursor: Cursor::RocketStart { counter: 4 }, phase: Phase::Render }))
    );
}

#[test]
fn a_run_refuses_an_event_out_of_turn() {
    let render = PatternRun::start(Pattern::White);
    assert_eq!(render.step(Event::Slept), Err(OutOfTurn { phase: Phase::Render }));
    assert_eq!(render.step(Event::Polled(true)), Err(OutOfTurn { phase: Phase::Render }));
    assert_eq!(render.step(Event::Polled(false)), Err(OutOfTurn { phase: Phase::Render }));

    let sleep = PatternRun { cursor: Cursor::White, phase: Phase::Sleep };
    assert_eq!(sleep.step(Event::Sent), Err(OutOfTurn { phase: Phase::Sleep }));
    assert_eq!(sleep.step(Event::Polled(true)), Err(OutOfTurn { phase: Phase::Sleep }));

    let poll = PatternRun { cursor: Cursor::White, phase: Phase::Poll };
    assert_eq!(poll.step(Event::Sent), Err(OutOfTurn { phase: Phase::Poll }));
    assert_eq!(poll.step(Event::Slept), Err(OutOfTurn { phase: Phase::Poll }));
}

#[test]
fn the_dormant_patterns_run_like_the_others() {
    let run = PatternRun::start(Pattern::RocketStart);
    assert_eq!(run.action(72), Action::Send(Frame::Rgb(rocket_start(8, 72))));
    let run = run.step(Event::Sent).unwrap().unwrap();
    assert_eq!(run.action(72), Action::Sleep(500));
    let run = run.step(Event::Slept).unwrap().unwrap();
    let run = run.step(Event::Polled(false)).unwrap().unwrap();
    assert_eq!(run.action(72), Action::Send(Frame::Rgb(rocket_start(7, 72))));

    let run = PatternRun::start(Pattern::White);
    assert_eq!(run.action(72), Action::Send(Frame::Rgb(white(72))));
    let run = run.step(Event::Sent).unwrap().unwrap();
    assert_eq!(run.action(72), Action::Sleep(5000));
}

#[test]
fn the_rotation_is_rainbow_warm_white_rings() {
    assert_eq!(ROTATION_LEN, 3);
    assert_eq!(rotation_at(0), Pattern::Rainbow);
    assert_eq!(rotation_at(1), Pattern::WarmWhite);
    assert_eq!(rotation_at(2), Pattern::Rotate);
    assert_eq!(rotation_at(3), Pattern::Rainbow);
    assert_eq!(rotation_at(usize::MAX), rotation_at(usize::MAX % 3));
    assert_eq!(next_slot(0), 1);
    assert_eq!(next_slot(1), 2);
    assert_eq!(next_slot(2), 0);
    assert_eq!(next_slot(usize::MAX), (usize::MAX % 3 + 1) % 3);
}

#[test]
fn the_engine_boots_into_the_rainbow() {
    let engine = Engine::new(NUM_LEDS);
    assert_eq!(engine.slot, 0);
    assert_eq!(engine.strip_len, 72);
    assert_eq!(engine.run, PatternRun { cursor: Cursor::Rainbow { hue: 0 }, phase: Phase::Render });
    assert_eq!(engine.pattern(), Pattern::Rainbow);
    let expected: Vec<Hsv> = (0..72u16)
        .map(|index| Hsv { hue: 5 * index, saturation: 100, value: 10 })
        .collect();
    assert_eq!(engine.action(), Action::Send(Frame::Hsv(expected)));
}

#[test]
fn every_tick_of_the_engine_is_send_sleep_poll() {
    let mut engine = Engine::new(NUM_LEDS);
    for tick_no in 0..30u16 {
        let hue: u16 = 2 * tick_no;
        assert_eq!(engine.action(), Action::Send(Frame::Hsv(rainbow(hue, 72))));
        assert_eq!(engine.step(Event::Sent), Ok(()));
        assert_eq!(engine.action(), Action::Sleep(25));
        assert_eq!(engine.step(Event::Slept), Ok(()));
        assert_eq!(engine.action(), Action::Poll);
        assert_eq!(engine.step(Event::Polled(false)), Ok(()));
    }
    assert_eq!(engine.pattern(), Pattern::Rainbow);
}

#[test]
fn the_engine_refuses_an_event_out_of_turn_and_stays() {
    let mut engine = Engine::new(NUM_LEDS);
    let before = engine;
    assert_eq!(engine.step(Event::Slept), Err(OutOfTurn { phase: Phase::Render }));
    assert_eq!(engine, before);
    assert_eq!(engine.step(Event::Polled(true)), Err(OutOfTurn { phase: Phase::Render }));
    assert_eq!(engine, before);

    assert_eq!(engine.step(Event::Sent), Ok(()));
    let sleeping = engine;
    assert_eq!(engine.step(Event::Sent), Err(OutOfTurn { phase: Phase::Sleep }));
    assert_eq!(engine.step(Event::Polled(false)), Err(OutOfTurn { phase: Phase::Sleep }));
    assert_eq!(engine, sleeping);

    assert_eq!(engine.step(Event::Slept), Ok(()));
    let polling = engine;
    assert_eq!(engine.step(Event::Sent), Err(OutOfTurn { phase: Phase::Poll }));
    assert_eq!(engine.step(Event::Slept), Err(OutOfTurn { phase: Phase::Poll }));
    assert_eq!(engine, polling);
}

#[test]
fn a_switch_enters_the_next_pattern_of_the_rotation() {
    let mut engine = Engine::new(NUM_LEDS);
    let mut seen: Vec<Pattern> = Vec::new();
    for _ in 0..7 {
        seen.push(engine.pattern());
        tick(&mut engine, true);
    }
    assert_eq!(
        seen,
        vec![
            Pattern::Rainbow,
            Pattern::WarmWhite,
            Pattern::Rotate,
            Pattern::Rainbow,
            Pattern::WarmWhite,
            Pattern::Rotate,
            Pattern::Rainbow,
        ]
    );
}

#[test]
fn a_pattern_runs_until_a_switch_is_requested() {
    let mut engine = Engine::new(NUM_LEDS);
    tick(&mut engine, true);
    assert_eq!(engine.pattern(), Pattern::WarmWhite);
    for _ in 0..5 {
        assert_eq!(
            engine.action(),
            Action::Send(Frame::Rgb(vec![Color::new(255, 140, 80); 72]))
        );
        assert_eq!(engine.step(Event::Sent), Ok(()));
        assert_eq!(engine.action(), Action::Sleep(1000));
        assert_eq!(engine.step(Event::Slept), Ok(()));
        assert_eq!(engine.step(Event::Polled(false)), Ok(()));
        assert_eq!(engine.pattern(), Pattern::WarmWhite);
    }
    tick(&mut engine, true);
    assert_eq!(engine.pattern(), Pattern::Rotate);
    for offset in 0..10usize {
        assert_eq!(engine.action(), Action::Send(Frame::Rgb(rotate(offset % 8, 72))));
        assert_eq!(engine.step(Event::Sent), Ok(()));
        assert_eq!(engine.action(), Action::Sleep(750));
        assert_eq!(engine.step(Event::Slept), Ok(()));
        assert_eq!(engine.step(Event::Polled(false)), Ok(()));
    }
}

#[test]
fn a_pattern_starts_afresh_each_time_it_is_entered() {
    let mut engine = Engine::new(NUM_LEDS);
    for _ in 0..4 {
        tick(&mut engine, false);
    }
    assert_eq!(engine.run.cursor, Cursor::Rainbow { hue: 8 });
    tick(&mut engine, true);
    tick(&mut engine, true);
    for _ in 0..3 {
        tick(&mut engine, false);
    }
    assert_eq!(engine.run.cursor, Cursor::Rotate { offset: 3 });
    tick(&mut engine, true);
    assert_eq!(
        engine,
        Engine {
            slot: 0,
            run: PatternRun { cursor: Cursor::Rainbow { hue: 0 }, phase: Phase::Render },
            strip_len: 72,
        }
    );
    tick(&mut engine, true);
    tick(&mut engine, true);
    assert_eq!(engine.run.cursor, Cursor::Rotate { offset: 0 });
    assert_eq!(engine.slot, 2);
}

#[test]
fn the_cursor_moves_even_in_the_tick_that_switches() {
    let mut engine = Engine::new(8);
    assert_eq!(engine.step(Event::Sent), Ok(()));
    assert_eq!(engine.run.cursor, Cursor::Rainbow { hue: 0 });
    assert_eq!(engine.step(Event::Slept), Ok(()));
    assert_eq!(engine.run.cursor, Cursor::Rainbow { hue: 2 });
    assert_eq!(engine.run.phase, Phase::Poll);
    assert_eq!(engine.step(Event::Polled(true)), Ok(()));
    assert_eq!(engine.run, PatternRun { cursor: Cursor::WarmWhite, phase: Phase::Render });
    assert_eq!(engine.strip_len, 8);
}

#[test]
fn the_engine_and_the_signal_work_a_button_press() {
    let mut signal = SwitchSignal::new();
    let mut engine = Engine::new(NUM_LEDS);
    let mut frames: usize = 0;
    let mut patterns: Vec<Pattern> = Vec::new();
    for round in 0..12usize {
        if round == 4 || round == 9 {
            handler(&mut signal, true);
            handler(&mut signal, true);
        }
        match engine.action() {
            Action::Send(frame) => {
                assert_eq!(frame.len(), 72);
                frames += 1;
                patterns.push(engine.pattern());
                engine.step(Event::Sent).unwrap();
            },
            other => panic!("a frame was due, not {:?}", other),
        }
        assert_eq!(engine.action(), Action::Sleep(engine.pattern().interval_ms()));
        engine.step(Event::Slept).unwrap();
        assert_eq!(engine.action(), Action::Poll);
        let switch = shoud_switch(&mut signal);
        engine.step(Event::Polled(switch)).unwrap();
    }
    assert_eq!(frames, 12);
    assert_eq!(patterns[..5], [Pattern::Rainbow; 5]);
    assert_eq!(patterns[5..10], [Pattern::WarmWhite; 5]);
    assert_eq!(patterns[10..], [Pattern::Rotate; 2]);
}
