use kinderdisco::seed::{parse_u64, task_seed, FALLBACK_SEED, SHARED_SEED};
use kinderdisco::task::{Cycle, ModulationTask, TaskAction, TaskEvent, TaskState};
use kinderdisco::{Data, Modulator, SyncMode};

fn names(ids: &[&str]) -> Vec<String> {
    ids.iter().map(|id| id.to_string()).collect()
}

fn run(task: &mut ModulationTask, data: &Data) -> Cycle {
    match task.step(TaskEvent::Resume, data) {
        TaskAction::Run(cycle) => cycle,
        other => panic!("the task did not run: {:?}", other),
    }
}

#[test]
fn a_text_spells_the_number_that_std_reads() {
    let texts = [
        "0", "7", "42", "007", "+5", "+", "", "-1", "-0", " 1", "1 ", "1_000", "12a", "a12",
        "18446744073709551615", "18446744073709551616", "+18446744073709551615",
        "99999999999999999999999", "00000000000000000000000000001", "++1", "+-1", "1+",
        "٣", "１２", "0x10", "1e3", "1.0", "00:17:88:01:00:aa", "3",
    ];
    for text in texts {
        assert_eq!(parse_u64(text), text.parse::<u64>().ok(), "{:?}", text);
    }
}

#[test]
fn a_text_spells_its_decimal_value() {
    assert_eq!(parse_u64("12345"), Some(12345));
    assert_eq!(parse_u64("+12345"), Some(12345));
    assert_eq!(parse_u64("18446744073709551615"), Some(u64::MAX));
    assert_eq!(parse_u64("18446744073709551616"), None);
    assert_eq!(parse_u64("12x"), None);
    assert_eq!(parse_u64(""), None);
    assert_eq!(parse_u64("+"), None);
}

#[test]
fn the_seed_follows_the_mode_and_the_first_light() {
    assert_eq!(SHARED_SEED, 43);
    assert_eq!(FALLBACK_SEED, 42);
    assert_eq!(task_seed(SyncMode::TimeAndColor, &names(&["7", "8"])), 43);
    assert_eq!(task_seed(SyncMode::TimeAndColor, &names(&[])), 43);
    assert_eq!(task_seed(SyncMode::Independent, &names(&["7"])), 7);
    assert_eq!(task_seed(SyncMode::Time, &names(&["19", "3"])), 19);
    assert_eq!(task_seed(SyncMode::Independent, &names(&["lamp"])), 42);
    assert_eq!(task_seed(SyncMode::Time, &names(&[])), 42);
    assert_eq!(task_seed(SyncMode::Independent, &names(&["0"])), 0);
}

#[test]
fn a_new_task_is_running() {
    let task = ModulationTask::new(SyncMode::Independent, names(&["4"]));
    assert_eq!(task.state, TaskState::Running);
    assert_eq!(task.light_ids, names(&["4"]));
    assert!(!task.shared);
    assert_eq!(task.seed, 4);
    let task = ModulationTask::new(SyncMode::Time, names(&["4", "5"]));
    assert!(!task.shared);
    let task = ModulationTask::new(SyncMode::TimeAndColor, names(&["4", "5"]));
    assert!(task.shared);
    assert_eq!(task.seed, 43);
    let task = Modulator::new(SyncMode::TimeAndColor, names(&["1", "2"])).task();
    assert!(task.shared);
    assert_eq!(task.light_ids, names(&["1", "2"]));
    assert_eq!(task.state, TaskState::Running);
}

#[test]
fn a_task_draws_from_the_stream_of_its_seed() {
    let data = Data::default();
    let mut task = ModulationTask::new(SyncMode::Independent, names(&["7"]));
    let mut source = random::default(7);
    for _ in 0..100 {
        let cycle = run(&mut task, &data);
        let delay = kinderdisco::command::draw_delay(&mut source, &data);
        let command = kinderdisco::command::draw_command(&mut source, &data, delay);
        assert_eq!(cycle.delay, delay);
        assert_eq!(cycle.dispatches.len(), 1);
        assert_eq!(cycle.dispatches[0].light_id, "7");
        assert_eq!(cycle.dispatches[0].command, command);
    }
}

#[test]
fn a_light_meets_the_same_stream_in_every_session() {
    let data = Data::default();
    let mut first = ModulationTask::new(SyncMode::Independent, names(&["12"]));
    let mut second = ModulationTask::new(SyncMode::Independent, names(&["12"]));
    let mut other = ModulationTask::new(SyncMode::Independent, names(&["13"]));
    let mut differs = false;
    for _ in 0..200 {
        let cycle = run(&mut first, &data);
        assert_eq!(cycle, run(&mut second, &data));
        if cycle.dispatches[0].command != run(&mut other, &data).dispatches[0].command {
            differs = true;
        }
    }
    assert!(differs);
}

#[test]
fn a_cycle_has_one_command_for_each_light_in_order() {
    let data = Data { r: 10..20, g: 30..40, b: 50..60, time: 2..4, fade: true };
    for mode in [SyncMode::Independent, SyncMode::Time, SyncMode::TimeAndColor] {
        let mut task = ModulationTask::new(mode, names(&["3", "1", "2"]));
        for _ in 0..200 {
            let cycle = run(&mut task, &data);
            assert!((2..4).contains(&cycle.delay));
            assert_eq!(cycle.sleep_millis(), cycle.delay as u64 * 100);
            let ids: Vec<&str> = cycle.dispatches.iter().map(|d| d.light_id.as_str()).collect();
            assert_eq!(ids, ["3", "1", "2"]);
            for dispatch in &cycle.dispatches {
                let command = dispatch.command;
                assert!(command.on);
                assert!((10..20).contains(&command.red));
                assert!((30..40).contains(&command.green));
                assert!((50..60).contains(&command.blue));
                assert_eq!(command.cycle_delay, cycle.delay);
                assert_eq!(command.transition_time, cycle.delay);
            }
        }
    }
}

#[test]
fn a_cycle_sleeps_a_tenth_of_a_second_per_tick() {
    for (delay, millis) in [(0u16, 0u64), (1, 100), (5, 500), (100, 10_000), (u16::MAX, 6_553_500)] {
        let cycle = Cycle { dispatches: Vec::new(), delay };
        assert_eq!(cycle.sleep_millis(), millis);
    }
}

#[test]
fn a_task_without_lights_sends_nothing() {
    let data = Data::default();
    for mode in [SyncMode::Time, SyncMode::TimeAndColor] {
        let mut task = ModulationTask::new(mode, Vec::new());
        let cycle = run(&mut task, &data);
        assert!(cycle.dispatches.is_empty());
        assert!((1..10).contains(&cycle.delay));
    }
}

#[test]
fn narrow_ranges_pin_every_command_of_a_cycle() {
    let data = Data { r: 0..1, g: 10..10, b: 0..255, time: 5..5, fade: false };
    let mut task = ModulationTask::new(SyncMode::Independent, names(&["1"]));
    let mut counts = [0u32; 255];
    let cycles: u32 = 51_000;
    for _ in 0..cycles {
        let cycle = run(&mut task, &data);
        assert_eq!(cycle.delay, 5);
        assert_eq!(cycle.sleep_millis(), 500);
        let command = cycle.dispatches[0].command;
        assert_eq!(command.red, 0);
        assert_eq!(command.green, 10);
        assert_eq!(command.transition_time, 0);
        assert_eq!(command.cycle_delay, 5);
        assert!(command.blue < 255);
        counts[command.blue as usize] += 1;
    }
    // Every blue is met. The raw number has 256 values for 255 blues, so the
    // first blue is met about twice as often as each of the others; the rest
    // are spread evenly (253 degrees of freedom: 330 is passed once in a
    // thousand runs).
    assert!(counts.iter().all(|&seen| seen > 0));
    let rest: u32 = counts[1..].iter().sum();
    let expected = rest as f64 / 254.0;
    let spread: f64 =
        counts[1..].iter().map(|&seen| (seen as f64 - expected).powi(2) / expected).sum();
    assert!(spread < 330.0);
    assert!((counts[0] as f64) < 3.0 * expected);
}

fn correlation(a: &[f64], b: &[f64]) -> f64 {
    let n = a.len() as f64;
    let mean_a = a.iter().sum::<f64>() / n;
    let mean_b = b.iter().sum::<f64>() / n;
    let mut cov = 0.0;
    let mut var_a = 0.0;
    let mut var_b = 0.0;
    for (x, y) in a.iter().zip(b) {
        cov += (x - mean_a) * (y - mean_b);
        var_a += (x - mean_a) * (x - mean_a);
        var_b += (y - mean_b) * (y - mean_b);
    }
    cov / (var_a.sqrt() * var_b.sqrt())
}

#[test]
fn independent_lights_go_their_own_ways() {
    let data = Data::default();
    let mut one = ModulationTask::new(SyncMode::Independent, names(&["1"]));
    let mut two = ModulationTask::new(SyncMode::Independent, names(&["2"]));
    let mut reds = (Vec::new(), Vec::new());
    let mut greens = (Vec::new(), Vec::new());
    let mut blues = (Vec::new(), Vec::new());
    for _ in 0..1000 {
        let a = run(&mut one, &data).dispatches[0].command;
        let b = run(&mut two, &data).dispatches[0].command;
        reds.0.push(a.red as f64);
        reds.1.push(b.red as f64);
        greens.0.push(a.green as f64);
        greens.1.push(b.green as f64);
        blues.0.push(a.blue as f64);
        blues.1.push(b.blue as f64);
    }
    assert!(correlation(&reds.0, &reds.1).abs() < 0.15);
    assert!(correlation(&greens.0, &greens.1).abs() < 0.15);
    assert!(correlation(&blues.0, &blues.1).abs() < 0.15);
}

#[test]
fn synchronized_lights_get_the_same_command() {
    let data = Data::default();
    let mut task = ModulationTask::new(SyncMode::TimeAndColor, names(&["1", "2"]));
    let mut last = None;
    let mut changes = 0;
    for _ in 0..1000 {
        let cycle = run(&mut task, &data);
        assert_eq!(cycle.dispatches.len(), 2);
        assert_eq!(cycle.dispatches[0].command, cycle.dispatches[1].command);
        assert_eq!(cycle.dispatches[0].light_id, "1");
        assert_eq!(cycle.dispatches[1].light_id, "2");
        if last != Some(cycle.dispatches[0].command) {
            changes += 1;
        }
        last = Some(cycle.dispatches[0].command);
    }
    assert!(changes > 900);
}

#[test]
fn lights_on_common_time_share_the_delay_only() {
    let data = Data::default();
    let mut task = ModulationTask::new(SyncMode::Time, names(&["1", "2"]));
    let mut differ = 0;
    for _ in 0..1000 {
        let cycle = run(&mut task, &data);
        let (a, b) = (cycle.dispatches[0].command, cycle.dispatches[1].command);
        assert_eq!(a.cycle_delay, b.cycle_delay);
        assert_eq!(a.transition_time, b.transition_time);
        if (a.red, a.green, a.blue) != (b.red, b.green, b.blue) {
            differ += 1;
        }
    }
    assert!(differ > 900);
}

#[test]
fn a_cycle_is_sampled_from_the_snapshot_handed_in() {
    let first = Data { r: 0..10, g: 0..10, b: 0..10, time: 1..2, fade: false };
    let second = Data { r: 100..110, g: 100..110, b: 100..110, time: 50..51, fade: true };
    let mut task = ModulationTask::new(SyncMode::Time, names(&["1", "2", "3"]));
    for round in 0..100 {
        let data = if round % 2 == 0 { &first } else { &second };
        let cycle = run(&mut task, data);
        assert_eq!(cycle.delay, data.time.start);
        for dispatch in &cycle.dispatches {
            assert!(data.r.contains(&dispatch.command.red));
            assert!(data.g.contains(&dispatch.command.green));
            assert!(data.b.contains(&dispatch.command.blue));
            assert_eq!(dispatch.command.transition_time, if data.fade { cycle.delay } else { 0 });
        }
    }
}

#[test]
fn a_cancelled_task_leaves_when_resumed() {
    let data = Data::default();
    let mut task = ModulationTask::new(SyncMode::Independent, names(&["1"]));
    assert!(matches!(task.step(TaskEvent::Resume, &data), TaskAction::Run(_)));
    assert_eq!(task.state, TaskState::Running);
    assert_eq!(task.step(TaskEvent::Cancel, &data), TaskAction::Idle);
    assert_eq!(task.state, TaskState::Cancelling);
    assert_eq!(task.step(TaskEvent::Cancel, &data), TaskAction::Idle);
    assert_eq!(task.state, TaskState::Cancelling);
    assert_eq!(task.step(TaskEvent::Resume, &data), TaskAction::Exit);
    assert_eq!(task.state, TaskState::Stopped);
    assert_eq!(task.step(TaskEvent::Resume, &data), TaskAction::Idle);
    assert_eq!(task.step(TaskEvent::Cancel, &data), TaskAction::Idle);
    assert_eq!(task.state, TaskState::Stopped);
}

#[test]
fn nothing_is_sent_after_a_stop_was_asked_for() {
    let data = Data::default();
    let mut state: u32 = 99;
    for _ in 0..200 {
        let mut task = ModulationTask::new(SyncMode::TimeAndColor, names(&["1", "2"]));
        let mut asked = false;
        for _ in 0..30 {
            state = state.wrapping_mul(1664525).wrapping_add(1013904223);
            let event = if (state >> 20) % 4 == 0 { TaskEvent::Cancel } else { TaskEvent::Resume };
            let action = task.step(event, &data);
            if asked {
                assert!(!matches!(action, TaskAction::Run(_)));
                assert_ne!(task.state, TaskState::Running);
            } else if event == TaskEvent::Resume {
                assert!(matches!(action, TaskAction::Run(_)));
            }
            if event == TaskEvent::Cancel {
                asked = true;
            }
        }
    }
}

#[test]
fn a_task_that_does_not_run_leaves_its_stream_alone() {
    let data = Data::default();
    let mut task = ModulationTask::new(SyncMode::Independent, names(&["5"]));
    let mut twin = ModulationTask::new(SyncMode::Independent, names(&["5"]));
    task.step(TaskEvent::Cancel, &data);
    task.step(TaskEvent::Cancel, &data);
    task.state = TaskState::Running;
    assert_eq!(run(&mut task, &data), run(&mut twin, &data));
}
