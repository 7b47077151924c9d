use kinderdisco::command::{draw_command, draw_delay};
use kinderdisco::{Data, LightCommand};

#[test]
fn a_command_without_fade_is_instant() {
    let command = LightCommand::new(false, 7, 1, 2, 3);
    assert_eq!(
        command,
        LightCommand { on: true, red: 1, green: 2, blue: 3, transition_time: 0, cycle_delay: 7 }
    );
}

#[test]
fn a_command_with_fade_takes_the_whole_delay() {
    let command = LightCommand::new(true, 7, 255, 0, 128);
    assert_eq!(
        command,
        LightCommand { on: true, red: 255, green: 0, blue: 128, transition_time: 7, cycle_delay: 7 }
    );
    assert_eq!(LightCommand::new(true, 0, 0, 0, 0).transition_time, 0);
}

#[test]
fn the_defaults_are_full_colour_short_delays_no_fade() {
    let data = Data::default();
    assert_eq!(data, Data { r: 0..255, g: 0..255, b: 0..255, time: 1..10, fade: false });
    assert_eq!(data.clone(), data);
}

#[test]
fn narrow_ranges_pin_the_command() {
    let data = Data { r: 0..1, g: 10..10, b: 0..255, time: 5..5, fade: false };
    let mut source = random::default(1);
    let mut seen = [false; 255];
    for _ in 0..20_000 {
        let delay = draw_delay(&mut source, &data);
        let command = draw_command(&mut source, &data, delay);
        assert!(command.on);
        assert_eq!(command.red, 0);
        assert_eq!(command.green, 10);
        assert_eq!(command.transition_time, 0);
        assert_eq!(command.cycle_delay, 5);
        assert!(command.blue < 255);
        seen[command.blue as usize] = true;
    }
    assert!(seen.iter().all(|&hit| hit));
}

#[test]
fn a_fading_command_never_outlasts_its_cycle() {
    let data = Data { r: 0..255, g: 0..255, b: 0..255, time: 1..100, fade: true };
    let mut source = random::default(3);
    for _ in 0..5_000 {
        let delay = draw_delay(&mut source, &data);
        assert!((1..100).contains(&delay));
        let command = draw_command(&mut source, &data, delay);
        assert_eq!(command.transition_time, delay);
        assert_eq!(command.cycle_delay, delay);
    }
}
