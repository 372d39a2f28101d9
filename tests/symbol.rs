use ioracle::classifier::Line;
use ioracle::classifier::Line::{Yang, Yin};
use ioracle::leds::Colour;
use ioracle::reaction::{Clip, Effect};
use ioracle::symbol::{get_related, Acquisition, Command, PRIMARY_WINDOW, RELATED_WINDOW};

#[test]
fn related_of_worked_example() {
    // positions 1, 3, 4, 5, 6 hold steady and flip; position 2 changed and is kept
    assert_eq!(get_related("100101", "110101"), "001010");
}

#[test]
fn related_all_steady_flips_everything() {
    assert_eq!(get_related("111010", "111010"), "000101");
}

#[test]
fn related_all_changed_keeps_everything() {
    assert_eq!(get_related("111010", "000101"), "111010");
}

#[test]
fn related_per_position_rule() {
    let primary = "010011";
    let second = "011001";
    let related = get_related(primary, second);
    assert_eq!(related.len(), 6);
    for ((p, s), r) in primary.chars().zip(second.chars()).zip(related.chars()) {
        if p == s {
            assert_eq!(r, if p == '0' { '1' } else { '0' });
        } else {
            assert_eq!(r, p);
        }
    }
}

#[test]
fn related_stops_at_shorter_input() {
    assert_eq!(get_related("1010", "10"), "01");
    assert_eq!(get_related("", "101"), "");
}

fn yang_window() -> Vec<i32> {
    vec![500, 600, 500]
}

fn yin_window() -> Vec<i32> {
    vec![]
}

fn window_for(line: Line) -> Vec<i32> {
    match line {
        Line::Yang => yang_window(),
        Line::Yin => yin_window(),
    }
}

fn render(row: usize, line: Line, colour: Colour) -> Command {
    Command::Render { row, line, colour }
}

#[test]
fn acquisition_follows_the_protocol() {
    let primary = [Yang, Yang, Yin, Yin, Yin, Yin];
    let second = [Yang, Yin, Yin, Yin, Yin, Yin];
    let order = [
        (true, 0),
        (true, 1),
        (true, 2),
        (false, 0),
        (false, 1),
        (false, 2),
        (true, 3),
        (true, 4),
        (true, 5),
        (false, 3),
        (false, 4),
        (false, 5),
    ];
    let mut acq = Acquisition::new();
    let mut all: Vec<Vec<Command>> = Vec::new();
    for (is_primary, k) in order {
        let want = if is_primary { PRIMARY_WINDOW } else { RELATED_WINDOW };
        assert_eq!(acq.next_window(), Some(want));
        let line = if is_primary { primary[k] } else { second[k] };
        all.push(acq.record(&window_for(line)));
    }
    assert_eq!(acq.next_window(), None);

    assert_eq!(all[0], vec![render(6, Yang, Colour::Default), Command::Wait(3)]);
    assert_eq!(all[1], vec![render(1, Yang, Colour::Default), Command::Wait(3)]);
    assert_eq!(
        all[2],
        vec![
            render(2, Yin, Colour::Default),
            Command::Wait(2),
            Command::Apply(Effect::ActivatePin(8)),
            render(6, Yang, Colour::Cloud),
            render(1, Yang, Colour::Cloud),
            render(2, Yin, Colour::Cloud),
        ]
    );
    assert_eq!(all[3], vec![]);
    assert_eq!(all[4], vec![]);
    assert_eq!(all[5], vec![Command::Apply(Effect::ReleasePin(8)), Command::Wait(3)]);
    assert_eq!(all[6], vec![render(3, Yin, Colour::Default), Command::Wait(3)]);
    assert_eq!(all[7], vec![render(4, Yin, Colour::Default), Command::Wait(3)]);
    assert_eq!(
        all[8],
        vec![
            render(5, Yin, Colour::Default),
            Command::Wait(2),
            Command::Apply(Effect::PlaySound(Clip::Mountain)),
            render(3, Yin, Colour::Earth),
            render(4, Yin, Colour::Earth),
            render(5, Yin, Colour::Earth),
            Command::Wait(2),
            render(3, Yin, Colour::Default),
            render(4, Yin, Colour::Default),
            render(5, Yin, Colour::Default),
        ]
    );
    assert_eq!(all[9], vec![]);
    assert_eq!(all[10], vec![]);
    assert_eq!(all[11], vec![]);

    let (hexagram, related) = acq.finish();
    assert_eq!(hexagram, "110000");
    assert_eq!(related, "011111");
}

#[test]
fn acquisition_upper_trigram_releases_without_pause() {
    let mut acq = Acquisition::new();
    let mut last = Vec::new();
    let lines = [
        Yin, Yin, Yang, Yin, Yin, Yin, Yang, Yin, Yang, Yang, Yang, Yang,
    ];
    for line in lines {
        assert!(acq.next_window().is_some());
        last = acq.record(&window_for(line));
    }
    assert_eq!(acq.next_window(), None);
    // upper trigram "101" fires and activates no pin, so there is nothing to release
    assert_eq!(last, vec![]);
    let (hexagram, related) = acq.finish();
    assert_eq!(hexagram, "001101");
    assert_eq!(related, "111000");
}
