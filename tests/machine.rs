use ioracle::classifier::Line;
use ioracle::control::{is_trigger, result_message, symbol_ok};
use ioracle::machine::{Displaying, IOracle, IOracleWrapper, Reading, Resting};
use ioracle::symbol::Acquisition;

fn phase_name(s: &IOracleWrapper) -> &'static str {
    match s {
        IOracleWrapper::Resting(_) => "resting",
        IOracleWrapper::Reading(_) => "reading",
        IOracleWrapper::Displaying(_) => "displaying",
    }
}

#[test]
fn new_session_rests_with_all_yin() {
    let s = IOracle::new();
    assert_eq!(s.hexagram, "000000");
    assert_eq!(s.related, "000000");
}

#[test]
fn three_steps_return_to_the_same_phase() {
    let mut s = IOracleWrapper::Resting(IOracle::new());
    for _ in 0..3 {
        let start = phase_name(&s);
        let mut t = s;
        for _ in 0..3 {
            t = t.step();
        }
        assert_eq!(phase_name(&t), start);
        s = t.step();
    }
}

#[test]
fn step_order() {
    let s = IOracleWrapper::Resting(IOracle::new());
    let s = s.step();
    assert_eq!(phase_name(&s), "reading");
    let s = s.step();
    assert_eq!(phase_name(&s), "displaying");
    let s = s.step();
    assert_eq!(phase_name(&s), "resting");
}

#[test]
fn only_the_exact_trigger_line_counts() {
    assert!(is_trigger("read"));
    for line in ["", "Read", "READ", " read", "read ", "read\r", "reads", "junk"] {
        assert!(!is_trigger(line));
    }
}

#[test]
fn commands_leave_other_phases_alone() {
    let s = IOracleWrapper::Resting(IOracle::new()).step();
    let s = s.command("read");
    assert_eq!(phase_name(&s), "reading");
    let s = s.step().command("read");
    assert_eq!(phase_name(&s), "displaying");
}

#[test]
fn end_to_end_reading() {
    let mut session = IOracleWrapper::Resting(IOracle::new());
    let mut acquires = 0;
    for line in "junk\nread\n".lines() {
        let before = phase_name(&session);
        session = session.command(line);
        if before == "resting" && phase_name(&session) == "reading" {
            acquires += 1;
        }
    }
    assert_eq!(acquires, 1);

    let mut acq = Acquisition::new();
    let mut n = 0;
    while let Some(_) = acq.next_window() {
        let samples = if n % 2 == 0 { vec![500, 600, 500] } else { vec![] };
        acq.record(&samples);
        n += 1;
    }
    assert_eq!(n, 12);
    let (hexagram, related) = acq.finish();
    session = session.complete_reading(hexagram, related);
    assert_eq!(phase_name(&session), "displaying");

    let message = session.result_message();
    assert_eq!(message.len(), 13);
    let (left, right) = message.split_at(6);
    assert!(symbol_ok(left));
    assert_eq!(&right[..1], "|");
    assert!(symbol_ok(&right[1..]));
    assert_eq!(message, "101101|101101");

    session = session.step();
    assert_eq!(phase_name(&session), "resting");
}

#[test]
fn complete_reading_only_while_reading() {
    let s = IOracleWrapper::Resting(IOracle::new());
    let s = s.complete_reading("111111".to_string(), "000000".to_string());
    assert_eq!(phase_name(&s), "resting");
    assert_eq!(s.result_message(), "000000|000000");
}

#[test]
fn result_message_format() {
    assert_eq!(result_message("110000", "011111"), "110000|011111");
    assert_eq!(result_message("", ""), "|");
}

#[test]
fn symbol_check() {
    assert!(symbol_ok("010101"));
    assert!(!symbol_ok("01010"));
    assert!(!symbol_ok("0101010"));
    assert!(!symbol_ok("01a101"));
    assert_eq!(Line::Yang.to_char(), '1');
}

#[test]
fn typestate_transitions_keep_the_symbols() {
    use_transitions();
}

fn use_transitions() {
    let mut resting = IOracle::new();
    resting.hexagram = "101010".to_string();
    resting.related = "010101".to_string();
    let reading: IOracle<Reading> = IOracle::from(resting);
    let displaying: IOracle<Displaying> = IOracle::from(reading);
    assert_eq!(displaying.hexagram, "101010");
    let back: IOracle<Resting> = IOracle::from(displaying);
    assert_eq!(back.hexagram, "101010");
    assert_eq!(back.related, "010101");
}
