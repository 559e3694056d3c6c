use cap_reformer::owon::mode::Mode;
use cap_reformer::owon::reading::{parse, Reading};
use cap_reformer::reform::{
    current_milliamps, startup_sequence, Action, Command, ControlState, LoopEvent, Phase,
    ReformCapError, ReformConfig, StartupStep, DEBOUNCE_MS, SETTLE_MS,
};

/// One milliampere, in value units.
const MA: i64 = 10_000_000;

fn reading_in(code: u16, divider: u16, raw_value: u16) -> Reading {
    let field = code | divider;
    parse(&[
        (field & 0xFF) as u8,
        (field >> 8) as u8,
        0,
        0,
        (raw_value & 0xFF) as u8,
        (raw_value >> 8) as u8,
    ])
    .unwrap()
}

/// A DC milliampere reading of `thousandths / 1000` mA.
fn milliamps(thousandths: u16) -> LoopEvent {
    LoopEvent::Published(Some(reading_in(0xF098, 3, thousandths)))
}

fn config() -> ReformConfig {
    ReformConfig {
        rated_voltage: 10_000,
        reform_current: 5 * MA / 2,
        finish_current: MA / 50,
        voltage_step: 500,
        current_limit: 10 * MA,
        psu_current_limit: 30 * MA,
    }
}

fn holding_at(voltage: i64) -> ControlState {
    ControlState { voltage, last_increase: 0, phase: Phase::Holding }
}

fn ramping_at(voltage: i64, last_increase: u64) -> ControlState {
    ControlState { voltage, last_increase, phase: Phase::Ramping }
}

#[test]
fn constants_are_one_second_and_half_a_second() {
    assert_eq!(DEBOUNCE_MS, 1000);
    assert_eq!(SETTLE_MS, 500);
}

#[test]
fn loop_starts_ramping_from_zero_volts() {
    let state = ControlState::new(42);
    assert_eq!(state, ControlState { voltage: 0, last_increase: 42, phase: Phase::Ramping });
}

#[test]
fn startup_zeroes_limits_and_switches_on() {
    assert_eq!(
        startup_sequence(&config()),
        vec![
            StartupStep::Issue(Command::SetVoltage(0)),
            StartupStep::Settle(500),
            StartupStep::Issue(Command::SetCurrent(30 * MA)),
            StartupStep::Settle(500),
            StartupStep::Issue(Command::SetOutput(true)),
        ]
    );
}

#[test]
fn current_of_a_milliampere_reading_is_its_value() {
    assert_eq!(current_milliamps(Some(reading_in(0xF098, 3, 1234))), Ok(Some(12_340_000)));
    assert_eq!(
        current_milliamps(Some(reading_in(0xF098, 2, 0x8000 | 5))),
        Ok(Some(-500_000))
    );
    assert_eq!(current_milliamps(Some(reading_in(0xF098, 3, 0x7FFF))), Ok(None));
}

#[test]
fn current_of_an_empty_slot_is_an_error() {
    assert_eq!(current_milliamps(None), Err(ReformCapError::NoBtReading));
}

#[test]
fn current_of_another_mode_is_an_error() {
    assert_eq!(
        current_milliamps(Some(reading_in(0xF090, 3, 1234))),
        Err(ReformCapError::WrongReadingMode { mode: Mode::DcMicroAmpere })
    );
    assert_eq!(
        current_milliamps(Some(reading_in(0xF0D8, 3, 1234))),
        Err(ReformCapError::WrongReadingMode { mode: Mode::AcMilliAmpere })
    );
    assert_eq!(
        current_milliamps(Some(reading_in(0xF020, 0, 0x7FFF))),
        Err(ReformCapError::WrongReadingMode { mode: Mode::DcVolt })
    );
}

#[test]
fn quiet_readings_one_second_apart_climb_to_rated_voltage_then_hold() {
    let config = config();
    let mut state = ControlState::new(0);
    let mut commanded = vec![0i64];
    let mut now = 0u64;
    while state.phase == Phase::Ramping {
        now += 1000;
        match state.step(&config, milliamps(1000), now) {
            Ok(Action::SetVoltage(v)) => {
                assert_eq!(state.voltage, v);
                assert_eq!(state.last_increase, now);
                commanded.push(v);
            }
            Ok(Action::Wait) => assert_eq!(state.phase, Phase::Holding),
            other => panic!("unexpected answer {:?}", other),
        }
        assert!(now < 100_000);
    }
    let expected: Vec<i64> = (0..=20).map(|k| k * 500).collect();
    assert_eq!(commanded, expected);
    assert_eq!(state.phase, Phase::Holding);
    assert_eq!(state.voltage, 10_000);
    assert_eq!(now, 21_000);
}

#[test]
fn each_debounced_quiet_reading_adds_one_step() {
    let config = config();
    let mut state = ControlState::new(0);
    for k in 1..=20u64 {
        let answer = state.step(&config, milliamps(2499), k * 1500);
        assert_eq!(answer, Ok(Action::SetVoltage(500 * k as i64)));
        assert_eq!(state, ramping_at(500 * k as i64, k * 1500));
    }
    assert_eq!(state.step(&config, milliamps(2499), 40_000), Ok(Action::Wait));
    assert_eq!(state.phase, Phase::Holding);
    assert_eq!(state.voltage, 10_000);
}

#[test]
fn last_step_is_clamped_to_rated_voltage() {
    let config = ReformConfig { rated_voltage: 1200, ..config() };
    let mut state = ControlState::new(0);
    assert_eq!(state.step(&config, milliamps(1), 1000), Ok(Action::SetVoltage(500)));
    assert_eq!(state.step(&config, milliamps(1), 2000), Ok(Action::SetVoltage(1000)));
    assert_eq!(state.step(&config, milliamps(1), 3000), Ok(Action::SetVoltage(1200)));
    assert_eq!(state, ramping_at(1200, 3000));
    assert_eq!(state.step(&config, milliamps(1), 4000), Ok(Action::Wait));
    assert_eq!(state, ControlState { voltage: 1200, last_increase: 3000, phase: Phase::Holding });
}

#[test]
fn step_larger_than_rated_voltage_goes_there_at_once() {
    let config = ReformConfig { rated_voltage: 300, ..config() };
    let mut state = ControlState::new(0);
    assert_eq!(state.step(&config, milliamps(1), 1000), Ok(Action::SetVoltage(300)));
    assert_eq!(state.step(&config, milliamps(1), 2000), Ok(Action::Wait));
    assert_eq!(state.phase, Phase::Holding);
}

#[test]
fn rated_voltage_of_zero_holds_on_the_first_quiet_reading() {
    let config = ReformConfig { rated_voltage: 0, ..config() };
    let mut state = ControlState::new(0);
    assert_eq!(state.step(&config, milliamps(1), 1000), Ok(Action::Wait));
    assert_eq!(state, holding_at(0));
}

#[test]
fn voltage_waits_for_the_debounce() {
    let config = config();
    let mut state = ramping_at(1500, 10_000);
    for now in [10_000u64, 10_001, 10_500, 10_999] {
        assert_eq!(state.step(&config, milliamps(1000), now), Ok(Action::Wait));
        assert_eq!(state, ramping_at(1500, 10_000));
    }
    assert_eq!(state.step(&config, milliamps(1000), 11_000), Ok(Action::SetVoltage(2000)));
    assert_eq!(state, ramping_at(2000, 11_000));
}

#[test]
fn holding_too_waits_for_the_debounce() {
    let config = config();
    let mut state = ramping_at(10_000, 5000);
    assert_eq!(state.step(&config, milliamps(1), 5999), Ok(Action::Wait));
    assert_eq!(state.phase, Phase::Ramping);
    assert_eq!(state.step(&config, milliamps(1), 6000), Ok(Action::Wait));
    assert_eq!(state.phase, Phase::Holding);
}

#[test]
fn clock_that_reads_earlier_counts_as_no_time() {
    let config = config();
    let mut state = ramping_at(1500, 10_000);
    assert_eq!(state.step(&config, milliamps(1000), 0), Ok(Action::Wait));
    assert_eq!(state.step(&config, milliamps(1000), 9_999), Ok(Action::Wait));
    assert_eq!(state, ramping_at(1500, 10_000));
}

#[test]
fn voltage_waits_while_the_current_is_not_below_reform_current() {
    let config = config();
    let mut state = ramping_at(1500, 0);
    assert_eq!(state.step(&config, milliamps(2500), 5000), Ok(Action::Wait));
    assert_eq!(state.step(&config, milliamps(9999), 6000), Ok(Action::Wait));
    assert_eq!(state, ramping_at(1500, 0));
    assert_eq!(state.step(&config, milliamps(2499), 7000), Ok(Action::SetVoltage(2000)));
}

#[test]
fn overcurrent_aborts_while_ramping() {
    let config = config();
    let mut state = ramping_at(3000, 0);
    let answer = state.step(&config, milliamps(12_000), 5000);
    assert_eq!(answer, Err(ReformCapError::CapCurrentLimitExceeded));
    assert_eq!(state, ControlState { voltage: 3000, last_increase: 0, phase: Phase::Aborted });
    assert_eq!(state.step(&config, milliamps(1), 7000), Ok(Action::Stop));
    assert_eq!(state.step(&config, milliamps(1), 9000), Ok(Action::Stop));
    assert_eq!(state, ControlState { voltage: 3000, last_increase: 0, phase: Phase::Aborted });
}

#[test]
fn overcurrent_aborts_at_the_limit_itself() {
    let config = config();
    let mut state = ramping_at(3000, 0);
    assert_eq!(
        state.step(&config, milliamps(10_000), 100),
        Err(ReformCapError::CapCurrentLimitExceeded)
    );
    assert_eq!(state.phase, Phase::Aborted);
    let mut state = ramping_at(3000, 0);
    assert_eq!(state.step(&config, milliamps(9_999), 100), Ok(Action::Wait));
    assert_eq!(state.phase, Phase::Ramping);
}

#[test]
fn overcurrent_aborts_inside_the_debounce() {
    let config = config();
    let mut state = ramping_at(3000, 5000);
    assert_eq!(
        state.step(&config, milliamps(12_000), 5001),
        Err(ReformCapError::CapCurrentLimitExceeded)
    );
    assert_eq!(state.phase, Phase::Aborted);
    assert_eq!(state.voltage, 3000);
}

#[test]
fn overcurrent_aborts_while_holding() {
    let config = config();
    let mut state = holding_at(10_000);
    assert_eq!(
        state.step(&config, milliamps(10_000), 1),
        Err(ReformCapError::CapCurrentLimitExceeded)
    );
    assert_eq!(state, ControlState { voltage: 10_000, last_increase: 0, phase: Phase::Aborted });
}

#[test]
fn out_of_range_reading_aborts() {
    let config = config();
    for raw in [0x7FFFu16, 0xFFFF] {
        let mut state = ramping_at(3000, 0);
        assert_eq!(
            state.step(&config, milliamps(raw), 5000),
            Err(ReformCapError::CapCurrentLimitExceeded)
        );
        assert_eq!(state.phase, Phase::Aborted);
        let mut state = holding_at(10_000);
        assert_eq!(
            state.step(&config, milliamps(raw), 5000),
            Err(ReformCapError::CapCurrentLimitExceeded)
        );
        assert_eq!(state.phase, Phase::Aborted);
    }
}

#[test]
fn holding_completes_on_the_first_reading_below_finish_current() {
    let config = config();
    let mut state = holding_at(10_000);
    assert_eq!(state.step(&config, milliamps(500), 1000), Ok(Action::Wait));
    assert_eq!(state.step(&config, milliamps(20), 1100), Ok(Action::Wait));
    assert_eq!(state.step(&config, milliamps(21), 1200), Ok(Action::Wait));
    assert_eq!(state, holding_at(10_000));
    assert_eq!(state.step(&config, milliamps(19), 1300), Ok(Action::Stop));
    assert_eq!(state, ControlState { voltage: 10_000, last_increase: 0, phase: Phase::Complete });
    assert_eq!(state.step(&config, milliamps(500), 1400), Ok(Action::Stop));
    assert_eq!(state.phase, Phase::Complete);
}

#[test]
fn holding_never_commands_a_voltage() {
    let config = config();
    let mut state = holding_at(4000);
    for k in 0..50u64 {
        assert_eq!(state.step(&config, milliamps(1000), k * 2000), Ok(Action::Wait));
        assert_eq!(state, holding_at(4000));
    }
}

#[test]
fn negative_current_counts_as_low() {
    let config = config();
    let mut state = ramping_at(0, 0);
    assert_eq!(state.step(&config, milliamps(0x8000 | 5), 1000), Ok(Action::SetVoltage(500)));
    let mut state = holding_at(10_000);
    assert_eq!(state.step(&config, milliamps(0x8000 | 5), 1000), Ok(Action::Stop));
    assert_eq!(state.phase, Phase::Complete);
}

#[test]
fn cancellation_ends_the_loop_quietly() {
    let config = config();
    let mut state = ramping_at(3000, 0);
    assert_eq!(state.step(&config, LoopEvent::Cancelled, 50), Ok(Action::Stop));
    assert_eq!(state, ControlState { voltage: 3000, last_increase: 0, phase: Phase::Cancelled });
    assert_eq!(state.step(&config, milliamps(1), 5000), Ok(Action::Stop));
    assert_eq!(state.step(&config, milliamps(12_000), 6000), Ok(Action::Stop));
    assert_eq!(state, ControlState { voltage: 3000, last_increase: 0, phase: Phase::Cancelled });
    let mut state = holding_at(10_000);
    assert_eq!(state.step(&config, LoopEvent::Cancelled, 50), Ok(Action::Stop));
    assert_eq!(state.phase, Phase::Cancelled);
}

#[test]
fn closed_channel_is_fatal() {
    let config = config();
    let mut state = ramping_at(3000, 0);
    assert_eq!(
        state.step(&config, LoopEvent::ChannelClosed, 50),
        Err(ReformCapError::BtChannelClosed)
    );
    assert_eq!(state.phase, Phase::Aborted);
    assert_eq!(state.voltage, 3000);
    let mut state = holding_at(10_000);
    assert_eq!(
        state.step(&config, LoopEvent::ChannelClosed, 50),
        Err(ReformCapError::BtChannelClosed)
    );
    assert_eq!(state.phase, Phase::Aborted);
}

#[test]
fn empty_slot_is_fatal() {
    let config = config();
    let mut state = ramping_at(3000, 0);
    assert_eq!(
        state.step(&config, LoopEvent::Published(None), 5000),
        Err(ReformCapError::NoBtReading)
    );
    assert_eq!(state.phase, Phase::Aborted);
}

#[test]
fn wrong_mode_is_fatal_and_names_the_mode() {
    let config = config();
    let mut state = ramping_at(3000, 0);
    let volts = LoopEvent::Published(Some(reading_in(0xF020, 2, 500)));
    assert_eq!(
        state.step(&config, volts, 5000),
        Err(ReformCapError::WrongReadingMode { mode: Mode::DcVolt })
    );
    assert_eq!(state.phase, Phase::Aborted);
    let mut state = holding_at(10_000);
    let microamps = LoopEvent::Published(Some(reading_in(0xF090, 0, 1)));
    assert_eq!(
        state.step(&config, microamps, 5000),
        Err(ReformCapError::WrongReadingMode { mode: Mode::DcMicroAmpere })
    );
    assert_eq!(state.phase, Phase::Aborted);
}

#[test]
fn wrong_mode_comes_before_the_limit() {
    let config = config();
    let mut state = ramping_at(3000, 0);
    let amps = LoopEvent::Published(Some(reading_in(0xF0A0, 0, 0x7FFF)));
    assert_eq!(
        state.step(&config, amps, 5000),
        Err(ReformCapError::WrongReadingMode { mode: Mode::DcAmpere })
    );
}

#[test]
fn ended_loop_ignores_every_event() {
    let config = config();
    for phase in [Phase::Complete, Phase::Aborted, Phase::Cancelled] {
        let before = ControlState { voltage: 2500, last_increase: 77, phase };
        for event in [
            LoopEvent::Cancelled,
            LoopEvent::ChannelClosed,
            LoopEvent::Published(None),
            milliamps(1),
            milliamps(12_000),
        ] {
            let mut state = before;
            assert_eq!(state.step(&config, event, 1_000_000), Ok(Action::Stop));
            assert_eq!(state, before);
        }
    }
}

#[test]
fn only_ramping_and_holding_are_active() {
    assert!(Phase::Ramping.is_active());
    assert!(Phase::Holding.is_active());
    assert!(!Phase::Complete.is_active());
    assert!(!Phase::Aborted.is_active());
    assert!(!Phase::Cancelled.is_active());
}

#[test]
fn negative_step_walks_down_and_stops_at_the_floor() {
    let config = ReformConfig { voltage_step: -500, ..config() };
    let mut state = ControlState::new(0);
    assert_eq!(state.step(&config, milliamps(1), 1000), Ok(Action::SetVoltage(-500)));
    assert_eq!(state.step(&config, milliamps(1), 2000), Ok(Action::SetVoltage(-1000)));
    let mut state = ramping_at(i64::MIN + 100, 0);
    assert_eq!(state.step(&config, milliamps(1), 1000), Ok(Action::SetVoltage(i64::MIN)));
    assert_eq!(state.voltage, i64::MIN);
}

#[test]
fn huge_step_does_not_overflow() {
    let config = ReformConfig { rated_voltage: i64::MAX, voltage_step: i64::MAX, ..config() };
    let mut state = ramping_at(5, 0);
    assert_eq!(state.step(&config, milliamps(1), 1000), Ok(Action::SetVoltage(i64::MAX)));
    assert_eq!(state.step(&config, milliamps(1), 2000), Ok(Action::Wait));
    assert_eq!(state.phase, Phase::Holding);
}

#[test]
fn twelve_milliamps_at_three_volts_aborts_at_once() {
    let config = config();
    let mut state = ControlState::new(0);
    for k in 1..=6u64 {
        assert_eq!(
            state.step(&config, milliamps(1000), k * 1000),
            Ok(Action::SetVoltage(500 * k as i64))
        );
    }
    assert_eq!(state.voltage, 3000);
    assert_eq!(
        state.step(&config, milliamps(12_000), 6200),
        Err(ReformCapError::CapCurrentLimitExceeded)
    );
    assert_eq!(state.phase, Phase::Aborted);
    assert_eq!(state.voltage, 3000);
    for k in 7..=30u64 {
        assert_eq!(state.step(&config, milliamps(1000), k * 1000), Ok(Action::Stop));
        assert_eq!(state.voltage, 3000);
    }
}

#[test]
fn cancellation_while_waiting_for_a_reading_returns_cleanly() {
    let config = config();
    let mut state = ControlState::new(0);
    assert_eq!(state.step(&config, milliamps(1000), 1000), Ok(Action::SetVoltage(500)));
    let answer = state.step(&config, LoopEvent::Cancelled, 1300);
    assert_eq!(answer, Ok(Action::Stop));
    assert_eq!(state.phase, Phase::Cancelled);
    assert_eq!(state.voltage, 500);
    assert_eq!(state.step(&config, milliamps(1000), 2000), Ok(Action::Stop));
    assert_eq!(state.step(&config, LoopEvent::ChannelClosed, 2100), Ok(Action::Stop));
    assert_eq!(state.voltage, 500);
}
