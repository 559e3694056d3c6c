//! The reforming control loop, as a state machine.
//!
//! The driver owns the clock, the reading channel and the power supply. For
//! each thing that happens it calls [`ControlState::step`], which moves the
//! state and answers with what to do next. Voltages are in millivolts,
//! currents in the value units of a DC milliampere reading, times in
//! milliseconds.

use crate::owon::mode::Mode;
use crate::owon::reading::Reading;
use vstd::prelude::*;

verus! {

/// Least time between two voltage increases, in milliseconds.
pub const DEBOUNCE_MS: u64 = 1000;

/// Time to let the supply settle after a startup command, in milliseconds.
pub const SETTLE_MS: u64 = 500;

/// The parameters of one run.
#[derive(Debug, Clone, Copy, PartialEq, Eq, Structural)]
pub struct ReformConfig {
    /// Rated voltage of the capacitor: the ramp ends there.
    pub rated_voltage: i64,
    /// The voltage is raised once the current has fallen below this.
    pub reform_current: i64,
    /// At rated voltage, reforming is complete once the current has fallen
    /// below this.
    pub finish_current: i64,
    /// By how much the voltage is raised at a time.
    pub voltage_step: i64,
    /// The run is aborted as soon as the current is not below this.
    pub current_limit: i64,
    /// The current at which the supply itself starts to limit.
    pub psu_current_limit: i64,
}

/// Where the loop stands.
#[derive(Debug, Clone, Copy, PartialEq, Eq, Structural)]
pub enum Phase {
    /// Raising the voltage step by step.
    Ramping,
    /// At rated voltage, waiting for the current to fall.
    Holding,
    /// Ended: the capacitor is reformed.
    Complete,
    /// Ended with an error; the step that ended it returned the error.
    Aborted,
    /// Ended on request.
    Cancelled,
}

impl Phase {
    /// Whether the loop is still running in this phase.
    pub open spec fn spec_is_active(self) -> bool {
        self == Phase::Ramping || self == Phase::Holding
    }

    /// Whether the loop is still running in this phase.
    #[verifier::when_used_as_spec(spec_is_active)]
    pub fn is_active(self) -> (active: bool)
        ensures
            active == self.spec_is_active(),
    {
        match self {
            Phase::Ramping | Phase::Holding => true,
            _ => false,
        }
    }
}

/// The state of the loop.
#[derive(Debug, Clone, Copy, PartialEq, Eq, Structural)]
pub struct ControlState {
    /// The voltage last commanded.
    pub voltage: i64,
    /// When the voltage was last raised (at the start: when the loop began).
    pub last_increase: u64,
    /// The phase.
    pub phase: Phase,
}

/// Why the loop ended with an error.
#[derive(Debug, Clone, Copy, PartialEq, Eq, Structural)]
pub enum ReformCapError {
    /// The reading channel was closed: no reading will come any more.
    BtChannelClosed,
    /// The channel published, but held no reading.
    NoBtReading,
    /// The multimeter is not measuring DC milliamperes.
    WrongReadingMode { mode: Mode },
    /// The current was not below the limit.
    CapCurrentLimitExceeded,
}

/// What the loop met at one of its iterations.
#[derive(Debug, Clone, Copy, PartialEq, Eq, Structural)]
pub enum LoopEvent {
    /// The cancellation signal was set.
    Cancelled,
    /// The reading channel was closed.
    ChannelClosed,
    /// The channel published; this is what its slot held.
    Published(Option<Reading>),
}

/// What the driver does after a step.
#[derive(Debug, Clone, Copy, PartialEq, Eq, Structural)]
pub enum Action {
    /// Nothing to command: wait for the next event.
    Wait,
    /// Command the supply to this voltage, then wait for the next event.
    SetVoltage(i64),
    /// The loop is over: command nothing further.
    Stop,
}

/// A command to the power supply.
#[derive(Debug, Clone, Copy, PartialEq, Eq, Structural)]
pub enum Command {
    /// Set the output voltage.
    SetVoltage(i64),
    /// Set the current at which the supply limits.
    SetCurrent(i64),
    /// Switch the output on or off.
    SetOutput(bool),
}

/// One step of the startup sequence.
#[derive(Debug, Clone, Copy, PartialEq, Eq, Structural)]
pub enum StartupStep {
    /// Send this command.
    Issue(Command),
    /// Wait this many milliseconds.
    Settle(u64),
}

/// An event with the time at which the loop met it.
pub struct TimedEvent {
    pub event: LoopEvent,
    pub at: u64,
}

/// Whether a measurement is a number below `threshold`. An out-of-range
/// measurement (`None`) is below nothing.
pub open spec fn below(measured: Option<int>, threshold: i64) -> bool {
    measured matches Some(v) && v < threshold
}

/// The time from `last` to `now`; none if the clock reads earlier than `last`.
pub open spec fn elapsed(last: u64, now: u64) -> nat {
    if now >= last {
        (now - last) as nat
    } else {
        0
    }
}

/// The voltage one step above `voltage`, but no more than the rated voltage
/// (and no less than an `i64` can hold).
pub open spec fn raised(voltage: i64, config: ReformConfig) -> i64 {
    let sum = voltage + config.voltage_step;
    if sum >= config.rated_voltage {
        config.rated_voltage
    } else if sum < i64::MIN {
        i64::MIN
    } else {
        sum as i64
    }
}

/// The current that the channel's slot stands for: the value of a DC
/// milliampere reading. An empty slot and a reading in another mode are
/// errors.
pub open spec fn spec_current_milliamps(slot: Option<Reading>) -> Result<
    Option<int>,
    ReformCapError,
> {
    match slot {
        None => Err(ReformCapError::NoBtReading),
        Some(r) => if r@.mode == Mode::DcMilliAmpere {
            Ok(r@.value())
        } else {
            Err(ReformCapError::WrongReadingMode { mode: r@.mode })
        },
    }
}

/// The state `s` with its phase replaced.
pub open spec fn in_phase(s: ControlState, phase: Phase) -> ControlState {
    ControlState { voltage: s.voltage, last_increase: s.last_increase, phase }
}

/// What a measured current does to a running loop.
pub open spec fn spec_judge(
    s: ControlState,
    config: ReformConfig,
    measured: Option<int>,
    now: u64,
) -> (ControlState, Result<Action, ReformCapError>) {
    if !below(measured, config.current_limit) {
        (in_phase(s, Phase::Aborted), Err(ReformCapError::CapCurrentLimitExceeded))
    } else if s.phase == Phase::Ramping {
        if below(measured, config.reform_current) && elapsed(s.last_increase, now)
            >= DEBOUNCE_MS {
            if s.voltage == config.rated_voltage {
                (in_phase(s, Phase::Holding), Ok(Action::Wait))
            } else {
                (
                    ControlState {
                        voltage: raised(s.voltage, config),
                        last_increase: now,
                        phase: Phase::Ramping,
                    },
                    Ok(Action::SetVoltage(raised(s.voltage, config))),
                )
            }
        } else {
            (s, Ok(Action::Wait))
        }
    } else {
        if below(measured, config.finish_current) {
            (in_phase(s, Phase::Complete), Ok(Action::Stop))
        } else {
            (s, Ok(Action::Wait))
        }
    }
}

/// One iteration of the loop: the next state, and the action or the error.
///
/// A loop that has ended stays as it is. A running loop ends on cancellation
/// (no error), on a closed channel, an empty slot or a reading of the wrong
/// mode (each an error); else the measured current decides.
pub open spec fn spec_step(s: ControlState, config: ReformConfig, event: LoopEvent, now: u64) -> (
    ControlState,
    Result<Action, ReformCapError>,
) {
    if !s.phase.spec_is_active() {
        (s, Ok(Action::Stop))
    } else {
        match event {
            LoopEvent::Cancelled => (in_phase(s, Phase::Cancelled), Ok(Action::Stop)),
            LoopEvent::ChannelClosed => (
                in_phase(s, Phase::Aborted),
                Err(ReformCapError::BtChannelClosed),
            ),
            LoopEvent::Published(slot) => match spec_current_milliamps(slot) {
                Err(e) => (in_phase(s, Phase::Aborted), Err(e)),
                Ok(measured) => spec_judge(s, config, measured, now),
            },
        }
    }
}

/// The state after a run of events.
pub open spec fn spec_run(s: ControlState, config: ReformConfig, events: Seq<TimedEvent>) -> ControlState
    decreases events.len(),
{
    if events.len() == 0 {
        s
    } else {
        spec_step(
            spec_run(s, config, events.drop_last()),
            config,
            events.last().event,
            events.last().at,
        ).0
    }
}

/// The current that the channel's slot stands for.
///
/// `Ok(Some(v))` is a measured current, `Ok(None)` the instrument's "out of
/// range". An empty slot gives `NoBtReading`, a reading in another mode than
/// DC milliampere gives `WrongReadingMode` with that mode.
pub fn current_milliamps(slot: Option<Reading>) -> (current: Result<Option<i64>, ReformCapError>)
    ensures
        match current {
            Ok(Some(v)) => spec_current_milliamps(slot) == Ok::<Option<int>, ReformCapError>(
                Some(v as int),
            ),
            Ok(None) => spec_current_milliamps(slot) == Ok::<Option<int>, ReformCapError>(None),
            Err(e) => spec_current_milliamps(slot) == Err::<Option<int>, ReformCapError>(e),
        },
{
    match slot {
        None => Err(ReformCapError::NoBtReading),
        Some(reading) => match reading.mode() {
            Mode::DcMilliAmpere => Ok(reading.value()),
            mode => Err(ReformCapError::WrongReadingMode { mode }),
        },
    }
}

/// The commands that precede the loop: voltage to zero, settle, the supply's
/// own current limit, settle, output on.
pub fn startup_sequence(config: &ReformConfig) -> (steps: Vec<StartupStep>)
    ensures
        steps@ == seq![
            StartupStep::Issue(Command::SetVoltage(0)),
            StartupStep::Settle(SETTLE_MS),
            StartupStep::Issue(Command::SetCurrent(config.psu_current_limit)),
            StartupStep::Settle(SETTLE_MS),
            StartupStep::Issue(Command::SetOutput(true)),
        ],
{
    let mut steps: Vec<StartupStep> = Vec::new();
    steps.push(StartupStep::Issue(Command::SetVoltage(0)));
    steps.push(StartupStep::Settle(SETTLE_MS));
    steps.push(StartupStep::Issue(Command::SetCurrent(config.psu_current_limit)));
    steps.push(StartupStep::Settle(SETTLE_MS));
    steps.push(StartupStep::Issue(Command::SetOutput(true)));
    steps
}

/// Whether `measured` is a number below `threshold`.
fn is_below(measured: Option<i64>, threshold: i64) -> (b: bool)
    ensures
        b == (measured matches Some(v) && v < threshold),
{
    match measured {
        Some(v) => v < threshold,
        None => false,
    }
}

/// The voltage one step above `voltage`, clamped.
fn raise(voltage: i64, config: &ReformConfig) -> (v: i64)
    ensures
        v == raised(voltage, *config),
{
    match voltage.checked_add(config.voltage_step) {
        Some(sum) => if sum >= config.rated_voltage {
            config.rated_voltage
        } else {
            sum
        },
        None => if config.voltage_step > 0 {
            config.rated_voltage
        } else {
            i64::MIN
        },
    }
}

impl ControlState {
    /// The state at the start of the loop: nothing commanded yet, ramping,
    /// and the debounce running from `now`.
    pub fn new(now: u64) -> (s: ControlState)
        ensures
            s == (ControlState { voltage: 0, last_increase: now, phase: Phase::Ramping }),
    {
        ControlState { voltage: 0, last_increase: now, phase: Phase::Ramping }
    }

    /// One iteration of the loop at time `now`.
    ///
    /// Moves the state as [`spec_step`] says, and returns the action to take
    /// or the error that ended the loop.
    pub fn step(&mut self, config: &ReformConfig, event: LoopEvent, now: u64) -> (result: Result<
        Action,
        ReformCapError,
    >)
        ensures
            (*final(self), result) == spec_step(*old(self), *config, event, now),
    {
        if !self.phase.is_active() {
            return Ok(Action::Stop);
        }
        let slot = match event {
            LoopEvent::Cancelled => {
                self.phase = Phase::Cancelled;
                return Ok(Action::Stop);
            },
            LoopEvent::ChannelClosed => {
                self.phase = Phase::Aborted;
                return Err(ReformCapError::BtChannelClosed);
            },
            LoopEvent::Published(slot) => slot,
        };
        let measured = match current_milliamps(slot) {
            Ok(measured) => measured,
            Err(e) => {
                self.phase = Phase::Aborted;
                return Err(e);
            },
        };
        if !is_below(measured, config.current_limit) {
            self.phase = Phase::Aborted;
            return Err(ReformCapError::CapCurrentLimitExceeded);
        }
        match self.phase {
            Phase::Ramping => {
                let waited: u64 = if now >= self.last_increase {
                    now - self.last_increase
                } else {
                    0
                };
                if is_below(measured, config.reform_current) && waited >= DEBOUNCE_MS {
                    if self.voltage == config.rated_voltage {
                        self.phase = Phase::Holding;
                        Ok(Action::Wait)
                    } else {
                        let voltage = raise(self.voltage, config);
                        self.voltage = voltage;
                        self.last_increase = now;
                        Ok(Action::SetVoltage(voltage))
                    }
                } else {
                    Ok(Action::Wait)
                }
            },
            _ => {
                if is_below(measured, config.finish_current) {
                    self.phase = Phase::Complete;
                    Ok(Action::Stop)
                } else {
                    Ok(Action::Wait)
                }
            },
        }
    }
}

/// Whether `e` brings a DC milliampere reading below the reform current (and
/// below the limit).
pub open spec fn quiet(config: ReformConfig, e: TimedEvent) -> bool {
    e.event matches LoopEvent::Published(Some(r)) && r@.mode == Mode::DcMilliAmpere && below(
        r@.value(),
        config.reform_current,
    ) && below(r@.value(), config.current_limit)
}

/// Whether `e` brings a DC milliampere reading below the limit, but not below
/// the finish current.
pub open spec fn steady(config: ReformConfig, e: TimedEvent) -> bool {
    e.event matches LoopEvent::Published(Some(r)) && r@.mode == Mode::DcMilliAmpere && below(
        r@.value(),
        config.current_limit,
    ) && !below(r@.value(), config.finish_current)
}

/// Whether each event comes at least the debounce time after the one before
/// it, the first one that long after `start`.
pub open spec fn debounced(start: u64, events: Seq<TimedEvent>) -> bool {
    forall|i: int|
        0 <= i < events.len() ==> (#[trigger] events[i]).at >= DEBOUNCE_MS + (if i == 0 {
            start
        } else {
            events[i - 1].at
        })
}

/// The voltage `n` steps above `start`, but no more than the rated voltage.
pub open spec fn ramp_level(start: i64, config: ReformConfig, n: int) -> int {
    let climbed = start + n * config.voltage_step;
    if climbed >= config.rated_voltage {
        config.rated_voltage as int
    } else {
        climbed
    }
}

/// The limit is enforced in every running phase, whatever the ramp has
/// reached and whatever the clock reads: a DC milliampere reading that is not
/// below the current limit (a number at or above it, or "out of range") ends
/// the loop as aborted on that very step, with the error of its own and with
/// no voltage commanded.
pub proof fn lemma_overcurrent_aborts(
    s: ControlState,
    config: ReformConfig,
    reading: Reading,
    now: u64,
)
    requires
        s.phase.spec_is_active(),
        reading@.mode == Mode::DcMilliAmpere,
        !below(reading@.value(), config.current_limit),
    ensures
        spec_step(s, config, LoopEvent::Published(Some(reading)), now) == (
            in_phase(s, Phase::Aborted),
            Err::<Action, ReformCapError>(ReformCapError::CapCurrentLimitExceeded),
        ),
{
}

/// A loop that has ended stays ended: no event moves it, and the answer is
/// always to stop.
pub proof fn lemma_ended_stays(s: ControlState, config: ReformConfig, event: LoopEvent, now: u64)
    requires
        !s.phase.spec_is_active(),
    ensures
        spec_step(s, config, event, now) == (s, Ok::<Action, ReformCapError>(Action::Stop)),
{
}

/// Cancellation ends a running loop without error and without a command,
/// whatever else is going on.
pub proof fn lemma_cancel_stops(s: ControlState, config: ReformConfig, now: u64)
    requires
        s.phase.spec_is_active(),
    ensures
        spec_step(s, config, LoopEvent::Cancelled, now) == (
            in_phase(s, Phase::Cancelled),
            Ok::<Action, ReformCapError>(Action::Stop),
        ),
{
}

/// The loop never commands more than the rated voltage: from a state at or
/// below it, a step leaves the voltage at or below it, and a voltage that is
/// commanded is the new voltage of the state.
pub proof fn lemma_never_above_rated(
    s: ControlState,
    config: ReformConfig,
    event: LoopEvent,
    now: u64,
)
    requires
        s.voltage <= config.rated_voltage,
    ensures
        spec_step(s, config, event, now).0.voltage <= config.rated_voltage,
        spec_step(s, config, event, now).1 matches Ok(Action::SetVoltage(v)) ==> v == spec_step(
            s,
            config,
            event,
            now,
        ).0.voltage && s.phase == Phase::Ramping,
{
}

/// The voltage changes only together with a command for it: a step that does
/// not answer `SetVoltage` leaves the commanded voltage as it was.
pub proof fn lemma_voltage_moves_with_command(
    s: ControlState,
    config: ReformConfig,
    event: LoopEvent,
    now: u64,
)
    ensures
        !(spec_step(s, config, event, now).1 matches Ok(Action::SetVoltage(_))) ==> spec_step(
            s,
            config,
            event,
            now,
        ).0.voltage == s.voltage,
{
}

/// The ramp. Take a ramping loop at or below the rated voltage, a positive
/// voltage step, and a run of readings that are all quiet (DC milliampere,
/// below the reform current and the limit) and debounced (each at least the
/// debounce time after the one before). Then each reading raises the voltage
/// by one step, clamped to the rated voltage: after `n` readings it is
/// `ramp_level(n)`, for as long as the level before was below the rated
/// voltage, and each such reading leaves it strictly higher than it found
/// it. The first reading that finds the voltage at the rated voltage moves
/// the loop to holding.
pub proof fn lemma_ramp_climbs(s: ControlState, config: ReformConfig, events: Seq<TimedEvent>)
    requires
        s.phase == Phase::Ramping,
        s.voltage <= config.rated_voltage,
        config.voltage_step > 0,
        forall|i: int| 0 <= i < events.len() ==> quiet(config, #[trigger] events[i]),
        debounced(s.last_increase, events),
    ensures
        events.len() == 0 || ramp_level(s.voltage, config, events.len() - 1)
            < config.rated_voltage ==> {
            &&& spec_run(s, config, events).phase == Phase::Ramping
            &&& spec_run(s, config, events).voltage == ramp_level(
                s.voltage,
                config,
                events.len() as int,
            )
            &&& events.len() > 0 ==> spec_run(s, config, events).last_increase
                == events.last().at
        },
        events.len() >= 1 && ramp_level(s.voltage, config, events.len() - 1)
            == config.rated_voltage && (events.len() == 1 || ramp_level(
            s.voltage,
            config,
            events.len() - 2,
        ) < config.rated_voltage) ==> {
            &&& spec_run(s, config, events).phase == Phase::Holding
            &&& spec_run(s, config, events).voltage == config.rated_voltage
        },
        events.len() >= 1 && ramp_level(s.voltage, config, events.len() - 1)
            < config.rated_voltage ==> {
            let before = spec_run(s, config, events.drop_last()).voltage;
            let after = spec_run(s, config, events).voltage;
            &&& before < after
            &&& after == before + config.voltage_step || after == config.rated_voltage
        },
    decreases events.len(),
{
    let n = events.len() as int;
    if n > 0 {
        let prefix = events.drop_last();
        let last = events.last();
        assert forall|i: int| 0 <= i < prefix.len() implies quiet(config, #[trigger] prefix[i]) by {
            assert(prefix[i] == events[i]);
        }
        assert(debounced(s.last_increase, prefix)) by {
            assert forall|i: int| 0 <= i < prefix.len() implies (#[trigger] prefix[i]).at
                >= DEBOUNCE_MS + (if i == 0 {
                s.last_increase
            } else {
                prefix[i - 1].at
            }) by {
                assert(prefix[i] == events[i]);
                if i > 0 {
                    assert(prefix[i - 1] == events[i - 1]);
                }
            }
        }
        lemma_ramp_climbs(s, config, prefix);
        let before = spec_run(s, config, prefix);
        let step = config.voltage_step as int;
        let v0 = s.voltage as int;
        assert((n - 2) * step + step == (n - 1) * step) by (nonlinear_arith);
        assert((n - 1) * step + step == n * step) by (nonlinear_arith);
        assert(quiet(config, events[n - 1]));
        assert(events[n - 1].at >= DEBOUNCE_MS + (if n - 1 == 0 {
            s.last_increase
        } else {
            events[n - 2].at
        }));
        if n >= 2 {
            assert(prefix.last() == events[n - 2]);
        }
        if n == 1 {
            assert(0 * step == 0) by (nonlinear_arith);
            assert(before == s);
        }
        if n == 1 || ramp_level(s.voltage, config, n - 2) < config.rated_voltage {
            // the prefix left the loop ramping, at the level before this one
            assert(before.phase == Phase::Ramping);
            assert(before.voltage == ramp_level(s.voltage, config, n - 1));
            assert(elapsed(before.last_increase, last.at) >= DEBOUNCE_MS);
        }
    }
}

/// While the loop holds, readings that are steady (DC milliampere, below the
/// limit, not below the finish current) change nothing.
pub proof fn lemma_holding_waits(s: ControlState, config: ReformConfig, events: Seq<TimedEvent>)
    requires
        s.phase == Phase::Holding,
        forall|i: int| 0 <= i < events.len() ==> steady(config, #[trigger] events[i]),
    ensures
        spec_run(s, config, events) == s,
    decreases events.len(),
{
    if events.len() > 0 {
        let prefix = events.drop_last();
        assert forall|i: int| 0 <= i < prefix.len() implies steady(config, #[trigger] prefix[i]) by {
            assert(prefix[i] == events[i]);
        }
        lemma_holding_waits(s, config, prefix);
        assert(steady(config, events[events.len() - 1]));
    }
}

/// In holding, the first reading below the finish current completes the
/// loop: after any run of steady readings, a DC milliampere reading below the
/// finish current (and below the limit) ends the loop as complete, with the
/// answer to stop and the voltage as it was.
pub proof fn lemma_first_low_reading_completes(
    s: ControlState,
    config: ReformConfig,
    events: Seq<TimedEvent>,
    reading: Reading,
    now: u64,
)
    requires
        s.phase == Phase::Holding,
        forall|i: int| 0 <= i < events.len() ==> steady(config, #[trigger] events[i]),
        reading@.mode == Mode::DcMilliAmpere,
        below(reading@.value(), config.finish_current),
        below(reading@.value(), config.current_limit),
    ensures
        spec_step(
            spec_run(s, config, events),
            config,
            LoopEvent::Published(Some(reading)),
            now,
        ) == (in_phase(s, Phase::Complete), Ok::<Action, ReformCapError>(Action::Stop)),
{
    lemma_holding_waits(s, config, events);
}

} // verus!
