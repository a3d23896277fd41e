//! Debounce state machine for the push button.
//!
//! The button is active-low: an observed level of 0 means pressed. The
//! machine turns a stream of raw level observations plus a monotonic clock
//! into discrete `Press`, `Hold` and `Release` events. A press arms a
//! one-shot hold deadline; the deadline firing before a release emits
//! `Hold`; a release disarms it. Repeated low levels while a press is in
//! progress are debounced away. When the raw-level source ends, the machine
//! ends its own output with no further events, whatever its state.
//!
//! Times are nanoseconds on a monotonic clock, as plain `u64` values. The
//! machine never reads the clock itself: every observation carries its own
//! timestamp, so the same transition table serves an interrupt-driven and a
//! polled source alike.

use vstd::prelude::*;

verus! {

/// A discrete button event.
#[derive(Clone, Copy, PartialEq, Eq, Structural, Debug)]
pub enum ButtonEvent {
    /// The button went down.
    Press,
    /// The button stayed down past the hold time.
    Hold,
    /// The button came back up.
    Release,
}

/// The word naming an event.
pub open spec fn spec_label(e: ButtonEvent) -> Seq<char> {
    match e {
        ButtonEvent::Press => "press"@,
        ButtonEvent::Hold => "hold"@,
        ButtonEvent::Release => "release"@,
    }
}

impl ButtonEvent {
    /// The word naming this event, as shown to a user.
    pub fn label(&self) -> (s: &'static str)
        ensures
            s@ == spec_label(*self),
    {
        match *self {
            ButtonEvent::Press => "press",
            ButtonEvent::Hold => "hold",
            ButtonEvent::Release => "release",
        }
    }
}

/// Where the machine stands between observations.
#[derive(Clone, Copy, PartialEq, Eq, Structural, Debug)]
pub enum ButtonState {
    /// No press in progress.
    Idle,
    /// A press is in progress and its hold deadline is armed.
    Pressed {
        /// The instant at which the pending hold fires.
        deadline: u64,
    },
    /// The hold already fired for this press; awaiting the release.
    Held,
    /// The raw-level source ended; no further event is ever produced.
    Ended,
}

/// One external trigger handed to the machine.
#[derive(Clone, Copy, PartialEq, Eq, Structural, Debug)]
pub enum ButtonInput {
    /// A raw level observation at a given instant (0 = pressed).
    Level {
        /// The observed digital level.
        value: u8,
        /// When it was observed.
        at: u64,
    },
    /// The armed hold deadline elapsed.
    Timeout,
    /// The raw-level source ended (device removed).
    End,
}

/// The debounce machine: its configured hold time and its current state.
#[derive(Clone, Copy, PartialEq, Eq, Structural, Debug)]
pub struct ButtonMachine {
    /// How long a press must persist before `Hold` fires, in nanoseconds.
    pub hold_time: u64,
    /// The current state.
    pub state: ButtonState,
}

/// The transition table: the machine and the event it emits, if any, on
/// one input.
///
/// - `Idle` + level 0: emit `Press`, arm the deadline at `at + hold_time`.
/// - `Pressed` + timeout: emit `Hold`, disarm, go to `Held`.
/// - `Pressed` or `Held` + nonzero level: emit `Release`, disarm, go idle.
/// - level 0 while `Pressed` or `Held`: debounced, no event, no re-arm.
/// - nonzero level while `Idle`: no event (no release without a press).
/// - a timeout while no deadline is armed: no event.
/// - `End` from any state: go to `Ended`, emit nothing.
/// - `Ended` absorbs every input with no event.
pub open spec fn spec_step(m: ButtonMachine, input: ButtonInput) -> (ButtonMachine, Option<
    ButtonEvent,
>) {
    if m.state is Ended {
        (m, None)
    } else {
        match input {
            ButtonInput::Level { value, at } => if value == 0 {
                if m.state is Idle {
                    (
                        ButtonMachine {
                            hold_time: m.hold_time,
                            state: ButtonState::Pressed { deadline: (at + m.hold_time) as u64 },
                        },
                        Some(ButtonEvent::Press),
                    )
                } else {
                    (m, None)
                }
            } else {
                if m.state is Idle {
                    (m, None)
                } else {
                    (
                        ButtonMachine { hold_time: m.hold_time, state: ButtonState::Idle },
                        Some(ButtonEvent::Release),
                    )
                }
            },
            ButtonInput::Timeout => if m.state is Pressed {
                (
                    ButtonMachine { hold_time: m.hold_time, state: ButtonState::Held },
                    Some(ButtonEvent::Hold),
                )
            } else {
                (m, None)
            },
            ButtonInput::End => (
                ButtonMachine { hold_time: m.hold_time, state: ButtonState::Ended },
                None,
            ),
        }
    }
}

impl ButtonMachine {
    /// A fresh machine with the given hold time, idle.
    pub fn new(hold_time: u64) -> (m: Self)
        ensures
            m == (ButtonMachine { hold_time, state: ButtonState::Idle }),
    {
        ButtonMachine { hold_time, state: ButtonState::Idle }
    }

    /// Feeds one input through the transition table.
    pub fn step(self, input: ButtonInput) -> (r: (Self, Option<ButtonEvent>))
        requires
            input matches ButtonInput::Level { value, at } ==> at + self.hold_time <= u64::MAX,
        ensures
            r == spec_step(self, input),
    {
        if matches!(self.state, ButtonState::Ended) {
            return (self, None);
        }
        match input {
            ButtonInput::Level { value, at } => {
                if value == 0 {
                    if matches!(self.state, ButtonState::Idle) {
                        let deadline = at + self.hold_time;
                        (
                            ButtonMachine {
                                hold_time: self.hold_time,
                                state: ButtonState::Pressed { deadline },
                            },
                            Some(ButtonEvent::Press),
                        )
                    } else {
                        (self, None)
                    }
                } else {
                    if matches!(self.state, ButtonState::Idle) {
                        (self, None)
                    } else {
                        (
                            ButtonMachine { hold_time: self.hold_time, state: ButtonState::Idle },
                            Some(ButtonEvent::Release),
                        )
                    }
                }
            },
            ButtonInput::Timeout => {
                if matches!(self.state, ButtonState::Pressed { .. }) {
                    (
                        ButtonMachine { hold_time: self.hold_time, state: ButtonState::Held },
                        Some(ButtonEvent::Hold),
                    )
                } else {
                    (self, None)
                }
            },
            ButtonInput::End => (
                ButtonMachine { hold_time: self.hold_time, state: ButtonState::Ended },
                None,
            ),
        }
    }
}

/// Whether the armed hold deadline has elapsed at `now`.
pub open spec fn spec_timeout_due(m: ButtonMachine, now: u64) -> bool {
    m.state matches ButtonState::Pressed { deadline } && now >= deadline
}

impl ButtonMachine {
    /// Whether the armed hold deadline has elapsed at `now`. When it has
    /// and a level is observed at the same instant, the timeout is fed to
    /// the machine first: the hold must precede a same-instant release.
    pub fn timeout_due(&self, now: u64) -> (b: bool)
        ensures
            b == spec_timeout_due(*self, now),
    {
        match self.state {
            ButtonState::Pressed { deadline } => now >= deadline,
            _ => false,
        }
    }

    /// How long the event pump may wait for the next raw level before it
    /// must look at the clock again: until the armed deadline, or for as
    /// long as it likes (`None`) when none is armed.
    pub fn wait_budget(&self, now: u64) -> (d: Option<u64>)
        ensures
            match self.state {
                ButtonState::Pressed { deadline } => d == Some(
                    if now < deadline {
                        (deadline - now) as u64
                    } else {
                        0u64
                    },
                ),
                _ => d is None,
            },
    {
        match self.state {
            ButtonState::Pressed { deadline } => {
                if now < deadline {
                    Some(deadline - now)
                } else {
                    Some(0)
                }
            },
            _ => None,
        }
    }
}

/// The end of the raw-level source is terminal: ending emits no event and
/// leaves the machine in `Ended` — even if a hold deadline was pending —
/// and an ended machine emits nothing on any later input.
pub proof fn lemma_end_is_terminal(m: ButtonMachine, input: ButtonInput)
    ensures
        spec_step(m, ButtonInput::End).1 is None,
        spec_step(m, ButtonInput::End).0.state is Ended,
        m.state is Ended ==> spec_step(m, input) == (m, Option::<ButtonEvent>::None),
{
}

/// One raw level observation with its timestamp.
#[derive(Clone, Copy, PartialEq, Eq, Structural, Debug)]
pub struct Sample {
    /// When the level was observed, on the monotonic clock.
    pub at: u64,
    /// The observed digital level (0 = pressed).
    pub level: u8,
}

/// An event as a sequence of zero or one elements.
pub open spec fn opt_events(e: Option<ButtonEvent>) -> Seq<ButtonEvent> {
    match e {
        Some(ev) => seq![ev],
        None => Seq::empty(),
    }
}

/// The events a machine produces over a recorded trace of observations,
/// after which the source ends.
///
/// Before each observation is handed over, an armed hold deadline that the
/// observation's timestamp has already passed is serviced first: when the
/// timer and a level are ready at once the timer wins, so a hold always
/// precedes a same-instant release. Exactly one event at most is emitted
/// per trigger. The end of the trace emits nothing.
pub open spec fn spec_run(m: ButtonMachine, samples: Seq<Sample>) -> Seq<ButtonEvent>
    decreases samples.len(),
{
    if samples.len() == 0 {
        opt_events(spec_step(m, ButtonInput::End).1)
    } else {
        let s = samples[0];
        let t = if spec_timeout_due(m, s.at) {
            spec_step(m, ButtonInput::Timeout)
        } else {
            (m, None)
        };
        let l = spec_step(t.0, ButtonInput::Level { value: s.level, at: s.at });
        opt_events(t.1) + opt_events(l.1) + spec_run(l.0, samples.drop_first())
    }
}

/// Replays a recorded trace of raw observations through a fresh machine
/// and collects every event, in order. The trace's end ends the event
/// sequence with nothing further.
pub fn run(hold_time: u64, samples: &Vec<Sample>) -> (events: Vec<ButtonEvent>)
    requires
        forall|i: int|
            0 <= i < samples@.len() ==> (#[trigger] samples@[i]).at + hold_time <= u64::MAX,
    ensures
        events@ == spec_run(ButtonMachine { hold_time, state: ButtonState::Idle }, samples@),
{
    let ghost m0 = ButtonMachine { hold_time, state: ButtonState::Idle };
    let mut m = ButtonMachine::new(hold_time);
    let mut events: Vec<ButtonEvent> = Vec::new();
    let n = samples.len();
    proof {
        assert(samples@.skip(0) =~= samples@);
    }
    for i in 0..n
        invariant
            n == samples@.len(),
            m.hold_time == hold_time,
            forall|j: int|
                0 <= j < samples@.len() ==> (#[trigger] samples@[j]).at + hold_time <= u64::MAX,
            spec_run(m0, samples@) =~= events@ + spec_run(m, samples@.skip(i as int)),
    {
        let s = samples[i];
        let ghost rest = samples@.skip(i as int);
        proof {
            assert(rest[0] == samples@[i as int]);
            assert(rest.drop_first() =~= samples@.skip(i as int + 1));
        }
        if m.timeout_due(s.at) {
            let (m1, e1) = m.step(ButtonInput::Timeout);
            m = m1;
            if let Some(ev) = e1 {
                events.push(ev);
            }
        }
        let (m2, e2) = m.step(ButtonInput::Level { value: s.level, at: s.at });
        m = m2;
        if let Some(ev) = e2 {
            events.push(ev);
        }
        proof {
            assert(spec_run(m0, samples@) =~= events@ + spec_run(m, samples@.skip(i as int + 1)));
        }
    }
    proof {
        assert(samples@.skip(n as int) =~= Seq::<Sample>::empty());
        lemma_end_is_terminal(m, ButtonInput::End);
        assert(spec_run(m, samples@.skip(n as int)) =~= Seq::<ButtonEvent>::empty());
        assert(events@ =~= events@ + Seq::<ButtonEvent>::empty());
    }
    events
}

} // verus!
