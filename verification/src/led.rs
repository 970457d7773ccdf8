//! A LED driver: it is switched on, off or toggled, or set blinking or
//! pulsing for a number of milliseconds, after which a timeout settles it.
use vstd::prelude::*;
use tokio::sync::mpsc::Receiver;
use crate::limero::{Sink, SinkModel, SinkRef, SinkTrait};

verus! {

/// What the LED can be told to do.
#[derive(Clone, Copy, Debug, PartialEq, Eq, Structural)]
pub enum LedCmd {
    On,
    Off,
    Toggle,
    Blink { msec: u64 },
    Pulse { msec: u64 },
}

/// What the LED is doing.
#[derive(Clone, Copy, Debug, PartialEq, Eq, Structural)]
pub enum LedState {
    On,
    Off,
    Blinking,
    Pulsing,
}

/// The timeout that never comes: `Duration::from_millis(u64::MAX)`.
pub const NO_TIMEOUT_MS: u64 = 0xffff_ffff_ffff_ffff;

/// The room for commands waiting in a LED's mailbox.
pub const LED_MAILBOX: usize = 3;

/// What a LED is, as far as its behaviour goes: its state and the
/// timeout, in milliseconds, that its loop waits for.
pub struct LedView {
    pub state: LedState,
    pub timeout_ms: u64,
}

/// A LED that has just been made: off, waiting for no timeout.
pub open spec fn led_initial() -> LedView {
    LedView { state: LedState::Off, timeout_ms: NO_TIMEOUT_MS }
}

/// The state a command leaves the LED in.
pub open spec fn state_after_command(state: LedState, cmd: LedCmd) -> LedState {
    match cmd {
        LedCmd::On => LedState::On,
        LedCmd::Off => LedState::Off,
        LedCmd::Toggle => if state == LedState::Off { LedState::On } else { LedState::Off },
        LedCmd::Blink { .. } => LedState::Blinking,
        LedCmd::Pulse { .. } => LedState::Pulsing,
    }
}

/// The timeout a command sets: its own for blinking and pulsing, none else.
pub open spec fn timeout_after_command(cmd: LedCmd) -> u64 {
    match cmd {
        LedCmd::Blink { msec } => msec,
        LedCmd::Pulse { msec } => msec,
        _ => NO_TIMEOUT_MS,
    }
}

/// The LED after a command.
pub open spec fn command_step(v: LedView, cmd: LedCmd) -> LedView {
    LedView { state: state_after_command(v.state, cmd), timeout_ms: timeout_after_command(cmd) }
}

/// The LED after its timeout expires: blinking settles on, pulsing settles
/// off and stops the timer; on and off are left alone.
pub open spec fn timeout_step(v: LedView) -> LedView {
    match v.state {
        LedState::Blinking => LedView { state: LedState::On, timeout_ms: v.timeout_ms },
        LedState::Pulsing => LedView { state: LedState::Off, timeout_ms: NO_TIMEOUT_MS },
        _ => v,
    }
}

/// A LED actor: a mailbox of commands and the state they drive.
pub struct Led {
    sink: Sink<LedCmd>,
    state: LedState,
    timeout: u64,
}

impl View for Led {
    type V = LedView;

    closed spec fn view(&self) -> LedView {
        LedView { state: self.state, timeout_ms: self.timeout }
    }
}

impl Led {
    /// The LED's mailbox of commands.
    pub closed spec fn mailbox(&self) -> Sink<LedCmd> {
        self.sink
    }

    /// A LED that is off, with no timeout set, and a mailbox of
    /// `LED_MAILBOX` slots.
    pub fn new() -> (led: Self)
        ensures
            led@ == led_initial(),
            led.mailbox().requested_capacity() == LED_MAILBOX,
    {
        Led { sink: Sink::new(LED_MAILBOX), state: LedState::Off, timeout: NO_TIMEOUT_MS }
    }

    /// A handle through which commands reach this LED.
    pub fn sink(&self) -> (r: SinkRef<LedCmd>)
        ensures
            r.target() == self.mailbox().sender(),
    {
        self.sink.sink_ref()
    }

    /// The reading end of the LED's mailbox, for the loop that drives it.
    pub fn receiver(&mut self) -> (r: &mut Receiver<LedCmd>)
        ensures
            *r == old(self).mailbox().reader(),
            final(self).mailbox().reader() == *final(r),
            final(self).mailbox().sender() == old(self).mailbox().sender(),
            final(self).mailbox().requested_capacity() == old(self).mailbox().requested_capacity(),
            final(self)@ == old(self)@,
    {
        self.sink.receiver()
    }

    /// What the LED is doing.
    pub fn state(&self) -> (s: LedState)
        ensures
            s == self@.state,
    {
        self.state
    }

    /// How long, in milliseconds, the LED's loop waits for a timeout.
    pub fn timeout_ms(&self) -> (t: u64)
        ensures
            t == self@.timeout_ms,
    {
        self.timeout
    }

    fn set_state(&mut self, new_state: LedState)
        ensures
            final(self)@ == (LedView { state: new_state, timeout_ms: old(self)@.timeout_ms }),
            final(self).mailbox() == old(self).mailbox(),
    {
        self.state = new_state;
    }

    /// Reacts to the timeout expiring.
    pub fn on_timeout(&mut self)
        ensures
            final(self)@ == timeout_step(old(self)@),
            final(self).mailbox() == old(self).mailbox(),
    {
        if self.state == LedState::Blinking {
            self.set_state(LedState::On);
        } else if self.state == LedState::Pulsing {
            self.set_state(LedState::Off);
            self.timeout = NO_TIMEOUT_MS;
        }
    }

    /// Reacts to a command.
    pub fn on_command(&mut self, led_cmd: LedCmd)
        ensures
            final(self)@ == command_step(old(self)@, led_cmd),
            final(self).mailbox() == old(self).mailbox(),
    {
        match led_cmd {
            LedCmd::On => {
                self.set_state(LedState::On);
                self.timeout = NO_TIMEOUT_MS;
            },
            LedCmd::Off => {
                self.set_state(LedState::Off);
                self.timeout = NO_TIMEOUT_MS;
            },
            LedCmd::Toggle => {
                let next = if self.state == LedState::Off { LedState::On } else { LedState::Off };
                self.set_state(next);
                self.timeout = NO_TIMEOUT_MS;
            },
            LedCmd::Blink { msec } => {
                self.set_state(LedState::Blinking);
                self.timeout = msec;
            },
            LedCmd::Pulse { msec } => {
                self.set_state(LedState::Pulsing);
                self.timeout = msec;
            },
        }
    }
}

impl SinkTrait<LedCmd> for Led {
    open spec fn model(&self) -> SinkModel<LedCmd> {
        SinkModel::Mailbox { sender: self.mailbox().sender() }
    }

    /// Queues the command in the LED's mailbox; a command that finds it
    /// full is dropped.
    fn push(&self, message: LedCmd) {
        self.sink.push(message);
    }
}

/// Toggling twice brings an LED that was on or off back to that state,
/// with no timeout left; one that was blinking or pulsing ends up on.
pub proof fn law_toggle_twice(v: LedView)
    ensures
        command_step(command_step(v, LedCmd::Toggle), LedCmd::Toggle) == (LedView {
            state: if v.state == LedState::Off { LedState::Off } else { LedState::On },
            timeout_ms: NO_TIMEOUT_MS,
        }),
{
}

/// A pulse ends, when its timeout expires, with the LED off and no
/// timeout left.
pub proof fn law_pulse_then_timeout(v: LedView, msec: u64)
    ensures
        timeout_step(command_step(v, LedCmd::Pulse { msec })) == (LedView {
            state: LedState::Off,
            timeout_ms: NO_TIMEOUT_MS,
        }),
{
}

/// A blink ends, when its timeout expires, with the LED on; the timeout
/// stays set, and further timeouts change nothing.
pub proof fn law_blink_then_timeout(v: LedView, msec: u64)
    ensures
        timeout_step(command_step(v, LedCmd::Blink { msec })) == (LedView {
            state: LedState::On,
            timeout_ms: msec,
        }),
        timeout_step(timeout_step(command_step(v, LedCmd::Blink { msec }))) == timeout_step(
            command_step(v, LedCmd::Blink { msec }),
        ),
{
}

/// A second timeout changes nothing that the first one left, and after a
/// timeout the LED is neither blinking nor pulsing.
pub proof fn law_timeout_settles(v: LedView)
    ensures
        timeout_step(timeout_step(v)) == timeout_step(v),
        timeout_step(v).state == LedState::On || timeout_step(v).state == LedState::Off,
{
}

/// On, off and toggle stop any timer; every command but toggle leaves the
/// LED in the same place whatever it was doing before.
pub proof fn law_commands_reset(v: LedView, w: LedView, cmd: LedCmd)
    ensures
        (cmd == LedCmd::On || cmd == LedCmd::Off || cmd == LedCmd::Toggle) ==> command_step(
            v,
            cmd,
        ).timeout_ms == NO_TIMEOUT_MS,
        cmd != LedCmd::Toggle ==> command_step(v, cmd) == command_step(w, cmd),
{
}

/// One event the LED's loop hands to it: a command read from its mailbox,
/// or its timeout expiring.
pub enum LedInput {
    Command(LedCmd),
    Timeout,
}

/// The LED after one event.
pub open spec fn led_step(v: LedView, input: LedInput) -> LedView {
    match input {
        LedInput::Command(cmd) => command_step(v, cmd),
        LedInput::Timeout => timeout_step(v),
    }
}

/// The LED after a run of events, starting from `v`.
pub open spec fn led_run(v: LedView, inputs: Seq<LedInput>) -> LedView
    decreases inputs.len(),
{
    if inputs.len() == 0 {
        v
    } else {
        led_step(led_run(v, inputs.drop_last()), inputs.last())
    }
}

/// The last blink or pulse command in a run of events, if any.
pub open spec fn last_timed_command(inputs: Seq<LedInput>) -> Option<LedCmd>
    decreases inputs.len(),
{
    if inputs.len() == 0 {
        None
    } else {
        match inputs.last() {
            LedInput::Command(LedCmd::Blink { msec }) => Some(LedCmd::Blink { msec }),
            LedInput::Command(LedCmd::Pulse { msec }) => Some(LedCmd::Pulse { msec }),
            _ => last_timed_command(inputs.drop_last()),
        }
    }
}

/// What holds of a LED after `inputs`: when off it waits for no timeout,
/// and when pulsing or blinking it waits for the time that the last blink
/// or pulse command gave, which was a pulse or a blink accordingly.
pub open spec fn led_invariant(v: LedView, inputs: Seq<LedInput>) -> bool {
    &&& v.state == LedState::Off ==> v.timeout_ms == NO_TIMEOUT_MS
    &&& v.state == LedState::Pulsing ==> last_timed_command(inputs) == Some(
        LedCmd::Pulse { msec: v.timeout_ms },
    )
    &&& v.state == LedState::Blinking ==> last_timed_command(inputs) == Some(
        LedCmd::Blink { msec: v.timeout_ms },
    )
}

/// A LED made by `Led::new` and driven by any run of commands and
/// timeouts keeps the invariant: off means no timeout, and pulsing or
/// blinking waits for the time of the pulse or blink that started it.
pub proof fn law_led_invariant(inputs: Seq<LedInput>)
    ensures
        led_invariant(led_run(led_initial(), inputs), inputs),
    decreases inputs.len(),
{
    if inputs.len() > 0 {
        law_led_invariant(inputs.drop_last());
    }
}

} // verus!
