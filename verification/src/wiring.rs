//! How the actors are wired together: listeners added to sources, and
//! function stages placed between a source and a mailbox.
use vstd::prelude::*;
use crate::limero::{stage_passes, FlowFunction, SinkModel, SinkRef, SinkTrait, SourceTrait};
use crate::led::{LedCmd, LedView, NO_TIMEOUT_MS, LedState, command_step, timeout_step};
use crate::link::{LinkCmdView, LinkEvent, LinkEventView, link_reply};
use crate::pubsub::{actions_on_link_event, actions_on_start};

verus! {

/// How long, in milliseconds, the LED pulses for data on the link.
pub const PULSE_MS: u64 = 100;

/// The LED command for an event of the link: a pulse for received data,
/// nothing for the rest.
pub open spec fn led_command_for(ev: LinkEventView) -> Option<LedCmd> {
    match ev {
        LinkEventView::Recv { .. } => Some(LedCmd::Pulse { msec: PULSE_MS }),
        _ => None,
    }
}

/// Turns data received on the link into a LED pulse.
pub fn link_recv_to_led_pulse(link_event: LinkEvent) -> (r: Option<LedCmd>)
    ensures
        r == led_command_for(link_event@),
{
    match link_event {
        LinkEvent::Recv { payload: _ } => Some(LedCmd::Pulse { msec: PULSE_MS }),
        _ => None,
    }
}

/// Adds `sink` to the listeners of `src`, after those already there.
///
/// The listeners already there stay, in order, and one more comes last.
pub fn via<T, S: SourceTrait<T> + ?Sized>(src: &mut S, sink: Box<dyn SinkTrait<T>>)
    ensures
        final(src).listener_list().drop_last() == old(src).listener_list(),
        final(src).listener_list().len() == old(src).listener_list().len() + 1,
        final(src).listener_models().drop_last() == old(src).listener_models(),
        final(src).listener_models().len() == old(src).listener_models().len() + 1,
{
    src.add_listener(sink);
}

/// Makes every message of `src` go through `func`, and each result that is
/// `Some` into the mailbox of `sink`: a `FlowFunction` of `func` whose one
/// listener is `sink` is added after the listeners of `src`. The listeners
/// already there stay, in order, and the one added last is a stage that
/// hands on exactly the messages for which `func` can give `Some`, to one
/// listener of its own.
pub fn connect<T, U, S, F>(src: &mut S, func: F, sink: SinkRef<U>)
    where
        T: Clone + Send + Sync + 'static,
        U: Clone + Send + Sync + 'static,
        S: SourceTrait<T> + ?Sized,
        F: Fn(T) -> Option<U> + Send + Sync + 'static,
    requires
        forall|t: T| #[trigger] func.requires((t,)),
    ensures
        final(src).listener_list().drop_last() == old(src).listener_list(),
        final(src).listener_list().len() == old(src).listener_list().len() + 1,
        final(src).listener_models() == old(src).listener_models().push(
            SinkModel::Stage { passes: stage_passes::<T, U, F>(func), fanout: 1 },
        ),
{
    let mut flow = FlowFunction::new(func);
    flow.add_listener(Box::new(sink));
    src.add_listener(Box::new(flow));
}

/// Any data sent over the link comes back and pulses the LED, which is off
/// again, with no timeout left, once the pulse's timeout expires.
pub proof fn law_link_data_pulses_led(payload: Seq<u8>, v: LedView)
    ensures
        led_command_for(link_reply(LinkCmdView::Send { payload })) == Some(
            LedCmd::Pulse { msec: PULSE_MS },
        ),
        command_step(v, LedCmd::Pulse { msec: PULSE_MS }) == (LedView {
            state: LedState::Pulsing,
            timeout_ms: PULSE_MS,
        }),
        timeout_step(command_step(v, LedCmd::Pulse { msec: PULSE_MS })) == (LedView {
            state: LedState::Off,
            timeout_ms: NO_TIMEOUT_MS,
        }),
{
}

/// Starting the front end sends a connect to the link; the link's answer
/// makes the front end greet it; the greeting comes back as received data,
/// which is a pulse for the LED.
pub proof fn law_start_pulses_led()
    ensures
        ({
            let connect = actions_on_start().link_cmd->0;
            let greeting = actions_on_link_event(link_reply(connect)).link_cmd->0;
            led_command_for(link_reply(greeting)) == Some(LedCmd::Pulse { msec: PULSE_MS })
        }),
{
}

} // verus!
