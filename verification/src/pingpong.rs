//! The ping-pong pair: the pinger sends a ping carrying a counter, the
//! ponger answers every ping with a pong carrying the same data back to
//! the ping's sender, and the pinger counts the pongs until the millionth.
use vstd::prelude::*;
use tokio::sync::mpsc::Receiver;
use crate::limero::{Sink, SinkRef};

verus! {

/// A ping, with the handle to answer on, or a pong; `D` is the data
/// carried back and forth.
#[derive(Clone)]
pub enum PingPongMsg<R, D> {
    Ping { src: R, data: D },
    Pong { data: D },
}

/// How often, in pongs, the pinger reports its progress.
pub const REPORT_EVERY: i32 = 100_000;

/// The pong at which the pinger stops.
pub const LAST_PONG: i32 = 1_000_000;

/// What the pinger does with a pong whose counter was `count`: the
/// counter goes up by one, progress is reported at every multiple of
/// `REPORT_EVERY`, and the exchange stops when it reaches `LAST_PONG`;
/// otherwise the data goes out again in a new ping.
pub struct PongOutcome {
    pub count: i32,
    pub report: bool,
    pub stop: bool,
}

/// The counter after a pong.
pub open spec fn next_count(count: i32) -> int {
    count + 1
}

/// Whether the pinger reports its progress after a pong.
pub open spec fn reports_after(count: i32) -> bool {
    next_count(count) % (REPORT_EVERY as int) == 0
}

/// Whether the pinger stops after a pong.
pub open spec fn stops_after(count: i32) -> bool {
    next_count(count) == LAST_PONG
}

/// The pinger's reaction to a pong whose counter is `count`. The counter
/// must have room to go up.
pub fn pinger_on_pong(count: i32) -> (o: PongOutcome)
    requires
        count < i32::MAX,
    ensures
        o.count == next_count(count),
        o.report == reports_after(count),
        o.stop == stops_after(count),
        o.count == count + 1,
        o.report <==> (count + 1) % 100_000 == 0,
        o.stop <==> count + 1 == 1_000_000,
{
    let next: i32 = count + 1;
    PongOutcome { count: next, report: next % REPORT_EVERY == 0, stop: next == LAST_PONG }
}

/// The data the pair carries: the counter the pinger counts with, and
/// whatever else goes back and forth with it.
#[derive(Clone)]
pub struct Counted<P> {
    pub count: i32,
    pub payload: P,
}

/// What the pinger does with one message it reads.
pub enum PingerStep<R, P> {
    /// A ping reached the pinger: nothing to do.
    Ignore,
    /// The last pong: stop, reporting the count first when `report`.
    Stop { count: i32, report: bool },
    /// Go on: send `ping` to the ponger, reporting the count first when
    /// `report`.
    Send { count: i32, report: bool, ping: PingPongMsg<R, Counted<P>> },
}

/// The pinger's reaction to a message: a pong's counter goes up by one; at
/// the last pong it stops, otherwise the same data goes back out in a ping
/// that asks to be answered on `reply_to`. A ping is ignored. A pong's
/// counter must have room to go up.
pub fn pinger_on_message<R, P>(msg: PingPongMsg<R, Counted<P>>, reply_to: R) -> (s: PingerStep<R, P>)
    requires
        msg matches PingPongMsg::Pong { data } ==> data.count < i32::MAX,
    ensures
        match msg {
            PingPongMsg::Ping { .. } => s is Ignore,
            PingPongMsg::Pong { data } => if stops_after(data.count) {
                s == PingerStep::<R, P>::Stop {
                    count: next_count(data.count) as i32,
                    report: reports_after(data.count),
                }
            } else {
                s == PingerStep::<R, P>::Send {
                    count: next_count(data.count) as i32,
                    report: reports_after(data.count),
                    ping: PingPongMsg::Ping {
                        src: reply_to,
                        data: Counted { count: next_count(data.count) as i32, payload: data.payload },
                    },
                }
            },
        },
        msg matches PingPongMsg::Pong { data } ==> match s {
            PingerStep::Send { count, report, .. } => count == data.count + 1 && (report <==> (
            data.count + 1) % 100_000 == 0) && data.count + 1 != 1_000_000,
            PingerStep::Stop { count, report } => count == data.count + 1 && (report <==> (data.count
                + 1) % 100_000 == 0) && data.count + 1 == 1_000_000,
            PingerStep::Ignore => false,
        },
{
    match msg {
        PingPongMsg::Ping { .. } => PingerStep::Ignore,
        PingPongMsg::Pong { data } => {
            let o = pinger_on_pong(data.count);
            if o.stop {
                PingerStep::Stop { count: o.count, report: o.report }
            } else {
                let next = Counted { count: o.count, payload: data.payload };
                PingerStep::Send {
                    count: o.count,
                    report: o.report,
                    ping: PingPongMsg::Ping { src: reply_to, data: next },
                }
            }
        },
    }
}

/// The ponger's reaction to a message: a ping is answered with a pong
/// carrying the same data, to be sent back on the ping's handle; a pong is
/// ignored.
pub fn ponger_reply<R, D>(msg: PingPongMsg<R, D>) -> (r: Option<(R, PingPongMsg<R, D>)>)
    ensures
        match msg {
            PingPongMsg::Ping { src, data } => r == Some((src, PingPongMsg::<R, D>::Pong { data })),
            PingPongMsg::Pong { .. } => r is None,
        },
{
    match msg {
        PingPongMsg::Ping { src, data } => Some((src, PingPongMsg::Pong { data })),
        PingPongMsg::Pong { .. } => None,
    }
}

/// A pong's counter goes up by exactly one; the pinger reports exactly
/// when the new count is a multiple of a hundred thousand, and stops
/// exactly when it reaches a million.
pub proof fn law_pong_counting(count: i32)
    requires
        count < i32::MAX,
    ensures
        next_count(count) == count + 1,
        reports_after(count) <==> (count + 1) % 100_000 == 0,
        stops_after(count) <==> count + 1 == 1_000_000,
{
}

/// Two pongs a hundred thousand apart are reported alike, and from zero
/// the pinger reports at each of the ten counts 100000, 200000, ...,
/// 1000000 and at no other.
pub proof fn law_reports_periodic(count: i32)
    requires
        0 <= count,
        count + 100_000 < i32::MAX,
    ensures
        reports_after(count) == reports_after((count + 100_000) as i32),
        reports_after(count) ==> (count + 1) / 100_000 >= 1 && (count + 1) - (count + 1) / 100_000
            * 100_000 == 0,
{
    assert(((count + 1) + 100_000) % 100_000 == (count + 1) % 100_000) by (nonlinear_arith);
    if reports_after(count) {
        assert((count + 1) == ((count + 1) / 100_000) * 100_000 + (count + 1) % 100_000)
            by (nonlinear_arith);
    }
}

/// Counting up from zero, the pinger goes on through every pong before
/// the millionth and stops at the millionth, which it also reports.
pub proof fn law_pinger_stops_at_last_pong(count: i32)
    requires
        0 <= count < LAST_PONG,
    ensures
        stops_after(count) <==> count == LAST_PONG - 1,
        stops_after(count) ==> reports_after(count),
{
}

/// The room for messages waiting in the pinger's mailbox.
pub const PINGER_MAILBOX: usize = 5;

/// The room for messages waiting in the ponger's mailbox.
pub const PONGER_MAILBOX: usize = 1;

/// The ping that starts the exchange: counter zero, answered on `reply_to`.
pub fn first_ping<R, P>(reply_to: R, payload: P) -> (m: PingPongMsg<R, Counted<P>>)
    ensures
        m == (PingPongMsg::<R, Counted<P>>::Ping {
            src: reply_to,
            data: Counted { count: 0, payload },
        }),
{
    PingPongMsg::Ping { src: reply_to, data: Counted { count: 0, payload } }
}

/// The pinger: its own mailbox, where pongs arrive, and the ponger's.
#[verifier::reject_recursive_types(M)]
pub struct Pinger<M> {
    sink: Sink<M>,
    ponger: SinkRef<M>,
}

impl<M> Pinger<M> {
    /// The pinger's mailbox.
    pub closed spec fn mailbox(&self) -> Sink<M> {
        self.sink
    }

    /// The handle on the ponger's mailbox.
    pub closed spec fn ponger_spec(&self) -> SinkRef<M> {
        self.ponger
    }

    /// The handle on the ponger's mailbox, where pings go.
    pub fn ponger(&self) -> (r: &SinkRef<M>)
        ensures
            *r == self.ponger_spec(),
    {
        &self.ponger
    }

    /// The reading end of the pinger's mailbox, for the loop that drives it.
    pub fn receiver(&mut self) -> (r: &mut Receiver<M>)
        ensures
            *r == old(self).mailbox().reader(),
            final(self).mailbox().reader() == *final(r),
            final(self).mailbox().sender() == old(self).mailbox().sender(),
            final(self).mailbox().requested_capacity() == old(self).mailbox().requested_capacity(),
            final(self).ponger_spec() == old(self).ponger_spec(),
    {
        self.sink.receiver()
    }
}

impl<M> Pinger<M> where M: Clone + Send + Sync + 'static {
    /// A pinger that sends its pings to `ponger`, with a mailbox of
    /// `PINGER_MAILBOX` slots.
    pub fn new(ponger: SinkRef<M>) -> (p: Self)
        ensures
            p.ponger_spec() == ponger,
            p.mailbox().requested_capacity() == PINGER_MAILBOX,
    {
        Pinger { sink: Sink::new(PINGER_MAILBOX), ponger }
    }

    /// A handle on the pinger's mailbox, for a ping to be answered on.
    pub fn reply_handle(&self) -> (r: SinkRef<M>)
        ensures
            r.target() == self.mailbox().sender(),
    {
        self.sink.sink_ref()
    }
}

/// The ponger: its mailbox, where pings arrive.
#[verifier::reject_recursive_types(M)]
pub struct Ponger<M> {
    sink: Sink<M>,
}

impl<M> Ponger<M> {
    /// The ponger's mailbox.
    pub closed spec fn mailbox(&self) -> Sink<M> {
        self.sink
    }

    /// The reading end of the ponger's mailbox, for the loop that drives it.
    pub fn receiver(&mut self) -> (r: &mut Receiver<M>)
        ensures
            *r == old(self).mailbox().reader(),
            final(self).mailbox().reader() == *final(r),
            final(self).mailbox().sender() == old(self).mailbox().sender(),
            final(self).mailbox().requested_capacity() == old(self).mailbox().requested_capacity(),
    {
        self.sink.receiver()
    }
}

impl<M> Ponger<M> where M: Clone + Send + Sync + 'static {
    /// A ponger with a mailbox of `PONGER_MAILBOX` slot.
    pub fn new() -> (p: Self)
        ensures
            p.mailbox().requested_capacity() == PONGER_MAILBOX,
    {
        Ponger { sink: Sink::new(PONGER_MAILBOX) }
    }

    /// A handle through which pings reach this ponger.
    pub fn sink(&self) -> (r: SinkRef<M>)
        ensures
            r.target() == self.mailbox().sender(),
    {
        self.sink.sink_ref()
    }
}

} // verus!
