use limero::channel::PushError;
use limero::led::{Led, LedCmd, LedState, NO_TIMEOUT_MS};
use limero::limero::{FlowFunction, Sink, SinkFunction, SinkTrait, SourceTrait, Src};
use limero::link::{Link, LinkCmd, LinkEvent};
use limero::pingpong::{first_ping, pinger_on_message, pinger_on_pong, ponger_reply, Counted, PingPongMsg, Pinger, PingerStep, Ponger};
use limero::pubsub::{PubSub, PubSubCmd, PubSubEvent, PubSubState};
use limero::wiring::{connect, link_recv_to_led_pulse, PULSE_MS};

fn drain<M>(sink: &mut Sink<M>) -> Vec<M> {
    let mut out = Vec::new();
    while let Ok(m) = sink.receiver().try_recv() {
        out.push(m);
    }
    out
}

#[test]
fn led_starts_off_without_timeout() {
    let led = Led::new();
    assert_eq!(led.state(), LedState::Off);
    assert_eq!(led.timeout_ms(), NO_TIMEOUT_MS);
    assert_eq!(NO_TIMEOUT_MS, u64::MAX);
}

#[test]
fn led_on_off_commands() {
    let mut led = Led::new();
    led.on_command(LedCmd::Blink { msec: 7 });
    led.on_command(LedCmd::On);
    assert_eq!(led.state(), LedState::On);
    assert_eq!(led.timeout_ms(), NO_TIMEOUT_MS);
    led.on_command(LedCmd::Off);
    assert_eq!(led.state(), LedState::Off);
    assert_eq!(led.timeout_ms(), NO_TIMEOUT_MS);
}

#[test]
fn led_toggle_twice_returns() {
    let mut led = Led::new();
    led.on_command(LedCmd::Toggle);
    assert_eq!(led.state(), LedState::On);
    led.on_command(LedCmd::Toggle);
    assert_eq!(led.state(), LedState::Off);
    led.on_command(LedCmd::Pulse { msec: 5 });
    led.on_command(LedCmd::Toggle);
    assert_eq!(led.state(), LedState::Off);
    assert_eq!(led.timeout_ms(), NO_TIMEOUT_MS);
    led.on_command(LedCmd::Blink { msec: 5 });
    led.on_command(LedCmd::Toggle);
    led.on_command(LedCmd::Toggle);
    assert_eq!(led.state(), LedState::On);
}

#[test]
fn led_pulse_then_timeout() {
    let mut led = Led::new();
    led.on_command(LedCmd::Pulse { msec: 250 });
    assert_eq!(led.state(), LedState::Pulsing);
    assert_eq!(led.timeout_ms(), 250);
    led.on_timeout();
    assert_eq!(led.state(), LedState::Off);
    assert_eq!(led.timeout_ms(), NO_TIMEOUT_MS);
}

#[test]
fn led_blink_then_timeout() {
    let mut led = Led::new();
    led.on_command(LedCmd::Blink { msec: 40 });
    assert_eq!(led.state(), LedState::Blinking);
    led.on_timeout();
    assert_eq!(led.state(), LedState::On);
    assert_eq!(led.timeout_ms(), 40);
    led.on_timeout();
    assert_eq!(led.state(), LedState::On);
    assert_eq!(led.timeout_ms(), 40);
}

#[test]
fn led_timeout_leaves_steady_state() {
    let mut led = Led::new();
    led.on_timeout();
    assert_eq!(led.state(), LedState::Off);
    assert_eq!(led.timeout_ms(), NO_TIMEOUT_MS);
}

#[test]
fn led_mailbox_holds_three() {
    let mut led = Led::new();
    let handle = led.sink();
    for i in 0..5u64 {
        handle.push(LedCmd::Blink { msec: i });
    }
    let mut got = Vec::new();
    while let Ok(c) = led.receiver().try_recv() {
        got.push(c);
    }
    assert_eq!(got, vec![LedCmd::Blink { msec: 0 }, LedCmd::Blink { msec: 1 }, LedCmd::Blink { msec: 2 }]);
}

#[test]
fn led_push_goes_to_its_mailbox() {
    let mut led = Led::new();
    led.push(LedCmd::Toggle);
    assert_eq!(led.receiver().try_recv().unwrap(), LedCmd::Toggle);
}

#[test]
fn link_answers_commands() {
    let link = Link::new();
    assert!(matches!(link.on_command(LinkCmd::Connect), LinkEvent::Connected));
    assert!(matches!(link.on_command(LinkCmd::Disconnect), LinkEvent::Disconnected));
    match link.on_command(LinkCmd::Send { payload: vec![4, 5] }) {
        LinkEvent::Recv { payload } => assert_eq!(payload, vec![4, 5]),
        _ => panic!("a payload must come back as received data"),
    }
}

#[test]
fn link_handle_reaches_listeners_in_order() {
    let mut link = Link::new();
    let mut first: Sink<LinkEvent> = Sink::new(4);
    let mut second: Sink<LinkEvent> = Sink::new(4);
    link.add_listener(Box::new(first.sink_ref()));
    limero::wiring::via(&mut link, Box::new(second.sink_ref()));
    link.handle(LinkCmd::Send { payload: vec![9] });
    link.handle(LinkCmd::Disconnect);
    for sink in [&mut first, &mut second] {
        let got = drain(sink);
        assert_eq!(got.len(), 2);
        assert!(matches!(&got[0], LinkEvent::Recv { payload } if payload == &vec![9u8]));
        assert!(matches!(got[1], LinkEvent::Disconnected));
    }
}

#[test]
fn link_command_mailbox() {
    let mut link = Link::new();
    let handle = link.sink();
    handle.push(LinkCmd::Connect);
    assert!(matches!(link.receiver().try_recv().unwrap(), LinkCmd::Connect));
}

#[test]
fn pubsub_starts_by_connecting() {
    let mut link_box: Sink<LinkCmd> = Sink::new(5);
    let pubsub = PubSub::new(Box::new(link_box.sink_ref()));
    assert_eq!(pubsub.state(), PubSubState::Disconnected);
    let start = pubsub.on_start();
    assert!(start.event.is_none());
    assert!(matches!(start.link_cmd, Some(LinkCmd::Connect)));
    pubsub.perform(start);
    let got = drain(&mut link_box);
    assert_eq!(got.len(), 1);
    assert!(matches!(got[0], LinkCmd::Connect));
}

#[test]
fn pubsub_greets_a_new_connection() {
    let mut link_box: Sink<LinkCmd> = Sink::new(5);
    let mut pubsub = PubSub::new(Box::new(link_box.sink_ref()));
    let acts = pubsub.on_link_event(LinkEvent::Connected);
    assert_eq!(pubsub.state(), PubSubState::Connected);
    assert!(matches!(acts.event, Some(PubSubEvent::Connected)));
    assert!(matches!(&acts.link_cmd, Some(LinkCmd::Send { payload }) if payload == &vec![1u8, 2, 3]));
    pubsub.perform(acts);
    let got = drain(&mut link_box);
    assert_eq!(got.len(), 1);
    assert!(matches!(&got[0], LinkCmd::Send { payload } if payload == &vec![1u8, 2, 3]));
}

#[test]
fn pubsub_follows_the_link() {
    let link_box: Sink<LinkCmd> = Sink::new(5);
    let mut pubsub = PubSub::new(Box::new(link_box.sink_ref()));
    pubsub.on_link_event(LinkEvent::Connected);
    let acts = pubsub.on_link_event(LinkEvent::Recv { payload: vec![1] });
    assert!(acts.event.is_none() && acts.link_cmd.is_none());
    assert_eq!(pubsub.state(), PubSubState::Connected);
    let acts = pubsub.on_link_event(LinkEvent::Disconnected);
    assert!(matches!(acts.event, Some(PubSubEvent::Disconnected)));
    assert!(acts.link_cmd.is_none());
    assert_eq!(pubsub.state(), PubSubState::Disconnected);
    pubsub.on_link_event(LinkEvent::Recv { payload: vec![] });
    assert_eq!(pubsub.state(), PubSubState::Disconnected);
}

#[test]
fn pubsub_forwards_publications() {
    let link_box: Sink<LinkCmd> = Sink::new(5);
    let pubsub = PubSub::new(Box::new(link_box.sink_ref()));
    let acts = pubsub.on_command(PubSubCmd::Publish { topic: "t/1".to_string(), payload: "hi".to_string() });
    match acts.event {
        Some(PubSubEvent::Publish { topic, payload }) => {
            assert_eq!(topic, "t/1");
            assert_eq!(payload, "hi");
        }
        _ => panic!("a publication must be forwarded"),
    }
    assert!(acts.link_cmd.is_none());
    assert_eq!(pubsub.events().listener_len(), 0);
}

#[test]
fn pubsub_mailboxes() {
    let link_box: Sink<LinkCmd> = Sink::new(5);
    let mut pubsub = PubSub::new(Box::new(link_box.sink_ref()));
    pubsub.link_sink().push(LinkEvent::Connected);
    pubsub.sink().push(PubSubCmd::Publish { topic: "a".to_string(), payload: "b".to_string() });
    let (links, cmds) = pubsub.receivers();
    assert!(matches!(links.try_recv().unwrap(), LinkEvent::Connected));
    assert!(matches!(cmds.try_recv().unwrap(), PubSubCmd::Publish { .. }));
}

#[test]
fn pinger_counts_pongs() {
    let o = pinger_on_pong(0);
    assert_eq!(o.count, 1);
    assert!(!o.report && !o.stop);
    let o = pinger_on_pong(99_999);
    assert_eq!(o.count, 100_000);
    assert!(o.report && !o.stop);
    let o = pinger_on_pong(999_998);
    assert!(!o.report && !o.stop);
    let o = pinger_on_pong(999_999);
    assert_eq!(o.count, 1_000_000);
    assert!(o.report && o.stop);
    let o = pinger_on_pong(-100_001);
    assert_eq!(o.count, -100_000);
    assert!(o.report && !o.stop);
    let o = pinger_on_pong(i32::MAX - 1);
    assert_eq!(o.count, i32::MAX);
}

#[test]
fn ponger_answers_pings() {
    let ping: PingPongMsg<u8, String> = PingPongMsg::Ping { src: 3, data: "x".to_string() };
    match ponger_reply(ping) {
        Some((3, PingPongMsg::Pong { data })) => assert_eq!(data, "x"),
        _ => panic!("a ping must be answered to its sender"),
    }
    let pong: PingPongMsg<u8, String> = PingPongMsg::Pong { data: "y".to_string() };
    assert!(ponger_reply(pong).is_none());
}

#[test]
fn recv_becomes_pulse() {
    assert_eq!(link_recv_to_led_pulse(LinkEvent::Recv { payload: vec![1] }), Some(LedCmd::Pulse { msec: 100 }));
    assert_eq!(PULSE_MS, 100);
    assert_eq!(link_recv_to_led_pulse(LinkEvent::Connected), None);
    assert_eq!(link_recv_to_led_pulse(LinkEvent::Disconnected), None);
}

#[test]
fn connect_pulses_led_on_link_data() {
    let mut link = Link::new();
    let mut led = Led::new();
    connect(&mut link, link_recv_to_led_pulse, led.sink());
    link.handle(LinkCmd::Connect);
    assert!(led.receiver().try_recv().is_err());
    link.handle(LinkCmd::Send { payload: vec![1, 2, 3] });
    let cmd = led.receiver().try_recv().unwrap();
    assert_eq!(cmd, LedCmd::Pulse { msec: 100 });
    led.on_command(cmd);
    led.on_timeout();
    assert_eq!(led.state(), LedState::Off);
}

#[test]
fn whole_startup_pulses_led() {
    let mut link = Link::new();
    let mut led = Led::new();
    let mut pubsub = PubSub::new(link.sink());
    link.add_listener(pubsub.link_sink());
    connect(&mut link, link_recv_to_led_pulse, led.sink());
    pubsub.perform(pubsub.on_start());
    let cmd = link.receiver().try_recv().unwrap();
    link.handle(cmd);
    let ev = pubsub.receivers().0.try_recv().unwrap();
    let acts = pubsub.on_link_event(ev);
    pubsub.perform(acts);
    let cmd = link.receiver().try_recv().unwrap();
    link.handle(cmd);
    assert_eq!(led.receiver().try_recv().unwrap(), LedCmd::Pulse { msec: 100 });
    assert_eq!(pubsub.state(), PubSubState::Connected);
}

#[test]
fn src_emits_to_all_listeners() {
    let mut src: Src<u32> = Src::new();
    assert_eq!(src.listener_len(), 0);
    let mut a: Sink<u32> = Sink::new(2);
    let mut b: Sink<u32> = Sink::new(2);
    src.add_listener(Box::new(a.sink_ref()));
    src.add_listener(Box::new(b.sink_ref()));
    assert_eq!(src.listener_len(), 2);
    src.emit(5);
    src.emit(6);
    assert_eq!(drain(&mut a), vec![5, 6]);
    assert_eq!(drain(&mut b), vec![5, 6]);
}

#[test]
fn sink_function_maps() {
    let mut out: Sink<u64> = Sink::new(2);
    let f = SinkFunction::new(|x: u32| (x as u64) * 10, Box::new(out.sink_ref()));
    f.push(4);
    assert_eq!(drain(&mut out), vec![40]);
}

#[test]
fn flow_function_filters() {
    let mut out: Sink<u32> = Sink::new(4);
    let mut flow = FlowFunction::new(|x: u32| if x % 2 == 0 { Some(x / 2) } else { None });
    flow.add_listener(Box::new(out.sink_ref()));
    flow.push(3);
    flow.push(8);
    assert_eq!(drain(&mut out), vec![4]);
}

#[test]
fn try_push_full_hands_message_back() {
    let mut sink: Sink<u8> = Sink::new(1);
    let handle = sink.sink_ref();
    assert!(handle.try_push(1).is_ok());
    match handle.try_push(2) {
        Err(PushError::Full(m)) => assert_eq!(m, 2),
        _ => panic!("a full mailbox must refuse"),
    }
    assert_eq!(drain(&mut sink), vec![1]);
}

#[test]
fn try_push_closed_hands_message_back() {
    let sink: Sink<u8> = Sink::new(1);
    let handle = sink.sink_ref();
    drop(sink);
    match handle.try_push(7) {
        Err(e) => {
            assert!(matches!(e, PushError::Closed(7)));
            assert_eq!(e.into_message(), 7);
        }
        Ok(()) => panic!("a closed mailbox must refuse"),
    }
}

#[test]
fn sink_read_waits_for_message() {
    let rt = tokio::runtime::Builder::new_current_thread().build().unwrap();
    let mut sink: Sink<u8> = Sink::new(2);
    let handle = sink.sink_ref();
    handle.push(11);
    let got = rt.block_on(sink.receiver().recv());
    assert_eq!(got, Some(11));
}

#[test]
fn pinger_message_steps() {
    let pong: PingPongMsg<u8, Counted<&str>> = PingPongMsg::Pong { data: Counted { count: 99_999, payload: "p" } };
    match pinger_on_message(pong, 7) {
        PingerStep::Send { count, report, ping: PingPongMsg::Ping { src, data } } => {
            assert_eq!(count, 100_000);
            assert!(report);
            assert_eq!(src, 7);
            assert_eq!(data.count, 100_000);
            assert_eq!(data.payload, "p");
        }
        _ => panic!("a pong before the last must be answered with a ping"),
    }
    let last: PingPongMsg<u8, Counted<&str>> = PingPongMsg::Pong { data: Counted { count: 999_999, payload: "p" } };
    assert!(matches!(pinger_on_message(last, 7), PingerStep::Stop { count: 1_000_000, report: true }));
    let ping: PingPongMsg<u8, Counted<&str>> = PingPongMsg::Ping { src: 1, data: Counted { count: 3, payload: "p" } };
    assert!(matches!(pinger_on_message(ping, 7), PingerStep::Ignore));
}

#[test]
fn pinger_and_ponger_exchange() {
    let mut count: i32 = 999_990;
    let mut msg: PingPongMsg<u8, Counted<()>> = PingPongMsg::Ping { src: 1, data: Counted { count, payload: () } };
    let mut rounds = 0;
    loop {
        let (_, pong) = ponger_reply(msg).unwrap();
        match pinger_on_message(pong, 1) {
            PingerStep::Send { count: c, ping, .. } => {
                count = c;
                msg = ping;
            }
            PingerStep::Stop { count: c, .. } => {
                count = c;
                break;
            }
            PingerStep::Ignore => panic!("a pong is never ignored"),
        }
        rounds += 1;
    }
    assert_eq!(count, 1_000_000);
    assert_eq!(rounds, 9);
}

#[test]
fn link_add_listener_appends() {
    let mut link = Link::new();
    let mut a: Sink<LinkEvent> = Sink::new(2);
    link.add_listener(Box::new(a.sink_ref()));
    link.handle(LinkCmd::Connect);
    assert_eq!(drain(&mut a).len(), 1);
}

#[test]
fn pinger_and_ponger_handles() {
    let mut ponger: Ponger<u32> = Ponger::new();
    let mut pinger: Pinger<u32> = Pinger::new(ponger.sink());
    pinger.ponger().push(5);
    assert_eq!(ponger.receiver().try_recv().unwrap(), 5);
    pinger.reply_handle().push(6);
    assert_eq!(pinger.receiver().try_recv().unwrap(), 6);
    let handle = ponger.sink();
    handle.push(1);
    handle.push(2);
    assert_eq!(ponger.receiver().try_recv().unwrap(), 1);
    assert!(ponger.receiver().try_recv().is_err());
    match first_ping(3u8, "hello") {
        PingPongMsg::Ping { src, data } => {
            assert_eq!(src, 3);
            assert_eq!(data.count, 0);
            assert_eq!(data.payload, "hello");
        }
        _ => panic!("the first message is a ping"),
    }
}
