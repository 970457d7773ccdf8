//! A publish/subscribe front end. It connects its link when it starts,
//! tracks whether the link is up, tells its listeners of every change and
//! of every message published through it.
use vstd::prelude::*;
use tokio::sync::mpsc::Receiver;
use crate::limero::{Sink, SinkTrait, Src};
use crate::link::{LinkCmd, LinkCmdView, LinkEvent, LinkEventView};

verus! {

/// What a publish/subscribe front end tells its listeners.
#[derive(Clone)]
pub enum PubSubEvent {
    Publish { topic: String, payload: String },
    Connected,
    Disconnected,
}

/// What a publish/subscribe front end can be asked to do.
#[derive(Clone)]
pub enum PubSubCmd {
    Publish { topic: String, payload: String },
}

/// The messages of the publish/subscribe wire protocol.
pub enum PubSubWire {
    Publish { id: u16, payload: String },
    Subscribe { topic: String },
    SubAck,
    Register { topic: String, id: u16 },
    RegAck { id: u16 },
    Connect,
    Disconnect,
}

/// Whether the front end's link is up.
#[derive(Clone, Copy, Debug, PartialEq, Eq, Structural)]
pub enum PubSubState {
    Disconnected,
    Connected,
}

/// A front-end event with its strings as sequences of characters.
pub enum PubSubEventView {
    Publish { topic: Seq<char>, payload: Seq<char> },
    Connected,
    Disconnected,
}

/// A front-end command with its strings as sequences of characters.
pub enum PubSubCmdView {
    Publish { topic: Seq<char>, payload: Seq<char> },
}

impl View for PubSubEvent {
    type V = PubSubEventView;

    open spec fn view(&self) -> PubSubEventView {
        match self {
            PubSubEvent::Publish { topic, payload } => PubSubEventView::Publish {
                topic: topic@,
                payload: payload@,
            },
            PubSubEvent::Connected => PubSubEventView::Connected,
            PubSubEvent::Disconnected => PubSubEventView::Disconnected,
        }
    }
}

impl View for PubSubCmd {
    type V = PubSubCmdView;

    open spec fn view(&self) -> PubSubCmdView {
        match self {
            PubSubCmd::Publish { topic, payload } => PubSubCmdView::Publish {
                topic: topic@,
                payload: payload@,
            },
        }
    }
}

/// What one step of the front end sends out: at most one event to its
/// listeners and at most one command to its link.
pub struct PubSubActions {
    pub event: Option<PubSubEvent>,
    pub link_cmd: Option<LinkCmd>,
}

/// The actions of one step, with their payloads as sequences.
pub struct PubSubActionsView {
    pub event: Option<PubSubEventView>,
    pub link_cmd: Option<LinkCmdView>,
}

impl View for PubSubActions {
    type V = PubSubActionsView;

    open spec fn view(&self) -> PubSubActionsView {
        PubSubActionsView {
            event: match self.event {
                Some(e) => Some(e@),
                None => None,
            },
            link_cmd: match self.link_cmd {
                Some(c) => Some(c@),
                None => None,
            },
        }
    }
}

/// The bytes the front end sends as soon as its link is up.
pub open spec fn greeting() -> Seq<u8> {
    seq![1u8, 2u8, 3u8]
}

/// What the front end does when it starts: it asks its link to connect.
pub open spec fn actions_on_start() -> PubSubActionsView {
    PubSubActionsView { event: None, link_cmd: Some(LinkCmdView::Connect) }
}

/// Where an event of the link leaves the front end.
pub open spec fn state_after_link_event(state: PubSubState, ev: LinkEventView) -> PubSubState {
    match ev {
        LinkEventView::Connected => PubSubState::Connected,
        LinkEventView::Disconnected => PubSubState::Disconnected,
        LinkEventView::Recv { .. } => state,
    }
}

/// What the front end sends out on an event of the link: a change of
/// connection goes to its listeners, and a new connection is greeted.
pub open spec fn actions_on_link_event(ev: LinkEventView) -> PubSubActionsView {
    match ev {
        LinkEventView::Connected => PubSubActionsView {
            event: Some(PubSubEventView::Connected),
            link_cmd: Some(LinkCmdView::Send { payload: greeting() }),
        },
        LinkEventView::Disconnected => PubSubActionsView {
            event: Some(PubSubEventView::Disconnected),
            link_cmd: None,
        },
        LinkEventView::Recv { .. } => PubSubActionsView { event: None, link_cmd: None },
    }
}

/// What the front end sends out on a command: a publication goes to its
/// listeners unchanged.
pub open spec fn actions_on_command(cmd: PubSubCmdView) -> PubSubActionsView {
    match cmd {
        PubSubCmdView::Publish { topic, payload } => PubSubActionsView {
            event: Some(PubSubEventView::Publish { topic, payload }),
            link_cmd: None,
        },
    }
}

/// The room for messages waiting in each of the front end's mailboxes.
pub const PUBSUB_MAILBOX: usize = 5;

/// A publish/subscribe front end: its listeners, its two mailboxes, the
/// link it drives and whether that link is up.
pub struct PubSub {
    events: Src<PubSubEvent>,
    cmd_sink: Sink<PubSubCmd>,
    // Held in a one-element tuple, so that the contract of `new` can state
    // which box is kept.
    link: (Box<dyn SinkTrait<LinkCmd>>,),
    link_events: Sink<LinkEvent>,
    state: PubSubState,
}

impl PubSub {
    /// Whether the link is up.
    pub closed spec fn state_spec(&self) -> PubSubState {
        self.state
    }

    /// The listeners of the front end's events, oldest first.
    pub closed spec fn listeners(&self) -> Seq<Box<dyn SinkTrait<PubSubEvent>>> {
        self.events.listeners()
    }

    /// The sink the front end sends its link commands to, as the only
    /// element of a tuple (see the field).
    pub closed spec fn link(&self) -> (Box<dyn SinkTrait<LinkCmd>>,) {
        self.link
    }

    /// The mailbox of the link's events.
    pub closed spec fn link_mailbox(&self) -> Sink<LinkEvent> {
        self.link_events
    }

    /// The mailbox of commands.
    pub closed spec fn command_mailbox(&self) -> Sink<PubSubCmd> {
        self.cmd_sink
    }

    /// A front end that drives `link`, not yet connected, with no listeners,
    /// and two mailboxes of `PUBSUB_MAILBOX` slots each.
    pub fn new(link: Box<dyn SinkTrait<LinkCmd>>) -> (p: Self)
        ensures
            p.link().0 == link,
            p.state_spec() == PubSubState::Disconnected,
            p.listeners().len() == 0,
            p.link_mailbox().requested_capacity() == PUBSUB_MAILBOX,
            p.command_mailbox().requested_capacity() == PUBSUB_MAILBOX,
    {
        let held = (link,);
        PubSub {
            events: Src::new(),
            cmd_sink: Sink::new(PUBSUB_MAILBOX),
            link: held,
            link_events: Sink::new(PUBSUB_MAILBOX),
            state: PubSubState::Disconnected,
        }
    }

    /// The source of the front end's events.
    pub fn events(&self) -> (e: &Src<PubSubEvent>)
        ensures
            e.listeners() == self.listeners(),
    {
        &self.events
    }

    /// A handle through which the link's events reach this front end.
    pub fn link_sink(&self) -> Box<dyn SinkTrait<LinkEvent>> {
        Box::new(self.link_events.sink_ref())
    }

    /// A handle through which commands reach this front end.
    pub fn sink(&self) -> Box<dyn SinkTrait<PubSubCmd>> {
        Box::new(self.cmd_sink.sink_ref())
    }

    /// The reading ends of the front end's two mailboxes, link events
    /// first, for the loop that drives it.
    pub fn receivers(&mut self) -> (r: (&mut Receiver<LinkEvent>, &mut Receiver<PubSubCmd>))
        ensures
            *r.0 == old(self).link_mailbox().reader(),
            *r.1 == old(self).command_mailbox().reader(),
            final(self).link_mailbox().reader() == *final(r.0),
            final(self).command_mailbox().reader() == *final(r.1),
            final(self).link_mailbox().sender() == old(self).link_mailbox().sender(),
            final(self).command_mailbox().sender() == old(self).command_mailbox().sender(),
            final(self).link_mailbox().requested_capacity() == old(self).link_mailbox().requested_capacity(),
            final(self).command_mailbox().requested_capacity() == old(self).command_mailbox().requested_capacity(),
            final(self).link() == old(self).link(),
            final(self).listeners() == old(self).listeners(),
            final(self).state_spec() == old(self).state_spec(),
    {
        (self.link_events.receiver(), self.cmd_sink.receiver())
    }

    /// Whether the link is up.
    pub fn state(&self) -> (s: PubSubState)
        ensures
            s == self.state_spec(),
    {
        self.state
    }

    /// What to send when the front end starts.
    pub fn on_start(&self) -> (a: PubSubActions)
        ensures
            a@ == actions_on_start(),
    {
        PubSubActions { event: None, link_cmd: Some(LinkCmd::Connect) }
    }

    /// Reacts to an event of the link.
    pub fn on_link_event(&mut self, link_event: LinkEvent) -> (a: PubSubActions)
        ensures
            final(self).state_spec() == state_after_link_event(old(self).state_spec(), link_event@),
            final(self).listeners() == old(self).listeners(),
            final(self).link() == old(self).link(),
            final(self).link_mailbox() == old(self).link_mailbox(),
            final(self).command_mailbox() == old(self).command_mailbox(),
            a@ == actions_on_link_event(link_event@),
    {
        match link_event {
            LinkEvent::Connected => {
                self.state = PubSubState::Connected;
                let hello: Vec<u8> = vec![1u8, 2u8, 3u8];
                proof {
                    assert(hello@ =~= greeting());
                }
                PubSubActions {
                    event: Some(PubSubEvent::Connected),
                    link_cmd: Some(LinkCmd::Send { payload: hello }),
                }
            },
            LinkEvent::Disconnected => {
                self.state = PubSubState::Disconnected;
                PubSubActions { event: Some(PubSubEvent::Disconnected), link_cmd: None }
            },
            LinkEvent::Recv { payload: _ } => PubSubActions { event: None, link_cmd: None },
        }
    }

    /// Reacts to a command.
    pub fn on_command(&self, pubsub_cmd: PubSubCmd) -> (a: PubSubActions)
        ensures
            a@ == actions_on_command(pubsub_cmd@),
    {
        match pubsub_cmd {
            PubSubCmd::Publish { topic, payload } => PubSubActions {
                event: Some(PubSubEvent::Publish { topic, payload }),
                link_cmd: None,
            },
        }
    }

    /// Sends out the actions of a step: the event to every listener, the
    /// command to the link.
    pub fn perform(&self, actions: PubSubActions) {
        if let Some(event) = actions.event {
            self.events.emit(event);
        }
        if let Some(cmd) = actions.link_cmd {
            self.link.0.push(cmd);
        }
    }
}

/// One event the front end's loop hands to it: an event of the link or a
/// command.
pub enum PubSubInput {
    Link(LinkEventView),
    Command(PubSubCmdView),
}

/// Where a run of events leaves the front end, starting from `state`:
/// commands change nothing, link events as `state_after_link_event` says.
pub open spec fn state_after_inputs(state: PubSubState, inputs: Seq<PubSubInput>) -> PubSubState
    decreases inputs.len(),
{
    if inputs.len() == 0 {
        state
    } else {
        let before = state_after_inputs(state, inputs.drop_last());
        match inputs.last() {
            PubSubInput::Link(ev) => state_after_link_event(before, ev),
            PubSubInput::Command(_) => before,
        }
    }
}

/// The last change of connection in a run of events, if any.
pub open spec fn last_connection_change(inputs: Seq<PubSubInput>) -> Option<PubSubState>
    decreases inputs.len(),
{
    if inputs.len() == 0 {
        None
    } else {
        match inputs.last() {
            PubSubInput::Link(LinkEventView::Connected) => Some(PubSubState::Connected),
            PubSubInput::Link(LinkEventView::Disconnected) => Some(PubSubState::Disconnected),
            _ => last_connection_change(inputs.drop_last()),
        }
    }
}

/// The front end believes its link is up exactly when the last change of
/// connection it heard of was a connect; received data and commands never
/// change that. From `PubSub::new`, which starts disconnected, it is
/// disconnected until the first change.
pub proof fn law_state_follows_link(state: PubSubState, inputs: Seq<PubSubInput>)
    ensures
        state_after_inputs(state, inputs) == match last_connection_change(inputs) {
            Some(s) => s,
            None => state,
        },
        state_after_inputs(PubSubState::Disconnected, inputs) == match last_connection_change(
            inputs,
        ) {
            Some(s) => s,
            None => PubSubState::Disconnected,
        },
    decreases inputs.len(),
{
    if inputs.len() > 0 {
        law_state_follows_link(state, inputs.drop_last());
        law_state_follows_link(PubSubState::Disconnected, inputs.drop_last());
    }
}

/// Each connection is announced to the listeners and greeted on the link;
/// each disconnection is announced and nothing is sent; received data
/// causes nothing to be sent.
pub proof fn law_link_event_actions(ev: LinkEventView)
    ensures
        ev is Connected ==> actions_on_link_event(ev).event == Some(PubSubEventView::Connected)
            && actions_on_link_event(ev).link_cmd == Some(
            LinkCmdView::Send { payload: greeting() },
        ),
        ev is Disconnected ==> actions_on_link_event(ev).event == Some(
            PubSubEventView::Disconnected,
        ) && actions_on_link_event(ev).link_cmd is None,
        ev is Recv ==> actions_on_link_event(ev).event is None && actions_on_link_event(
            ev,
        ).link_cmd is None,
{
}

} // verus!
