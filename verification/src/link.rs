//! A loop-back link: every command it is sent comes back to its listeners
//! as the matching event, a sent payload as a received one.
use vstd::prelude::*;
use tokio::sync::mpsc::Receiver;
use crate::limero::{lemma_push_drop_last, Sink, SinkModel, SinkTrait, SourceTrait, Src};

verus! {

/// What a link reports.
#[derive(Clone)]
pub enum LinkEvent {
    Connected,
    Disconnected,
    Recv { payload: Vec<u8> },
}

/// What a link can be told to do.
#[derive(Clone)]
pub enum LinkCmd {
    Connect,
    Disconnect,
    Send { payload: Vec<u8> },
}

/// A link event with its payload as a sequence of bytes.
pub enum LinkEventView {
    Connected,
    Disconnected,
    Recv { payload: Seq<u8> },
}

/// A link command with its payload as a sequence of bytes.
pub enum LinkCmdView {
    Connect,
    Disconnect,
    Send { payload: Seq<u8> },
}

impl View for LinkEvent {
    type V = LinkEventView;

    open spec fn view(&self) -> LinkEventView {
        match self {
            LinkEvent::Connected => LinkEventView::Connected,
            LinkEvent::Disconnected => LinkEventView::Disconnected,
            LinkEvent::Recv { payload } => LinkEventView::Recv { payload: payload@ },
        }
    }
}

impl View for LinkCmd {
    type V = LinkCmdView;

    open spec fn view(&self) -> LinkCmdView {
        match self {
            LinkCmd::Connect => LinkCmdView::Connect,
            LinkCmd::Disconnect => LinkCmdView::Disconnect,
            LinkCmd::Send { payload } => LinkCmdView::Send { payload: payload@ },
        }
    }
}

/// The event a loop-back link answers a command with.
pub open spec fn link_reply(cmd: LinkCmdView) -> LinkEventView {
    match cmd {
        LinkCmdView::Connect => LinkEventView::Connected,
        LinkCmdView::Disconnect => LinkEventView::Disconnected,
        LinkCmdView::Send { payload } => LinkEventView::Recv { payload },
    }
}

/// The room for commands waiting in a link's mailbox.
pub const LINK_MAILBOX: usize = 5;

/// A loop-back link: a mailbox of commands and the listeners its events
/// go to.
pub struct Link {
    events: Src<LinkEvent>,
    sink: Sink<LinkCmd>,
}

impl Link {
    /// The listeners of the link's events, oldest first.
    pub closed spec fn listeners(&self) -> Seq<Box<dyn SinkTrait<LinkEvent>>> {
        self.events.listeners()
    }

    /// The link's mailbox of commands.
    pub closed spec fn mailbox(&self) -> Sink<LinkCmd> {
        self.sink
    }

    /// What each listener of the link's events was when it was added.
    pub closed spec fn listener_record(&self) -> Seq<SinkModel<LinkEvent>> {
        self.events.models()
    }

    /// A link with no listeners and a mailbox of `LINK_MAILBOX` slots.
    pub fn new() -> (l: Self)
        ensures
            l.listeners().len() == 0,
            l.listener_record().len() == 0,
            l.mailbox().requested_capacity() == LINK_MAILBOX,
    {
        Link { events: Src::new(), sink: Sink::new(LINK_MAILBOX) }
    }

    /// A handle through which commands reach this link.
    pub fn sink(&self) -> Box<dyn SinkTrait<LinkCmd>> {
        Box::new(self.sink.sink_ref())
    }

    /// The reading end of the link's mailbox, for the loop that drives it.
    pub fn receiver(&mut self) -> (r: &mut Receiver<LinkCmd>)
        ensures
            *r == old(self).mailbox().reader(),
            final(self).mailbox().reader() == *final(r),
            final(self).mailbox().sender() == old(self).mailbox().sender(),
            final(self).mailbox().requested_capacity() == old(self).mailbox().requested_capacity(),
            final(self).listeners() == old(self).listeners(),
    {
        self.sink.receiver()
    }

    /// The event the link answers `cmd` with.
    pub fn on_command(&self, cmd: LinkCmd) -> (ev: LinkEvent)
        ensures
            ev@ == link_reply(cmd@),
    {
        match cmd {
            LinkCmd::Connect => LinkEvent::Connected,
            LinkCmd::Disconnect => LinkEvent::Disconnected,
            LinkCmd::Send { payload } => LinkEvent::Recv { payload },
        }
    }

    /// Answers `cmd`: the event of `on_command` goes to every listener.
    pub fn handle(&self, cmd: LinkCmd) {
        let ev = self.on_command(cmd);
        self.events.emit(ev);
    }
}

impl SourceTrait<LinkEvent> for Link {
    open spec fn listener_list(&self) -> Seq<Box<dyn SinkTrait<LinkEvent>>> {
        self.listeners()
    }

    open spec fn listener_models(&self) -> Seq<SinkModel<LinkEvent>> {
        self.listener_record()
    }

    fn add_listener(&mut self, sink: Box<dyn SinkTrait<LinkEvent>>)
        ensures
            final(self).mailbox() == old(self).mailbox(),
    {
        let ghost model = sink.model();
        self.events.listener_vec().push(sink);
        self.events.note_model(Ghost(model));
        proof {
            lemma_push_drop_last(old(self).listener_list(), sink);
            lemma_push_drop_last(old(self).listener_models(), model);
        }
    }
}

/// Whatever a link is sent comes back unchanged in kind: a connect as
/// connected, a disconnect as disconnected, a payload as the same payload.
pub proof fn law_link_loops_back(cmd: LinkCmdView)
    ensures
        (cmd matches LinkCmdView::Send { payload } ==> link_reply(cmd) == (LinkEventView::Recv {
            payload,
        })),
        (cmd is Connect <==> link_reply(cmd) is Connected),
        (cmd is Disconnect <==> link_reply(cmd) is Disconnected),
{
}

} // verus!
