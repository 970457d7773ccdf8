//! The toolkit: sinks that accept messages, sources that fan a message out
//! to every listener, and stages that map messages on their way.
use vstd::prelude::*;
use std::cell::RefCell;
use std::rc::Rc;
use core::marker::PhantomData;
use tokio::sync::mpsc::{Receiver, Sender};
use crate::channel::{open_channel, try_send, PushError, MAX_BUFFER};

verus! {

/// A `std::cell::RefCell`, held only to be carried.
#[verifier::external_type_specification]
#[verifier::external_body]
#[verifier::reject_recursive_types(T)]
pub struct ExRefCell<T: ?Sized>(RefCell<T>);

/// What a sink is, as its contracts see it.
#[verifier::reject_recursive_types(M)]
pub enum SinkModel<M> {
    /// A handle on the mailbox that `sender` sends to: a message pushed is
    /// queued there.
    Mailbox { sender: Sender<M> },
    /// A stage: a message for which `passes` holds is mapped and handed on
    /// to each of `fanout` listeners; the others are dropped.
    Stage { passes: spec_fn(M) -> bool, fanout: nat },
}

/// The messages a stage of `func` hands on: those for which `func` can
/// give `Some`.
pub open spec fn stage_passes<T, U, F: Fn(T) -> Option<U>>(func: F) -> spec_fn(T) -> bool {
    |t: T| exists|u: U| func.ensures((t,), Some(u))
}

/// Anything a message of type `M` can be handed to.
pub trait SinkTrait<M>: Send + Sync {
    /// What this sink is.
    spec fn model(&self) -> SinkModel<M>;

    fn push(&self, m: M);
}

/// Anything that hands its messages to listeners added to it.
pub trait SourceTrait<M>: Send + Sync {
    /// The listeners added so far, oldest first.
    spec fn listener_list(&self) -> Seq<Box<dyn SinkTrait<M>>>;

    /// What each listener was when it was added, oldest first.
    spec fn listener_models(&self) -> Seq<SinkModel<M>>;

    /// Adds `sink` after the listeners already there.
    fn add_listener(&mut self, sink: Box<dyn SinkTrait<M>>)
        ensures
            final(self).listener_list() == old(self).listener_list().push(sink),
            final(self).listener_list().drop_last() == old(self).listener_list(),
            final(self).listener_list().len() == old(self).listener_list().len() + 1,
            final(self).listener_models() == old(self).listener_models().push(sink.model()),
            final(self).listener_models().drop_last() == old(self).listener_models(),
            final(self).listener_models().len() == old(self).listener_models().len() + 1;
}

/// Appending `a` and then dropping the last element gives `s` back, and
/// appending adds one to the length. Proved for any element type; callers
/// with sequences of boxed listeners name the element explicitly.
pub proof fn lemma_push_drop_last<A>(s: Seq<A>, a: A)
    ensures
        s.push(a).drop_last() == s,
        s.push(a).len() == s.len() + 1,
{
    assert(s.push(a).drop_last() =~= s);
}

/// A stage that takes `T` in and sends `U` on.
pub trait Flow<T, U> {
    fn push(&self, t: T);

    fn add_listener(&mut self, sink: &dyn SinkTrait<U>);
}

/// A stage that takes every message in and sends nothing on.
#[verifier::reject_recursive_types(T)]
#[verifier::reject_recursive_types(U)]
pub struct FlowImpl<T, U> {
    sink: Rc<RefCell<Vec<T>>>,
    source: Vec<Box<dyn SinkTrait<U>>>,
}

impl<T, U> Flow<T, U> for FlowImpl<T, U> where T: Clone + Send + Sync, U: Clone + Send + Sync {
    fn push(&self, _t: T) {
    }

    fn add_listener(&mut self, _sender: &dyn SinkTrait<U>) {
    }
}

/// A bounded mailbox: messages pushed into it wait in a queue until its
/// owner reads them.
#[verifier::reject_recursive_types(M)]
pub struct Sink<M> {
    rx: Receiver<M>,
    tx: Sender<M>,
    capacity: Ghost<nat>,
}

impl<M> Sink<M> {
    /// The sending handle of the mailbox's queue.
    pub closed spec fn sender(&self) -> Sender<M> {
        self.tx
    }

    /// The reading handle of the mailbox's queue.
    pub closed spec fn reader(&self) -> Receiver<M> {
        self.rx
    }

    /// The number of slots asked for when the mailbox was made. It is kept
    /// beside the queue and is not read back from it.
    pub closed spec fn requested_capacity(&self) -> nat {
        self.capacity@
    }
}

impl<M> Sink<M> where M: Clone + Send + Sync + 'static {
    /// A mailbox with room for `size` waiting messages.
    pub fn new(size: usize) -> (s: Self)
        requires
            0 < size <= MAX_BUFFER,
        ensures
            s.requested_capacity() == size,
    {
        let (tx, rx) = open_channel(size);
        Sink { tx, rx, capacity: Ghost(size as nat) }
    }

    /// A handle through which others can push into this mailbox.
    pub fn sink_ref(&self) -> (r: SinkRef<M>)
        ensures
            r.target() == self.sender(),
    {
        SinkRef::new(self.tx.clone())
    }
}

impl<M> Sink<M> {
    /// The reading end of the mailbox, for the loop that waits on it.
    pub fn receiver(&mut self) -> (r: &mut Receiver<M>)
        ensures
            *r == old(self).reader(),
            final(self).reader() == *final(r),
            final(self).sender() == old(self).sender(),
            final(self).requested_capacity() == old(self).requested_capacity(),
    {
        &mut self.rx
    }
}

impl<M> SinkTrait<M> for Sink<M> where M: Clone + Send + Sync {
    open spec fn model(&self) -> SinkModel<M> {
        SinkModel::Mailbox { sender: self.sender() }
    }

    /// Queues `m` when there is room; a message that finds the mailbox full
    /// or closed is dropped.
    fn push(&self, m: M) {
        let _r = try_send(&self.tx, m);
    }
}

/// A handle on somebody else's mailbox.
#[derive(Clone)]
#[verifier::reject_recursive_types(M)]
pub struct SinkRef<M> {
    sender: Sender<M>,
}

impl<M> SinkRef<M> {
    /// The sending handle of the mailbox this handle leads to.
    pub closed spec fn target(&self) -> Sender<M> {
        self.sender
    }

    fn new(sender: Sender<M>) -> (r: Self)
        ensures
            r.target() == sender,
    {
        SinkRef { sender }
    }

    /// Queues `m` in the mailbox, or says why it could not and hands `m`
    /// back.
    pub fn try_push(&self, m: M) -> (r: Result<(), PushError<M>>)
        ensures
            r matches Err(e) ==> e.message() == m,
    {
        try_send(&self.sender, m)
    }
}

impl<M> SinkTrait<M> for SinkRef<M> where M: Clone + Send + Sync {
    open spec fn model(&self) -> SinkModel<M> {
        SinkModel::Mailbox { sender: self.target() }
    }

    /// Queues `m` when there is room; a message that finds the mailbox full
    /// or closed is dropped. Callers that must not lose a message use
    /// `try_push`.
    fn push(&self, message: M) {
        let _r = self.try_push(message);
    }
}

/// A source: every message emitted goes to each listener, in the order
/// in which the listeners were added.
#[verifier::reject_recursive_types(T)]
pub struct Src<T> {
    sinks: Vec<Box<dyn SinkTrait<T>>>,
    models: Ghost<Seq<SinkModel<T>>>,
}

impl<T> Src<T> {
    /// The listeners, oldest first.
    pub closed spec fn listeners(&self) -> Seq<Box<dyn SinkTrait<T>>> {
        self.sinks@
    }

    /// What each listener was when it was added, oldest first.
    pub closed spec fn models(&self) -> Seq<SinkModel<T>> {
        self.models@
    }

    /// A source with no listeners.
    pub fn new() -> (s: Self)
        ensures
            s.listeners() == Seq::<Box<dyn SinkTrait<T>>>::empty(),
            s.listeners().len() == 0,
            s.models() == Seq::<SinkModel<T>>::empty(),
    {
        Self { sinks: Vec::new(), models: Ghost(Seq::empty()) }
    }

    /// Adds `sink` after the listeners already there.
    pub fn add_listener(&mut self, sink: Box<dyn SinkTrait<T>>)
        ensures
            final(self).listeners() == old(self).listeners().push(sink),
            final(self).listeners().len() == old(self).listeners().len() + 1,
            final(self).models() == old(self).models().push(sink.model()),
    {
        let ghost model = sink.model();
        self.sinks.push(sink);
        self.models = Ghost(self.models@.push(model));
        proof {
            vstd::seq::axiom_seq_push_len(old(self).listeners(), sink);
        }
    }

    /// The list of listeners itself, for the sources built on this one, so
    /// that they can state exactly which box they appended; `note_model`
    /// records what it was.
    pub(crate) fn listener_vec(&mut self) -> (r: &mut Vec<Box<dyn SinkTrait<T>>>)
        ensures
            r@ == old(self).listeners(),
            final(self).listeners() == final(r)@,
            final(self).models() == old(self).models(),
    {
        &mut self.sinks
    }

    /// Records what a listener appended through `listener_vec` was.
    pub(crate) fn note_model(&mut self, model: Ghost<SinkModel<T>>)
        ensures
            final(self).listeners() == old(self).listeners(),
            final(self).models() == old(self).models().push(model@),
    {
        self.models = Ghost(self.models@.push(model@));
    }

    /// The number of listeners.
    pub fn listener_len(&self) -> (n: usize)
        ensures
            n == self.listeners().len(),
    {
        self.sinks.len()
    }

    /// Hands a copy of `m` to every listener, oldest first.
    pub fn emit(&self, m: T) where T: Clone + Send + Sync {
        let n: usize = self.sinks.len();
        for i in 0..n
            invariant
                n == self.sinks@.len(),
        {
            self.sinks[i].push(m.clone());
        }
    }
}

/// A function together with the fact that it accepts every input.
#[verifier::reject_recursive_types(R)]
struct TotalFn<T, R, F: Fn(T) -> R> {
    func: F,
    input: PhantomData<T>,
    output: PhantomData<R>,
}

impl<T, R, F: Fn(T) -> R> TotalFn<T, R, F> {
    #[verifier::type_invariant]
    spec fn total(self) -> bool {
        forall|t: T| #[trigger] self.func.requires((t,))
    }

    closed spec fn func(&self) -> F {
        self.func
    }

    fn new(func: F) -> (s: Self)
        requires
            forall|t: T| #[trigger] func.requires((t,)),
        ensures
            s.func() == func,
    {
        TotalFn { func, input: PhantomData, output: PhantomData }
    }

    fn apply(&self, t: T) -> (r: R)
        ensures
            self.func().ensures((t,), r),
    {
        proof {
            use_type_invariant(self);
        }
        (self.func)(t)
    }
}

/// A sink that applies `func` to every message and pushes the result on.
#[verifier::reject_recursive_types(U)]
pub struct SinkFunction<T, U, F: Fn(T) -> U> {
    func: TotalFn<T, U, F>,
    // Held in a one-element tuple, so that the contract of `new` can state
    // which box is kept.
    sink: (Box<dyn SinkTrait<U>>,),
}

impl<T, U, F: Fn(T) -> U> SinkFunction<T, U, F> {
    /// The function applied to every message.
    pub closed spec fn func(&self) -> F {
        self.func.func()
    }

    /// The sink the results go to, as the only element of a tuple (see the
    /// field).
    pub closed spec fn sink(&self) -> (Box<dyn SinkTrait<U>>,) {
        self.sink
    }

    /// A stage that maps with `func` into `sink`.
    pub fn new(func: F, sink: Box<dyn SinkTrait<U>>) -> (s: Self)
        requires
            forall|t: T| #[trigger] func.requires((t,)),
        ensures
            s.func() == func,
            s.sink().0 == sink,
    {
        let held = (sink,);
        SinkFunction { func: TotalFn::new(func), sink: held }
    }
}

impl<T, U, F> SinkTrait<T> for SinkFunction<T, U, F>
    where T: Send + Sync, U: Send + Sync, F: Fn(T) -> U + Send + Sync {
    open spec fn model(&self) -> SinkModel<T> {
        SinkModel::Stage { passes: |t: T| true, fanout: 1 }
    }

    fn push(&self, t: T) {
        let u = self.func.apply(t);
        self.sink.0.push(u);
    }
}

/// A stage that applies `func` to every message and emits the results
/// that are `Some` to its listeners.
#[verifier::reject_recursive_types(U)]
pub struct FlowFunction<T, U, F: Fn(T) -> Option<U>> {
    func: TotalFn<T, Option<U>, F>,
    listeners: Src<U>,
}

impl<T, U, F: Fn(T) -> Option<U>> FlowFunction<T, U, F> {
    /// The function applied to every message.
    pub closed spec fn func(&self) -> F {
        self.func.func()
    }

    /// The listeners that receive the results.
    pub closed spec fn listeners(&self) -> Seq<Box<dyn SinkTrait<U>>> {
        self.listeners.listeners()
    }

    /// What each listener was when it was added.
    pub closed spec fn listener_record(&self) -> Seq<SinkModel<U>> {
        self.listeners.models()
    }

    /// A stage with no listeners yet.
    pub fn new(func: F) -> (s: Self)
        requires
            forall|t: T| #[trigger] func.requires((t,)),
        ensures
            s.func() == func,
            s.listeners().len() == 0,
            s.listener_record().len() == 0,
    {
        FlowFunction { func: TotalFn::new(func), listeners: Src::new() }
    }
}

impl<T, U, F> SinkTrait<T> for FlowFunction<T, U, F>
    where T: Send + Sync, U: Clone + Send + Sync, F: Fn(T) -> Option<U> + Send + Sync {
    open spec fn model(&self) -> SinkModel<T> {
        SinkModel::Stage { passes: stage_passes::<T, U, F>(self.func()), fanout: self.listeners().len() }
    }

    fn push(&self, t: T) {
        if let Some(u) = self.func.apply(t) {
            self.listeners.emit(u);
        }
    }
}

impl<T, U, F> SourceTrait<U> for FlowFunction<T, U, F>
    where T: Send + Sync, U: Send + Sync, F: Fn(T) -> Option<U> + Send + Sync {
    open spec fn listener_list(&self) -> Seq<Box<dyn SinkTrait<U>>> {
        self.listeners()
    }

    open spec fn listener_models(&self) -> Seq<SinkModel<U>> {
        self.listener_record()
    }

    fn add_listener(&mut self, sink: Box<dyn SinkTrait<U>>)
        ensures
            final(self).func() == old(self).func(),
    {
        let ghost model = sink.model();
        self.listeners.listener_vec().push(sink);
        self.listeners.note_model(Ghost(model));
        proof {
            lemma_push_drop_last(old(self).listener_list(), sink);
            lemma_push_drop_last(old(self).listener_models(), model);
        }
    }
}

} // verus!
