//! The reactor: owns the event queues, the responder exchange and the
//! storage binding; turns requests into queued events and routes each event
//! to the one component that owns it.
use vstd::prelude::*;

use crate::queue::{EventQueues, QueueKind, QueuesModel};
use crate::requests::{NetworkRequest, RestRequest, StorageRequest};
use crate::responder::{close_model, respond_model, Delivery, Exchange, RespondError, Responder};
use crate::rest::StatusFeed;
use crate::storage::{put_model, Storage, StoredValue, ValueModel};

verus! {

/// The value that travels back through a responder.
#[derive(Clone, Debug, PartialEq, Eq)]
pub enum Reply {
    /// A network message was handed to the transport.
    Sent,
    /// Whether a `put` stored its value.
    Stored(bool),
    /// A stored value, or `None` when absent.
    Value(Option<StoredValue>),
    /// A stored value's header, or `None` when absent.
    Header(Option<Vec<u8>>),
    /// The node's status.
    Status(StatusFeed),
    /// Raw bytes: metrics text (or `None`), a schema or a chainspec file.
    Bytes(Option<Vec<u8>>),
}

/// The reactor-level envelope of a request.
#[derive(Debug)]
pub enum Event<I, P> {
    Network(NetworkRequest<I, P>),
    Storage(StorageRequest),
    Rest(RestRequest),
}

/// What one dispatch did with the next event.
#[derive(Debug)]
pub enum Dispatched<I, P> {
    /// No event was queued.
    Idle,
    /// The storage component answered the request itself.
    Storage,
    /// A request for the network component, which fulfills its responder
    /// through `Reactor::respond`.
    Network(NetworkRequest<I, P>),
    /// A request for the REST component, answered the same way.
    Rest(RestRequest),
}

/// The reactor's phases.
#[derive(Clone, Copy, Debug, PartialEq, Eq, Structural)]
pub enum ReactorState {
    Idle,
    Dispatching,
    AwaitingEffects,
    Shutdown,
}

/// What the loop around the reactor observed.
#[derive(Clone, Copy, Debug, PartialEq, Eq, Structural)]
pub enum Signal {
    /// An event became available.
    EventQueued,
    /// The handler of the current event returned its follow-on effects.
    HandlerReturned,
    /// Tracked effects completed: `pending` of them are still running and
    /// `queued` says whether events wait.
    EffectsCompleted { pending: u64, queued: bool },
    /// Stop the node.
    Stop,
}

pub open spec fn step_model(s: ReactorState, sig: Signal) -> ReactorState {
    match (s, sig) {
        (_, Signal::Stop) => ReactorState::Shutdown,
        (ReactorState::Shutdown, _) => ReactorState::Shutdown,
        (ReactorState::Idle, Signal::EventQueued) => ReactorState::Dispatching,
        (ReactorState::Dispatching, Signal::HandlerReturned) => ReactorState::AwaitingEffects,
        (ReactorState::AwaitingEffects, Signal::EffectsCompleted { pending, queued }) => {
            if pending == 0 && !queued {
                ReactorState::Idle
            } else if queued {
                ReactorState::Dispatching
            } else {
                ReactorState::AwaitingEffects
            }
        },
        (ReactorState::AwaitingEffects, Signal::EventQueued) => ReactorState::Dispatching,
        _ => s,
    }
}

/// The reactor's next phase: any phase stops on `Stop` and shutdown is
/// final; idle starts dispatching when an event arrives; dispatching waits
/// for effects once the handler returned; waiting goes idle when no effect
/// is running and nothing is queued, and dispatches again when events wait.
pub fn step(s: ReactorState, sig: Signal) -> (r: ReactorState)
    ensures
        r == step_model(s, sig),
{
    match (s, sig) {
        (_, Signal::Stop) => ReactorState::Shutdown,
        (ReactorState::Shutdown, _) => ReactorState::Shutdown,
        (ReactorState::Idle, Signal::EventQueued) => ReactorState::Dispatching,
        (ReactorState::Dispatching, Signal::HandlerReturned) => ReactorState::AwaitingEffects,
        (ReactorState::AwaitingEffects, Signal::EffectsCompleted { pending, queued }) => {
            if pending == 0 && !queued {
                ReactorState::Idle
            } else if queued {
                ReactorState::Dispatching
            } else {
                ReactorState::AwaitingEffects
            }
        },
        (ReactorState::AwaitingEffects, Signal::EventQueued) => ReactorState::Dispatching,
        _ => s,
    }
}

/// The reply owed to a storage request, given the storage before it.
pub open spec fn storage_reply(
    req: StorageRequest,
    blocks: Map<u64, ValueModel>,
    deploys: Map<u64, ValueModel>,
    rep: Reply,
) -> bool {
    match req {
        StorageRequest::PutBlock { block, .. } => {
            rep == Reply::Stored(!blocks.contains_key(block.id))
        },
        StorageRequest::PutDeploy { deploy, .. } => {
            rep == Reply::Stored(!deploys.contains_key(deploy.id))
        },
        StorageRequest::GetBlock { block_hash, .. } => value_reply(blocks, block_hash, rep),
        StorageRequest::GetDeploy { deploy_hash, .. } => value_reply(deploys, deploy_hash, rep),
        StorageRequest::GetBlockHeader { block_hash, .. } => {
            header_reply(blocks, block_hash, rep)
        },
        StorageRequest::GetDeployHeader { deploy_hash, .. } => {
            header_reply(deploys, deploy_hash, rep)
        },
    }
}

pub open spec fn value_reply(s: Map<u64, ValueModel>, id: u64, rep: Reply) -> bool {
    match rep {
        Reply::Value(Some(v)) => s.contains_key(id) && v@ == s[id],
        Reply::Value(None) => !s.contains_key(id),
        _ => false,
    }
}

pub open spec fn header_reply(s: Map<u64, ValueModel>, id: u64, rep: Reply) -> bool {
    match rep {
        Reply::Header(Some(h)) => s.contains_key(id) && h@ == s[id].header,
        Reply::Header(None) => !s.contains_key(id),
        _ => false,
    }
}

pub open spec fn storage_ticket(req: StorageRequest) -> usize {
    match req {
        StorageRequest::PutBlock { responder, .. } => responder.ticket(),
        StorageRequest::GetBlock { responder, .. } => responder.ticket(),
        StorageRequest::GetBlockHeader { responder, .. } => responder.ticket(),
        StorageRequest::PutDeploy { responder, .. } => responder.ticket(),
        StorageRequest::GetDeploy { responder, .. } => responder.ticket(),
        StorageRequest::GetDeployHeader { responder, .. } => responder.ticket(),
    }
}

/// Storage content after a request: puts store, gets change nothing.
pub open spec fn storage_after(
    req: StorageRequest,
    blocks: Map<u64, ValueModel>,
    deploys: Map<u64, ValueModel>,
) -> (Map<u64, ValueModel>, Map<u64, ValueModel>) {
    match req {
        StorageRequest::PutBlock { block, .. } => (put_model(blocks, block@), deploys),
        StorageRequest::PutDeploy { deploy, .. } => (blocks, put_model(deploys, deploy@)),
        _ => (blocks, deploys),
    }
}

/// Answers a storage request from `storage` through its responder.
pub fn handle_storage(storage: &mut Storage, exchange: &mut Exchange<Reply>, req: StorageRequest)
    requires
        old(storage).wf(),
    ensures
        final(storage).wf(),
        (final(storage).blocks@, final(storage).deploys@) == storage_after(
            req,
            old(storage).blocks@,
            old(storage).deploys@,
        ),
        exists|rep: Reply|
            storage_reply(req, old(storage).blocks@, old(storage).deploys@, rep)
                && final(exchange)@ == respond_model(
                old(exchange)@,
                storage_ticket(req) as int,
                rep,
            ).1,
{
    let ghost blocks = storage.blocks@;
    let ghost deploys = storage.deploys@;
    let (responder, rep) = match req {
        StorageRequest::PutBlock { block, responder } => {
            (responder, Reply::Stored(storage.blocks.put(block)))
        },
        StorageRequest::PutDeploy { deploy, responder } => {
            (responder, Reply::Stored(storage.deploys.put(deploy)))
        },
        StorageRequest::GetBlock { block_hash, responder } => {
            (responder, Reply::Value(storage.blocks.get(block_hash)))
        },
        StorageRequest::GetDeploy { deploy_hash, responder } => {
            (responder, Reply::Value(storage.deploys.get(deploy_hash)))
        },
        StorageRequest::GetBlockHeader { block_hash, responder } => {
            (responder, Reply::Header(storage.blocks.get_header(block_hash)))
        },
        StorageRequest::GetDeployHeader { deploy_hash, responder } => {
            (responder, Reply::Header(storage.deploys.get_header(deploy_hash)))
        },
    };
    assert(storage_reply(req, blocks, deploys, rep));
    let _ = exchange.respond(responder, rep);
}

/// The event loop's state: queued events, the responders in flight, the
/// storage binding and the current phase.
pub struct Reactor<I, P> {
    queues: EventQueues<Event<I, P>>,
    exchange: Exchange<Reply>,
    storage: Storage,
    state: ReactorState,
}

impl<I, P> Reactor<I, P> {
    pub closed spec fn wf(&self) -> bool {
        self.queues.wf() && self.storage.wf()
    }

    pub closed spec fn queued(&self) -> QueuesModel<Event<I, P>> {
        self.queues@
    }

    pub closed spec fn deliveries(&self) -> Seq<Delivery<Reply>> {
        self.exchange@
    }

    pub closed spec fn blocks(&self) -> Map<u64, ValueModel> {
        self.storage.blocks@
    }

    pub closed spec fn deploys(&self) -> Map<u64, ValueModel> {
        self.storage.deploys@
    }

    pub closed spec fn phase(&self) -> ReactorState {
        self.state
    }

    /// A reactor with empty queues and empty stores.
    pub fn new() -> (r: Self)
        ensures
            r.wf(),
            r.queued().is_empty(),
            r.deliveries().len() == 0,
            r.blocks() == Map::<u64, ValueModel>::empty(),
            r.deploys() == Map::<u64, ValueModel>::empty(),
            r.phase() == ReactorState::Idle,
    {
        Reactor {
            queues: EventQueues::new(),
            exchange: Exchange::new(),
            storage: Storage::new(),
            state: ReactorState::Idle,
        }
    }

    pub fn state(&self) -> (r: ReactorState)
        ensures
            r == self.phase(),
    {
        self.state
    }

    /// Number of responders opened so far.
    pub fn responders_opened(&self) -> (n: usize)
        ensures
            n == self.deliveries().len(),
    {
        self.exchange.len()
    }

    /// Number of events waiting in the queue of `kind`.
    pub fn queue_depth(&self, kind: QueueKind) -> (n: usize)
        ensures
            n == self.queued().queue(kind).len(),
    {
        self.queues.len_of(kind)
    }

    /// Opens a responder, builds the request around it with `build_request`,
    /// and queues the event under `queue`. Returns the ticket under which the
    /// requester awaits the outcome.
    pub fn make_request<F>(&mut self, build_request: F, queue: QueueKind) -> (ticket: usize) where
        F: FnOnce(Responder) -> Event<I, P>,

        requires
            old(self).wf(),
            old(self).deliveries().len() < usize::MAX,
            forall|r: Responder| build_request.requires((r,)),
        ensures
            final(self).wf(),
            ticket == old(self).deliveries().len(),
            final(self).deliveries() == old(self).deliveries().push(Delivery::Pending),
            exists|r: Responder, e: Event<I, P>|
                r.ticket() == ticket && build_request.ensures((r,), e) && final(self).queued()
                    == old(self).queued().push(queue, e),
            final(self).blocks() == old(self).blocks(),
            final(self).deploys() == old(self).deploys(),
            final(self).phase() == old(self).phase(),
    {
        let responder = self.exchange.open();
        let ticket = responder.id();
        let ghost r = responder;
        let event = build_request(responder);
        self.queues.push(queue, event);
        assert(r.ticket() == ticket && build_request.ensures((r,), event));
        ticket
    }

    /// Fulfills a responder that a component received with a dispatched
    /// request.
    pub fn respond(&mut self, responder: Responder, value: Reply) -> (r: Result<(), RespondError>)
        ensures
            (r, final(self).deliveries()) == respond_model(
                old(self).deliveries(),
                responder.ticket() as int,
                value,
            ),
            final(self).queued() == old(self).queued(),
            final(self).blocks() == old(self).blocks(),
            final(self).deploys() == old(self).deploys(),
            final(self).wf() == old(self).wf(),
            final(self).phase() == old(self).phase(),
    {
        self.exchange.respond(responder, value)
    }

    /// Drops a responder unfulfilled: its requester observes a disconnect.
    pub fn disconnect(&mut self, responder: Responder)
        ensures
            final(self).deliveries() == crate::responder::disconnect_model(
                old(self).deliveries(),
                responder.ticket() as int,
            ),
            final(self).queued() == old(self).queued(),
            final(self).blocks() == old(self).blocks(),
            final(self).deploys() == old(self).deploys(),
            final(self).wf() == old(self).wf(),
            final(self).phase() == old(self).phase(),
    {
        self.exchange.disconnect(responder)
    }

    /// What the requester holding `ticket` observes.
    pub fn outcome(&self, ticket: usize) -> (r: Option<&Delivery<Reply>>)
        ensures
            ticket < self.deliveries().len() ==> r == Some(&self.deliveries()[ticket as int]),
            ticket >= self.deliveries().len() ==> r is None,
    {
        self.exchange.outcome(ticket)
    }

    /// Takes the next event by priority and routes it to its one owner.
    /// Storage requests are answered here; network and REST requests are
    /// handed back for their components.
    pub fn dispatch_next(&mut self) -> (r: Dispatched<I, P>)
        requires
            old(self).wf(),
        ensures
            final(self).wf(),
            final(self).phase() == old(self).phase(),
            ({
                let (popped, rest) = old(self).queued().pop();
                &&& final(self).queued() == rest
                &&& match popped {
                    None => r is Idle && final(self).deliveries() == old(self).deliveries()
                        && final(self).blocks() == old(self).blocks() && final(self).deploys()
                        == old(self).deploys(),
                    Some((_, e)) => match e {
                        Event::Network(req) => r == Dispatched::<I, P>::Network(req)
                            && final(self).deliveries() == old(self).deliveries()
                            && final(self).blocks() == old(self).blocks()
                            && final(self).deploys() == old(self).deploys(),
                        Event::Rest(req) => r == Dispatched::<I, P>::Rest(req)
                            && final(self).deliveries() == old(self).deliveries()
                            && final(self).blocks() == old(self).blocks()
                            && final(self).deploys() == old(self).deploys(),
                        Event::Storage(req) => {
                            &&& r is Storage
                            &&& (final(self).blocks(), final(self).deploys()) == storage_after(
                                req,
                                old(self).blocks(),
                                old(self).deploys(),
                            )
                            &&& exists|rep: Reply|
                                storage_reply(req, old(self).blocks(), old(self).deploys(), rep)
                                    && final(self).deliveries() == respond_model(
                                    old(self).deliveries(),
                                    storage_ticket(req) as int,
                                    rep,
                                ).1
                        },
                    },
                }
            }),
    {
        match self.queues.pop() {
            None => Dispatched::Idle,
            Some((_, Event::Network(req))) => Dispatched::Network(req),
            Some((_, Event::Rest(req))) => Dispatched::Rest(req),
            Some((_, Event::Storage(req))) => {
                handle_storage(&mut self.storage, &mut self.exchange, req);
                Dispatched::Storage
            },
        }
    }

    /// Moves the reactor to its next phase.
    pub fn signal(&mut self, sig: Signal)
        ensures
            final(self).phase() == step_model(old(self).phase(), sig),
            final(self).queued() == old(self).queued(),
            final(self).deliveries() == old(self).deliveries(),
            final(self).blocks() == old(self).blocks(),
            final(self).deploys() == old(self).deploys(),
            final(self).wf() == old(self).wf(),
    {
        self.state = step(self.state, sig);
    }

    /// Stops the reactor: every responder still pending, queued or handed
    /// out, is disconnected, so no requester waits forever.
    pub fn shutdown(&mut self)
        ensures
            final(self).phase() == ReactorState::Shutdown,
            final(self).deliveries() == close_model(old(self).deliveries()),
            forall|i: int|
                0 <= i < final(self).deliveries().len() ==> (#[trigger] final(self).deliveries()[i]).is_resolved(),
            final(self).blocks() == old(self).blocks(),
            final(self).deploys() == old(self).deploys(),
            final(self).wf() == old(self).wf(),
    {
        self.state = ReactorState::Shutdown;
        self.exchange.close_all();
    }
}

} // verus!
