//! Single-use responders: each request carries one, and its requester sees
//! exactly one of a delivered value or a disconnect.
use vstd::prelude::*;

verus! {

/// What the awaiting side of a responder can observe.
#[derive(Debug, PartialEq, Eq)]
pub enum Delivery<T> {
    /// Neither fulfilled nor dropped yet.
    Pending,
    /// The handler delivered this value.
    Fulfilled(T),
    /// The responder was dropped before it was fulfilled.
    Disconnected,
}

impl<T> Delivery<T> {
    pub open spec fn is_resolved(self) -> bool {
        !(self is Pending)
    }

    pub fn is_pending(&self) -> (r: bool)
        ensures
            r == (*self is Pending),
    {
        match self {
            Delivery::Pending => true,
            _ => false,
        }
    }
}

/// Misuse of a responder.
#[derive(Clone, Copy, Debug, PartialEq, Eq, Structural)]
pub enum RespondError {
    /// The responder was not opened by this exchange.
    UnknownResponder,
    /// The slot was already fulfilled or disconnected: a second fulfillment is
    /// refused rather than dropped silently.
    AlreadyResolved,
}

/// The delivery end handed to a handler inside a request. It is not `Clone`:
/// it is moved into the request and moved out by the fulfilling handler.
#[derive(Debug)]
pub struct Responder {
    slot: usize,
}

impl Responder {
    pub closed spec fn ticket(&self) -> usize {
        self.slot
    }

    /// The ticket under which the requester awaits this responder's outcome.
    pub fn id(&self) -> (r: usize)
        ensures
            r == self.ticket(),
    {
        self.slot
    }
}

/// Outcome of fulfilling slot `id` of `s` with `v`.
pub open spec fn respond_model<T>(s: Seq<Delivery<T>>, id: int, v: T) -> (
    Result<(), RespondError>,
    Seq<Delivery<T>>,
) {
    if !(0 <= id < s.len()) {
        (Err(RespondError::UnknownResponder), s)
    } else if s[id] is Pending {
        (Ok(()), s.update(id, Delivery::Fulfilled(v)))
    } else {
        (Err(RespondError::AlreadyResolved), s)
    }
}

/// Slots after the responder of slot `id` is dropped unfulfilled.
pub open spec fn disconnect_model<T>(s: Seq<Delivery<T>>, id: int) -> Seq<Delivery<T>> {
    if 0 <= id < s.len() && s[id] is Pending {
        s.update(id, Delivery::Disconnected)
    } else {
        s
    }
}

/// Slots after shutdown: every pending slot is disconnected.
pub open spec fn close_model<T>(s: Seq<Delivery<T>>) -> Seq<Delivery<T>> {
    Seq::new(s.len(), |i: int| if s[i] is Pending { Delivery::Disconnected } else { s[i] })
}

/// The table of all responders opened so far, indexed by ticket.
pub struct Exchange<T> {
    slots: Vec<Delivery<T>>,
}

impl<T> View for Exchange<T> {
    type V = Seq<Delivery<T>>;

    closed spec fn view(&self) -> Seq<Delivery<T>> {
        self.slots@
    }
}

impl<T> Exchange<T> {
    pub fn new() -> (r: Self)
        ensures
            r@ == Seq::<Delivery<T>>::empty(),
    {
        Exchange { slots: Vec::new() }
    }

    pub fn len(&self) -> (n: usize)
        ensures
            n == self@.len(),
    {
        self.slots.len()
    }

    /// Opens a fresh pending slot and returns the responder that resolves it.
    pub fn open(&mut self) -> (r: Responder)
        requires
            old(self)@.len() < usize::MAX,
        ensures
            r.ticket() == old(self)@.len(),
            final(self)@ == old(self)@.push(Delivery::Pending),
    {
        let slot = self.slots.len();
        self.slots.push(Delivery::Pending);
        Responder { slot }
    }

    /// Delivers `value` through `responder`; refused when its slot is unknown
    /// or already resolved.
    pub fn respond(&mut self, responder: Responder, value: T) -> (r: Result<(), RespondError>)
        ensures
            (r, final(self)@) == respond_model(old(self)@, responder.ticket() as int, value),
    {
        let id = responder.slot;
        if id >= self.slots.len() {
            return Err(RespondError::UnknownResponder);
        }
        if self.slots[id].is_pending() {
            self.slots.set(id, Delivery::Fulfilled(value));
            Ok(())
        } else {
            Err(RespondError::AlreadyResolved)
        }
    }

    /// Drops `responder` without fulfilling it: its requester observes a
    /// disconnect.
    pub fn disconnect(&mut self, responder: Responder)
        ensures
            final(self)@ == disconnect_model(old(self)@, responder.ticket() as int),
    {
        let id = responder.slot;
        if id < self.slots.len() && self.slots[id].is_pending() {
            self.slots.set(id, Delivery::Disconnected);
        }
    }

    /// Disconnects every slot that is still pending, as on shutdown.
    pub fn close_all(&mut self)
        ensures
            final(self)@ == close_model(old(self)@),
    {
        let n = self.slots.len();
        let mut i: usize = 0;
        while i < n
            invariant
                n == old(self)@.len(),
                self@.len() == n,
                i <= n,
                forall|j: int| 0 <= j < i ==> self@[j] == close_model(old(self)@)[j],
                forall|j: int| i <= j < n ==> self@[j] == old(self)@[j],
            decreases n - i,
        {
            if self.slots[i].is_pending() {
                self.slots.set(i, Delivery::Disconnected);
            }
            i = i + 1;
        }
        assert(self@ =~= close_model(old(self)@));
    }

    /// What the requester holding `ticket` observes; `None` for a ticket that
    /// this exchange never issued.
    pub fn outcome(&self, ticket: usize) -> (r: Option<&Delivery<T>>)
        ensures
            ticket < self@.len() ==> r == Some(&self@[ticket as int]),
            ticket >= self@.len() ==> r is None,
    {
        if ticket < self.slots.len() {
            Some(&self.slots[ticket])
        } else {
            None
        }
    }
}

/// A requester observes exactly one outcome. Fulfilling or dropping a pending
/// responder resolves its slot to exactly that value or to a disconnect, and
/// a resolved slot never changes again, whatever is done to any slot. After
/// shutdown no slot is left pending.
pub proof fn lemma_exactly_one_outcome<T>(s: Seq<Delivery<T>>, id: int, other: int, v: T)
    requires
        0 <= id < s.len(),
    ensures
        s[id] is Pending ==> respond_model(s, id, v) == (
            Ok::<(), RespondError>(()),
            s.update(id, Delivery::Fulfilled(v)),
        ),
        s[id] is Pending ==> disconnect_model(s, id)[id] == Delivery::<T>::Disconnected,
        s[id].is_resolved() ==> respond_model(s, other, v).1[id] == s[id],
        s[id].is_resolved() ==> disconnect_model(s, other)[id] == s[id],
        s[id].is_resolved() ==> close_model(s)[id] == s[id],
        close_model(s)[id].is_resolved(),
        close_model(s).len() == s.len(),
{
}

/// A dropped responder cannot be fulfilled afterwards: the attempt is refused
/// and the requester keeps observing the disconnect.
pub proof fn lemma_dropped_then_refused<T>(s: Seq<Delivery<T>>, id: int, v: T)
    requires
        0 <= id < s.len(),
        s[id] is Pending,
    ensures
        disconnect_model(s, id)[id] == Delivery::<T>::Disconnected,
        respond_model(disconnect_model(s, id), id, v) == (
            Err::<(), RespondError>(RespondError::AlreadyResolved),
            disconnect_model(s, id),
        ),
{
}

} // verus!
