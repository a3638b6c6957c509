//! The active-connection behavior: the state machine attached to one live,
//! already-established duplex connection. It owns the outbound write queue
//! and decides, per readiness notification, what non-blocking I/O to attempt
//! and what to report to the routing collaborator. The socket operations
//! themselves are performed by the surrounding event loop, which feeds their
//! results back in; every decision on those results is made here.

use vstd::prelude::*;
use std::collections::VecDeque;
use crate::registry::{bumped, Context, Core, CoreView, Token};

verus! {

/// Relies on rand::random: draws a value from the thread-local generator;
/// nothing is promised of which value comes back.
pub assume_specification<T>[ rand::random::<T> ]() -> (r: T)
    where
        rand::distributions::Standard: rand::distributions::Distribution<T>,
;

/// A message to the routing/supervisor channel, the only externally visible
/// signal this core emits.
#[derive(Debug, PartialEq, Eq)]
pub enum CrustMsg {
    /// Emitted once at construction of an active connection.
    NewConnection(u64),
    /// Emitted once per successful non-blocking read with non-empty payload.
    NewMessage(u64, Vec<u8>),
    /// Emitted when a session is torn down due to hang-up or I/O error.
    LostPeer(u64),
}

/// The readiness kinds a notification can carry; several may be set at once.
#[derive(Clone, Copy, PartialEq, Eq, Debug, Structural)]
pub struct EventSet {
    pub error: bool,
    pub hup: bool,
    pub readable: bool,
    pub writable: bool,
}

/// What a dispatch call must do for a readiness notification, in priority
/// order: an error is fatal, a hang-up is a graceful teardown, and otherwise
/// every applicable I/O bit is acted on in the same call.
#[derive(Clone, Copy, PartialEq, Eq, Debug, Structural)]
pub enum DispatchPlan {
    /// Fatal teardown: remove the session, report the peer lost.
    TearDownFatal,
    /// Graceful teardown: remove the session, report the peer lost.
    TearDownGraceful,
    /// Attempt a read, a write drain, both, or neither.
    Io { read: bool, write: bool },
}

/// The classification of a failed non-blocking socket operation.
#[derive(Clone, Copy, PartialEq, Eq, Debug, Structural)]
pub enum IoErrorKind {
    /// The operation would have blocked; readiness will re-fire.
    WouldBlock,
    /// The operation was interrupted; readiness will re-fire.
    Interrupted,
    /// Any other error: fatal to the session.
    Other,
}

/// The mathematical state of an active connection.
pub ghost struct ConnectionView {
    pub peer_id: u64,
    pub token: usize,
    pub context: usize,
    /// The pending outbound chunks, head first.
    pub queue: Seq<Seq<u8>>,
    /// Whether writable readiness is currently of interest.
    pub write_interest: bool,
    /// Every byte the transport has accepted so far, in order.
    pub sent: Seq<u8>,
    /// Every byte accepted from `enqueue_write` so far, in order.
    pub submitted: Seq<u8>,
}

/// The number of bytes a single non-blocking read may pull in: the bounded
/// read scratch buffer's length.
pub const SCRATCH_BUFFER_LEN: usize = 10;

/// The state of one active connection. The socket itself, the routing
/// channel and the shared peer map live with the event loop; this type holds
/// everything the dispatch decisions depend on.
pub struct ActiveConnection {
    peer_id: u64,
    token: Token,
    context: Context,
    write_queue: VecDeque<Vec<u8>>,
    write_interest: bool,
    sent: Ghost<Seq<u8>>,
    submitted: Ghost<Seq<u8>>,
}

impl View for ActiveConnection {
    type V = ConnectionView;

    closed spec fn view(&self) -> ConnectionView {
        ConnectionView {
            peer_id: self.peer_id,
            token: self.token.0,
            context: self.context.0,
            queue: self.write_queue@.map_values(|d: Vec<u8>| d@),
            write_interest: self.write_interest,
            sent: self.sent@,
            submitted: self.submitted@,
        }
    }
}

impl ActiveConnection {
    /// Well-formedness: every submitted byte is either already handed to the
    /// transport or still queued, in submission order; and writable
    /// readiness is of interest exactly while outbound data is pending.
    pub open spec fn wf(self) -> bool {
        &&& self@.sent + self@.queue.flatten() == self@.submitted
        &&& self@.write_interest <==> self@.queue.len() > 0
    }

    /// Brings a new active connection into the registry: allocates a fresh
    /// handle — the counter advances, so no live session's handle is ever
    /// reused — binds it to `context`, and draws a random peer identifier
    /// (collision of two random identifiers is accepted as residual risk).
    /// The caller registers the socket for read interest, publishes the
    /// peer in the shared peer map, sends the `NewConnection` report, and
    /// attaches the finished behavior — ordered so that no side effect
    /// precedes a step that can still fail.
    pub fn new<S>(core: &mut Core<S>, context: Context) -> (conn: ActiveConnection)
        ensures
            conn@.token == old(core)@.token_counter,
            conn@.context == context.0,
            conn@.queue =~= Seq::<Seq<u8>>::empty(),
            conn@.write_interest == false,
            conn@.sent =~= Seq::<u8>::empty(),
            conn@.submitted =~= Seq::<u8>::empty(),
            conn.wf(),
            final(core)@ == (CoreView {
                token_counter: bumped(old(core)@.token_counter),
                contexts: old(core)@.contexts.insert(conn@.token, context),
                ..old(core)@
            }),
    {
        let token = core.get_new_token();
        let peer_id: u64 = rand::random();
        let conn = ActiveConnection {
            peer_id,
            token,
            context,
            write_queue: VecDeque::new(),
            write_interest: false,
            sent: Ghost(Seq::empty()),
            submitted: Ghost(Seq::empty()),
        };
        let _ = core.insert_context(token, context);
        proof {
            assert(conn@.queue =~= Seq::<Seq<u8>>::empty());
            assert(conn@.sent + conn@.queue.flatten() =~= conn@.submitted);
        }
        conn
    }

    /// The peer identifier this connection reports under.
    pub fn peer_id(&self) -> (id: u64)
        ensures
            id == self@.peer_id,
    {
        self.peer_id
    }

    /// The raw handle this connection expects to be dispatched with.
    pub fn token(&self) -> (token: Token)
        ensures
            token.0 == self@.token,
    {
        self.token
    }

    /// The session identifier this connection is registered under.
    pub fn context(&self) -> (context: Context)
        ensures
            context.0 == self@.context,
    {
        self.context
    }

    /// Whether writable readiness should currently be registered with the
    /// poller: exactly while outbound data is pending.
    pub fn wants_write(&self) -> (r: bool)
        ensures
            r == self@.write_interest,
    {
        self.write_interest
    }

    /// Whether `token` is the handle this connection expects. Dispatch with
    /// any other handle is a registry mis-binding bug, to be surfaced
    /// loudly by the caller, never tolerated silently.
    pub fn expects_token(&self, token: &Token) -> (r: bool)
        ensures
            r == (self@.token == token.0),
    {
        self.token.0 == token.0
    }

    /// Accepts a payload to transmit asynchronously. Never blocks, never
    /// rejects: the payload joins the tail of the outbound queue and
    /// writable readiness becomes of interest. The queue's bound is
    /// explicitly infinite — backpressure, if any, is the caller bounding
    /// its own production rate, never a rejection here.
    pub fn enqueue_write(&mut self, data: Vec<u8>)
        requires
            old(self).wf(),
        ensures
            final(self)@ == (ConnectionView {
                queue: old(self)@.queue.push(data@),
                write_interest: true,
                submitted: old(self)@.submitted + data@,
                ..old(self)@
            }),
            final(self).wf(),
    {
        let ghost data_view = data@;
        self.submitted = Ghost(self.submitted@ + data@);
        self.write_queue.push_back(data);
        self.write_interest = true;
        proof {
            assert(self@.queue =~= old(self)@.queue.push(data_view));
            old(self)@.queue.lemma_flatten_push(data_view);
            assert(self@.sent + self@.queue.flatten() =~= self@.submitted);
        }
    }

    /// The chunk at the head of the outbound queue, the next one a write
    /// drain should offer to the transport; nothing when the queue is empty.
    pub fn front_write(&self) -> (r: Option<&Vec<u8>>)
        ensures
            match r {
                Some(d) => self@.queue.len() > 0 && d@ == self@.queue[0],
                None => self@.queue.len() == 0,
            },
    {
        if self.write_queue.len() > 0 {
            Some(&self.write_queue[0])
        } else {
            None
        }
    }

    /// Accounts for a successful non-blocking write that accepted
    /// `bytes_txd` bytes of the head chunk. A partially accepted chunk keeps
    /// its unwritten remainder at the head of the queue; a fully accepted
    /// one leaves the queue. The result says whether writable interest is to
    /// be dropped, which is exactly when the queue has drained empty — the
    /// backpressure-release step.
    pub fn on_write_result(&mut self, bytes_txd: usize) -> (deregister: bool)
        requires
            old(self).wf(),
            old(self)@.queue.len() > 0,
            bytes_txd <= old(self)@.queue[0].len(),
        ensures
            final(self)@.peer_id == old(self)@.peer_id,
            final(self)@.token == old(self)@.token,
            final(self)@.context == old(self)@.context,
            final(self)@.submitted == old(self)@.submitted,
            final(self)@.sent == old(self)@.sent + old(self)@.queue[0].take(bytes_txd as int),
            bytes_txd == old(self)@.queue[0].len() ==> final(self)@.queue == old(
                self,
            )@.queue.drop_first(),
            bytes_txd < old(self)@.queue[0].len() ==> final(self)@.queue == seq![
                old(self)@.queue[0].skip(bytes_txd as int),
            ] + old(self)@.queue.drop_first(),
            deregister == (final(self)@.queue.len() == 0),
            final(self)@.write_interest == !deregister,
            final(self).wf(),
    {
        let ghost head = old(self)@.queue[0];
        let data = self.write_queue.pop_front().unwrap();
        proof {
            assert(self@.queue =~= old(self)@.queue.drop_first());
        }
        if bytes_txd < data.len() {
            let remainder = suffix_of(&data, bytes_txd);
            self.write_queue.push_front(remainder);
            proof {
                assert(self@.queue =~= seq![head.skip(bytes_txd as int)] + old(
                    self,
                )@.queue.drop_first());
            }
        }
        self.sent = Ghost(self.sent@ + head.take(bytes_txd as int));
        let deregister = self.write_queue.len() == 0;
        self.write_interest = !deregister;
        proof {
            let q0 = old(self)@.queue;
            assert(q0.flatten() == q0.first() + q0.drop_first().flatten());
            assert(head.take(bytes_txd as int) + head.skip(bytes_txd as int) =~= head);
            if bytes_txd < head.len() {
                let q1 = self@.queue;
                assert(q1.first() == head.skip(bytes_txd as int));
                assert(q1.drop_first() =~= q0.drop_first());
                assert(q1.flatten() == q1.first() + q1.drop_first().flatten());
            }
            assert(self@.sent + self@.queue.flatten() =~= self@.submitted);
        }
        deregister
    }

    /// Decides what a successful non-blocking read means: `bytes_rxd` bytes
    /// arrived in `buf`. A zero-byte read conventionally signals
    /// peer-initiated close and yields nothing — the caller routes it
    /// through the hang-up teardown, not the message path. A non-empty read
    /// yields the received bytes for the routing channel, tagged with this
    /// connection's peer identifier.
    pub fn on_read_result(&self, buf: Vec<u8>, bytes_rxd: usize) -> (r: Option<CrustMsg>)
        requires
            bytes_rxd <= buf@.len(),
        ensures
            r is Some <==> bytes_rxd > 0,
            match r {
                Some(m) => match m {
                    CrustMsg::NewMessage(p, d) => p == self@.peer_id && d@ == buf@.take(
                        bytes_rxd as int,
                    ),
                    _ => false,
                },
                None => bytes_rxd == 0,
            },
    {
        if bytes_rxd == 0 {
            None
        } else {
            let mut payload = buf;
            payload.truncate(bytes_rxd);
            Some(CrustMsg::NewMessage(self.peer_id, payload))
        }
    }

    /// The report that this connection's peer is lost, for every teardown
    /// path.
    pub fn lost_peer_msg(&self) -> (m: CrustMsg)
        ensures
            m == CrustMsg::LostPeer(self@.peer_id),
    {
        CrustMsg::LostPeer(self.peer_id)
    }

    /// The report that this connection's peer is newly connected, emitted
    /// once at construction.
    pub fn new_connection_msg(&self) -> (m: CrustMsg)
        ensures
            m == CrustMsg::NewConnection(self@.peer_id),
    {
        CrustMsg::NewConnection(self.peer_id)
    }
}

/// A fresh zeroed read scratch buffer of the bounded scratch length.
pub fn scratch_buffer() -> (b: Vec<u8>)
    ensures
        b@.len() == SCRATCH_BUFFER_LEN,
        forall|i: int| 0 <= i < b@.len() ==> b@[i] == 0u8,
{
    let mut b: Vec<u8> = Vec::new();
    let mut i: usize = 0;
    while i < SCRATCH_BUFFER_LEN
        invariant
            i <= SCRATCH_BUFFER_LEN,
            b@.len() == i,
            forall|j: int| 0 <= j < b@.len() ==> b@[j] == 0u8,
        decreases SCRATCH_BUFFER_LEN - i,
    {
        b.push(0u8);
        i += 1;
    }
    b
}

/// Ranks the readiness kinds of one notification: error readiness is fatal;
/// otherwise hang-up readiness asks for a graceful teardown; otherwise every
/// applicable I/O bit — readable, writable, both or neither — is to be acted
/// on within this same dispatch call.
pub fn plan_dispatch(events: EventSet) -> (plan: DispatchPlan)
    ensures
        events.error ==> plan == DispatchPlan::TearDownFatal,
        !events.error && events.hup ==> plan == DispatchPlan::TearDownGraceful,
        !events.error && !events.hup ==> plan == (DispatchPlan::Io {
            read: events.readable,
            write: events.writable,
        }),
{
    if events.error {
        DispatchPlan::TearDownFatal
    } else if events.hup {
        DispatchPlan::TearDownGraceful
    } else {
        DispatchPlan::Io { read: events.readable, write: events.writable }
    }
}

/// Whether a failed socket operation is transient: a would-block or
/// interrupted result is not an error, only a "try again when readiness
/// re-fires" signal. Everything else is fatal to the session.
pub fn is_transient(kind: IoErrorKind) -> (r: bool)
    ensures
        r == (kind == IoErrorKind::WouldBlock || kind == IoErrorKind::Interrupted),
{
    kind == IoErrorKind::WouldBlock || kind == IoErrorKind::Interrupted
}

/// Law: partial-write re-queueing preserves byte order and totality. In any
/// well-formed connection the bytes the transport has accepted, followed by
/// the still-queued bytes in queue order, are exactly the payloads submitted
/// via `enqueue_write`, concatenated in submission order.
pub proof fn lemma_write_order_preserved(conn: ActiveConnection)
    requires
        conn.wf(),
    ensures
        conn@.sent + conn@.queue.flatten() == conn@.submitted,
{
}

/// Law: no busy-spin on writable readiness. In any well-formed connection,
/// writable interest is held exactly while outbound data is pending: once
/// the queue drains empty interest is dropped, and only a new
/// `enqueue_write` raises it again.
pub proof fn lemma_write_interest_iff_pending(conn: ActiveConnection)
    requires
        conn.wf(),
    ensures
        conn@.write_interest <==> conn@.queue.len() > 0,
        conn@.queue.len() == 0 ==> !conn@.write_interest,
{
}

/// A copy of `data` from position `from` to its end.
fn suffix_of(data: &Vec<u8>, from: usize) -> (r: Vec<u8>)
    requires
        from <= data@.len(),
    ensures
        r@ == data@.skip(from as int),
{
    let mut r: Vec<u8> = Vec::new();
    let mut i: usize = from;
    while i < data.len()
        invariant
            from <= i <= data@.len(),
            r@ == data@.subrange(from as int, i as int),
        decreases data@.len() - i,
    {
        r.push(data[i]);
        i += 1;
        proof {
            assert(r@ =~= data@.subrange(from as int, i as int));
        }
    }
    proof {
        assert(r@ =~= data@.skip(from as int));
    }
    r
}

} // verus!
