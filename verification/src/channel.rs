use vstd::prelude::*;

use futures::channel::mpsc::TryRecvError;
use futures::channel::mpsc::UnboundedReceiver;
use futures::channel::mpsc::UnboundedSender;

use crate::errors::ChannelError;

verus! {

/// One direction of the host/unit transport: an ordered, asynchronous,
/// point-to-point byte-buffer pipe.  Both endpoints are held together, so
/// the contracts below can speak of the queue that the pair shares.
#[verifier::external_body]
pub struct MessagePipe {
    tx: UnboundedSender<Vec<u8>>,
    rx: UnboundedReceiver<Vec<u8>>,
}

/// The buffers queued in the pipe, oldest first.
pub uninterp spec fn pipe_queue(p: MessagePipe) -> Seq<Seq<u8>>;

/// Whether the send side of the pipe is still connected.
pub uninterp spec fn pipe_send_open(p: MessagePipe) -> bool;

/// Whether the receive side of the pipe is still accepting messages.
pub uninterp spec fn pipe_recv_open(p: MessagePipe) -> bool;

/// One step of receiving: the next message, "nothing yet, try again", or
/// "closed and drained".
#[derive(Debug, PartialEq, Eq)]
pub enum ReceivePoll {
    /// The next queued message, in first-in first-out order.
    Message(Vec<u8>),
    /// No message is queued, but the channel is still open.
    Pending,
    /// The channel is closed and every queued message has been taken.
    Closed,
}

/// Whether two pipe states agree on which sides are open.
pub open spec fn pipe_flags_unchanged(a: MessagePipe, b: MessagePipe) -> bool {
    pipe_send_open(a) == pipe_send_open(b) && pipe_recv_open(a) == pipe_recv_open(b)
}

/// Relies on futures::channel::mpsc::unbounded: a fresh channel holds no
/// messages and has both halves connected.
#[verifier::external_body]
pub(crate) fn pipe_new() -> (p: MessagePipe)
    ensures
        pipe_queue(p) == Seq::<Seq<u8>>::empty(),
        pipe_send_open(p),
        pipe_recv_open(p),
{
    let (tx, rx) = futures::channel::mpsc::unbounded();
    MessagePipe { tx, rx }
}

/// Relies on futures::channel::mpsc::UnboundedSender::unbounded_send: the
/// message is appended to the queue in arrival order, and the send fails
/// exactly when the channel has been closed from either side.
#[verifier::external_body]
pub(crate) fn pipe_send(p: &mut MessagePipe, m: Vec<u8>) -> (r: Result<(), ChannelError>)
    ensures
        r is Ok <==> (pipe_send_open(*old(p)) && pipe_recv_open(*old(p))),
        r is Ok ==> pipe_queue(*final(p)) == pipe_queue(*old(p)).push(m@),
        r is Err ==> pipe_queue(*final(p)) == pipe_queue(*old(p)),
        pipe_send_open(*final(p)) == pipe_send_open(*old(p)),
        pipe_recv_open(*final(p)) == pipe_recv_open(*old(p)),
{
    match p.tx.unbounded_send(m) {
        Ok(()) => Ok(()),
        Err(_) => Err(ChannelError::Closed),
    }
}

/// Relies on futures::channel::mpsc::UnboundedReceiver::try_recv: messages
/// come out first-in first-out; an empty open channel reports that nothing is
/// available yet; an empty closed channel reports end of stream, and keeps
/// doing so on every later call.
#[verifier::external_body]
pub(crate) fn pipe_try_receive(p: &mut MessagePipe) -> (r: ReceivePoll)
    ensures
        pipe_queue(*old(p)).len() > 0 ==> (r matches ReceivePoll::Message(m)
            && m@ == pipe_queue(*old(p))[0]
            && pipe_queue(*final(p)) == pipe_queue(*old(p)).drop_first()),
        pipe_queue(*old(p)).len() == 0 ==> pipe_queue(*final(p)) == pipe_queue(*old(p)),
        pipe_queue(*old(p)).len() == 0 && pipe_send_open(*old(p)) && pipe_recv_open(*old(p))
            ==> r == ReceivePoll::Pending,
        pipe_queue(*old(p)).len() == 0 && !(pipe_send_open(*old(p)) && pipe_recv_open(*old(p)))
            ==> r == ReceivePoll::Closed,
        pipe_send_open(*final(p)) == pipe_send_open(*old(p)),
        pipe_recv_open(*final(p)) == pipe_recv_open(*old(p)),
{
    match p.rx.try_recv() {
        Ok(m) => ReceivePoll::Message(m),
        Err(TryRecvError::Empty) => ReceivePoll::Pending,
        Err(TryRecvError::Closed) => ReceivePoll::Closed,
    }
}

/// Relies on futures::channel::mpsc::UnboundedSender::close_channel: closing
/// the send side keeps the buffered messages but stops further sends.
#[verifier::external_body]
pub(crate) fn pipe_close_sender(p: &mut MessagePipe)
    ensures
        pipe_queue(*final(p)) == pipe_queue(*old(p)),
        !pipe_send_open(*final(p)),
        pipe_recv_open(*final(p)) == pipe_recv_open(*old(p)),
{
    p.tx.close_channel();
}

/// Relies on futures::channel::mpsc::UnboundedReceiver::close: closing the
/// receive side stops further sends while the buffered messages can still be
/// drained.
#[verifier::external_body]
pub(crate) fn pipe_close_receiver(p: &mut MessagePipe)
    ensures
        pipe_queue(*final(p)) == pipe_queue(*old(p)),
        pipe_send_open(*final(p)) == pipe_send_open(*old(p)),
        !pipe_recv_open(*final(p)),
{
    p.rx.close();
}

/// The two pipes between a host and its execution unit: one carries what the
/// host posts to the unit, the other what the unit posts back.
pub struct WorkerChannels {
    pub host_to_unit: MessagePipe,
    pub unit_to_host: MessagePipe,
}

impl WorkerChannels {
    /// Messages waiting for the unit, oldest first.
    pub open spec fn inbox(self) -> Seq<Seq<u8>> {
        pipe_queue(self.host_to_unit)
    }

    /// Messages waiting for the host, oldest first.
    pub open spec fn outbox(self) -> Seq<Seq<u8>> {
        pipe_queue(self.unit_to_host)
    }

    /// A fresh channel pair: both directions empty and fully connected.
    pub fn new() -> (c: WorkerChannels)
        ensures
            c.inbox() == Seq::<Seq<u8>>::empty(),
            c.outbox() == Seq::<Seq<u8>>::empty(),
            pipe_send_open(c.host_to_unit) && pipe_recv_open(c.host_to_unit),
            pipe_send_open(c.unit_to_host) && pipe_recv_open(c.unit_to_host),
    {
        WorkerChannels { host_to_unit: pipe_new(), unit_to_host: pipe_new() }
    }
}

/// The queue left after posting each element of `ms`, oldest first, onto a
/// pipe already holding `q`.
pub open spec fn after_posts(q: Seq<Seq<u8>>, ms: Seq<Seq<u8>>) -> Seq<Seq<u8>>
    decreases ms.len(),
{
    if ms.len() == 0 {
        q
    } else {
        after_posts(q, ms.drop_last()).push(ms.last())
    }
}

/// Law: messages posted in order arrive in order.  Posting the messages `ms`
/// one after another onto a pipe holding `q` leaves the pipe holding `q`
/// followed by `ms`, unchanged in order; since every delivery takes the head
/// of the queue, a receiver that drains the pipe sees `ms` exactly in the
/// order they were posted.
pub proof fn lemma_messages_arrive_in_post_order(q: Seq<Seq<u8>>, ms: Seq<Seq<u8>>)
    ensures
        after_posts(q, ms) == q + ms,
    decreases ms.len(),
{
    if ms.len() == 0 {
        assert(after_posts(q, ms) =~= q + ms);
    } else {
        lemma_messages_arrive_in_post_order(q, ms.drop_last());
        assert(after_posts(q, ms) =~= q + ms);
    }
}

} // verus!
