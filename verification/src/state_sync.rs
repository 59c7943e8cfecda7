//! The hand-off of certified checkpoints to state sync: a sink that puts
//! each certificate on a bounded queue, and a task that takes them off and
//! delivers them.
//!
//! In a running node the queue is an asynchronous channel, and waiting on it
//! is the caller's part: the sink asks for the send, the task is told what
//! was received. [`CheckpointQueue`] holds the rules of that queue for one
//! thread, so that sink and task can be run, and reasoned about, without a
//! runtime.

use crate::effect::{Effect, EffectView};
use crate::output::{certified_log_record, certified_record, CertifiedCheckpointOutput};
use crate::types::{
    CertifiedCheckpointSummary, CertifiedCheckpointSummaryView, OutputError, VerifiedCheckpoint,
};
use std::collections::VecDeque;
use vstd::prelude::*;

verus! {

/// How many certificates the queue holds before a sender has to wait.
pub const QUEUE_CAPACITY: usize = 128;

/// The state of the queue, as mathematical values.
pub struct QueueView {
    /// What is buffered, the oldest first.
    pub items: Seq<CertifiedCheckpointSummaryView>,
    /// Whether a sender is left. Once false it stays false.
    pub open: bool,
    /// Whether the receiver is left.
    pub receiver_alive: bool,
}

impl QueueView {
    /// Whether a sender that enqueues now has to wait.
    pub open spec fn full(self) -> bool {
        self.items.len() >= QUEUE_CAPACITY
    }

    /// The queue after it took `certified`.
    pub open spec fn accept(self, certified: CertifiedCheckpointSummaryView) -> QueueView {
        QueueView { items: self.items.push(certified), ..self }
    }

    /// The queue after its oldest item was taken off.
    pub open spec fn advance(self) -> QueueView {
        QueueView { items: self.items.drop_first(), ..self }
    }
}

/// The bounded first-in, first-out queue between the sink and the task.
///
/// It is open while a sender is left and closed for good afterwards. It
/// never holds more than [`QUEUE_CAPACITY`] certificates: a sender that
/// finds it full waits, which is all that slows the senders down when
/// state sync falls behind.
pub struct CheckpointQueue {
    buffer: VecDeque<CertifiedCheckpointSummary>,
    open: bool,
    receiver_alive: bool,
}

/// What became of a certificate that a sender tried to enqueue.
#[derive(Debug, PartialEq, Eq)]
pub enum Enqueued {
    /// It is on the queue.
    Accepted,
    /// The queue is full: the sender waits and tries again with the
    /// certificate, which comes back.
    Full(CertifiedCheckpointSummary),
    /// The receiver is gone: the certificate comes back, and will never be
    /// delivered.
    ReceiverDropped(CertifiedCheckpointSummary),
}

impl Enqueued {
    /// What the attempt means for the send: it succeeded, it failed for
    /// good because the receiver is gone, or, with a full queue, it is not
    /// over yet.
    pub fn outcome(&self) -> (outcome: Option<Result<(), OutputError>>)
        ensures
            *self is Accepted ==> outcome == Some(Ok::<(), OutputError>(())),
            *self is Full ==> (outcome is None),
            *self is ReceiverDropped ==> outcome == Some(
                Err::<(), OutputError>(OutputError::ForwardingChannelClosed),
            ),
    {
        match self {
            Enqueued::Accepted => Some(Ok(())),
            Enqueued::Full(_) => None,
            Enqueued::ReceiverDropped(_) => Some(Err(OutputError::ForwardingChannelClosed)),
        }
    }
}

/// What the receiver got when it tried to take the next certificate.
#[derive(Debug, PartialEq, Eq)]
pub enum Dequeued {
    /// The oldest certificate.
    Item(CertifiedCheckpointSummary),
    /// Nothing is buffered, but a sender is left: the receiver waits.
    Empty,
    /// Nothing is buffered and no sender is left: nothing will ever come.
    Closed,
}

impl View for CheckpointQueue {
    type V = QueueView;

    closed spec fn view(&self) -> QueueView {
        QueueView {
            items: self.buffer@.map_values(|certified: CertifiedCheckpointSummary| certified@),
            open: self.open,
            receiver_alive: self.receiver_alive,
        }
    }
}

impl CheckpointQueue {
    /// Never more is buffered than the capacity, and nothing once the
    /// receiver is gone.
    pub closed spec fn wf(&self) -> bool {
        &&& self.buffer@.len() <= QUEUE_CAPACITY
        &&& !self.receiver_alive ==> self.buffer@.len() == 0
    }

    /// A well-formed queue holds no more than its capacity, and nothing once
    /// its receiver is gone.
    pub proof fn within_capacity(&self)
        requires
            self.wf(),
        ensures
            self@.items.len() <= QUEUE_CAPACITY,
            !self@.receiver_alive ==> self@.items.len() == 0,
    {
    }

    /// An empty queue with a sender and the receiver.
    pub fn new() -> (queue: Self)
        ensures
            queue.wf(),
            queue@ == (QueueView { items: Seq::empty(), open: true, receiver_alive: true }),
    {
        let queue = CheckpointQueue { buffer: VecDeque::new(), open: true, receiver_alive: true };
        proof {
            assert(queue@.items =~= Seq::empty());
        }
        queue
    }

    /// How many certificates are buffered.
    pub fn len(&self) -> (count: usize)
        ensures
            count == self@.items.len(),
    {
        self.buffer.len()
    }

    /// Whether a sender is left.
    pub fn is_open(&self) -> (open: bool)
        ensures
            open == self@.open,
    {
        self.open
    }

    /// Whether the receiver is left.
    pub fn has_receiver(&self) -> (alive: bool)
        ensures
            alive == self@.receiver_alive,
    {
        self.receiver_alive
    }

    /// Tries to put `certified` on the queue. A queue without its receiver
    /// takes nothing, a full one nothing for now; either way the queue stays
    /// as it is and the certificate comes back.
    pub fn enqueue(&mut self, certified: CertifiedCheckpointSummary) -> (outcome: Enqueued)
        requires
            old(self).wf(),
            old(self)@.open,
        ensures
            final(self).wf(),
            !old(self)@.receiver_alive ==> final(self)@ == old(self)@ && outcome
                == Enqueued::ReceiverDropped(certified),
            old(self)@.receiver_alive && old(self)@.full() ==> final(self)@ == old(self)@
                && outcome == Enqueued::Full(certified),
            old(self)@.receiver_alive && !old(self)@.full() ==> final(self)@ == old(self)@.accept(
                certified@,
            ) && outcome == Enqueued::Accepted,
    {
        if !self.receiver_alive {
            Enqueued::ReceiverDropped(certified)
        } else if self.buffer.len() >= QUEUE_CAPACITY {
            Enqueued::Full(certified)
        } else {
            let ghost taken = certified@;
            self.buffer.push_back(certified);
            proof {
                assert(final(self)@.items =~= old(self)@.items.push(taken));
            }
            Enqueued::Accepted
        }
    }

    /// Tries to take the oldest certificate off the queue.
    pub fn dequeue(&mut self) -> (outcome: Dequeued)
        requires
            old(self).wf(),
            old(self)@.receiver_alive,
        ensures
            final(self).wf(),
            old(self)@.items.len() > 0 ==> outcome is Item && outcome->Item_0@ == old(
                self,
            )@.items[0] && final(self)@ == old(self)@.advance(),
            old(self)@.items.len() == 0 ==> final(self)@ == old(self)@ && outcome == (if old(
                self,
            )@.open {
                Dequeued::Empty
            } else {
                Dequeued::Closed
            }),
    {
        match self.buffer.pop_front() {
            Some(certified) => {
                proof {
                    assert(final(self)@.items =~= old(self)@.items.drop_first());
                }
                Dequeued::Item(certified)
            },
            None => {
                proof {
                    assert(final(self)@.items =~= old(self)@.items);
                }
                if self.open {
                    Dequeued::Empty
                } else {
                    Dequeued::Closed
                }
            },
        }
    }

    /// The last sender goes away. What is buffered stays for the receiver.
    pub fn close(&mut self)
        ensures
            old(self).wf() ==> final(self).wf(),
            final(self)@ == (QueueView { open: false, ..old(self)@ }),
    {
        self.open = false;
    }

    /// The receiver goes away, and what is buffered with it.
    pub fn drop_receiver(&mut self)
        ensures
            final(self).wf(),
            final(self)@ == (QueueView {
                items: Seq::empty(),
                receiver_alive: false,
                ..old(self)@
            }),
    {
        self.buffer.clear();
        self.receiver_alive = false;
        proof {
            assert(final(self)@.items =~= Seq::empty());
        }
    }
}

/// The sink that hands each certified checkpoint to state sync, as far as
/// state sync takes it.
#[derive(Clone, Copy, Debug)]
pub struct SendCheckpointToStateSync {}

/// Whether the forwarding task still takes certificates.
#[derive(Clone, Copy, Debug, PartialEq, Eq, Structural)]
pub enum TaskState {
    Running,
    /// The queue was closed and drained. The task delivers nothing more.
    Finished,
}

/// The task that takes certificates off the queue and delivers them to
/// state sync, each marked as verified without a check.
#[derive(Debug)]
pub struct ForwardToStateSyncTask {
    state: TaskState,
}

impl SendCheckpointToStateSync {
    /// The sink, and the task that is to run at the other end of the queue.
    pub fn new() -> (pair: (Self, ForwardToStateSyncTask))
        ensures
            pair.1.state() == TaskState::Running,
    {
        (SendCheckpointToStateSync {  }, ForwardToStateSyncTask { state: TaskState::Running })
    }
}

impl CertifiedCheckpointOutput for SendCheckpointToStateSync {
    /// Asks for the log record of the certified checkpoint, then for a copy
    /// of the certificate to be put on the queue.
    fn certified_checkpoint_created(&self, summary: &CertifiedCheckpointSummary) -> (effects: Vec<
        Effect,
    >)
        ensures
            effects@.len() == 2,
            effects@[0]@ == EffectView::Log(certified_record(summary@)),
            effects@[1]@ == EffectView::SendToStateSync(summary@),
    {
        let mut effects: Vec<Effect> = Vec::new();
        effects.push(Effect::Log(certified_log_record(summary)));
        effects.push(Effect::SendToStateSync(summary.clone()));
        effects
    }
}

/// The certificates of `delivered`, in order.
pub open spec fn delivered_views(delivered: Seq<VerifiedCheckpoint>) -> Seq<
    CertifiedCheckpointSummaryView,
> {
    delivered.map_values(|checkpoint: VerifiedCheckpoint| checkpoint@)
}

impl ForwardToStateSyncTask {
    pub closed spec fn state(&self) -> TaskState {
        self.state
    }

    /// Whether the task has ended.
    pub fn is_finished(&self) -> (finished: bool)
        ensures
            finished == (self.state() == TaskState::Finished),
    {
        match self.state {
            TaskState::Running => false,
            TaskState::Finished => true,
        }
    }

    /// One turn of the task: `received` is what the queue gave, a
    /// certificate or, once it is closed and drained, nothing. A running
    /// task answers a certificate with the checkpoint to deliver to state
    /// sync, and ends when nothing came. A task that has ended delivers
    /// nothing, whatever it is given.
    pub fn step(&mut self, received: Option<CertifiedCheckpointSummary>) -> (delivery: Option<
        VerifiedCheckpoint,
    >)
        ensures
            old(self).state() == TaskState::Running && received is Some ==> final(self).state()
                == TaskState::Running && delivery is Some && delivery->Some_0@
                == received->Some_0@,
            old(self).state() == TaskState::Running && received is None ==> final(self).state()
                == TaskState::Finished && (delivery is None),
            old(self).state() == TaskState::Finished ==> final(self).state()
                == TaskState::Finished && (delivery is None),
    {
        match self.state {
            TaskState::Finished => None,
            TaskState::Running => match received {
                Some(certified) => Some(VerifiedCheckpoint::new_unchecked(certified)),
                None => {
                    self.state = TaskState::Finished;
                    None
                },
            },
        }
    }

    /// Runs the task on `queue` until it has to wait or ends. It takes off
    /// everything that is buffered and answers with the checkpoints to
    /// deliver, in the order in which they were put on. It ends if no sender
    /// is left, and only then. A task that has ended leaves the queue alone.
    pub fn start(&mut self, queue: &mut CheckpointQueue) -> (delivered: Vec<VerifiedCheckpoint>)
        requires
            old(queue).wf(),
            old(queue)@.receiver_alive,
        ensures
            final(queue).wf(),
            old(self).state() == TaskState::Running ==> delivered_views(delivered@) == old(
                queue,
            )@.items && delivered@.len() == old(queue)@.items.len() && (forall|i: int|
                0 <= i < delivered@.len() ==> (#[trigger] delivered@[i])@ == old(queue)@.items[i])
                && final(queue)@ == (QueueView { items: Seq::empty(), ..old(queue)@ }) && (
            final(self).state() == TaskState::Finished <==> !old(queue)@.open),
            old(self).state() == TaskState::Finished ==> delivered@.len() == 0 && final(queue)@
                == old(queue)@ && final(self).state() == TaskState::Finished,
    {
        let mut delivered: Vec<VerifiedCheckpoint> = Vec::new();
        if self.is_finished() {
            return delivered;
        }
        proof {
            assert(delivered_views(delivered@) + queue@.items =~= old(queue)@.items);
        }
        let mut waiting = false;
        while !waiting && !self.is_finished()
            invariant
                queue.wf(),
                queue@.receiver_alive,
                queue@.open == old(queue)@.open,
                delivered_views(delivered@) + queue@.items == old(queue)@.items,
                waiting ==> queue@.items.len() == 0 && queue@.open && self.state()
                    == TaskState::Running,
                self.state() == TaskState::Finished ==> queue@.items.len() == 0 && !queue@.open,
            decreases queue@.items.len() + (if waiting || self.state() == TaskState::Finished {
                0int
            } else {
                1int
            }),
        {
            let ghost before = queue@;
            let ghost sofar = delivered@;
            match queue.dequeue() {
                Dequeued::Item(certified) => {
                    let ghost taken = certified@;
                    match self.step(Some(certified)) {
                        Some(checkpoint) => {
                            delivered.push(checkpoint);
                        },
                        None => {},
                    }
                    proof {
                        assert(delivered_views(delivered@) =~= delivered_views(sofar).push(taken));
                        assert(delivered_views(delivered@) + queue@.items =~= delivered_views(
                            sofar,
                        ) + before.items);
                    }
                },
                Dequeued::Empty => {
                    waiting = true;
                },
                Dequeued::Closed => {
                    self.step(None);
                },
            }
        }
        proof {
            assert(queue@.items =~= Seq::empty());
            assert(delivered_views(delivered@) =~= old(queue)@.items);
        }
        delivered
    }
}

} // verus!
