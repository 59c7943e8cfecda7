//! The queue and the forwarding task over time: what holds after any
//! history of enqueueing, taking off and closing.

use crate::state_sync::{QueueView, TaskState, QUEUE_CAPACITY};
use crate::types::CertifiedCheckpointSummaryView;
use vstd::prelude::*;

verus! {

/// One thing that happens to the queue.
pub enum QueueEvent {
    /// A sender tries to enqueue a certificate.
    Enqueue(CertifiedCheckpointSummaryView),
    /// The task tries to take the next certificate, and delivers it if it
    /// got one.
    Dequeue,
    /// The last sender goes away.
    Close,
}

/// The queue, the task, and what was enqueued and delivered so far.
pub struct Pipeline {
    pub queue: QueueView,
    pub task: TaskState,
    /// Every certificate that the queue took, in order.
    pub accepted: Seq<CertifiedCheckpointSummaryView>,
    /// Every certificate that the task delivered, in order.
    pub delivered: Seq<CertifiedCheckpointSummaryView>,
}

/// The pipeline at its start: an empty open queue, a running task.
pub open spec fn fresh() -> Pipeline {
    Pipeline {
        queue: QueueView { items: Seq::empty(), open: true, receiver_alive: true },
        task: TaskState::Running,
        accepted: Seq::empty(),
        delivered: Seq::empty(),
    }
}

/// The pipeline after `event`. An enqueue that finds the queue full, closed
/// or without its receiver changes nothing, nor does a dequeue that finds
/// the queue empty and open, nor anything the task does once it has ended.
pub open spec fn after(pipeline: Pipeline, event: QueueEvent) -> Pipeline {
    match event {
        QueueEvent::Enqueue(certified) => if pipeline.queue.open && pipeline.queue.receiver_alive
            && !pipeline.queue.full() {
            Pipeline {
                queue: pipeline.queue.accept(certified),
                accepted: pipeline.accepted.push(certified),
                ..pipeline
            }
        } else {
            pipeline
        },
        QueueEvent::Dequeue => if pipeline.task != TaskState::Running {
            pipeline
        } else if pipeline.queue.items.len() > 0 {
            Pipeline {
                queue: pipeline.queue.advance(),
                delivered: pipeline.delivered.push(pipeline.queue.items[0]),
                ..pipeline
            }
        } else if !pipeline.queue.open {
            Pipeline { task: TaskState::Finished, ..pipeline }
        } else {
            pipeline
        },
        QueueEvent::Close => Pipeline {
            queue: QueueView { open: false, ..pipeline.queue },
            ..pipeline
        },
    }
}

/// The pipeline after all of `events`, in order.
pub open spec fn after_all(pipeline: Pipeline, events: Seq<QueueEvent>) -> Pipeline
    decreases events.len(),
{
    if events.len() == 0 {
        pipeline
    } else {
        after_all(after(pipeline, events[0]), events.drop_first())
    }
}

/// What holds of a pipeline at any time: what was delivered, followed by
/// what is buffered, is what was accepted; the buffer is within the
/// capacity; and a task that has ended has left an empty, closed queue.
pub open spec fn consistent(pipeline: Pipeline) -> bool {
    &&& pipeline.delivered + pipeline.queue.items == pipeline.accepted
    &&& pipeline.queue.items.len() <= QUEUE_CAPACITY
    &&& pipeline.queue.receiver_alive
    &&& pipeline.task == TaskState::Finished ==> pipeline.queue.items.len() == 0
        && !pipeline.queue.open
}

/// `count` attempts of the task to take a certificate.
pub open spec fn dequeues(count: nat) -> Seq<QueueEvent> {
    Seq::new(count, |i: int| QueueEvent::Dequeue)
}

/// No event reorders, drops or repeats a certificate: as long as the
/// receiver lives, what was delivered is the beginning of what was
/// accepted, and what is buffered is the rest.
pub proof fn event_keeps_order(pipeline: Pipeline, event: QueueEvent)
    requires
        consistent(pipeline),
    ensures
        consistent(after(pipeline, event)),
{
    let next = after(pipeline, event);
    match event {
        QueueEvent::Enqueue(certified) => {
            if pipeline.queue.open && pipeline.queue.receiver_alive && !pipeline.queue.full() {
                assert(next.delivered + next.queue.items =~= (pipeline.delivered
                    + pipeline.queue.items).push(certified));
            }
        },
        QueueEvent::Dequeue => {
            if pipeline.task == TaskState::Running && pipeline.queue.items.len() > 0 {
                assert(next.delivered + next.queue.items =~= pipeline.delivered
                    + pipeline.queue.items);
            }
        },
        QueueEvent::Close => {},
    }
}

/// After any history, the certificates that were delivered, followed by
/// those still buffered, are those that the queue accepted, in the order in
/// which it accepted them.
pub proof fn history_keeps_order(pipeline: Pipeline, events: Seq<QueueEvent>)
    requires
        consistent(pipeline),
    ensures
        consistent(after_all(pipeline, events)),
    decreases events.len(),
{
    if events.len() > 0 {
        event_keeps_order(pipeline, events[0]);
        history_keeps_order(after(pipeline, events[0]), events.drop_first());
    }
}

/// Started on a fresh pipeline, any history that ends with an empty buffer
/// has delivered every accepted certificate exactly once, in the order of
/// acceptance.
pub proof fn drained_history_delivered_all(events: Seq<QueueEvent>)
    requires
        after_all(fresh(), events).queue.items.len() == 0,
    ensures
        after_all(fresh(), events).delivered == after_all(fresh(), events).accepted,
{
    assert(fresh().delivered + fresh().queue.items =~= fresh().accepted);
    history_keeps_order(fresh(), events);
    let end = after_all(fresh(), events);
    assert(end.delivered + end.queue.items =~= end.delivered);
}

/// A task that has ended stays ended and delivers nothing more, whatever
/// happens afterwards.
pub proof fn finished_task_delivers_nothing(pipeline: Pipeline, events: Seq<QueueEvent>)
    requires
        consistent(pipeline),
        pipeline.task == TaskState::Finished,
    ensures
        after_all(pipeline, events).task == TaskState::Finished,
        after_all(pipeline, events).delivered == pipeline.delivered,
    decreases events.len(),
{
    if events.len() > 0 {
        event_keeps_order(pipeline, events[0]);
        finished_task_delivers_nothing(after(pipeline, events[0]), events.drop_first());
    }
}

/// Once the last sender is gone, a running task takes off what is left, one
/// certificate at each attempt, and ends at the attempt after the last:
/// then everything that was accepted has been delivered.
pub proof fn closed_queue_is_drained_then_task_ends(pipeline: Pipeline)
    requires
        consistent(pipeline),
        !pipeline.queue.open,
        pipeline.task == TaskState::Running,
    ensures
        after_all(pipeline, dequeues(pipeline.queue.items.len() + 1)).task
            == TaskState::Finished,
        after_all(pipeline, dequeues(pipeline.queue.items.len() + 1)).delivered
            == pipeline.accepted,
        after_all(pipeline, dequeues(pipeline.queue.items.len() + 1)).accepted
            == pipeline.accepted,
    decreases pipeline.queue.items.len(),
{
    let count = pipeline.queue.items.len();
    let events = dequeues(count + 1);
    let next = after(pipeline, events[0]);
    event_keeps_order(pipeline, events[0]);
    if count == 0 {
        assert(events.drop_first() =~= Seq::<QueueEvent>::empty());
        assert(after_all(next, events.drop_first()) == next);
        assert(pipeline.delivered + pipeline.queue.items =~= pipeline.delivered);
    } else {
        assert(events.drop_first() =~= dequeues(next.queue.items.len() + 1));
        closed_queue_is_drained_then_task_ends(next);
    }
}

} // verus!
