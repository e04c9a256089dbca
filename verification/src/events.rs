//! Events and the queue that carries them from the request handlers to the
//! event loop: first in, first out, unbounded, never persisted.

use crate::error::Error;
use crate::event_loop::{EventLoop, EventLoopView};
use crate::text::{i64_text, int_text};
use queues::IsQueue;
use vstd::prelude::*;
use vstd::string::*;

verus! {

/// An internal notification: what happened, and a serialized document whose
/// shape depends on the name.
#[derive(Debug, PartialEq, Eq)]
pub struct Event {
    pub name: String,
    pub payload: String,
}

/// What an [`Event`] holds.
pub struct EventView {
    pub name: Seq<char>,
    pub payload: Seq<char>,
}

impl View for Event {
    type V = EventView;

    open spec fn view(&self) -> EventView {
        EventView { name: self.name@, payload: self.payload@ }
    }
}

/// The name of the event that announces a new fund.
pub const FUND_CREATED: &'static str = "fund_created";

/// The name of the event that reports a fund found to be a duplicate.
pub const FUND_DUPLICATE: &'static str = "fund_duplicate";

impl EventView {
    /// The payload that announces the fund `id`: the object `{"id":<id>}`.
    pub open spec fn fund_created_payload(id: int) -> Seq<char> {
        "{\"id\":"@ + int_text(id) + "}"@
    }

    /// The event that announces the fund `id`.
    pub open spec fn fund_created(id: int) -> EventView {
        EventView { name: FUND_CREATED@, payload: Self::fund_created_payload(id) }
    }

    /// The event that reports a duplicate, carrying the serialized fund.
    pub open spec fn fund_duplicate(payload: Seq<char>) -> EventView {
        EventView { name: FUND_DUPLICATE@, payload }
    }
}

impl Clone for Event {
    fn clone(&self) -> (copy: Self)
        ensures
            copy == *self,
    {
        Event { name: self.name.clone(), payload: self.payload.clone() }
    }
}

impl Event {
    /// An event with the given name and payload.
    pub fn new(name: String, payload: String) -> (event: Self)
        ensures
            event == (Event { name, payload }),
    {
        Self { name, payload }
    }

    /// The event that announces the fund `id`.
    pub fn fund_created(id: i64) -> (event: Self)
        ensures
            event@ == EventView::fund_created(id as int),
    {
        let mut payload = String::from_str("{\"id\":");
        let numeral = i64_text(id);
        payload.append(numeral.as_str());
        payload.append("}");
        Event::new(String::from_str(FUND_CREATED), payload)
    }

    /// The event that reports a duplicate, carrying the serialized fund.
    pub fn fund_duplicate(payload: String) -> (event: Self)
        ensures
            event@ == EventView::fund_duplicate(payload@),
    {
        Event::new(String::from_str(FUND_DUPLICATE), payload)
    }
}

/// `queues::Queue`, the growable first-in-first-out queue. Nothing is known of
/// its inside: what it holds is spoken of through [`pending`] alone.
#[verifier::external_type_specification]
#[verifier::external_body]
#[verifier::reject_recursive_types(T)]
pub struct ExQueue<T: Clone>(queues::Queue<T>);

/// The events that a `queues::Queue` holds, the oldest first, each by what it
/// holds.
pub uninterp spec fn pending(queue: queues::Queue<Event>) -> Seq<EventView>;

/// `queues::Queue::new`: a queue that holds nothing.
#[verifier::external_body]
fn queue_new() -> (queue: queues::Queue<Event>)
    ensures
        pending(queue) == Seq::<EventView>::empty(),
{
    queues::Queue::new()
}

/// `IsQueue::add` of `queues::Queue`: pushes `event` behind everything that the
/// queue holds and reports success, which for this queue it always does.
#[verifier::external_body]
fn queue_add(queue: &mut queues::Queue<Event>, event: Event) -> (added: bool)
    ensures
        added,
        pending(*final(queue)) == pending(*old(queue)).push(event@),
{
    queue.add(event).is_ok()
}

/// `IsQueue::remove` of `queues::Queue`: takes the oldest event out and hands it
/// over; an empty queue reports an error and stays as it is.
#[verifier::external_body]
fn queue_remove(queue: &mut queues::Queue<Event>) -> (head: Option<Event>)
    ensures
        match head {
            Some(event) => {
                &&& pending(*old(queue)).len() > 0
                &&& event@ == pending(*old(queue)).first()
                &&& pending(*final(queue)) == pending(*old(queue)).drop_first()
            },
            None => {
                &&& pending(*old(queue)).len() == 0
                &&& pending(*final(queue)) == pending(*old(queue))
            },
        },
{
    queue.remove().ok()
}

/// The queue of pending events.
#[derive(Debug)]
pub struct Tasks {
    queue: queues::Queue<Event>,
}

impl View for Tasks {
    type V = Seq<EventView>;

    /// The pending events, the oldest first.
    closed spec fn view(&self) -> Seq<EventView> {
        pending(self.queue)
    }
}

impl Tasks {
    /// A queue with no pending event.
    pub fn new() -> (tasks: Self)
        ensures
            tasks@ == Seq::<EventView>::empty(),
    {
        Self { queue: queue_new() }
    }

    /// Appends the event `event` with `payload` to the tail of the queue.
    pub fn emit(&mut self, event: String, payload: String) -> (emitted: Result<(), Error>)
        ensures
            emitted == Ok::<(), Error>(()),
            final(self)@ == old(self)@.push(EventView { name: event@, payload: payload@ }),
            final(self)@ == after_op(
                old(self)@,
                QueueOp::Emit(EventView { name: event@, payload: payload@ }),
            ),
    {
        if queue_add(&mut self.queue, Event::new(event, payload)) {
            Ok(())
        } else {
            Err(Error::Fatal)
        }
    }

    /// Removes the event at the head of the queue and returns it. On an empty
    /// queue there is nothing to do now: the queue stays as it is.
    pub fn remove(&mut self) -> (removed: Result<Event, Error>)
        ensures
            match removed {
                Ok(event) => {
                    &&& old(self)@.len() > 0
                    &&& event@ == old(self)@.first()
                    &&& final(self)@ == old(self)@.drop_first()
                },
                Err(error) => {
                    &&& error == Error::QueueEmpty
                    &&& old(self)@.len() == 0
                    &&& final(self)@ == old(self)@
                },
            },
            final(self)@ == after_op(old(self)@, QueueOp::Remove),
    {
        match queue_remove(&mut self.queue) {
            Some(event) => Ok(event),
            None => Err(Error::QueueEmpty),
        }
    }
}

impl Default for Tasks {
    fn default() -> (tasks: Self)
        ensures
            tasks@ == Seq::<EventView>::empty(),
    {
        Tasks::new()
    }
}

/// What the service starts with: an empty queue, and the event loop that will
/// drain it, about to poll.
pub fn init() -> (started: (Tasks, EventLoop))
    ensures
        started.0@ == Seq::<EventView>::empty(),
        started.1@ == EventLoopView::Polling,
{
    (Tasks::new(), EventLoop::new())
}

/// One operation on the queue. The lock around the queue lets one operation run
/// at a time, so whatever the producers and the consumer do, the queue sees one
/// sequence of these.
pub enum QueueOp {
    /// `emit` of this event.
    Emit(EventView),
    /// `remove`.
    Remove,
}

/// The queue after one operation, as `emit` and `remove` leave it.
pub open spec fn after_op(queue: Seq<EventView>, op: QueueOp) -> Seq<EventView> {
    match op {
        QueueOp::Emit(event) => queue.push(event),
        QueueOp::Remove => if queue.len() > 0 {
            queue.drop_first()
        } else {
            queue
        },
    }
}

/// The queue after the operations `ops`, run in order.
pub open spec fn after_ops(queue: Seq<EventView>, ops: Seq<QueueOp>) -> Seq<EventView>
    decreases ops.len(),
{
    if ops.len() == 0 {
        queue
    } else {
        after_op(after_ops(queue, ops.drop_last()), ops.last())
    }
}

/// The events that `ops` emit, in the order of emission.
pub open spec fn emitted_by(ops: Seq<QueueOp>) -> Seq<EventView>
    decreases ops.len(),
{
    if ops.len() == 0 {
        Seq::empty()
    } else {
        match ops.last() {
            QueueOp::Emit(event) => emitted_by(ops.drop_last()).push(event),
            QueueOp::Remove => emitted_by(ops.drop_last()),
        }
    }
}

/// The events that the `remove`s among `ops` hand out, in the order in which
/// they come out. A `remove` that finds the queue empty hands out nothing.
pub open spec fn removed_by(queue: Seq<EventView>, ops: Seq<QueueOp>) -> Seq<EventView>
    decreases ops.len(),
{
    if ops.len() == 0 {
        Seq::empty()
    } else {
        let before = after_ops(queue, ops.drop_last());
        match ops.last() {
            QueueOp::Emit(_) => removed_by(queue, ops.drop_last()),
            QueueOp::Remove => if before.len() > 0 {
                removed_by(queue, ops.drop_last()).push(before.first())
            } else {
                removed_by(queue, ops.drop_last())
            },
        }
    }
}

/// The operations that emit `events`, one after the other.
pub open spec fn emits(events: Seq<EventView>) -> Seq<QueueOp> {
    Seq::new(events.len(), |i: int| QueueOp::Emit(events[i]))
}

/// `n` times `remove`.
pub open spec fn removes(n: nat) -> Seq<QueueOp> {
    Seq::new(n, |i: int| QueueOp::Remove)
}

/// First in, first out, for every interleaving of `emit` and `remove`: what has
/// come out, followed by what is still pending, is what was pending at the start
/// followed by what was emitted, each in its order.
pub proof fn lemma_fifo(queue: Seq<EventView>, ops: Seq<QueueOp>)
    ensures
        removed_by(queue, ops) + after_ops(queue, ops) == queue + emitted_by(ops),
    decreases ops.len(),
{
    if ops.len() > 0 {
        lemma_fifo(queue, ops.drop_last());
        if let QueueOp::Emit(event) = ops.last() {
            let sent = emitted_by(ops.drop_last());
            assert(queue + sent.push(event) =~= (queue + sent).push(event));
        }
    }
}

/// On a queue that started empty, the events come out in the order in which they
/// went in: the `k`-th event handed out is the `k`-th event emitted.
pub proof fn lemma_removed_in_emission_order(ops: Seq<QueueOp>, k: int)
    requires
        0 <= k < removed_by(Seq::empty(), ops).len(),
    ensures
        k < emitted_by(ops).len(),
        removed_by(Seq::empty(), ops)[k] == emitted_by(ops)[k],
{
    lemma_fifo(Seq::empty(), ops);
}

/// Emitting leaves the events behind what was pending, in their order.
proof fn lemma_after_emits(queue: Seq<EventView>, events: Seq<EventView>)
    ensures
        after_ops(queue, emits(events)) == queue + events,
        removed_by(queue, emits(events)) == Seq::<EventView>::empty(),
        emitted_by(emits(events)) == events,
    decreases events.len(),
{
    if events.len() > 0 {
        lemma_after_emits(queue, events.drop_last());
        assert(emits(events).drop_last() =~= emits(events.drop_last()));
    }
}

/// `n` more `remove`s emit nothing and shorten the queue by `n`, down to nothing.
proof fn lemma_after_removes(queue: Seq<EventView>, ops: Seq<QueueOp>, n: nat)
    ensures
        emitted_by(ops + removes(n)) == emitted_by(ops),
        after_ops(queue, ops + removes(n)).len() == if after_ops(queue, ops).len() >= n {
            after_ops(queue, ops).len() - n
        } else {
            0
        },
    decreases n,
{
    if n > 0 {
        lemma_after_removes(queue, ops, (n - 1) as nat);
        assert((ops + removes(n)).drop_last() =~= ops + removes((n - 1) as nat));
    }
}

/// Emitting `events` into an empty queue and then removing as many times hands
/// them out in the order of emission and leaves the queue empty.
pub proof fn lemma_drain_in_emission_order(events: Seq<EventView>)
    ensures
        removed_by(Seq::empty(), emits(events) + removes(events.len())) == events,
        after_ops(Seq::empty(), emits(events) + removes(events.len()))
            == Seq::<EventView>::empty(),
{
    let start = Seq::<EventView>::empty();
    let ops = emits(events) + removes(events.len());
    lemma_after_emits(start, events);
    lemma_after_removes(start, emits(events), events.len());
    lemma_fifo(start, ops);
}

} // verus!
