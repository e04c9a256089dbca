//! The event loop and the duplicate check that it runs for each new fund.
//!
//! Both are written as transition functions: from the state and what the outside
//! world just handed back, to the next state and what to do next. Sleeping and
//! running statements against the store are the caller's business.

use crate::error::Error;
use crate::events::{Event, EventView, Tasks, FUND_CREATED, FUND_DUPLICATE};
use crate::json::{member_i64, member_i64_of};
use crate::model::{Fund, FundView};
use crate::store::{FundRepository, StoreReply, StoreReplyView, StoreRequest, StoreRequestView};
use crate::text::str_eq;
use vstd::prelude::*;

verus! {

/// How long the loop sleeps between two polls of the queue, in milliseconds.
pub const POLL_INTERVAL_MILLIS: u64 = 100;

/// The member of a `fund_created` payload that holds the id of the fund.
pub const ID_MEMBER: &'static str = "id";

/// What the loop does with an event, by its name.
#[derive(Debug, Clone, Copy, PartialEq, Eq, Structural)]
pub enum Handler {
    /// `fund_created`: check the new fund for duplicates.
    CheckDuplicates,
    /// `fund_duplicate`: nothing yet; the place for notifications to come.
    Duplicate,
    /// Any other name: the event is dropped.
    Unknown,
}

/// The handler of the events named `name`.
pub open spec fn handler_of(name: Seq<char>) -> Handler {
    if name == FUND_CREATED@ {
        Handler::CheckDuplicates
    } else if name == FUND_DUPLICATE@ {
        Handler::Duplicate
    } else {
        Handler::Unknown
    }
}

/// Picks the handler of `event` by its name.
pub fn dispatch(event: &Event) -> (handler: Handler)
    ensures
        handler == handler_of(event@.name),
{
    if str_eq(event.name.as_str(), FUND_CREATED) {
        Handler::CheckDuplicates
    } else if str_eq(event.name.as_str(), FUND_DUPLICATE) {
        Handler::Duplicate
    } else {
        Handler::Unknown
    }
}

/// A duplicate check under way: what it has learned, and what it waits for.
#[derive(Debug, PartialEq, Eq)]
pub enum DuplicateCheck {
    /// Waiting for the fund that the event names.
    Fetching,
    /// Waiting for the number of other funds with the name and manager of `fund`.
    CountingNames { fund: Fund },
    /// Waiting for the number of aliases that equal the name of `fund` under its
    /// manager.
    CountingAliases { fund: Fund, name_collisions: i64 },
}

/// What a [`DuplicateCheck`] holds.
pub enum DuplicateCheckView {
    Fetching,
    CountingNames { fund: FundView },
    CountingAliases { fund: FundView, name_collisions: i64 },
}

impl View for DuplicateCheck {
    type V = DuplicateCheckView;

    open spec fn view(&self) -> DuplicateCheckView {
        match self {
            DuplicateCheck::Fetching => DuplicateCheckView::Fetching,
            DuplicateCheck::CountingNames { fund } => DuplicateCheckView::CountingNames {
                fund: fund@,
            },
            DuplicateCheck::CountingAliases {
                fund,
                name_collisions,
            } => DuplicateCheckView::CountingAliases {
                fund: fund@,
                name_collisions: *name_collisions,
            },
        }
    }
}

/// Where a duplicate check stands after a step.
#[derive(Debug, PartialEq, Eq)]
pub enum CheckStep {
    /// The check goes on once the store has answered `request`.
    Ask { check: DuplicateCheck, request: StoreRequest },
    /// The check is over: it ran to its end, or it failed.
    Done(Result<(), Error>),
}

/// What a [`CheckStep`] holds.
pub enum CheckStepView {
    Ask { check: DuplicateCheckView, request: StoreRequestView },
    Done(Result<(), Error>),
}

impl View for CheckStep {
    type V = CheckStepView;

    open spec fn view(&self) -> CheckStepView {
        match self {
            CheckStep::Ask { check, request } => CheckStepView::Ask {
                check: check@,
                request: request@,
            },
            CheckStep::Done(result) => CheckStepView::Done(*result),
        }
    }
}

/// A fund is a duplicate when another fund has its name and manager, or when an
/// alias under its manager equals its name. Either is enough.
pub open spec fn spec_is_duplicate(name_collisions: i64, alias_collisions: i64) -> bool {
    name_collisions > 0 || alias_collisions > 0
}

/// The first step of a check, given the id read from the payload of the event:
/// with an id, ask the store for the fund; without one, the payload is malformed.
pub open spec fn spec_start(id: Option<i64>) -> CheckStepView {
    match id {
        Some(id) => CheckStepView::Ask {
            check: DuplicateCheckView::Fetching,
            request: StoreRequestView::get(id),
        },
        None => CheckStepView::Done(Err(Error::ParsePayloadFailure)),
    }
}

/// A step of a check: where `check` stands once the store has replied `reply`,
/// and the queue that it leaves.
///
/// The fund is fetched, then its name collisions are counted, then its alias
/// collisions. A duplicate is reported by a `fund_duplicate` event that carries
/// the serialized fund; otherwise the queue is left alone. A reply that is a
/// failure, or that does not answer the question asked, ends the check with the
/// error.
pub open spec fn spec_check(
    check: DuplicateCheckView,
    reply: StoreReplyView,
    queue: Seq<EventView>,
) -> (CheckStepView, Seq<EventView>) {
    match check {
        DuplicateCheckView::Fetching => match reply.found() {
            Ok(fund) => (
                CheckStepView::Ask {
                    check: DuplicateCheckView::CountingNames { fund },
                    request: StoreRequestView::count_name_collisions(fund),
                },
                queue,
            ),
            Err(error) => (CheckStepView::Done(Err(error)), queue),
        },
        DuplicateCheckView::CountingNames { fund } => match reply.counted() {
            Ok(name_collisions) => (
                CheckStepView::Ask {
                    check: DuplicateCheckView::CountingAliases { fund, name_collisions },
                    request: StoreRequestView::count_alias_collisions(fund),
                },
                queue,
            ),
            Err(error) => (CheckStepView::Done(Err(error)), queue),
        },
        DuplicateCheckView::CountingAliases { fund, name_collisions } => match reply.counted() {
            Ok(alias_collisions) => if spec_is_duplicate(name_collisions, alias_collisions) {
                (CheckStepView::Done(Ok(())), queue.push(EventView::fund_duplicate(fund.json())))
            } else {
                (CheckStepView::Done(Ok(())), queue)
            },
            Err(error) => (CheckStepView::Done(Err(error)), queue),
        },
    }
}

/// Whether the two counts make a fund a duplicate.
pub fn is_duplicate(name_collisions: i64, alias_collisions: i64) -> (duplicate: bool)
    ensures
        duplicate == spec_is_duplicate(name_collisions, alias_collisions),
{
    name_collisions > 0 || alias_collisions > 0
}

impl DuplicateCheck {
    /// The first step of a check, given the id read from the payload of the
    /// event.
    pub fn start(id: Option<i64>) -> (step: CheckStep)
        ensures
            step@ == spec_start(id),
    {
        match id {
            Some(id) => CheckStep::Ask {
                check: DuplicateCheck::Fetching,
                request: FundRepository::new().get(id),
            },
            None => CheckStep::Done(Err(Error::ParsePayloadFailure)),
        }
    }

    /// The first step of the check that the `fund_created` event `event` asks
    /// for: its payload is read as a JSON object with an integer member `id`.
    pub fn begin(event: &Event) -> (step: CheckStep)
        ensures
            step@ == spec_start(member_i64_of(event@.payload, ID_MEMBER@)),
    {
        DuplicateCheck::start(member_i64(event.payload.as_str(), ID_MEMBER))
    }
}

/// Reports `fund` as a duplicate: appends a `fund_duplicate` event that carries
/// the serialized fund to the queue.
pub fn report_duplicate(fund: &Fund, tasks: &mut Tasks) -> (reported: Result<(), Error>)
    ensures
        reported == Ok::<(), Error>(()),
        final(tasks)@ == old(tasks)@.push(EventView::fund_duplicate(fund@.json())),
{
    let event = Event::fund_duplicate(fund.to_json());
    tasks.emit(event.name, event.payload)
}

/// Takes the duplicate check `check` one step further with the store's `reply`
/// to what it asked last.
pub fn check_duplicates(
    check: DuplicateCheck,
    reply: StoreReply,
    tasks: &mut Tasks,
) -> (step: CheckStep)
    ensures
        (step@, final(tasks)@) == spec_check(check@, reply@, old(tasks)@),
{
    match check {
        DuplicateCheck::Fetching => match FundRepository::new().found(reply) {
            Ok(fund) => {
                let request = StoreRequest::count_name_collisions(&fund);
                CheckStep::Ask { check: DuplicateCheck::CountingNames { fund }, request }
            },
            Err(error) => CheckStep::Done(Err(error)),
        },
        DuplicateCheck::CountingNames { fund } => match reply.counted() {
            Ok(name_collisions) => {
                let request = StoreRequest::count_alias_collisions(&fund);
                CheckStep::Ask {
                    check: DuplicateCheck::CountingAliases { fund, name_collisions },
                    request,
                }
            },
            Err(error) => CheckStep::Done(Err(error)),
        },
        DuplicateCheck::CountingAliases { fund, name_collisions } => match reply.counted() {
            Ok(alias_collisions) => {
                if is_duplicate(name_collisions, alias_collisions) {
                    CheckStep::Done(report_duplicate(&fund, tasks))
                } else {
                    CheckStep::Done(Ok(()))
                }
            },
            Err(error) => CheckStep::Done(Err(error)),
        },
    }
}

/// The state of the event loop. It has no final state of its own: it polls until
/// a check fails, and then stops for good.
#[derive(Debug, PartialEq, Eq)]
pub enum EventLoop {
    /// About to look for the next event.
    Polling,
    /// In the middle of a duplicate check, waiting for the store.
    Checking(DuplicateCheck),
    /// Stopped by a failure.
    Stopped,
}

/// What an [`EventLoop`] holds.
pub enum EventLoopView {
    Polling,
    Checking(DuplicateCheckView),
    Stopped,
}

impl View for EventLoop {
    type V = EventLoopView;

    open spec fn view(&self) -> EventLoopView {
        match self {
            EventLoop::Polling => EventLoopView::Polling,
            EventLoop::Checking(check) => EventLoopView::Checking(check@),
            EventLoop::Stopped => EventLoopView::Stopped,
        }
    }
}

/// What the outside world hands to the loop.
#[derive(Debug, PartialEq, Eq)]
pub enum Signal {
    /// The loop starts, or its sleep is over.
    Woke,
    /// The store has answered the request that the loop asked for.
    Reply(StoreReply),
}

/// What a [`Signal`] holds.
pub enum SignalView {
    Woke,
    Reply(StoreReplyView),
}

impl View for Signal {
    type V = SignalView;

    open spec fn view(&self) -> SignalView {
        match self {
            Signal::Woke => SignalView::Woke,
            Signal::Reply(reply) => SignalView::Reply(reply@),
        }
    }
}

/// What the loop asks the outside world to do next.
#[derive(Debug, PartialEq, Eq)]
pub enum Action {
    /// Sleep for so many milliseconds, then signal `Woke`.
    Sleep(u64),
    /// Run the request against the store, then signal its reply.
    Ask(StoreRequest),
    /// Stop: the loop has failed with this error and processes no more events.
    Stop(Error),
}

/// What an [`Action`] holds.
pub enum ActionView {
    Sleep(u64),
    Ask(StoreRequestView),
    Stop(Error),
}

impl View for Action {
    type V = ActionView;

    open spec fn view(&self) -> ActionView {
        match self {
            Action::Sleep(millis) => ActionView::Sleep(*millis),
            Action::Ask(request) => ActionView::Ask(request@),
            Action::Stop(error) => ActionView::Stop(*error),
        }
    }
}

/// How the loop goes on from a step of a duplicate check: it asks what the check
/// asks, goes back to polling after a sleep when the check is over, and stops
/// when the check has failed.
pub open spec fn spec_follow(step: CheckStepView) -> (EventLoopView, ActionView) {
    match step {
        CheckStepView::Ask { check, request } => (
            EventLoopView::Checking(check),
            ActionView::Ask(request),
        ),
        CheckStepView::Done(Ok(_)) => (
            EventLoopView::Polling,
            ActionView::Sleep(POLL_INTERVAL_MILLIS),
        ),
        CheckStepView::Done(Err(error)) => (EventLoopView::Stopped, ActionView::Stop(error)),
    }
}

/// What the loop does with the event `event` just taken from the queue.
pub open spec fn spec_handle(event: EventView) -> (EventLoopView, ActionView) {
    match handler_of(event.name) {
        Handler::CheckDuplicates => spec_follow(
            spec_start(member_i64_of(event.payload, ID_MEMBER@)),
        ),
        Handler::Duplicate | Handler::Unknown => (
            EventLoopView::Polling,
            ActionView::Sleep(POLL_INTERVAL_MILLIS),
        ),
    }
}

/// One step of the loop: the next state, what to do next, and the queue as the
/// step leaves it.
///
/// When it wakes while polling, the loop takes at most one event from the head
/// of the queue, handles it by its name and sleeps; on an empty queue it just
/// sleeps. While a check is under way, the store's reply drives the check. Any
/// other signal does not belong to the state: the loop stops.
pub open spec fn spec_step(
    state: EventLoopView,
    signal: SignalView,
    queue: Seq<EventView>,
) -> (EventLoopView, ActionView, Seq<EventView>) {
    match (state, signal) {
        (EventLoopView::Polling, SignalView::Woke) => if queue.len() == 0 {
            (EventLoopView::Polling, ActionView::Sleep(POLL_INTERVAL_MILLIS), queue)
        } else {
            let next = spec_handle(queue.first());
            (next.0, next.1, queue.drop_first())
        },
        (EventLoopView::Checking(check), SignalView::Reply(reply)) => {
            let checked = spec_check(check, reply, queue);
            let next = spec_follow(checked.0);
            (next.0, next.1, checked.1)
        },
        _ => (EventLoopView::Stopped, ActionView::Stop(Error::Fatal), queue),
    }
}

impl EventLoop {
    /// The loop as it starts: polling.
    pub fn new() -> (state: Self)
        ensures
            state@ == EventLoopView::Polling,
    {
        EventLoop::Polling
    }

    /// How the loop goes on from a step of a duplicate check.
    pub fn follow(step: CheckStep) -> (next: (EventLoop, Action))
        ensures
            (next.0@, next.1@) == spec_follow(step@),
    {
        match step {
            CheckStep::Ask { check, request } => (EventLoop::Checking(check), Action::Ask(request)),
            CheckStep::Done(Ok(_)) => (EventLoop::Polling, Action::Sleep(POLL_INTERVAL_MILLIS)),
            CheckStep::Done(Err(error)) => (EventLoop::Stopped, Action::Stop(error)),
        }
    }

    /// Handles the event `event` just taken from the queue.
    pub fn handle(event: &Event) -> (next: (EventLoop, Action))
        ensures
            (next.0@, next.1@) == spec_handle(event@),
    {
        match dispatch(event) {
            Handler::CheckDuplicates => EventLoop::follow(DuplicateCheck::begin(event)),
            Handler::Duplicate => (EventLoop::Polling, Action::Sleep(POLL_INTERVAL_MILLIS)),
            Handler::Unknown => (EventLoop::Polling, Action::Sleep(POLL_INTERVAL_MILLIS)),
        }
    }

    /// Takes the loop one step further on `signal`.
    pub fn step(self, signal: Signal, tasks: &mut Tasks) -> (next: (EventLoop, Action))
        ensures
            (next.0@, next.1@, final(tasks)@) == spec_step(self@, signal@, old(tasks)@),
    {
        match (self, signal) {
            (EventLoop::Polling, Signal::Woke) => match tasks.remove() {
                Ok(event) => EventLoop::handle(&event),
                Err(_) => (EventLoop::Polling, Action::Sleep(POLL_INTERVAL_MILLIS)),
            },
            (EventLoop::Checking(check), Signal::Reply(reply)) => EventLoop::follow(
                check_duplicates(check, reply, tasks),
            ),
            _ => (EventLoop::Stopped, Action::Stop(Error::Fatal)),
        }
    }
}

/// An alias collision alone makes the check report the fund: whatever the name
/// count, the check ends well and a `fund_duplicate` event with the serialized
/// fund goes to the tail of the queue.
pub proof fn lemma_alias_collision_is_reported(
    fund: FundView,
    name_collisions: i64,
    alias_collisions: i64,
    queue: Seq<EventView>,
)
    requires
        alias_collisions > 0,
    ensures
        spec_check(
            DuplicateCheckView::CountingAliases { fund, name_collisions },
            StoreReplyView::Count(alias_collisions),
            queue,
        ) == (CheckStepView::Done(Ok(())), queue.push(EventView::fund_duplicate(fund.json()))),
{
}

/// A name collision alone makes the check report the fund.
pub proof fn lemma_name_collision_is_reported(
    fund: FundView,
    name_collisions: i64,
    alias_collisions: i64,
    queue: Seq<EventView>,
)
    requires
        name_collisions > 0,
    ensures
        spec_check(
            DuplicateCheckView::CountingAliases { fund, name_collisions },
            StoreReplyView::Count(alias_collisions),
            queue,
        ) == (CheckStepView::Done(Ok(())), queue.push(EventView::fund_duplicate(fund.json()))),
{
}

/// A step of a check leaves the queue as it found it, unless it is the last step
/// of a check that counted a collision: no `fund_duplicate` is ever emitted for a
/// fund with a name of its own under its manager and no alias collision.
pub proof fn lemma_only_a_collision_is_reported(
    check: DuplicateCheckView,
    reply: StoreReplyView,
    queue: Seq<EventView>,
)
    ensures
        spec_check(check, reply, queue).1 != queue ==> {
            &&& check matches DuplicateCheckView::CountingAliases { fund, name_collisions }
            &&& reply matches StoreReplyView::Count(alias_collisions)
            &&& name_collisions > 0 || alias_collisions > 0
            &&& spec_check(check, reply, queue).1 == queue.push(
                EventView::fund_duplicate(fund.json()),
            )
        },
{
}

/// With no collision of either kind the check ends well and emits nothing.
pub proof fn lemma_no_collision_is_not_reported(
    fund: FundView,
    name_collisions: i64,
    alias_collisions: i64,
    queue: Seq<EventView>,
)
    requires
        name_collisions <= 0,
        alias_collisions <= 0,
    ensures
        spec_check(
            DuplicateCheckView::CountingAliases { fund, name_collisions },
            StoreReplyView::Count(alias_collisions),
            queue,
        ) == (CheckStepView::Done(Ok(())), queue),
{
}

/// The loop changes the queue in two ways only: waking while it polls, it takes
/// the event at the head; ending a check that counted a collision, it puts a
/// `fund_duplicate` event for the fund checked at the tail. So each waking
/// handles at most one event, and the loop emits nothing but duplicates found.
pub proof fn lemma_step_changes_the_queue_in_two_ways_only(
    state: EventLoopView,
    signal: SignalView,
    queue: Seq<EventView>,
)
    ensures
        ({
            let after = spec_step(state, signal, queue).2;
            ||| after == queue
            ||| {
                &&& state == EventLoopView::Polling
                &&& signal == SignalView::Woke
                &&& queue.len() > 0
                &&& after == queue.drop_first()
            }
            ||| {
                &&& state matches EventLoopView::Checking(
                    DuplicateCheckView::CountingAliases { fund, name_collisions },
                )
                &&& signal matches SignalView::Reply(StoreReplyView::Count(alias_collisions))
                &&& name_collisions > 0 || alias_collisions > 0
                &&& after == queue.push(EventView::fund_duplicate(fund.json()))
            }
        }),
{
    match (state, signal) {
        (EventLoopView::Checking(check), SignalView::Reply(reply)) => {
            lemma_only_a_collision_is_reported(check, reply, queue);
        },
        _ => {},
    }
}

/// One waking is enough for one event. When the loop wakes with a `fund_created`
/// event for the fund `id` at the head of the queue, and the store then returns
/// the fund and two counts of which one is positive, the loop asks its three
/// questions in turn and goes back to sleep with the event taken from the head
/// of the queue and a `fund_duplicate` event for the fund put at its tail.
pub proof fn lemma_a_waking_reports_a_duplicate(
    event: EventView,
    rest: Seq<EventView>,
    id: i64,
    fund: FundView,
    name_collisions: i64,
    alias_collisions: i64,
)
    requires
        event.name == FUND_CREATED@,
        member_i64_of(event.payload, ID_MEMBER@) == Some(id),
        name_collisions > 0 || alias_collisions > 0,
    ensures
        ({
            let woke = spec_step(EventLoopView::Polling, SignalView::Woke, seq![event] + rest);
            let fetched = spec_step(
                woke.0,
                SignalView::Reply(StoreReplyView::Fund(Some(fund))),
                woke.2,
            );
            let named = spec_step(
                fetched.0,
                SignalView::Reply(StoreReplyView::Count(name_collisions)),
                fetched.2,
            );
            let aliased = spec_step(
                named.0,
                SignalView::Reply(StoreReplyView::Count(alias_collisions)),
                named.2,
            );
            &&& woke.1 == ActionView::Ask(StoreRequestView::get(id))
            &&& fetched.1 == ActionView::Ask(StoreRequestView::count_name_collisions(fund))
            &&& named.1 == ActionView::Ask(StoreRequestView::count_alias_collisions(fund))
            &&& aliased == (
                EventLoopView::Polling,
                ActionView::Sleep(POLL_INTERVAL_MILLIS),
                rest.push(EventView::fund_duplicate(fund.json())),
            )
        }),
{
}

/// The same waking for a fund without any collision ends in the same sleep, with
/// the event taken from the queue and nothing put into it.
pub proof fn lemma_a_waking_reports_no_duplicate_without_collision(
    event: EventView,
    rest: Seq<EventView>,
    id: i64,
    fund: FundView,
    name_collisions: i64,
    alias_collisions: i64,
)
    requires
        event.name == FUND_CREATED@,
        member_i64_of(event.payload, ID_MEMBER@) == Some(id),
        name_collisions <= 0,
        alias_collisions <= 0,
    ensures
        ({
            let woke = spec_step(EventLoopView::Polling, SignalView::Woke, seq![event] + rest);
            let fetched = spec_step(
                woke.0,
                SignalView::Reply(StoreReplyView::Fund(Some(fund))),
                woke.2,
            );
            let named = spec_step(
                fetched.0,
                SignalView::Reply(StoreReplyView::Count(name_collisions)),
                fetched.2,
            );
            let aliased = spec_step(
                named.0,
                SignalView::Reply(StoreReplyView::Count(alias_collisions)),
                named.2,
            );
            aliased == (EventLoopView::Polling, ActionView::Sleep(POLL_INTERVAL_MILLIS), rest)
        }),
{
}

} // verus!
