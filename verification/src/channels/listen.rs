//! The listen loop of the iMessage channel, as a machine of states.
//!
//! Whoever runs the loop does what an action asks (looks for the database,
//! runs a query, sleeps, hands a message to the queue) and comes back with
//! the event that tells how it went. `IMessageChannel::listen_step` answers with
//! the next state and the next action. It never fails on a fetch: a failed
//! fetch is warned of, leaves the cursor where it stands, and the loop sleeps
//! until the next tick. A seed that failed is warned of too, and the loop
//! polls from 0. It ends when the queue is closed, whether that shows when
//! a message is offered or is made known at any other time, or with an error
//! where the database is not there.

use crate::channels::allow_list::permits;
use crate::channels::cursor::{
    PollCursor,
    Record,
    RecordView,
    accept_batch,
    accepted,
    cursor_after,
    lemma_accepted_sound,
    lemma_cursor_after,
    record_views,
};
use crate::channels::imessage::{
    FetchError,
    IMessageChannel,
    ListenError,
    ListenErrorView,
    message_of,
    poll_error_text,
    seed_failed_text,
};
use crate::channels::message::{ChannelMessage, MessageView};
use crate::text::{is_blank, views};
use vstd::prelude::*;
use vstd::string::StringExecFns;

verus! {

/// What the loop is waiting for.
#[derive(Debug, Clone, Copy, PartialEq, Eq, Structural)]
pub enum ListenPhase {
    /// For the database to be looked for.
    Starting,
    /// For the greatest position that the store holds.
    Seeding,
    /// For the poll interval to pass.
    Sleeping,
    /// For the records beyond the cursor.
    Fetching,
    /// For the queue to take a message.
    Delivering,
    /// For nothing: the loop has ended.
    Finished,
}

/// The state of a listen loop: its phase, its cursor, and the records that
/// were let through and are not handed on yet.
#[derive(Debug)]
pub struct ListenState {
    phase: ListenPhase,
    cursor: PollCursor,
    outbox: Vec<Record>,
}

/// What a `ListenState` holds, as mathematical values.
pub ghost struct ListenStateView {
    pub phase: ListenPhase,
    pub cursor: i64,
    pub outbox: Seq<RecordView>,
}

impl View for ListenState {
    type V = ListenStateView;

    closed spec fn view(&self) -> ListenStateView {
        ListenStateView {
            phase: self.phase,
            cursor: self.cursor@,
            outbox: record_views(self.outbox@),
        }
    }
}

/// What happened since the last action.
#[derive(Debug)]
pub enum ListenEvent {
    /// The database was looked for: the path where it should be, if the home
    /// directory was found, and whether it is there.
    Located { database: Option<String>, exists: bool },
    /// The store was asked for its greatest position; `None` if that failed
    /// or the answer was no position.
    Seeded(Option<i64>),
    /// The poll interval has passed.
    Woke,
    /// The store was asked for the records beyond the cursor.
    Fetched(Result<Vec<Record>, FetchError>),
    /// The queue was offered a message, and took it or is closed.
    Delivered(bool),
    /// The queue is closed: nobody receives any more. This may come in place
    /// of any other event, whatever the loop is waiting for.
    Closed,
}

/// What a `ListenEvent` holds, as mathematical values.
pub ghost enum ListenEventView {
    Located { database: Option<Seq<char>>, exists: bool },
    Seeded(Option<i64>),
    Woke,
    Fetched(Result<Seq<RecordView>, Seq<char>>),
    Delivered(bool),
    Closed,
}

impl View for ListenEvent {
    type V = ListenEventView;

    open spec fn view(&self) -> ListenEventView {
        match self {
            ListenEvent::Located { database, exists } => ListenEventView::Located {
                database: match database {
                    Some(path) => Some(path@),
                    None => None,
                },
                exists: *exists,
            },
            ListenEvent::Seeded(max) => ListenEventView::Seeded(*max),
            ListenEvent::Woke => ListenEventView::Woke,
            ListenEvent::Fetched(Ok(records)) => ListenEventView::Fetched(
                Ok(record_views(records@)),
            ),
            ListenEvent::Fetched(Err(error)) => ListenEventView::Fetched(Err(error.text@)),
            ListenEvent::Delivered(taken) => ListenEventView::Delivered(*taken),
            ListenEvent::Closed => ListenEventView::Closed,
        }
    }
}

/// What to do next.
#[derive(Debug)]
pub enum ListenAction {
    /// Look for the Messages database.
    Locate,
    /// Ask the store for its greatest position.
    QueryMaxRowid,
    /// Sleep for so many seconds; before that, log the warning if there is one.
    Sleep { seconds: u64, warning: Option<String> },
    /// Ask the store for the records beyond `since`.
    Fetch { since: i64 },
    /// Offer the message to the queue.
    Deliver(ChannelMessage),
    /// Leave the loop with this result.
    Stop(Result<(), ListenError>),
}

/// What a `ListenAction` holds, as mathematical values.
pub ghost enum ListenActionView {
    Locate,
    QueryMaxRowid,
    Sleep { seconds: u64, warning: Option<Seq<char>> },
    Fetch { since: i64 },
    Deliver(MessageView),
    Stop(Result<(), ListenErrorView>),
}

impl View for ListenAction {
    type V = ListenActionView;

    open spec fn view(&self) -> ListenActionView {
        match self {
            ListenAction::Locate => ListenActionView::Locate,
            ListenAction::QueryMaxRowid => ListenActionView::QueryMaxRowid,
            ListenAction::Sleep { seconds, warning } => ListenActionView::Sleep {
                seconds: *seconds,
                warning: match warning {
                    Some(text) => Some(text@),
                    None => None,
                },
            },
            ListenAction::Fetch { since } => ListenActionView::Fetch { since: *since },
            ListenAction::Deliver(message) => ListenActionView::Deliver(message@),
            ListenAction::Stop(Ok(())) => ListenActionView::Stop(Ok(())),
            ListenAction::Stop(Err(error)) => ListenActionView::Stop(Err(error@)),
        }
    }
}

/// The state in which a loop begins.
pub open spec fn initial_state() -> ListenStateView {
    ListenStateView { phase: ListenPhase::Starting, cursor: 0, outbox: Seq::empty() }
}

/// The state of a loop that has ended.
pub open spec fn finished(state: ListenStateView) -> ListenStateView {
    ListenStateView { phase: ListenPhase::Finished, cursor: state.cursor, outbox: Seq::empty() }
}

/// With records waiting, the first of them is offered to the queue; with
/// none, the loop sleeps until the next tick.
pub open spec fn hand_out(interval: u64, cursor: i64, outbox: Seq<RecordView>, now: u64) -> (
    ListenStateView,
    ListenActionView,
) {
    if outbox.len() > 0 {
        (
            ListenStateView {
                phase: ListenPhase::Delivering,
                cursor,
                outbox: outbox.subrange(1, outbox.len() as int),
            },
            ListenActionView::Deliver(message_of(outbox[0], now)),
        )
    } else {
        (
            ListenStateView { phase: ListenPhase::Sleeping, cursor, outbox: Seq::empty() },
            ListenActionView::Sleep { seconds: interval, warning: None },
        )
    }
}

/// The next state and action of a listen loop with allow-list `list` and
/// poll interval `interval`, in `state`, on `event` at time `now`. A closed
/// queue ends the loop without an error, whatever it was waiting for; any
/// other event that the loop was not waiting for ends it with an error.
pub open spec fn listen_step(
    list: Seq<Seq<char>>,
    interval: u64,
    state: ListenStateView,
    event: ListenEventView,
    now: u64,
) -> (ListenStateView, ListenActionView) {
    match (state.phase, event) {
        (_, ListenEventView::Closed) => (finished(state), ListenActionView::Stop(Ok(()))),
        (ListenPhase::Starting, ListenEventView::Located { database: None, exists }) => (
            finished(state),
            ListenActionView::Stop(Err(ListenErrorView::HomeNotFound)),
        ),
        (ListenPhase::Starting, ListenEventView::Located { database: Some(path), exists }) =>
            if exists {
                (
                    ListenStateView {
                        phase: ListenPhase::Seeding,
                        cursor: state.cursor,
                        outbox: Seq::empty(),
                    },
                    ListenActionView::QueryMaxRowid,
                )
            } else {
                (
                    finished(state),
                    ListenActionView::Stop(Err(ListenErrorView::DatabaseNotFound(path))),
                )
            },
        (ListenPhase::Seeding, ListenEventView::Seeded(max)) => (
            ListenStateView {
                phase: ListenPhase::Sleeping,
                cursor: match max {
                    Some(m) => m,
                    None => 0,
                },
                outbox: Seq::empty(),
            },
            ListenActionView::Sleep {
                seconds: interval,
                warning: match max {
                    Some(_) => None,
                    None => Some(seed_failed_text()),
                },
            },
        ),
        (ListenPhase::Sleeping, ListenEventView::Woke) => (
            ListenStateView {
                phase: ListenPhase::Fetching,
                cursor: state.cursor,
                outbox: Seq::empty(),
            },
            ListenActionView::Fetch { since: state.cursor },
        ),
        (ListenPhase::Fetching, ListenEventView::Fetched(Err(error))) => (
            ListenStateView {
                phase: ListenPhase::Sleeping,
                cursor: state.cursor,
                outbox: Seq::empty(),
            },
            ListenActionView::Sleep { seconds: interval, warning: Some(poll_error_text(error)) },
        ),
        (ListenPhase::Fetching, ListenEventView::Fetched(Ok(records))) => hand_out(
            interval,
            cursor_after(state.cursor, records),
            accepted(list, state.cursor, records),
            now,
        ),
        (ListenPhase::Delivering, ListenEventView::Delivered(taken)) => if taken {
            hand_out(interval, state.cursor, state.outbox, now)
        } else {
            (finished(state), ListenActionView::Stop(Ok(())))
        },
        _ => (finished(state), ListenActionView::Stop(Err(ListenErrorView::OutOfTurn))),
    }
}

/// What holds of a loop that polls, once its cursor was seeded at `floor`:
/// the cursor has not moved back, and every record that waits to be handed
/// on lies beyond `floor` and not beyond the cursor, comes from a sender that
/// the allow-list lets through, and has a text that is not blank.
pub open spec fn polling(list: Seq<Seq<char>>, floor: i64, state: ListenStateView) -> bool {
    &&& state.phase != ListenPhase::Starting
    &&& state.phase != ListenPhase::Seeding
    &&& state.cursor >= floor
    &&& forall|k: int|
        0 <= k < state.outbox.len() ==> {
            let r = #[trigger] state.outbox[k];
            &&& floor < r.position <= state.cursor
            &&& permits(list, r.sender)
            &&& !is_blank(r.text)
        }
}

impl ListenState {
    /// The state in which a loop begins. Its first action is to look for the
    /// database.
    pub fn new() -> (r: (ListenState, ListenAction))
        ensures
            r.0@ == initial_state(),
            r.1@ == ListenActionView::Locate,
    {
        let state = ListenState {
            phase: ListenPhase::Starting,
            cursor: PollCursor::seed(None),
            outbox: Vec::new(),
        };
        assert(record_views(state.outbox@) == Seq::<RecordView>::empty());
        (state, ListenAction::Locate)
    }

    /// What the loop is waiting for.
    pub fn phase(&self) -> (phase: ListenPhase)
        ensures
            phase == self@.phase,
    {
        self.phase
    }

    /// Where the cursor stands.
    pub fn cursor(&self) -> (position: i64)
        ensures
            position == self@.cursor,
    {
        self.cursor.position()
    }

    /// How many records wait to be handed on.
    pub fn waiting(&self) -> (n: usize)
        ensures
            n == self@.outbox.len(),
    {
        self.outbox.len()
    }
}

/// The state of a loop that has ended, with the cursor where it stood.
fn finish(cursor: PollCursor) -> (state: ListenState)
    ensures
        state@ == (ListenStateView {
            phase: ListenPhase::Finished,
            cursor: cursor@,
            outbox: Seq::empty(),
        }),
{
    let state = ListenState { phase: ListenPhase::Finished, cursor, outbox: Vec::new() };
    assert(record_views(state.outbox@) == Seq::<RecordView>::empty());
    state
}

/// The state of a loop in `phase` with nothing waiting.
fn idle(phase: ListenPhase, cursor: PollCursor) -> (state: ListenState)
    ensures
        state@ == (ListenStateView { phase, cursor: cursor@, outbox: Seq::empty() }),
{
    let state = ListenState { phase, cursor, outbox: Vec::new() };
    assert(record_views(state.outbox@) == Seq::<RecordView>::empty());
    state
}

impl IMessageChannel {
    /// Offers the first waiting record to the queue, or sleeps if none waits.
    fn hand_out(&self, cursor: PollCursor, outbox: Vec<Record>, now: u64) -> (r: (
        ListenState,
        ListenAction,
    ))
        ensures
            (r.0@, r.1@) == hand_out(
                self.poll_interval_secs,
                cursor@,
                record_views(outbox@),
                now,
            ),
    {
        let mut outbox = outbox;
        let ghost waiting = record_views(outbox@);
        if outbox.len() > 0 {
            let first = outbox.remove(0);
            assert(record_views(outbox@) == waiting.subrange(1, waiting.len() as int));
            let message = self.message_for(&first, now);
            (
                ListenState { phase: ListenPhase::Delivering, cursor, outbox },
                ListenAction::Deliver(message),
            )
        } else {
            (
                idle(ListenPhase::Sleeping, cursor),
                ListenAction::Sleep { seconds: self.poll_interval_secs, warning: None },
            )
        }
    }

    /// One step of the listen loop: from the state and what happened, at time
    /// `now`, to the next state and what to do next.
    pub fn listen_step(&self, state: ListenState, event: ListenEvent, now: u64) -> (r: (
        ListenState,
        ListenAction,
    ))
        ensures
            (r.0@, r.1@) == listen_step(
                views(self.allowed_contacts@),
                self.poll_interval_secs,
                state@,
                event@,
                now,
            ),
    {
        let ListenState { phase, cursor, outbox } = state;
        let mut cursor = cursor;
        match event {
            ListenEvent::Closed => (finish(cursor), ListenAction::Stop(Ok(()))),
            ListenEvent::Located { database, exists } => {
                match phase {
                    ListenPhase::Starting => match database {
                        None => (finish(cursor), ListenAction::Stop(Err(ListenError::HomeNotFound))),
                        Some(path) => {
                            if exists {
                                (idle(ListenPhase::Seeding, cursor), ListenAction::QueryMaxRowid)
                            } else {
                                (
                                    finish(cursor),
                                    ListenAction::Stop(Err(ListenError::DatabaseNotFound(path))),
                                )
                            }
                        },
                    },
                    _ => (finish(cursor), ListenAction::Stop(Err(ListenError::OutOfTurn))),
                }
            },
            ListenEvent::Seeded(max) => {
                match phase {
                    ListenPhase::Seeding => {
                        let warning = match max {
                            Some(_) => None,
                            None => Some(
                                "iMessage seed query failed; starting from position 0".to_owned(),
                            ),
                        };
                        (
                            idle(ListenPhase::Sleeping, PollCursor::seed(max)),
                            ListenAction::Sleep { seconds: self.poll_interval_secs, warning },
                        )
                    },
                    _ => (finish(cursor), ListenAction::Stop(Err(ListenError::OutOfTurn))),
                }
            },
            ListenEvent::Woke => {
                match phase {
                    ListenPhase::Sleeping => {
                        let since = cursor.position();
                        (idle(ListenPhase::Fetching, cursor), ListenAction::Fetch { since })
                    },
                    _ => (finish(cursor), ListenAction::Stop(Err(ListenError::OutOfTurn))),
                }
            },
            ListenEvent::Fetched(result) => {
                match phase {
                    ListenPhase::Fetching => match result {
                        Ok(records) => {
                            let let_through = accept_batch(
                                &self.allowed_contacts,
                                &mut cursor,
                                &records,
                            );
                            self.hand_out(cursor, let_through, now)
                        },
                        Err(error) => {
                            let mut warning = String::new();
                            warning.append("iMessage poll error: ");
                            warning.append(error.text.as_str());
                            (
                                idle(ListenPhase::Sleeping, cursor),
                                ListenAction::Sleep {
                                    seconds: self.poll_interval_secs,
                                    warning: Some(warning),
                                },
                            )
                        },
                    },
                    _ => (finish(cursor), ListenAction::Stop(Err(ListenError::OutOfTurn))),
                }
            },
            ListenEvent::Delivered(taken) => {
                match phase {
                    ListenPhase::Delivering => {
                        if taken {
                            self.hand_out(cursor, outbox, now)
                        } else {
                            (finish(cursor), ListenAction::Stop(Ok(())))
                        }
                    },
                    _ => (finish(cursor), ListenAction::Stop(Err(ListenError::OutOfTurn))),
                }
            },
        }
    }
}

/// The cursor of a listen loop never moves back, whatever happens, once it
/// was seeded; and it is seeded with the greatest position that the store
/// held, or with 0.
pub proof fn lemma_listen_cursor_moves_forward(
    list: Seq<Seq<char>>,
    interval: u64,
    state: ListenStateView,
    event: ListenEventView,
    now: u64,
)
    ensures
        state.phase != ListenPhase::Seeding ==> listen_step(
            list,
            interval,
            state,
            event,
            now,
        ).0.cursor >= state.cursor,
        state.phase == ListenPhase::Seeding ==> (match event {
            ListenEventView::Seeded(Some(m)) => listen_step(list, interval, state, event, now).0.cursor
                == m,
            ListenEventView::Seeded(None) => listen_step(list, interval, state, event, now).0.cursor
                == 0,
            _ => listen_step(list, interval, state, event, now).0.cursor == state.cursor,
        }),
{
    match event {
        ListenEventView::Fetched(Ok(records)) => {
            lemma_cursor_after(state.cursor, records);
        },
        _ => {},
    }
}

/// A failed fetch moves nothing: the cursor stays, nothing is handed on, and
/// the loop sleeps for the poll interval before it fetches again.
pub proof fn lemma_failed_fetch_is_not_fatal(
    list: Seq<Seq<char>>,
    interval: u64,
    state: ListenStateView,
    error: Seq<char>,
    now: u64,
)
    requires
        state.phase == ListenPhase::Fetching,
    ensures
        ({
            let (next, action) = listen_step(
                list,
                interval,
                state,
                ListenEventView::Fetched(Err(error)),
                now,
            );
            &&& next.cursor == state.cursor
            &&& next.phase == ListenPhase::Sleeping
            &&& next.outbox.len() == 0
            &&& action == (ListenActionView::Sleep {
                seconds: interval,
                warning: Some(poll_error_text(error)),
            })
            &&& listen_step(list, interval, next, ListenEventView::Woke, now).1 == (
            ListenActionView::Fetch { since: state.cursor })
        }),
{
}

/// A closed queue ends the loop at once and without an error, whatever the
/// loop was waiting for: nothing is fetched and nothing is offered to the
/// queue, and what waited to be handed on is let go.
pub proof fn lemma_closed_queue_ends_the_loop(
    list: Seq<Seq<char>>,
    interval: u64,
    state: ListenStateView,
    now: u64,
)
    ensures
        ({
            let (next, action) = listen_step(list, interval, state, ListenEventView::Closed, now);
            &&& action == ListenActionView::Stop(Ok(()))
            &&& next.phase == ListenPhase::Finished
            &&& next.cursor == state.cursor
            &&& next.outbox.len() == 0
        }),
{
}

/// A loop that has ended stays ended: whatever comes, it asks only to stop,
/// and so fetches nothing and offers nothing to the queue.
pub proof fn lemma_an_ended_loop_stays_ended(
    list: Seq<Seq<char>>,
    interval: u64,
    state: ListenStateView,
    event: ListenEventView,
    now: u64,
)
    requires
        state.phase == ListenPhase::Finished,
    ensures
        listen_step(list, interval, state, event, now).0 == finished(state),
        listen_step(list, interval, state, event, now).1 is Stop,
{
}

/// What may be asked of whoever runs a loop that was seeded at `floor`: any
/// action, but a message is offered to the queue only if it stands for a
/// record beyond `floor`, from a sender that the allow-list lets through,
/// with a text that is not blank.
pub open spec fn admissible(list: Seq<Seq<char>>, floor: i64, action: ListenActionView) -> bool {
    match action {
        ListenActionView::Deliver(message) => exists|record: RecordView, now: u64|
            {
                &&& message == #[trigger] message_of(record, now)
                &&& record.position > floor
                &&& permits(list, record.sender)
                &&& !is_blank(record.text)
                &&& message.content.len() > 0
            },
        _ => true,
    }
}

/// The state that a loop reaches from `state` over a course of events, each
/// with the time at which it came, and the actions that it asks for on the
/// way.
pub open spec fn run(
    list: Seq<Seq<char>>,
    interval: u64,
    state: ListenStateView,
    events: Seq<(ListenEventView, u64)>,
) -> (ListenStateView, Seq<ListenActionView>)
    decreases events.len(),
{
    if events.len() == 0 {
        (state, Seq::empty())
    } else {
        let (before, actions) = run(list, interval, state, events.drop_last());
        let (next, action) = listen_step(list, interval, before, events.last().0, events.last().1);
        (next, actions.push(action))
    }
}

/// A run asks for one action on each event.
pub proof fn lemma_run_length(
    list: Seq<Seq<char>>,
    interval: u64,
    state: ListenStateView,
    events: Seq<(ListenEventView, u64)>,
)
    ensures
        run(list, interval, state, events).1.len() == events.len(),
    decreases events.len(),
{
    if events.len() > 0 {
        lemma_run_length(list, interval, state, events.drop_last());
    }
}

/// Once the loop has learned that the queue is closed, it has ended without an error,
/// and whatever comes after that, it fetches nothing and offers nothing to
/// the queue: all it asks is to stop.
pub proof fn lemma_nothing_follows_a_closed_queue(
    list: Seq<Seq<char>>,
    interval: u64,
    state: ListenStateView,
    events: Seq<(ListenEventView, u64)>,
    k: int,
)
    requires
        0 <= k < events.len(),
        events[k].0 == ListenEventView::Closed,
    ensures
        run(list, interval, state, events).0.phase == ListenPhase::Finished,
        run(list, interval, state, events).1.len() == events.len(),
        run(list, interval, state, events).1[k] == ListenActionView::Stop(Ok(())),
        forall|j: int|
            k <= j < events.len() ==> (#[trigger] run(list, interval, state, events).1[j]) is Stop,
    decreases events.len(),
{
    let front = events.drop_last();
    let (before, actions) = run(list, interval, state, front);
    let all = run(list, interval, state, events).1;
    lemma_run_length(list, interval, state, front);
    if k < front.len() {
        assert(front[k] == events[k]);
        lemma_nothing_follows_a_closed_queue(list, interval, state, front, k);
        assert forall|j: int| k <= j < events.len() implies (#[trigger] all[j]) is Stop by {
            if j < front.len() {
                assert(all[j] == actions[j]);
            }
        }
        assert(all[k] == actions[k]);
    }
}

/// Seeding makes a loop that polls from the greatest position that the store
/// held, or from 0 where that is not known.
pub proof fn lemma_seeding_starts_polling(
    list: Seq<Seq<char>>,
    interval: u64,
    state: ListenStateView,
    max: Option<i64>,
    now: u64,
)
    requires
        state.phase == ListenPhase::Seeding,
    ensures
        polling(
            list,
            match max {
                Some(m) => m,
                None => 0,
            },
            listen_step(list, interval, state, ListenEventView::Seeded(max), now).0,
        ),
{
}

/// A loop whose cursor was seeded at `floor` keeps to what `polling` says,
/// whatever happens, its cursor does not move back, and what it asks for is
/// admissible.
pub proof fn lemma_listen_keeps_polling(
    list: Seq<Seq<char>>,
    interval: u64,
    floor: i64,
    state: ListenStateView,
    event: ListenEventView,
    now: u64,
)
    requires
        polling(list, floor, state),
    ensures
        polling(list, floor, listen_step(list, interval, state, event, now).0),
        listen_step(list, interval, state, event, now).0.cursor >= state.cursor,
        admissible(list, floor, listen_step(list, interval, state, event, now).1),
{
    match (state.phase, event) {
        (ListenPhase::Fetching, ListenEventView::Fetched(Ok(records))) => {
            let end = cursor_after(state.cursor, records);
            let out = accepted(list, state.cursor, records);
            lemma_cursor_after(state.cursor, records);
            lemma_accepted_sound(list, state.cursor, records);
            lemma_hand_out(list, interval, floor, end, out, now);
        },
        (ListenPhase::Delivering, ListenEventView::Delivered(taken)) => {
            if taken {
                lemma_hand_out(list, interval, floor, state.cursor, state.outbox, now);
            }
        },
        _ => {},
    }
}

/// Over any course of events, a loop that was seeded at `floor` never offers
/// the queue a record at or below `floor`, a record of a sender that the
/// allow-list keeps out, or a blank text; and its cursor never moves back.
pub proof fn lemma_run_keeps_polling(
    list: Seq<Seq<char>>,
    interval: u64,
    floor: i64,
    state: ListenStateView,
    events: Seq<(ListenEventView, u64)>,
)
    requires
        polling(list, floor, state),
    ensures
        polling(list, floor, run(list, interval, state, events).0),
        run(list, interval, state, events).0.cursor >= state.cursor,
        run(list, interval, state, events).1.len() == events.len(),
        forall|k: int|
            0 <= k < events.len() ==> admissible(
                list,
                floor,
                #[trigger] run(list, interval, state, events).1[k],
            ),
    decreases events.len(),
{
    if events.len() > 0 {
        let front = events.drop_last();
        lemma_run_keeps_polling(list, interval, floor, state, front);
        let (before, actions) = run(list, interval, state, front);
        lemma_listen_keeps_polling(
            list,
            interval,
            floor,
            before,
            events.last().0,
            events.last().1,
        );
        let all = run(list, interval, state, events).1;
        assert forall|k: int| 0 <= k < events.len() implies admissible(
            list,
            floor,
            #[trigger] all[k],
        ) by {
            if k < front.len() {
                assert(all[k] == actions[k]);
            }
        }
    }
}

proof fn lemma_hand_out(
    list: Seq<Seq<char>>,
    interval: u64,
    floor: i64,
    cursor: i64,
    outbox: Seq<RecordView>,
    now: u64,
)
    requires
        cursor >= floor,
        forall|k: int|
            0 <= k < outbox.len() ==> {
                let r = #[trigger] outbox[k];
                &&& floor < r.position <= cursor
                &&& permits(list, r.sender)
                &&& !is_blank(r.text)
            },
    ensures
        polling(list, floor, hand_out(interval, cursor, outbox, now).0),
        admissible(list, floor, hand_out(interval, cursor, outbox, now).1),
{
    if outbox.len() > 0 {
        let rest = outbox.subrange(1, outbox.len() as int);
        assert forall|k: int| 0 <= k < rest.len() implies {
            let r = #[trigger] rest[k];
            &&& floor < r.position <= cursor
            &&& permits(list, r.sender)
            &&& !is_blank(r.text)
        } by {
            assert(rest[k] == outbox[k + 1]);
        }
        let first = outbox[0];
        assert(first.text.len() > 0);
        assert(hand_out(interval, cursor, outbox, now).1 == ListenActionView::Deliver(
            message_of(first, now),
        ));
    }
}

} // verus!
