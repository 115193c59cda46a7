//! One asynchronous invocation: the events of the running tool, relayed
//! as notifications in the order in which they arrive.
//!
//! An invocation begins as `NotStarted`, is `Running` once the tool has
//! been started, and is `Terminated` when the tool has exited or could
//! not be started. Nothing leads out of `Terminated`.

use crate::outcome::{
    describe_spawn_failure, spawn_failure_text, DialogError, DialogErrorView,
};
use vstd::prelude::*;

verus! {

/// The exit code reported where the system gave none.
pub const UNKNOWN_EXIT_CODE: i32 = -1;

/// Where an invocation stands.
#[derive(Debug, Clone, Copy, PartialEq, Eq, Structural)]
pub enum Phase {
    NotStarted,
    Running,
    Terminated,
}

/// What the process side reports.
#[derive(Debug, Clone, PartialEq, Eq)]
pub enum ProcessEvent {
    /// The tool has been started.
    Started,
    /// The tool could not be started; carries the system's description.
    SpawnFailed(String),
    /// A line that the tool wrote to its standard output.
    Stdout(String),
    /// A line that the tool wrote to its standard error.
    Stderr(String),
    /// The tool has exited; carries its exit code, where one is known.
    Exited(Option<i32>),
}

/// A `ProcessEvent` as a mathematical value.
pub ghost enum ProcessEventView {
    Started,
    SpawnFailed(Seq<char>),
    Stdout(Seq<char>),
    Stderr(Seq<char>),
    Exited(Option<i32>),
}

impl View for ProcessEvent {
    type V = ProcessEventView;

    open spec fn view(&self) -> ProcessEventView {
        match self {
            ProcessEvent::Started => ProcessEventView::Started,
            ProcessEvent::SpawnFailed(d) => ProcessEventView::SpawnFailed(d@),
            ProcessEvent::Stdout(l) => ProcessEventView::Stdout(l@),
            ProcessEvent::Stderr(l) => ProcessEventView::Stderr(l@),
            ProcessEvent::Exited(c) => ProcessEventView::Exited(*c),
        }
    }
}

impl DeepView for ProcessEvent {
    type V = ProcessEventView;

    open spec fn deep_view(&self) -> ProcessEventView {
        self@
    }
}

/// What is delivered to the interface that made the request.
#[derive(Debug, Clone, PartialEq, Eq)]
pub enum Notification {
    /// A line of the tool's standard output.
    Output(String),
    /// A line of the tool's standard error, or the account of a tool
    /// that could not be started.
    Error(String),
    /// The tool has exited, with this code.
    Closed(i32),
}

/// A `Notification` as a mathematical value.
pub ghost enum NotificationView {
    Output(Seq<char>),
    Error(Seq<char>),
    Closed(i32),
}

impl NotificationView {
    /// The name under which the notification is delivered.
    pub open spec fn event_name(self) -> Seq<char> {
        match self {
            NotificationView::Output(_) => "dialog-output"@,
            NotificationView::Error(_) => "dialog-error"@,
            NotificationView::Closed(_) => "dialog-closed"@,
        }
    }
}

impl View for Notification {
    type V = NotificationView;

    open spec fn view(&self) -> NotificationView {
        match self {
            Notification::Output(l) => NotificationView::Output(l@),
            Notification::Error(l) => NotificationView::Error(l@),
            Notification::Closed(c) => NotificationView::Closed(*c),
        }
    }
}

impl DeepView for Notification {
    type V = NotificationView;

    open spec fn deep_view(&self) -> NotificationView {
        self@
    }
}

impl Notification {
    /// The name under which the notification is delivered.
    pub fn event_name(&self) -> (name: &'static str)
        ensures
            name@ == self@.event_name(),
    {
        match self {
            Notification::Output(_) => "dialog-output",
            Notification::Error(_) => "dialog-error",
            Notification::Closed(_) => "dialog-closed",
        }
    }

    /// Whether this is the notification that ends an invocation.
    pub fn is_closed(&self) -> (b: bool)
        ensures
            b == (self@ is Closed),
    {
        match self {
            Notification::Closed(_) => true,
            _ => false,
        }
    }
}

/// The exit code that a termination notification carries: the code
/// itself, or `UNKNOWN_EXIT_CODE` where there is none.
pub open spec fn reported_code(code: Option<i32>) -> i32 {
    match code {
        Some(c) => c,
        None => UNKNOWN_EXIT_CODE,
    }
}

/// The phase that follows `phase` when `event` arrives. An event that
/// does not belong to the phase changes nothing.
pub open spec fn next_phase(phase: Phase, event: ProcessEventView) -> Phase {
    match (phase, event) {
        (Phase::NotStarted, ProcessEventView::Started) => Phase::Running,
        (Phase::NotStarted, ProcessEventView::SpawnFailed(_)) => Phase::Terminated,
        (Phase::Running, ProcessEventView::Exited(_)) => Phase::Terminated,
        _ => phase,
    }
}

/// The notification, if any, that `event` causes when it arrives in
/// `phase`.
pub open spec fn notification_for(phase: Phase, event: ProcessEventView) -> Option<
    NotificationView,
> {
    match (phase, event) {
        (Phase::NotStarted, ProcessEventView::SpawnFailed(d)) => Some(
            NotificationView::Error(spawn_failure_text(d)),
        ),
        (Phase::Running, ProcessEventView::Stdout(l)) => Some(NotificationView::Output(l)),
        (Phase::Running, ProcessEventView::Stderr(l)) => Some(NotificationView::Error(l)),
        (Phase::Running, ProcessEventView::Exited(c)) => Some(
            NotificationView::Closed(reported_code(c)),
        ),
        _ => None,
    }
}

/// The phase reached from `phase` when `events` have arrived in order.
pub open spec fn phase_after(phase: Phase, events: Seq<ProcessEventView>) -> Phase
    decreases events.len(),
{
    if events.len() == 0 {
        phase
    } else {
        phase_after(next_phase(phase, events[0]), events.drop_first())
    }
}

/// A notification that may be absent, as a sequence of one or none.
pub open spec fn one_or_none(n: Option<NotificationView>) -> Seq<NotificationView> {
    match n {
        Some(v) => seq![v],
        None => seq![],
    }
}

/// The notifications delivered, in order, when `events` arrive in order
/// at an invocation in `phase`.
pub open spec fn notifications_of(phase: Phase, events: Seq<ProcessEventView>) -> Seq<
    NotificationView,
>
    decreases events.len(),
{
    if events.len() == 0 {
        seq![]
    } else {
        one_or_none(notification_for(phase, events[0])) + notifications_of(
            next_phase(phase, events[0]),
            events.drop_first(),
        )
    }
}

/// Whether an event is a line of output, on either stream.
pub open spec fn is_line(event: ProcessEventView) -> bool {
    event is Stdout || event is Stderr
}

/// The notification that relays a line of output.
pub open spec fn relayed_line(event: ProcessEventView) -> NotificationView
    recommends
        is_line(event),
{
    match event {
        ProcessEventView::Stdout(l) => NotificationView::Output(l),
        ProcessEventView::Stderr(l) => NotificationView::Error(l),
        _ => arbitrary(),
    }
}

/// The first event of an invocation, given what the attempt to start
/// the tool gave: nothing on success, the system's description on
/// failure.
pub open spec fn opening_event(attempt: Result<(), Seq<char>>) -> ProcessEventView {
    match attempt {
        Ok(_) => ProcessEventView::Started,
        Err(d) => ProcessEventView::SpawnFailed(d),
    }
}

/// An attempt to start the tool as a mathematical value.
pub open spec fn attempt_view(attempt: Result<(), String>) -> Result<(), Seq<char>> {
    match attempt {
        Ok(_) => Ok(()),
        Err(d) => Err(d@),
    }
}

/// Opens an invocation with what the attempt to start the tool gave.
/// Gives the first event of the invocation and the reply owed to the
/// caller at once: an acknowledgement where the tool was started, a
/// launch error where it was not.
pub fn begin(attempt: Result<(), String>) -> (r: (ProcessEvent, Result<(), DialogError>))
    ensures
        r.0@ == opening_event(attempt_view(attempt)),
        r.1 is Ok <==> attempt is Ok,
        attempt is Err ==> r.1->Err_0@ == DialogErrorView::Launch(
            spawn_failure_text(attempt->Err_0@),
        ),
{
    match attempt {
        Ok(_) => (ProcessEvent::Started, Ok(())),
        Err(d) => {
            let reply = DialogError::spawn_failure(d.as_str());
            (ProcessEvent::SpawnFailed(d), Err(reply))
        },
    }
}

/// Takes one event: gives the phase that follows and the notification
/// to deliver, if there is one.
pub fn step(phase: Phase, event: &ProcessEvent) -> (r: (Phase, Option<Notification>))
    ensures
        r.0 == next_phase(phase, event@),
        r.1.deep_view() == notification_for(phase, event@),
{
    match phase {
        Phase::NotStarted => match event {
            ProcessEvent::Started => (Phase::Running, None),
            ProcessEvent::SpawnFailed(d) => (
                Phase::Terminated,
                Some(Notification::Error(describe_spawn_failure(d.as_str()))),
            ),
            _ => (Phase::NotStarted, None),
        },
        Phase::Running => match event {
            ProcessEvent::Stdout(l) => (Phase::Running, Some(Notification::Output(l.clone()))),
            ProcessEvent::Stderr(l) => (Phase::Running, Some(Notification::Error(l.clone()))),
            ProcessEvent::Exited(c) => {
                let code: i32 = match c {
                    Some(v) => *v,
                    None => UNKNOWN_EXIT_CODE,
                };
                (Phase::Terminated, Some(Notification::Closed(code)))
            },
            _ => (Phase::Running, None),
        },
        Phase::Terminated => (Phase::Terminated, None),
    }
}

/// One event alone leads to the next phase and causes the notification
/// that belongs to it.
pub proof fn lemma_single_event(phase: Phase, event: ProcessEventView)
    ensures
        phase_after(phase, seq![event]) == next_phase(phase, event),
        notifications_of(phase, seq![event]) == one_or_none(notification_for(phase, event)),
{
    let one = seq![event];
    let rest = one.drop_first();
    assert(rest.len() == 0);
    assert(phase_after(next_phase(phase, event), rest) == next_phase(phase, event));
    assert(notifications_of(next_phase(phase, event), rest) =~= Seq::<NotificationView>::empty());
    assert(notifications_of(phase, one) =~= one_or_none(notification_for(phase, event)));
}

/// Events that arrive one batch after another lead to the phase that
/// the second batch reaches from where the first one ended.
pub proof fn lemma_phase_after_concat(
    phase: Phase,
    first: Seq<ProcessEventView>,
    second: Seq<ProcessEventView>,
)
    ensures
        phase_after(phase, first + second) == phase_after(phase_after(phase, first), second),
    decreases first.len(),
{
    if first.len() == 0 {
        assert(first + second =~= second);
    } else {
        assert((first + second).drop_first() =~= first.drop_first() + second);
        lemma_phase_after_concat(next_phase(phase, first[0]), first.drop_first(), second);
    }
}

/// Events that arrive one batch after another cause the notifications of
/// the first batch, followed by those that the second batch causes from
/// where the first one ended.
pub proof fn lemma_notifications_concat(
    phase: Phase,
    first: Seq<ProcessEventView>,
    second: Seq<ProcessEventView>,
)
    ensures
        notifications_of(phase, first + second) == notifications_of(phase, first)
            + notifications_of(phase_after(phase, first), second),
    decreases first.len(),
{
    if first.len() == 0 {
        assert(first + second =~= second);
        assert(notifications_of(phase, first) + notifications_of(phase, second)
            =~= notifications_of(phase, second));
    } else {
        assert((first + second).drop_first() =~= first.drop_first() + second);
        lemma_notifications_concat(next_phase(phase, first[0]), first.drop_first(), second);
        assert(notifications_of(phase, first + second) =~= notifications_of(phase, first)
            + notifications_of(phase_after(phase, first), second));
    }
}

/// Takes a batch of events in order: gives the phase reached and the
/// notifications to deliver, in order.
pub fn relay(phase: Phase, events: &[ProcessEvent]) -> (r: (Phase, Vec<Notification>))
    ensures
        r.0 == phase_after(phase, events.deep_view()),
        r.1.deep_view() == notifications_of(phase, events.deep_view()),
{
    let ghost all = events.deep_view();
    let mut current = phase;
    let mut out: Vec<Notification> = Vec::new();
    let mut i: usize = 0;
    assert(out.deep_view() =~= notifications_of(phase, all.take(0)));
    while i < events.len()
        invariant
            i <= events.len(),
            all == events.deep_view(),
            current == phase_after(phase, all.take(i as int)),
            out.deep_view() == notifications_of(phase, all.take(i as int)),
        decreases events.len() - i,
    {
        let (next, note) = step(current, &events[i]);
        proof {
            let done = all.take(i as int);
            let one = seq![all[i as int]];
            assert(all.take(i + 1) =~= done + one);
            lemma_phase_after_concat(phase, done, one);
            lemma_notifications_concat(phase, done, one);
            lemma_single_event(current, all[i as int]);
        }
        let ghost before = out.deep_view();
        match note {
            Some(n) => {
                out.push(n);
                assert(out.deep_view() =~= before + seq![n@]);
            },
            None => {
                assert(out.deep_view() =~= before + Seq::<NotificationView>::empty());
            },
        }
        current = next;
        i = i + 1;
    }
    assert(all.take(i as int) =~= all);
    (current, out)
}

} // verus!
