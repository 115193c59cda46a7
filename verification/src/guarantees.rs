//! What holds of every asynchronous invocation, whatever events arrive
//! and in whatever order.

use crate::outcome::{spawn_failure_text, DialogErrorView};
use crate::stream::{
    is_line, lemma_notifications_concat, lemma_phase_after_concat, lemma_single_event,
    next_phase, notification_for, notifications_of, one_or_none, opening_event, phase_after,
    relayed_line, reported_code, NotificationView, Phase, ProcessEventView,
};
use vstd::prelude::*;

verus! {

/// A terminated invocation stays terminated and delivers nothing more.
pub proof fn lemma_terminated_is_silent(events: Seq<ProcessEventView>)
    ensures
        phase_after(Phase::Terminated, events) == Phase::Terminated,
        notifications_of(Phase::Terminated, events) == Seq::<NotificationView>::empty(),
    decreases events.len(),
{
    if events.len() > 0 {
        lemma_terminated_is_silent(events.drop_first());
    }
    assert(notifications_of(Phase::Terminated, events) =~= Seq::<NotificationView>::empty());
}

/// The termination notification is the last one: wherever it stands
/// among the notifications of an invocation, nothing follows it.
pub proof fn lemma_closed_is_last(phase: Phase, events: Seq<ProcessEventView>)
    ensures
        forall|i: int|
            0 <= i < notifications_of(phase, events).len() && (#[trigger] notifications_of(
                phase,
                events,
            )[i]) is Closed ==> i == notifications_of(phase, events).len() - 1,
    decreases events.len(),
{
    if events.len() > 0 {
        let head = one_or_none(notification_for(phase, events[0]));
        let next = next_phase(phase, events[0]);
        let rest = notifications_of(next, events.drop_first());
        lemma_closed_is_last(next, events.drop_first());
        if head.len() == 1 && head[0] is Closed {
            lemma_terminated_is_silent(events.drop_first());
        }
        assert forall|i: int|
            0 <= i < notifications_of(phase, events).len() && (#[trigger] notifications_of(
                phase,
                events,
            )[i]) is Closed implies i == notifications_of(phase, events).len() - 1 by {
            if i >= head.len() {
                assert(notifications_of(phase, events)[i] == rest[i - head.len()]);
            }
        }
    }
}

/// An invocation that was running and has terminated has delivered a
/// termination notification, and delivered it last.
pub proof fn lemma_termination_is_notified(events: Seq<ProcessEventView>)
    requires
        phase_after(Phase::Running, events) == Phase::Terminated,
    ensures
        notifications_of(Phase::Running, events).len() > 0,
        notifications_of(Phase::Running, events).last() is Closed,
    decreases events.len(),
{
    if events.len() > 0 {
        let head = one_or_none(notification_for(Phase::Running, events[0]));
        let next = next_phase(Phase::Running, events[0]);
        let rest = notifications_of(next, events.drop_first());
        if next == Phase::Terminated {
            lemma_terminated_is_silent(events.drop_first());
            assert(notifications_of(Phase::Running, events) =~= head);
        } else {
            lemma_termination_is_notified(events.drop_first());
            assert(notifications_of(Phase::Running, events).last() == rest.last());
        }
    }
}

/// While an invocation has not left `NotStarted`, nothing has been
/// delivered.
pub proof fn lemma_nothing_before_start(events: Seq<ProcessEventView>)
    requires
        phase_after(Phase::NotStarted, events) == Phase::NotStarted,
    ensures
        notifications_of(Phase::NotStarted, events) == Seq::<NotificationView>::empty(),
    decreases events.len(),
{
    if events.len() > 0 {
        let next = next_phase(Phase::NotStarted, events[0]);
        if next == Phase::NotStarted {
            lemma_nothing_before_start(events.drop_first());
        } else if next == Phase::Terminated {
            lemma_terminated_is_silent(events.drop_first());
        } else {
            lemma_started_never_returns(next, events.drop_first());
        }
    }
    assert(notifications_of(Phase::NotStarted, events) =~= Seq::<NotificationView>::empty());
}

/// No invocation goes back to `NotStarted`.
pub proof fn lemma_started_never_returns(phase: Phase, events: Seq<ProcessEventView>)
    requires
        phase != Phase::NotStarted,
    ensures
        phase_after(phase, events) != Phase::NotStarted,
    decreases events.len(),
{
    if events.len() > 0 {
        lemma_started_never_returns(next_phase(phase, events[0]), events.drop_first());
    }
}

/// A tool that cannot be started is reported once and by nothing else:
/// whatever arrived before the failure while the invocation had not
/// started, and whatever arrives after it, the one notification of the
/// invocation is the account of the failure.
pub proof fn lemma_spawn_failure_reported_once(
    before: Seq<ProcessEventView>,
    description: Seq<char>,
    after: Seq<ProcessEventView>,
)
    requires
        phase_after(Phase::NotStarted, before) == Phase::NotStarted,
    ensures
        phase_after(
            Phase::NotStarted,
            before + seq![ProcessEventView::SpawnFailed(description)] + after,
        ) == Phase::Terminated,
        notifications_of(
            Phase::NotStarted,
            before + seq![ProcessEventView::SpawnFailed(description)] + after,
        ) == seq![NotificationView::Error(spawn_failure_text(description))],
{
    let failure = ProcessEventView::SpawnFailed(description);
    let upto = before + seq![failure];
    lemma_nothing_before_start(before);
    lemma_single_event(Phase::NotStarted, failure);
    lemma_phase_after_concat(Phase::NotStarted, before, seq![failure]);
    lemma_notifications_concat(Phase::NotStarted, before, seq![failure]);
    lemma_phase_after_concat(Phase::NotStarted, upto, after);
    lemma_notifications_concat(Phase::NotStarted, upto, after);
    lemma_terminated_is_silent(after);
    assert(notifications_of(Phase::NotStarted, upto + after) =~= seq![
        NotificationView::Error(spawn_failure_text(description)),
    ]);
}

/// Where the attempt to start the tool fails, the invocation opens
/// terminated, and its one notification carries the text of the launch
/// error that the caller is given: no line of output and no termination
/// is ever delivered.
pub proof fn lemma_failed_start_is_all(description: Seq<char>, after: Seq<ProcessEventView>)
    ensures
        phase_after(Phase::NotStarted, seq![opening_event(Err(description))] + after)
            == Phase::Terminated,
        notifications_of(Phase::NotStarted, seq![opening_event(Err(description))] + after)
            == seq![
            NotificationView::Error(DialogErrorView::Launch(spawn_failure_text(description)).text()),
        ],
{
    let none = Seq::<ProcessEventView>::empty();
    lemma_spawn_failure_reported_once(none, description, after);
    assert(none + seq![ProcessEventView::SpawnFailed(description)] =~= seq![
        opening_event(Err(description)),
    ]);
}

/// Where the attempt to start the tool succeeds, the invocation is
/// running and nothing has been delivered yet.
pub proof fn lemma_started_is_quiet()
    ensures
        phase_after(Phase::NotStarted, seq![opening_event(Ok(()))]) == Phase::Running,
        notifications_of(Phase::NotStarted, seq![opening_event(Ok(()))]) == Seq::<
            NotificationView,
        >::empty(),
{
    lemma_single_event(Phase::NotStarted, ProcessEventView::Started);
}

/// Lines of output that reach a running invocation are relayed one for
/// one and in the order of their arrival, and leave it running.
pub proof fn lemma_lines_relayed_in_order(lines: Seq<ProcessEventView>)
    requires
        forall|i: int| 0 <= i < lines.len() ==> is_line(#[trigger] lines[i]),
    ensures
        phase_after(Phase::Running, lines) == Phase::Running,
        notifications_of(Phase::Running, lines) == lines.map_values(
            |e: ProcessEventView| relayed_line(e),
        ),
    decreases lines.len(),
{
    let relayed = lines.map_values(|e: ProcessEventView| relayed_line(e));
    if lines.len() > 0 {
        let rest = lines.drop_first();
        assert(is_line(lines[0]));
        assert forall|i: int| 0 <= i < rest.len() implies is_line(#[trigger] rest[i]) by {
            assert(rest[i] == lines[i + 1]);
        }
        lemma_lines_relayed_in_order(rest);
        assert(notifications_of(Phase::Running, lines) =~= relayed);
    } else {
        assert(notifications_of(Phase::Running, lines) =~= relayed);
    }
}

/// The lines that arrived on standard output, in the order of arrival.
pub open spec fn stdout_lines(events: Seq<ProcessEventView>) -> Seq<Seq<char>>
    decreases events.len(),
{
    if events.len() == 0 {
        seq![]
    } else {
        let rest = stdout_lines(events.drop_first());
        match events[0] {
            ProcessEventView::Stdout(l) => seq![l] + rest,
            _ => rest,
        }
    }
}

/// The lines that arrived on standard error, in the order of arrival.
pub open spec fn stderr_lines(events: Seq<ProcessEventView>) -> Seq<Seq<char>>
    decreases events.len(),
{
    if events.len() == 0 {
        seq![]
    } else {
        let rest = stderr_lines(events.drop_first());
        match events[0] {
            ProcessEventView::Stderr(l) => seq![l] + rest,
            _ => rest,
        }
    }
}

/// The texts of the output notifications, in the order of delivery.
pub open spec fn output_texts(notifications: Seq<NotificationView>) -> Seq<Seq<char>>
    decreases notifications.len(),
{
    if notifications.len() == 0 {
        seq![]
    } else {
        let rest = output_texts(notifications.drop_first());
        match notifications[0] {
            NotificationView::Output(l) => seq![l] + rest,
            _ => rest,
        }
    }
}

/// The texts of the error notifications, in the order of delivery.
pub open spec fn error_texts(notifications: Seq<NotificationView>) -> Seq<Seq<char>>
    decreases notifications.len(),
{
    if notifications.len() == 0 {
        seq![]
    } else {
        let rest = error_texts(notifications.drop_first());
        match notifications[0] {
            NotificationView::Error(l) => seq![l] + rest,
            _ => rest,
        }
    }
}

/// Each stream keeps its own order: while the tool is running, the
/// output notifications are the lines of standard output in the order
/// in which they arrived, and the error notifications are those of
/// standard error, whatever else arrived in between.
pub proof fn lemma_each_stream_keeps_its_order(events: Seq<ProcessEventView>)
    requires
        phase_after(Phase::Running, events) == Phase::Running,
    ensures
        output_texts(notifications_of(Phase::Running, events)) == stdout_lines(events),
        error_texts(notifications_of(Phase::Running, events)) == stderr_lines(events),
    decreases events.len(),
{
    if events.len() > 0 {
        let head = one_or_none(notification_for(Phase::Running, events[0]));
        let next = next_phase(Phase::Running, events[0]);
        let rest = notifications_of(next, events.drop_first());
        if next == Phase::Terminated {
            lemma_terminated_is_silent(events.drop_first());
        }
        lemma_each_stream_keeps_its_order(events.drop_first());
        if head.len() == 1 {
            assert((head + rest)[0] == head[0]);
            assert((head + rest).drop_first() =~= rest);
        } else {
            assert(head + rest =~= rest);
        }
    }
}

/// A complete run: the tool is started, writes its lines and exits.
/// The notifications are the lines in the order of their arrival and
/// then the termination with the exit code; what arrives after the exit
/// adds nothing.
pub proof fn lemma_complete_run(
    lines: Seq<ProcessEventView>,
    code: Option<i32>,
    after: Seq<ProcessEventView>,
)
    requires
        forall|i: int| 0 <= i < lines.len() ==> is_line(#[trigger] lines[i]),
    ensures
        phase_after(
            Phase::NotStarted,
            seq![ProcessEventView::Started] + lines + seq![ProcessEventView::Exited(code)] + after,
        ) == Phase::Terminated,
        notifications_of(
            Phase::NotStarted,
            seq![ProcessEventView::Started] + lines + seq![ProcessEventView::Exited(code)] + after,
        ) == lines.map_values(|e: ProcessEventView| relayed_line(e)) + seq![
            NotificationView::Closed(reported_code(code)),
        ],
{
    let started = seq![ProcessEventView::Started];
    let exited = seq![ProcessEventView::Exited(code)];
    let relayed = lines.map_values(|e: ProcessEventView| relayed_line(e));
    lemma_single_event(Phase::NotStarted, ProcessEventView::Started);
    lemma_lines_relayed_in_order(lines);
    lemma_single_event(Phase::Running, ProcessEventView::Exited(code));
    lemma_terminated_is_silent(after);

    lemma_phase_after_concat(Phase::NotStarted, started, lines);
    lemma_notifications_concat(Phase::NotStarted, started, lines);
    lemma_phase_after_concat(Phase::NotStarted, started + lines, exited);
    lemma_notifications_concat(Phase::NotStarted, started + lines, exited);
    lemma_phase_after_concat(Phase::NotStarted, started + lines + exited, after);
    lemma_notifications_concat(Phase::NotStarted, started + lines + exited, after);
    assert(notifications_of(Phase::NotStarted, started + lines + exited + after) =~= relayed
        + seq![NotificationView::Closed(reported_code(code))]);
}

} // verus!
