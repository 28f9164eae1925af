//! Whole runs: the actions that a sequence of events draws from a session,
//! and what holds of every run.

use crate::delivery::{delivery_request, rejection, DeliveryReplyView};
use crate::failure::FailureView;
use crate::lookup::{lookup_request, person_id, LookupReplyView};
use crate::session::{
    failed, next, start, ActionView, EventView, InvocationView, OutcomeView, SessionView,
    StepView, Stream,
};
use crate::status::{code_digits, is_success_code};
use vstd::prelude::*;

verus! {

/// The actions that `events`, fed in one after the other, draw from
/// `session`. An event that the session does not wait for draws none and
/// leaves the session as it is.
pub open spec fn actions(session: SessionView, events: Seq<EventView>) -> Seq<ActionView>
    decreases events.len(),
{
    if events.len() == 0 {
        Seq::empty()
    } else {
        match next(session, events[0]) {
            Some(step) => seq![step.action] + actions(step.session, events.drop_first()),
            None => actions(session, events.drop_first()),
        }
    }
}

/// Whether an action sends anything to the platform.
pub open spec fn is_request(action: ActionView) -> bool {
    action is Lookup || action is Deliver
}

/// How far a session has come: the number of stages that lie behind it.
pub open spec fn progress(session: SessionView) -> nat {
    match session {
        SessionView::CheckingFile { .. } => 0,
        SessionView::LookingUp { .. } => 1,
        SessionView::Delivering { .. } => 2,
        SessionView::ReadingRejection { .. } => 3,
        SessionView::Finished => 4,
    }
}

/// The stage at which an action is due; a run can end at any stage.
pub open spec fn stage(action: ActionView) -> Option<nat> {
    match action {
        ActionView::CheckFile { .. } => None,
        ActionView::Lookup(_) => Some(0),
        ActionView::Deliver(_) => Some(1),
        ActionView::ReadRejection => Some(2),
        ActionView::Finish(_) => None,
    }
}

/// Whether `part` occurs in `text`.
pub open spec fn contains(text: Seq<char>, part: Seq<char>) -> bool {
    exists|at: int|
        0 <= at && at + part.len() <= text.len() && #[trigger] text.subrange(
            at,
            at + part.len(),
        ) == part
}

proof fn lemma_contains_at(text: Seq<char>, part: Seq<char>, at: int)
    requires
        0 <= at,
        at + part.len() <= text.len(),
        forall|i: int| 0 <= i < part.len() ==> text[at + i] == part[i],
    ensures
        contains(text, part),
{
    assert(text.subrange(at, at + part.len()) =~= part);
}

/// Once a session is finished, no event draws an action from it.
pub proof fn law_finished_is_final(events: Seq<EventView>)
    ensures
        actions(SessionView::Finished, events) == Seq::<ActionView>::empty(),
    decreases events.len(),
{
    if events.len() > 0 {
        law_finished_is_final(events.drop_first());
    }
}

/// Every step takes a session forward, and the action it asks for is
/// the one that is due at the stage it leaves; a step that ends the run
/// leads to the finished session.
pub proof fn law_sessions_only_advance(session: SessionView, event: EventView)
    requires
        next(session, event) is Some,
    ensures
        progress(next(session, event)->Some_0.session) > progress(session),
        stage(next(session, event)->Some_0.action) matches Some(due) ==> due == progress(session),
        next(session, event)->Some_0.action is Finish <==> next(session, event)->Some_0.session
            is Finished,
        !(next(session, event)->Some_0.action is CheckFile),
{
}

proof fn lemma_actions_are_due_later(session: SessionView, events: Seq<EventView>, k: int)
    requires
        0 <= k < actions(session, events).len(),
    ensures
        stage(actions(session, events)[k]) matches Some(due) ==> due >= progress(session) + k,
        !(actions(session, events)[k] is CheckFile),
        actions(session, events)[k] is Finish ==> k == actions(session, events).len() - 1,
    decreases events.len(),
{
    let rest = events.drop_first();
    match next(session, events[0]) {
        Some(step) => {
            law_sessions_only_advance(session, events[0]);
            if k > 0 {
                lemma_actions_are_due_later(step.session, rest, k - 1);
            } else if step.action is Finish {
                law_finished_is_final(rest);
            }
        },
        None => {
            lemma_actions_are_due_later(session, rest, k);
        },
    }
}

/// A run goes one way: whatever the events and their order, nothing is
/// asked for twice (not the lookup, not the upload, not the body of a
/// refusal), the file is not checked again, and the report that ends the
/// run is its last action.
pub proof fn law_nothing_is_repeated(
    session: SessionView,
    events: Seq<EventView>,
    j: int,
    k: int,
)
    requires
        0 <= j < k < actions(session, events).len(),
    ensures
        !(actions(session, events)[j] is Lookup && actions(session, events)[k] is Lookup),
        !(actions(session, events)[j] is Deliver && actions(session, events)[k] is Deliver),
        !(actions(session, events)[j] is ReadRejection && actions(session, events)[k]
            is ReadRejection),
        !(actions(session, events)[j] is Finish),
        !(actions(session, events)[k] is CheckFile),
    decreases events.len(),
{
    let rest = events.drop_first();
    match next(session, events[0]) {
        Some(step) => {
            law_sessions_only_advance(session, events[0]);
            if j > 0 {
                law_nothing_is_repeated(step.session, rest, j - 1, k - 1);
            } else {
                lemma_actions_are_due_later(step.session, rest, k - 1);
                if step.action is Finish {
                    law_finished_is_final(rest);
                }
            }
        },
        None => {
            law_nothing_is_repeated(session, rest, j, k);
        },
    }
}

/// The lookup is requested only when the file was found to exist, and
/// then for the recipient of the command line.
pub proof fn law_lookup_follows_file_check(session: SessionView, event: EventView)
    requires
        next(session, event) matches Some(step) && step.action is Lookup,
    ensures
        ({
            &&& session matches SessionView::CheckingFile { token, invocation }
            &&& event == (EventView::FileChecked { exists: true })
            &&& next(session, event) == Some(
                StepView {
                    session: SessionView::LookingUp { token, invocation },
                    action: ActionView::Lookup(lookup_request(token, invocation.recipient)),
                },
            )
        }),
{
}

/// A command line with any number of arguments but three ends the run at
/// once: nothing is checked or sent, the exit code is 1, and the error
/// stream gets the usage line, which names the program as it was invoked.
pub proof fn law_wrong_argument_count(
    token: Seq<char>,
    program: Seq<char>,
    arguments: Seq<Seq<char>>,
    events: Seq<EventView>,
)
    requires
        arguments.len() != 3,
    ensures
        start(token, program, arguments) == failed(FailureView::Usage { program }),
        actions(start(token, program, arguments).session, events) == Seq::<ActionView>::empty(),
        OutcomeView::Failed(FailureView::Usage { program }).exit_code() == 1,
        OutcomeView::Failed(FailureView::Usage { program }).stream() == Stream::Stderr,
        OutcomeView::Failed(FailureView::Usage { program }).line() == "Usage: "@ + program
            + " <recipient_email> <file_path> <message_text>"@,
        contains(OutcomeView::Failed(FailureView::Usage { program }).line(), program),
{
    law_finished_is_final(events);
    let line = OutcomeView::Failed(FailureView::Usage { program }).line();
    lemma_contains_at(line, program, "Usage: "@.len() as int);
}

/// Where nothing exists at the path of the file, the run ends with the
/// file check: the exit code is 1, the report names the path, and the
/// platform is never contacted.
pub proof fn law_missing_file_ends_run(
    token: Seq<char>,
    program: Seq<char>,
    arguments: Seq<Seq<char>>,
    events: Seq<EventView>,
)
    requires
        arguments.len() == 3,
        events.len() >= 1,
        events[0] == (EventView::FileChecked { exists: false }),
    ensures
        start(token, program, arguments).action == (ActionView::CheckFile { path: arguments[1] }),
        actions(start(token, program, arguments).session, events) == seq![
            ActionView::Finish(
                OutcomeView::Failed(FailureView::FileMissing { path: arguments[1] }),
            ),
        ],
        OutcomeView::Failed(FailureView::FileMissing { path: arguments[1] }).exit_code() == 1,
        OutcomeView::Failed(FailureView::FileMissing { path: arguments[1] }).stream()
            == Stream::Stderr,
        OutcomeView::Failed(FailureView::FileMissing { path: arguments[1] }).line() == "Error: "@
            + ("File not found at '"@ + arguments[1] + "'"@),
        contains(
            OutcomeView::Failed(FailureView::FileMissing { path: arguments[1] }).line(),
            arguments[1],
        ),
{
    law_finished_is_final(events.drop_first());
    let line = OutcomeView::Failed(FailureView::FileMissing { path: arguments[1] }).line();
    lemma_contains_at(
        line,
        arguments[1],
        ("Error: "@.len() + "File not found at '"@.len()) as int,
    );
}

/// Whatever the events and their order, no request is made before the file
/// was found to exist.
pub proof fn law_no_request_before_file_is_found(
    token: Seq<char>,
    program: Seq<char>,
    arguments: Seq<Seq<char>>,
    events: Seq<EventView>,
)
    requires
        forall|i: int|
            0 <= i < events.len() ==> events[i] != (EventView::FileChecked { exists: true }),
    ensures
        !is_request(start(token, program, arguments).action),
        forall|k: int|
            0 <= k < actions(start(token, program, arguments).session, events).len()
                ==> !is_request(
                #[trigger] actions(start(token, program, arguments).session, events)[k],
            ),
{
    lemma_no_request_while_checking(start(token, program, arguments).session, events);
}

proof fn lemma_no_request_while_checking(session: SessionView, events: Seq<EventView>)
    requires
        session is CheckingFile || session is Finished,
        forall|i: int|
            0 <= i < events.len() ==> events[i] != (EventView::FileChecked { exists: true }),
    ensures
        forall|k: int|
            0 <= k < actions(session, events).len() ==> !is_request(
                #[trigger] actions(session, events)[k],
            ),
    decreases events.len(),
{
    if events.len() > 0 {
        let rest = events.drop_first();
        assert forall|i: int| 0 <= i < rest.len() implies rest[i] != (EventView::FileChecked {
            exists: true,
        }) by {
            assert(rest[i] == events[i + 1]);
        }
        match next(session, events[0]) {
            Some(step) => {
                law_finished_is_final(rest);
                assert(actions(session, events) =~= seq![step.action]);
            },
            None => {
                lemma_no_request_while_checking(session, rest);
                assert(actions(session, events) == actions(session, rest));
            },
        }
    }
}

/// A lookup that yields no identifier ends the run: the failure is
/// reported with exit code 1 and nothing is delivered, whatever follows.
pub proof fn law_failed_lookup_ends_run(
    token: Seq<char>,
    invocation: InvocationView,
    reply: LookupReplyView,
    rest: Seq<EventView>,
)
    requires
        person_id(reply, invocation.recipient) is Err,
    ensures
        actions(
            SessionView::LookingUp { token, invocation },
            seq![EventView::LookedUp(reply)] + rest,
        ) == seq![
            ActionView::Finish(
                OutcomeView::Failed(person_id(reply, invocation.recipient)->Err_0),
            ),
        ],
        OutcomeView::Failed(person_id(reply, invocation.recipient)->Err_0).exit_code() == 1,
{
    let events = seq![EventView::LookedUp(reply)] + rest;
    assert(events.drop_first() =~= rest);
    law_finished_is_final(rest);
}

/// The file is delivered only on a lookup that yielded an identifier, and
/// then to the person with that identifier, with the message and the file
/// of the command line.
pub proof fn law_delivery_follows_lookup(session: SessionView, event: EventView)
    requires
        next(session, event) matches Some(step) && step.action is Deliver,
    ensures
        ({
            &&& session matches SessionView::LookingUp { token, invocation }
            &&& event matches EventView::LookedUp(reply)
            &&& person_id(reply, invocation.recipient) matches Ok(id)
            &&& next(session, event) == Some(
                StepView {
                    session: SessionView::Delivering { recipient: invocation.recipient },
                    action: ActionView::Deliver(
                        delivery_request(token, id, invocation.message, invocation.file_path),
                    ),
                },
            )
        }),
{
}

/// A run ends with exit code 0 only when the upload was answered with a
/// status in the success class; the report then goes to the standard
/// output and names the recipient.
pub proof fn law_success_follows_delivery(session: SessionView, event: EventView)
    requires
        ({
            &&& next(session, event) matches Some(step)
            &&& step.action matches ActionView::Finish(outcome)
            &&& outcome.exit_code() == 0
        }),
    ensures
        ({
            &&& session matches SessionView::Delivering { recipient }
            &&& event matches EventView::Uploaded(DeliveryReplyView::Received { status })
            &&& is_success_code(status)
            &&& next(session, event) == Some(
                StepView {
                    session: SessionView::Finished,
                    action: ActionView::Finish(OutcomeView::Sent { recipient }),
                },
            )
            &&& (OutcomeView::Sent { recipient }).stream() == Stream::Stdout
            &&& contains((OutcomeView::Sent { recipient }).line(), recipient)
        }),
{
    let recipient = session->Delivering_recipient;
    lemma_contains_at(
        (OutcomeView::Sent { recipient }).line(),
        recipient,
        "File sent to "@.len() as int,
    );
}

/// The report of a lookup that found nobody names the address that was
/// asked for.
pub proof fn law_no_match_names_address(email: Seq<char>)
    ensures
        contains(OutcomeView::Failed(FailureView::NoMatch { email }).line(), email),
{
    let line = OutcomeView::Failed(FailureView::NoMatch { email }).line();
    lemma_contains_at(
        line,
        email,
        ("Error: "@.len() + "No person found with email: "@.len()) as int,
    );
}

/// The report of a refused upload holds the three digits of the status
/// and the body of the reply.
pub proof fn law_rejection_names_status_and_body(status: u16, body: Seq<char>)
    ensures
        contains(OutcomeView::Failed(rejection(status, Some(body))).line(), code_digits(status)),
        contains(OutcomeView::Failed(rejection(status, Some(body))).line(), body),
{
    let line = OutcomeView::Failed(rejection(status, Some(body))).line();
    let head = ("Error: "@.len() + "POST request failed with status "@.len()) as int;
    lemma_contains_at(line, code_digits(status), head);
    lemma_contains_at(line, body, line.len() - body.len());
}

} // verus!
