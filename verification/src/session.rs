//! A run from the command line to the exit, as a state machine: the
//! session says what is to be done next, the caller does it and reports
//! what came of it.

use crate::delivery;
use crate::delivery::{
    delivery_request, rejection, verdict, DeliveryReply, DeliveryReplyView, Verdict, VerdictView,
};
use crate::failure::{Failure, FailureView};
use crate::lookup;
use crate::lookup::{lookup_request, person_id, LookupReply, LookupReplyView};
use crate::request::{DeliveryRequest, DeliveryRequestView, LookupRequest, LookupRequestView};
use crate::status::Status;
use crate::text::join3;
use vstd::prelude::*;

verus! {

/// What the command line asks for.
#[derive(Debug, PartialEq, Eq)]
pub struct Invocation {
    pub recipient: String,
    pub file_path: String,
    pub message: String,
}

/// The mathematical content of an [`Invocation`].
pub struct InvocationView {
    pub recipient: Seq<char>,
    pub file_path: Seq<char>,
    pub message: Seq<char>,
}

impl View for Invocation {
    type V = InvocationView;

    open spec fn view(&self) -> InvocationView {
        InvocationView {
            recipient: self.recipient@,
            file_path: self.file_path@,
            message: self.message@,
        }
    }
}

/// Where a report is written.
#[derive(Clone, Copy, Debug, PartialEq, Eq)]
pub enum Stream {
    Stdout,
    Stderr,
}

/// How a run ends.
#[derive(Debug, PartialEq, Eq)]
pub enum Outcome {
    /// The file was delivered.
    Sent { recipient: String },
    /// The run failed.
    Failed(Failure),
}

/// The mathematical content of an [`Outcome`].
pub enum OutcomeView {
    Sent { recipient: Seq<char> },
    Failed(FailureView),
}

impl View for Outcome {
    type V = OutcomeView;

    open spec fn view(&self) -> OutcomeView {
        match self {
            Outcome::Sent { recipient } => OutcomeView::Sent { recipient: recipient@ },
            Outcome::Failed(failure) => OutcomeView::Failed(failure@),
        }
    }
}

impl OutcomeView {
    /// The exit code of the process: 0 after a delivery, 1 after a failure.
    pub open spec fn exit_code(self) -> int {
        match self {
            OutcomeView::Sent { .. } => 0,
            OutcomeView::Failed(_) => 1,
        }
    }

    /// Success is reported on the standard output, failure on the error
    /// stream.
    pub open spec fn stream(self) -> Stream {
        match self {
            OutcomeView::Sent { .. } => Stream::Stdout,
            OutcomeView::Failed(_) => Stream::Stderr,
        }
    }

    /// The one line that reports the outcome.
    pub open spec fn line(self) -> Seq<char> {
        match self {
            OutcomeView::Sent { recipient } => "File sent to "@ + recipient + " successfully."@,
            OutcomeView::Failed(failure) => failure.line(),
        }
    }
}

impl Outcome {
    /// The exit code of the process.
    pub fn exit_code(&self) -> (code: i32)
        ensures
            code == self@.exit_code(),
    {
        match self {
            Outcome::Sent { .. } => 0,
            Outcome::Failed(_) => 1,
        }
    }

    /// The stream on which the outcome is reported.
    pub fn stream(&self) -> (stream: Stream)
        ensures
            stream == self@.stream(),
    {
        match self {
            Outcome::Sent { .. } => Stream::Stdout,
            Outcome::Failed(_) => Stream::Stderr,
        }
    }

    /// The one line that reports the outcome.
    pub fn line(&self) -> (line: String)
        ensures
            line@ == self@.line(),
    {
        match self {
            Outcome::Sent { recipient } => join3(
                "File sent to ",
                recipient.as_str(),
                " successfully.",
            ),
            Outcome::Failed(failure) => failure.line(),
        }
    }
}

/// What the caller is to do next.
#[derive(Debug, PartialEq, Eq)]
pub enum Action {
    /// Find out whether anything exists at `path`.
    CheckFile { path: String },
    /// Send the lookup request and read status and body of the reply.
    Lookup(LookupRequest),
    /// Build the form, send the upload and read the status of the reply.
    Deliver(DeliveryRequest),
    /// Read the body of the reply to the upload.
    ReadRejection,
    /// Report the outcome and exit.
    Finish(Outcome),
}

/// The mathematical content of an [`Action`].
pub enum ActionView {
    CheckFile { path: Seq<char> },
    Lookup(LookupRequestView),
    Deliver(DeliveryRequestView),
    ReadRejection,
    Finish(OutcomeView),
}

impl View for Action {
    type V = ActionView;

    open spec fn view(&self) -> ActionView {
        match self {
            Action::CheckFile { path } => ActionView::CheckFile { path: path@ },
            Action::Lookup(request) => ActionView::Lookup(request@),
            Action::Deliver(request) => ActionView::Deliver(request@),
            Action::ReadRejection => ActionView::ReadRejection,
            Action::Finish(outcome) => ActionView::Finish(outcome@),
        }
    }
}

/// What came of an action.
#[derive(Debug, PartialEq, Eq)]
pub enum Event {
    /// The file check is done.
    FileChecked { exists: bool },
    /// The lookup is done.
    LookedUp(LookupReply),
    /// The upload is done, but for reading the body of a reply.
    Uploaded(DeliveryReply),
    /// The body of the reply to the upload was read, or could not be.
    RejectionRead { body: Option<String> },
}

/// The mathematical content of an [`Event`].
pub enum EventView {
    FileChecked { exists: bool },
    LookedUp(LookupReplyView),
    Uploaded(DeliveryReplyView),
    RejectionRead { body: Option<Seq<char>> },
}

impl View for Event {
    type V = EventView;

    open spec fn view(&self) -> EventView {
        match self {
            Event::FileChecked { exists } => EventView::FileChecked { exists: *exists },
            Event::LookedUp(reply) => EventView::LookedUp(reply@),
            Event::Uploaded(reply) => EventView::Uploaded(reply@),
            Event::RejectionRead { body } => EventView::RejectionRead {
                body: match body {
                    Some(text) => Some(text@),
                    None => None,
                },
            },
        }
    }
}

/// How far a run has come.
#[derive(Debug, PartialEq, Eq)]
pub enum Session {
    /// The file check is under way.
    CheckingFile { token: String, invocation: Invocation },
    /// The lookup is under way.
    LookingUp { token: String, invocation: Invocation },
    /// The upload is under way.
    Delivering { recipient: String },
    /// The upload was refused with `status`; the body is being read.
    ReadingRejection { status: Status },
    /// The outcome is known.
    Finished,
}

/// The mathematical content of a [`Session`].
pub enum SessionView {
    CheckingFile { token: Seq<char>, invocation: InvocationView },
    LookingUp { token: Seq<char>, invocation: InvocationView },
    Delivering { recipient: Seq<char> },
    ReadingRejection { status: u16 },
    Finished,
}

impl View for Session {
    type V = SessionView;

    open spec fn view(&self) -> SessionView {
        match self {
            Session::CheckingFile { token, invocation } => SessionView::CheckingFile {
                token: token@,
                invocation: invocation@,
            },
            Session::LookingUp { token, invocation } => SessionView::LookingUp {
                token: token@,
                invocation: invocation@,
            },
            Session::Delivering { recipient } => SessionView::Delivering { recipient: recipient@ },
            Session::ReadingRejection { status } => SessionView::ReadingRejection {
                status: status@,
            },
            Session::Finished => SessionView::Finished,
        }
    }
}

/// A session together with the action it waits for.
#[derive(Debug, PartialEq, Eq)]
pub struct Step {
    pub session: Session,
    pub action: Action,
}

/// The mathematical content of a [`Step`].
pub struct StepView {
    pub session: SessionView,
    pub action: ActionView,
}

impl View for Step {
    type V = StepView;

    open spec fn view(&self) -> StepView {
        StepView { session: self.session@, action: self.action@ }
    }
}

/// The step that ends a run in failure.
pub open spec fn failed(failure: FailureView) -> StepView {
    StepView {
        session: SessionView::Finished,
        action: ActionView::Finish(OutcomeView::Failed(failure)),
    }
}

/// The texts of the arguments of a command line.
pub open spec fn arg_texts(arguments: Seq<String>) -> Seq<Seq<char>> {
    arguments.map_values(|argument: String| argument@)
}

/// What a command line asks for: with exactly three arguments behind the
/// program's name, these three; with any other number of them, the usage
/// text under the program's name.
pub open spec fn resolve(program: Seq<char>, arguments: Seq<Seq<char>>) -> Result<
    InvocationView,
    FailureView,
> {
    if arguments.len() == 3 {
        Ok(
            InvocationView {
                recipient: arguments[0],
                file_path: arguments[1],
                message: arguments[2],
            },
        )
    } else {
        Err(FailureView::Usage { program })
    }
}

/// The first step of a run: a well-formed command line has the file
/// checked, any other ends the run.
pub open spec fn start(
    token: Seq<char>,
    program: Seq<char>,
    arguments: Seq<Seq<char>>,
) -> StepView {
    match resolve(program, arguments) {
        Ok(invocation) => StepView {
            session: SessionView::CheckingFile { token, invocation },
            action: ActionView::CheckFile { path: invocation.file_path },
        },
        Err(failure) => failed(failure),
    }
}

/// The step that `event` leads to from `session`, or `None` where the
/// session does not wait for such an event.
pub open spec fn next(session: SessionView, event: EventView) -> Option<StepView> {
    match (session, event) {
        (SessionView::CheckingFile { token, invocation }, EventView::FileChecked { exists }) => {
            if exists {
                Some(
                    StepView {
                        session: SessionView::LookingUp { token, invocation },
                        action: ActionView::Lookup(lookup_request(token, invocation.recipient)),
                    },
                )
            } else {
                Some(failed(FailureView::FileMissing { path: invocation.file_path }))
            }
        },
        (SessionView::LookingUp { token, invocation }, EventView::LookedUp(reply)) => {
            match person_id(reply, invocation.recipient) {
                Ok(id) => Some(
                    StepView {
                        session: SessionView::Delivering { recipient: invocation.recipient },
                        action: ActionView::Deliver(
                            delivery_request(token, id, invocation.message, invocation.file_path),
                        ),
                    },
                ),
                Err(failure) => Some(failed(failure)),
            }
        },
        (SessionView::Delivering { recipient }, EventView::Uploaded(reply)) => {
            match verdict(reply) {
                VerdictView::Delivered => Some(
                    StepView {
                        session: SessionView::Finished,
                        action: ActionView::Finish(OutcomeView::Sent { recipient }),
                    },
                ),
                VerdictView::Refused { status } => Some(
                    StepView {
                        session: SessionView::ReadingRejection { status },
                        action: ActionView::ReadRejection,
                    },
                ),
                VerdictView::Failed(failure) => Some(failed(failure)),
            }
        },
        (SessionView::ReadingRejection { status }, EventView::RejectionRead { body }) => Some(
            failed(rejection(status, body)),
        ),
        _ => None,
    }
}

/// The content of what [`Session::step`] returns.
pub open spec fn step_view(step: Option<Step>) -> Option<StepView> {
    match step {
        Some(step) => Some(step@),
        None => None,
    }
}

/// The content of what [`resolve_arguments`] returns.
pub open spec fn resolved_view(resolved: Result<Invocation, Failure>) -> Result<
    InvocationView,
    FailureView,
> {
    match resolved {
        Ok(invocation) => Ok(invocation@),
        Err(failure) => Err(failure@),
    }
}

fn fail(failure: Failure) -> (step: Step)
    ensures
        step@ == failed(failure@),
{
    Step { session: Session::Finished, action: Action::Finish(Outcome::Failed(failure)) }
}

/// Reads the command line: the program's name and the arguments behind
/// it.
pub fn resolve_arguments(program: &str, arguments: &[String]) -> (resolved: Result<
    Invocation,
    Failure,
>)
    ensures
        resolved_view(resolved) == resolve(program@, arg_texts(arguments@)),
{
    if arguments.len() == 3 {
        Ok(
            Invocation {
                recipient: arguments[0].clone(),
                file_path: arguments[1].clone(),
                message: arguments[2].clone(),
            },
        )
    } else {
        Err(Failure::Usage { program: program.to_owned() })
    }
}

/// Begins a run with the access token and the command line.
pub fn begin(token: &str, program: &str, arguments: &[String]) -> (step: Step)
    ensures
        step@ == start(token@, program@, arg_texts(arguments@)),
{
    match resolve_arguments(program, arguments) {
        Ok(invocation) => {
            let path = invocation.file_path.clone();
            Step {
                session: Session::CheckingFile { token: token.to_owned(), invocation },
                action: Action::CheckFile { path },
            }
        },
        Err(failure) => fail(failure),
    }
}

impl Session {
    /// Takes in what came of the last action and says what is to be done
    /// next; `None` where the session does not wait for such an event.
    pub fn step(&self, event: Event) -> (step: Option<Step>)
        ensures
            step_view(step) == next(self@, event@),
    {
        match (self, event) {
            (Session::CheckingFile { token, invocation }, Event::FileChecked { exists }) => {
                if exists {
                    let request = lookup::build_request(
                        token.as_str(),
                        invocation.recipient.as_str(),
                    );
                    Some(
                        Step {
                            session: Session::LookingUp {
                                token: token.clone(),
                                invocation: Invocation {
                                    recipient: invocation.recipient.clone(),
                                    file_path: invocation.file_path.clone(),
                                    message: invocation.message.clone(),
                                },
                            },
                            action: Action::Lookup(request),
                        },
                    )
                } else {
                    Some(fail(Failure::FileMissing { path: invocation.file_path.clone() }))
                }
            },
            (Session::LookingUp { token, invocation }, Event::LookedUp(reply)) => {
                match lookup::get_person_id(reply, invocation.recipient.as_str()) {
                    Ok(id) => {
                        let request = delivery::build_request(
                            token.as_str(),
                            id.as_str(),
                            invocation.message.as_str(),
                            invocation.file_path.as_str(),
                        );
                        Some(
                            Step {
                                session: Session::Delivering {
                                    recipient: invocation.recipient.clone(),
                                },
                                action: Action::Deliver(request),
                            },
                        )
                    },
                    Err(failure) => Some(fail(failure)),
                }
            },
            (Session::Delivering { recipient }, Event::Uploaded(reply)) => {
                match delivery::judge(reply) {
                    Verdict::Delivered => Some(
                        Step {
                            session: Session::Finished,
                            action: Action::Finish(Outcome::Sent { recipient: recipient.clone() }),
                        },
                    ),
                    Verdict::Refused { status } => Some(
                        Step {
                            session: Session::ReadingRejection { status },
                            action: Action::ReadRejection,
                        },
                    ),
                    Verdict::Failed(failure) => Some(fail(failure)),
                }
            },
            (Session::ReadingRejection { status }, Event::RejectionRead { body }) => Some(
                fail(delivery::reject(*status, body)),
            ),
            _ => None,
        }
    }
}

} // verus!
