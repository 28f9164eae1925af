//! What can go wrong in a run, and how each failure is reported.

use crate::status::{status_line, Status};
use crate::text::{join2, join3, join4};
use vstd::prelude::*;

verus! {

/// The classes of failure.
#[derive(Clone, Copy, Debug, PartialEq, Eq)]
pub enum Kind {
    /// The command line has the wrong number of arguments.
    Usage,
    /// The file to send is missing or cannot be read.
    Input,
    /// A request could not be sent, or its reply could not be read.
    Transport,
    /// The platform answered with a status outside the success class.
    Protocol,
    /// A reply could not be parsed or lacks what the lookup needs.
    Data,
}

/// A failed run.
#[derive(Debug, PartialEq, Eq)]
pub enum Failure {
    /// The command line does not consist of exactly three arguments.
    Usage { program: String },
    /// Nothing exists at the path of the file to send.
    FileMissing { path: String },
    /// The lookup request could not be sent.
    LookupSend { detail: String },
    /// The body of the lookup reply could not be read.
    LookupBody { detail: String },
    /// The lookup was answered with a status outside the success class.
    LookupStatus { status: Status, body: String },
    /// The lookup reply is no JSON document.
    LookupParse { detail: String },
    /// The lookup reply has no array under `items`.
    NoItems,
    /// The lookup found nobody with the address.
    NoMatch { email: String },
    /// The first person found has no string under `id`.
    NoId,
    /// The upload form could not be put together from the file.
    FormBuild { detail: String },
    /// The delivery request could not be sent.
    DeliverySend { detail: String },
    /// The delivery was answered with a status outside the success class.
    DeliveryStatus { status: Status, body: String },
}

/// The mathematical content of a [`Failure`].
pub enum FailureView {
    Usage { program: Seq<char> },
    FileMissing { path: Seq<char> },
    LookupSend { detail: Seq<char> },
    LookupBody { detail: Seq<char> },
    LookupStatus { status: u16, body: Seq<char> },
    LookupParse { detail: Seq<char> },
    NoItems,
    NoMatch { email: Seq<char> },
    NoId,
    FormBuild { detail: Seq<char> },
    DeliverySend { detail: Seq<char> },
    DeliveryStatus { status: u16, body: Seq<char> },
}

impl View for Failure {
    type V = FailureView;

    open spec fn view(&self) -> FailureView {
        match self {
            Failure::Usage { program } => FailureView::Usage { program: program@ },
            Failure::FileMissing { path } => FailureView::FileMissing { path: path@ },
            Failure::LookupSend { detail } => FailureView::LookupSend { detail: detail@ },
            Failure::LookupBody { detail } => FailureView::LookupBody { detail: detail@ },
            Failure::LookupStatus { status, body } => FailureView::LookupStatus {
                status: status@,
                body: body@,
            },
            Failure::LookupParse { detail } => FailureView::LookupParse { detail: detail@ },
            Failure::NoItems => FailureView::NoItems,
            Failure::NoMatch { email } => FailureView::NoMatch { email: email@ },
            Failure::NoId => FailureView::NoId,
            Failure::FormBuild { detail } => FailureView::FormBuild { detail: detail@ },
            Failure::DeliverySend { detail } => FailureView::DeliverySend { detail: detail@ },
            Failure::DeliveryStatus { status, body } => FailureView::DeliveryStatus {
                status: status@,
                body: body@,
            },
        }
    }
}

impl FailureView {
    /// The class of the failure.
    pub open spec fn kind(self) -> Kind {
        match self {
            FailureView::Usage { .. } => Kind::Usage,
            FailureView::FileMissing { .. } | FailureView::FormBuild { .. } => Kind::Input,
            FailureView::LookupSend { .. }
            | FailureView::LookupBody { .. }
            | FailureView::DeliverySend { .. } => Kind::Transport,
            FailureView::LookupStatus { .. } | FailureView::DeliveryStatus { .. } => Kind::Protocol,
            FailureView::LookupParse { .. }
            | FailureView::NoItems
            | FailureView::NoMatch { .. }
            | FailureView::NoId => Kind::Data,
        }
    }

    /// The failure in words.
    pub open spec fn message(self) -> Seq<char> {
        match self {
            FailureView::Usage { program } => "Usage: "@ + program
                + " <recipient_email> <file_path> <message_text>"@,
            FailureView::FileMissing { path } => "File not found at '"@ + path + "'"@,
            FailureView::LookupSend { detail } => "Failed to send GET request: "@ + detail,
            FailureView::LookupBody { detail } => "Failed to read response text: "@ + detail,
            FailureView::LookupStatus { status, body } => "GET request failed with status "@
                + status_line(status) + ": "@ + body,
            FailureView::LookupParse { detail } => "Failed to parse JSON: "@ + detail,
            FailureView::NoItems => "No 'items' field in response"@,
            FailureView::NoMatch { email } => "No person found with email: "@ + email,
            FailureView::NoId => "No 'id' in person data"@,
            FailureView::FormBuild { detail } => "Failed to create multipart form: "@ + detail,
            FailureView::DeliverySend { detail } => "Failed to send POST request: "@ + detail,
            FailureView::DeliveryStatus { status, body } => "POST request failed with status "@
                + status_line(status) + ": "@ + body,
        }
    }

    /// The line that reports the failure: the usage text as it is, any
    /// other message behind `Error: `.
    pub open spec fn line(self) -> Seq<char> {
        match self {
            FailureView::Usage { .. } => self.message(),
            _ => "Error: "@ + self.message(),
        }
    }
}

impl Failure {
    /// The class of the failure.
    pub fn kind(&self) -> (kind: Kind)
        ensures
            kind == self@.kind(),
    {
        match self {
            Failure::Usage { .. } => Kind::Usage,
            Failure::FileMissing { .. } | Failure::FormBuild { .. } => Kind::Input,
            Failure::LookupSend { .. }
            | Failure::LookupBody { .. }
            | Failure::DeliverySend { .. } => Kind::Transport,
            Failure::LookupStatus { .. } | Failure::DeliveryStatus { .. } => Kind::Protocol,
            Failure::LookupParse { .. }
            | Failure::NoItems
            | Failure::NoMatch { .. }
            | Failure::NoId => Kind::Data,
        }
    }

    /// The failure in words.
    pub fn message(&self) -> (message: String)
        ensures
            message@ == self@.message(),
    {
        match self {
            Failure::Usage { program } => join3(
                "Usage: ",
                program.as_str(),
                " <recipient_email> <file_path> <message_text>",
            ),
            Failure::FileMissing { path } => join3("File not found at '", path.as_str(), "'"),
            Failure::LookupSend { detail } => join2("Failed to send GET request: ", detail.as_str()),
            Failure::LookupBody { detail } => join2(
                "Failed to read response text: ",
                detail.as_str(),
            ),
            Failure::LookupStatus { status, body } => {
                let described = status.describe();
                join4("GET request failed with status ", described.as_str(), ": ", body.as_str())
            },
            Failure::LookupParse { detail } => join2("Failed to parse JSON: ", detail.as_str()),
            Failure::NoItems => "No 'items' field in response".to_owned(),
            Failure::NoMatch { email } => join2("No person found with email: ", email.as_str()),
            Failure::NoId => "No 'id' in person data".to_owned(),
            Failure::FormBuild { detail } => join2(
                "Failed to create multipart form: ",
                detail.as_str(),
            ),
            Failure::DeliverySend { detail } => join2(
                "Failed to send POST request: ",
                detail.as_str(),
            ),
            Failure::DeliveryStatus { status, body } => {
                let described = status.describe();
                join4("POST request failed with status ", described.as_str(), ": ", body.as_str())
            },
        }
    }

    /// The line that reports the failure.
    pub fn line(&self) -> (line: String)
        ensures
            line@ == self@.line(),
    {
        let message = self.message();
        match self {
            Failure::Usage { .. } => message,
            _ => join2("Error: ", message.as_str()),
        }
    }
}

} // verus!
