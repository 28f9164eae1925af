//! Delivering the file: the upload to make, and how its reply is judged.

use crate::failure::{Failure, FailureView};
use crate::request::{
    authorization, bearer, entry, Attachment, AttachmentView, DeliveryRequest,
    DeliveryRequestView, Entry, EntryView,
};
use crate::status::{is_success_code, Status};
use vstd::prelude::*;

verus! {

/// The upload for one recipient: the access token in the only header, the
/// recipient's identifier and the message as text fields, then the file.
pub open spec fn delivery_request(
    token: Seq<char>,
    person_id: Seq<char>,
    message: Seq<char>,
    file_path: Seq<char>,
) -> DeliveryRequestView {
    DeliveryRequestView {
        url: "https://webexapis.com/v1/messages"@,
        headers: seq![bearer(token)],
        fields: seq![
            EntryView { name: "toPersonId"@, value: person_id },
            EntryView { name: "text"@, value: message },
        ],
        file: AttachmentView { field: "files"@, path: file_path },
    }
}

/// What came of the upload.
#[derive(Debug, PartialEq, Eq)]
pub enum DeliveryReply {
    /// The form could not be put together from the file.
    FormFailed { detail: String },
    /// The request could not be sent.
    SendFailed { detail: String },
    /// A reply came; its body has not been read.
    Received { status: Status },
}

/// The mathematical content of a [`DeliveryReply`].
pub enum DeliveryReplyView {
    FormFailed { detail: Seq<char> },
    SendFailed { detail: Seq<char> },
    Received { status: u16 },
}

impl View for DeliveryReply {
    type V = DeliveryReplyView;

    open spec fn view(&self) -> DeliveryReplyView {
        match self {
            DeliveryReply::FormFailed { detail } => DeliveryReplyView::FormFailed {
                detail: detail@,
            },
            DeliveryReply::SendFailed { detail } => DeliveryReplyView::SendFailed {
                detail: detail@,
            },
            DeliveryReply::Received { status } => DeliveryReplyView::Received { status: status@ },
        }
    }
}

/// How an upload is judged before the body of its reply is read.
#[derive(Debug, PartialEq, Eq)]
pub enum Verdict {
    /// The platform took the file. The body of the reply is of no
    /// interest.
    Delivered,
    /// The platform answered with a status outside the success class; the
    /// body of the reply belongs in the report.
    Refused { status: Status },
    /// No reply came.
    Failed(Failure),
}

/// The mathematical content of a [`Verdict`].
pub enum VerdictView {
    Delivered,
    Refused { status: u16 },
    Failed(FailureView),
}

impl View for Verdict {
    type V = VerdictView;

    open spec fn view(&self) -> VerdictView {
        match self {
            Verdict::Delivered => VerdictView::Delivered,
            Verdict::Refused { status } => VerdictView::Refused { status: status@ },
            Verdict::Failed(failure) => VerdictView::Failed(failure@),
        }
    }
}

/// The verdict on an upload: delivered exactly if a reply came with a
/// status in the success class.
pub open spec fn verdict(reply: DeliveryReplyView) -> VerdictView {
    match reply {
        DeliveryReplyView::FormFailed { detail } => VerdictView::Failed(
            FailureView::FormBuild { detail },
        ),
        DeliveryReplyView::SendFailed { detail } => VerdictView::Failed(
            FailureView::DeliverySend { detail },
        ),
        DeliveryReplyView::Received { status } => if is_success_code(status) {
            VerdictView::Delivered
        } else {
            VerdictView::Refused { status }
        },
    }
}

/// The failure of a delivery that was answered with `status`; where the
/// body of the reply could not be read, a fixed text stands in for it.
pub open spec fn rejection(status: u16, body: Option<Seq<char>>) -> FailureView {
    FailureView::DeliveryStatus {
        status,
        body: match body {
            Some(text) => text,
            None => "Failed to read response text"@,
        },
    }
}

/// Builds the upload of the file at `file_path` for `person_id`.
pub fn build_request(token: &str, person_id: &str, message: &str, file_path: &str) -> (request:
    DeliveryRequest)
    ensures
        request@ == delivery_request(token@, person_id@, message@, file_path@),
{
    let mut headers: Vec<Entry> = Vec::new();
    headers.push(authorization(token));
    let mut fields: Vec<Entry> = Vec::new();
    fields.push(entry("toPersonId", person_id.to_owned()));
    fields.push(entry("text", message.to_owned()));
    let request = DeliveryRequest {
        url: "https://webexapis.com/v1/messages".to_owned(),
        headers,
        fields,
        file: Attachment { field: "files".to_owned(), path: file_path.to_owned() },
    };
    proof {
        let wanted = delivery_request(token@, person_id@, message@, file_path@);
        assert(request@.headers =~= wanted.headers);
        assert(request@.fields =~= wanted.fields);
    }
    request
}

/// Judges what came of the upload.
pub fn judge(reply: DeliveryReply) -> (judged: Verdict)
    ensures
        judged@ == verdict(reply@),
{
    match reply {
        DeliveryReply::FormFailed { detail } => Verdict::Failed(Failure::FormBuild { detail }),
        DeliveryReply::SendFailed { detail } => Verdict::Failed(Failure::DeliverySend { detail }),
        DeliveryReply::Received { status } => if status.is_success() {
            Verdict::Delivered
        } else {
            Verdict::Refused { status }
        },
    }
}

/// Reports a refused upload, with the body of the reply if it could be
/// read.
pub fn reject(status: Status, body: Option<String>) -> (failure: Failure)
    ensures
        failure@ == rejection(
            status@,
            match body {
                Some(text) => Some(text@),
                None => None,
            },
        ),
{
    match body {
        Some(text) => Failure::DeliveryStatus { status, body: text },
        None => Failure::DeliveryStatus {
            status,
            body: "Failed to read response text".to_owned(),
        },
    }
}

} // verus!
