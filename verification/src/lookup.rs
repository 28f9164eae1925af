//! Resolving a recipient's identifier from an e-mail address: the request
//! to make, and what its reply yields.

use crate::failure::{Failure, FailureView};
use crate::json::{parsed_json, Json, JsonView};
use crate::request::{
    authorization, bearer, entry, Entry, EntryView, LookupRequest, LookupRequestView,
};
use crate::status::{is_success_code, Status};
use crate::text::join2;
use vstd::prelude::*;

verus! {

/// The lookup request for `email`: the address goes into the query as it
/// is, behind the access token and a JSON content type.
pub open spec fn lookup_request(token: Seq<char>, email: Seq<char>) -> LookupRequestView {
    LookupRequestView {
        url: "https://webexapis.com/v1/people?email="@ + email,
        headers: seq![
            bearer(token),
            EntryView { name: "Content-Type"@, value: "application/json"@ },
        ],
    }
}

/// The identifier of the first person in a lookup document: the string
/// under `id` in the first item of the array under `items`. A document
/// without such an array fails, one with an empty array fails under the
/// address that was asked for, and so does a first item without such a
/// string.
pub open spec fn first_person_id(document: JsonView, email: Seq<char>) -> Result<
    Seq<char>,
    FailureView,
> {
    match document.member("items"@) {
        Some(JsonView::Array(people)) => if people.len() == 0 {
            Err(FailureView::NoMatch { email })
        } else {
            match people[0].member("id"@) {
                Some(JsonView::Text(id)) => Ok(id),
                _ => Err(FailureView::NoId),
            }
        },
        _ => Err(FailureView::NoItems),
    }
}

/// What came of the lookup request.
#[derive(Debug, PartialEq, Eq)]
pub enum LookupReply {
    /// The request could not be sent.
    SendFailed { detail: String },
    /// A reply came, but its body could not be read.
    BodyUnreadable { detail: String },
    /// A reply came and was read.
    Received { status: Status, body: String },
}

/// The mathematical content of a [`LookupReply`].
pub enum LookupReplyView {
    SendFailed { detail: Seq<char> },
    BodyUnreadable { detail: Seq<char> },
    Received { status: u16, body: Seq<char> },
}

impl View for LookupReply {
    type V = LookupReplyView;

    open spec fn view(&self) -> LookupReplyView {
        match self {
            LookupReply::SendFailed { detail } => LookupReplyView::SendFailed { detail: detail@ },
            LookupReply::BodyUnreadable { detail } => LookupReplyView::BodyUnreadable {
                detail: detail@,
            },
            LookupReply::Received { status, body } => LookupReplyView::Received {
                status: status@,
                body: body@,
            },
        }
    }
}

/// What the lookup for `email` yields. Each of these fails, in this
/// order: a request that could not be sent, a body that could not be read,
/// a status outside the success class, a body that is no JSON document, a
/// document without a first person's identifier.
pub open spec fn person_id(reply: LookupReplyView, email: Seq<char>) -> Result<
    Seq<char>,
    FailureView,
> {
    match reply {
        LookupReplyView::SendFailed { detail } => Err(FailureView::LookupSend { detail }),
        LookupReplyView::BodyUnreadable { detail } => Err(FailureView::LookupBody { detail }),
        LookupReplyView::Received { status, body } => if !is_success_code(status) {
            Err(FailureView::LookupStatus { status, body })
        } else {
            match parsed_json(body) {
                Ok(document) => first_person_id(document, email),
                Err(detail) => Err(FailureView::LookupParse { detail }),
            }
        },
    }
}

/// The content of an outcome of the lookup.
pub open spec fn outcome_view(outcome: Result<String, Failure>) -> Result<Seq<char>, FailureView> {
    match outcome {
        Ok(id) => Ok(id@),
        Err(failure) => Err(failure@),
    }
}

/// Only the first person of a lookup document counts: two documents
/// whose lists of people begin with the same person yield the same,
/// whoever follows.
pub proof fn law_first_person_decides(first: JsonView, second: JsonView, email: Seq<char>)
    requires
        first.member("items"@) matches Some(JsonView::Array(people)) && people.len() > 0,
        second.member("items"@) matches Some(JsonView::Array(people)) && people.len() > 0,
        first.member("items"@)->Some_0->Array_0[0] == second.member("items"@)->Some_0->Array_0[0],
    ensures
        first_person_id(first, email) == first_person_id(second, email),
{
}

/// Builds the lookup request for `email`.
pub fn build_request(token: &str, email: &str) -> (request: LookupRequest)
    ensures
        request@ == lookup_request(token@, email@),
{
    let mut headers: Vec<Entry> = Vec::new();
    headers.push(authorization(token));
    headers.push(entry("Content-Type", "application/json".to_owned()));
    let request = LookupRequest {
        url: join2("https://webexapis.com/v1/people?email=", email),
        headers,
    };
    assert(request@.headers =~= lookup_request(token@, email@).headers);
    request
}

/// Picks the identifier of the first person out of a lookup document.
pub fn extract_person_id(document: &Json, email: &str) -> (outcome: Result<String, Failure>)
    ensures
        outcome_view(outcome) == first_person_id(document@, email@),
{
    let people = match document.member("items") {
        Some(items) => match items.as_array() {
            Some(people) => people,
            None => return Err(Failure::NoItems),
        },
        None => return Err(Failure::NoItems),
    };
    if people.len() == 0 {
        return Err(Failure::NoMatch { email: email.to_owned() });
    }
    match people[0].member("id") {
        Some(id) => match id.as_text() {
            Some(text) => Ok(text.to_owned()),
            None => Err(Failure::NoId),
        },
        None => Err(Failure::NoId),
    }
}

/// Reads what came of the lookup for `email`.
pub fn get_person_id(reply: LookupReply, email: &str) -> (outcome: Result<String, Failure>)
    ensures
        outcome_view(outcome) == person_id(reply@, email@),
{
    match reply {
        LookupReply::SendFailed { detail } => Err(Failure::LookupSend { detail }),
        LookupReply::BodyUnreadable { detail } => Err(Failure::LookupBody { detail }),
        LookupReply::Received { status, body } => {
            if !status.is_success() {
                return Err(Failure::LookupStatus { status, body });
            }
            match Json::parse(body.as_str()) {
                Ok(document) => extract_person_id(&document, email),
                Err(detail) => Err(Failure::LookupParse { detail }),
            }
        },
    }
}

} // verus!
