//! The two requests of a run, described as plain values for whoever
//! performs them.

use crate::text::join2;
use vstd::prelude::*;

verus! {

/// A name with its value: a request header, or a text field of a form.
#[derive(Debug, PartialEq, Eq)]
pub struct Entry {
    pub name: String,
    pub value: String,
}

/// The mathematical content of an [`Entry`].
pub struct EntryView {
    pub name: Seq<char>,
    pub value: Seq<char>,
}

impl View for Entry {
    type V = EntryView;

    open spec fn view(&self) -> EntryView {
        EntryView { name: self.name@, value: self.value@ }
    }
}

/// The contents of a list of entries, in order.
pub open spec fn entry_views(entries: Seq<Entry>) -> Seq<EntryView> {
    entries.map_values(|entry: Entry| entry@)
}

/// A file that goes into a form: the field's name and the file's path.
#[derive(Debug, PartialEq, Eq)]
pub struct Attachment {
    pub field: String,
    pub path: String,
}

/// The mathematical content of an [`Attachment`].
pub struct AttachmentView {
    pub field: Seq<char>,
    pub path: Seq<char>,
}

impl View for Attachment {
    type V = AttachmentView;

    open spec fn view(&self) -> AttachmentView {
        AttachmentView { field: self.field@, path: self.path@ }
    }
}

/// A GET request without a body.
#[derive(Debug, PartialEq, Eq)]
pub struct LookupRequest {
    pub url: String,
    pub headers: Vec<Entry>,
}

/// The mathematical content of a [`LookupRequest`].
pub struct LookupRequestView {
    pub url: Seq<char>,
    pub headers: Seq<EntryView>,
}

impl View for LookupRequest {
    type V = LookupRequestView;

    open spec fn view(&self) -> LookupRequestView {
        LookupRequestView { url: self.url@, headers: entry_views(self.headers@) }
    }
}

/// A POST request whose body is a multipart form: text fields in order,
/// then one file.
#[derive(Debug, PartialEq, Eq)]
pub struct DeliveryRequest {
    pub url: String,
    pub headers: Vec<Entry>,
    pub fields: Vec<Entry>,
    pub file: Attachment,
}

/// The mathematical content of a [`DeliveryRequest`].
pub struct DeliveryRequestView {
    pub url: Seq<char>,
    pub headers: Seq<EntryView>,
    pub fields: Seq<EntryView>,
    pub file: AttachmentView,
}

impl View for DeliveryRequest {
    type V = DeliveryRequestView;

    open spec fn view(&self) -> DeliveryRequestView {
        DeliveryRequestView {
            url: self.url@,
            headers: entry_views(self.headers@),
            fields: entry_views(self.fields@),
            file: self.file@,
        }
    }
}

/// The entry `name: value`.
pub(crate) fn entry(name: &str, value: String) -> (made: Entry)
    ensures
        made@ == (EntryView { name: name@, value: value@ }),
{
    Entry { name: name.to_owned(), value }
}

/// The header that carries the access token.
pub open spec fn bearer(token: Seq<char>) -> EntryView {
    EntryView { name: "Authorization"@, value: "Bearer "@ + token }
}

/// Builds the header that carries the access token.
pub fn authorization(token: &str) -> (header: Entry)
    ensures
        header@ == bearer(token@),
{
    entry("Authorization", join2("Bearer ", token))
}

} // verus!
