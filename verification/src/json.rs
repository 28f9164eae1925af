//! JSON documents as the library reads them: a tree of plain values, the
//! accessors the lookup needs, and parsing from text.

use vstd::prelude::*;

verus! {

/// A JSON value. A number is kept as the text that stands for it; an
/// object keeps its members as a list.
#[derive(Debug, PartialEq, Eq)]
pub enum Json {
    Null,
    Bool(bool),
    Number(String),
    Text(String),
    Array(Vec<Json>),
    Object(Vec<Member>),
}

/// One member of a JSON object.
#[derive(Debug, PartialEq, Eq)]
pub struct Member {
    pub key: String,
    pub value: Json,
}

/// The mathematical content of a [`Json`] value.
pub enum JsonView {
    Null,
    Bool(bool),
    Number(Seq<char>),
    Text(Seq<char>),
    Array(Seq<JsonView>),
    Object(Seq<MemberView>),
}

/// The mathematical content of a [`Member`].
pub struct MemberView {
    pub key: Seq<char>,
    pub value: JsonView,
}

impl Json {
    /// The content of the value: each text by its characters, each list by
    /// the contents of its elements.
    pub open spec fn content(self) -> JsonView
        decreases self,
    {
        match self {
            Json::Null => JsonView::Null,
            Json::Bool(b) => JsonView::Bool(b),
            Json::Number(digits) => JsonView::Number(digits@),
            Json::Text(text) => JsonView::Text(text@),
            Json::Array(items) => JsonView::Array(
                Seq::new(
                    items@.len(),
                    |i: int|
                        if 0 <= i < items@.len() {
                            items@[i].content()
                        } else {
                            JsonView::Null
                        },
                ),
            ),
            Json::Object(members) => JsonView::Object(
                Seq::new(
                    members@.len(),
                    |i: int|
                        if 0 <= i < members@.len() {
                            MemberView { key: members@[i].key@, value: members@[i].value.content() }
                        } else {
                            MemberView { key: Seq::empty(), value: JsonView::Null }
                        },
                ),
            ),
        }
    }
}

impl View for Json {
    type V = JsonView;

    open spec fn view(&self) -> JsonView {
        self.content()
    }
}

impl View for Member {
    type V = MemberView;

    open spec fn view(&self) -> MemberView {
        MemberView { key: self.key@, value: self.value@ }
    }
}

/// The contents of the items of an array, in order.
pub open spec fn item_views(items: Seq<Json>) -> Seq<JsonView> {
    items.map_values(|item: Json| item@)
}

/// The contents of the members of an object, in order.
pub open spec fn member_views(members: Seq<Member>) -> Seq<MemberView> {
    members.map_values(|member: Member| member@)
}

/// The content of an array is made of the contents of its items.
pub proof fn lemma_array_content(items: Vec<Json>)
    ensures
        Json::Array(items)@ == JsonView::Array(item_views(items@)),
{
    assert(Json::Array(items)@->Array_0 =~= item_views(items@));
}

/// The content of an object is made of the contents of its members.
pub proof fn lemma_object_content(members: Vec<Member>)
    ensures
        Json::Object(members)@ == JsonView::Object(member_views(members@)),
{
    assert(Json::Object(members)@->Object_0 =~= member_views(members@));
}

/// `serde_json::Value`, the tree that `serde_json::from_str` builds. The
/// library sees nothing inside it and only carries it from the parser to
/// `json_of_value`.
#[verifier::external_type_specification]
#[verifier::external_body]
pub struct ExValue(serde_json::Value);

/// What `serde_json::from_str` makes of `text` when asked for a
/// `serde_json::Value`: the content of the value, or the message of the
/// error. Nothing is stated of which texts are JSON documents.
pub uninterp spec fn parsed_json(text: Seq<char>) -> Result<JsonView, Seq<char>>;

/// The content of a `serde_json::Value`, variant for variant: a number by
/// the text that its `Display` writes, an array by its items, an object by
/// its members in the order of its iterator.
pub uninterp spec fn value_content(value: serde_json::Value) -> JsonView;

/// Parses `text` with `serde_json::from_str`. Taken on trust: the outcome
/// depends on `text` alone; the error is handed on as the message that its
/// `Display` writes.
#[verifier::external_body]
fn parse_value(text: &str) -> (outcome: Result<serde_json::Value, String>)
    ensures
        match outcome {
            Ok(value) => parsed_json(text@) == Ok::<JsonView, Seq<char>>(value_content(value)),
            Err(message) => parsed_json(text@) == Err::<JsonView, Seq<char>>(message@),
        },
{
    serde_json::from_str::<serde_json::Value>(text).map_err(|error| error.to_string())
}

/// Moves a `serde_json::Value` into a [`Json`], variant for variant, the
/// items of an array and the members of an object likewise. Taken on
/// trust: the outcome holds what the value held.
#[verifier::external_body]
fn json_of_value(value: serde_json::Value) -> (json: Json)
    ensures
        json@ == value_content(value),
{
    match value {
        serde_json::Value::Null => Json::Null,
        serde_json::Value::Bool(b) => Json::Bool(b),
        serde_json::Value::Number(n) => Json::Number(n.to_string()),
        serde_json::Value::String(s) => Json::Text(s),
        serde_json::Value::Array(items) => Json::Array(
            items.into_iter().map(json_of_value).collect(),
        ),
        serde_json::Value::Object(members) => Json::Object(
            members.into_iter().map(|(key, value)| Member { key, value: json_of_value(value) }).collect(),
        ),
    }
}

impl JsonView {
    /// The value under `key` in the members from index `from` on: that of
    /// the first member with this key.
    pub open spec fn find_from(
        members: Seq<MemberView>,
        key: Seq<char>,
        from: int,
    ) -> Option<JsonView>
        decreases members.len() - from,
    {
        if from < 0 || from >= members.len() {
            None
        } else if members[from].key == key {
            Some(members[from].value)
        } else {
            Self::find_from(members, key, from + 1)
        }
    }

    /// The member `key` of an object; `None` for a missing key and for a
    /// value that is no object.
    pub open spec fn member(self, key: Seq<char>) -> Option<JsonView> {
        match self {
            JsonView::Object(members) => Self::find_from(members, key, 0),
            _ => None,
        }
    }

    /// The items of an array; `None` for any other value.
    pub open spec fn as_array(self) -> Option<Seq<JsonView>> {
        match self {
            JsonView::Array(items) => Some(items),
            _ => None,
        }
    }

    /// The characters of a string; `None` for any other value.
    pub open spec fn as_text(self) -> Option<Seq<char>> {
        match self {
            JsonView::Text(text) => Some(text),
            _ => None,
        }
    }
}

/// What [`JsonView::find_from`] finds is the value of the first member
/// with the key, and it finds nothing only where no member has the key.
pub proof fn law_first_match_is_found(members: Seq<MemberView>, key: Seq<char>, from: int)
    requires
        0 <= from,
    ensures
        match JsonView::find_from(members, key, from) {
            Some(value) => exists|at: int|
                {
                    &&& from <= at < members.len()
                    &&& (#[trigger] members[at]).key == key
                    &&& members[at].value == value
                    &&& forall|before: int|
                        from <= before < at ==> (#[trigger] members[before]).key != key
                },
            None => forall|at: int|
                from <= at < members.len() ==> (#[trigger] members[at]).key != key,
        },
    decreases members.len() - from,
{
    if from < members.len() && members[from].key != key {
        law_first_match_is_found(members, key, from + 1);
        if let Some(value) = JsonView::find_from(members, key, from) {
            let at = choose|at: int|
                {
                    &&& from + 1 <= at < members.len()
                    &&& (#[trigger] members[at]).key == key
                    &&& members[at].value == value
                    &&& forall|before: int|
                        from + 1 <= before < at ==> (#[trigger] members[before]).key != key
                };
            assert(from <= at < members.len() && members[at].key == key && members[at].value
                == value);
        }
    }
}

impl Json {
    /// Parses one JSON document.
    pub fn parse(text: &str) -> (outcome: Result<Json, String>)
        ensures
            match outcome {
                Ok(json) => parsed_json(text@) == Ok::<JsonView, Seq<char>>(json@),
                Err(message) => parsed_json(text@) == Err::<JsonView, Seq<char>>(message@),
            },
    {
        match parse_value(text) {
            Ok(value) => Ok(json_of_value(value)),
            Err(message) => Err(message),
        }
    }

    /// The member `key` of an object.
    pub fn member(&self, key: &str) -> (found: Option<&Json>)
        ensures
            match found {
                Some(json) => self@.member(key@) == Some(json@),
                None => self@.member(key@) is None,
            },
    {
        match self {
            Json::Object(members) => {
                let wanted = key.to_owned();
                let ghost views = member_views(members@);
                proof {
                    lemma_object_content(*members);
                }
                let mut i: usize = 0;
                while i < members.len()
                    invariant
                        i <= members.len(),
                        wanted@ == key@,
                        views == member_views(members@),
                        self@ == JsonView::Object(views),
                        JsonView::find_from(views, key@, 0) == JsonView::find_from(
                            views,
                            key@,
                            i as int,
                        ),
                    decreases members.len() - i,
                {
                    if members[i].key == wanted {
                        return Some(&members[i].value);
                    }
                    i += 1;
                }
                None
            },
            _ => None,
        }
    }

    /// The items of an array.
    pub fn as_array(&self) -> (found: Option<&Vec<Json>>)
        ensures
            match found {
                Some(items) => self@.as_array() == Some(item_views(items@)),
                None => self@.as_array() is None,
            },
    {
        match self {
            Json::Array(items) => {
                proof {
                    lemma_array_content(*items);
                }
                Some(items)
            },
            _ => None,
        }
    }

    /// The characters of a string.
    pub fn as_text(&self) -> (found: Option<&str>)
        ensures
            match found {
                Some(text) => self@.as_text() == Some(text@),
                None => self@.as_text() is None,
            },
    {
        match self {
            Json::Text(text) => Some(text.as_str()),
            _ => None,
        }
    }
}

} // verus!
