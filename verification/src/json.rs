//! JSON values, as project settings hand them to the schema.
//!
//! `Json` is the executable value; `JsonView` is its mathematical model, in which
//! every string is a sequence of characters. An object is an ordered list of named
//! members. Where a name occurs more than once, the last occurrence is the one that
//! counts, as it is when JSON text is read.

use vstd::prelude::*;
use vstd::string::StringExecFns;

verus! {

/// What sort of value a JSON value is.
#[derive(Clone, Copy, Debug, PartialEq, Eq, Structural)]
pub enum JsonKind {
    Null,
    Bool,
    Number,
    Text,
    Array,
    Object,
}

/// A JSON value. A number is held as its decimal text.
#[derive(Debug, PartialEq, Eq)]
pub enum Json {
    Null,
    Bool(bool),
    Number(String),
    Text(String),
    Array(Vec<Json>),
    Object(Vec<(String, Json)>),
}

/// The mathematical model of a `Json` value.
pub enum JsonView {
    Null,
    Bool(bool),
    Number(Seq<char>),
    Text(Seq<char>),
    Array(Seq<JsonView>),
    Object(Seq<(Seq<char>, JsonView)>),
}

/// The value of the last member called `name`, if there is one.
pub open spec fn last_named(members: Seq<(Seq<char>, JsonView)>, name: Seq<char>) -> Option<
    JsonView,
>
    decreases members.len(),
{
    if members.len() == 0 {
        None
    } else if members.last().0 == name {
        Some(members.last().1)
    } else {
        last_named(members.drop_last(), name)
    }
}

impl JsonView {
    /// The sort of value this is.
    pub open spec fn kind(self) -> JsonKind {
        match self {
            JsonView::Null => JsonKind::Null,
            JsonView::Bool(_) => JsonKind::Bool,
            JsonView::Number(_) => JsonKind::Number,
            JsonView::Text(_) => JsonKind::Text,
            JsonView::Array(_) => JsonKind::Array,
            JsonView::Object(_) => JsonKind::Object,
        }
    }

    /// The member called `name` of an object; `None` for a missing member and for
    /// every value that is no object.
    pub open spec fn member(self, name: Seq<char>) -> Option<JsonView> {
        match self {
            JsonView::Object(members) => last_named(members, name),
            _ => None,
        }
    }
}

impl View for Json {
    type V = JsonView;

    open spec fn view(&self) -> JsonView {
        self.model()
    }
}

impl Json {
    /// The model of this value: the same tree, with every string as its characters.
    pub open spec fn model(&self) -> JsonView
        decreases self,
    {
        match self {
            Json::Null => JsonView::Null,
            Json::Bool(b) => JsonView::Bool(*b),
            Json::Number(digits) => JsonView::Number(digits@),
            Json::Text(text) => JsonView::Text(text@),
            Json::Array(items) => JsonView::Array(
                Seq::new(
                    items@.len(),
                    |i: int|
                        if 0 <= i < items@.len() {
                            items@[i].model()
                        } else {
                            JsonView::Null
                        },
                ),
            ),
            Json::Object(members) => JsonView::Object(
                Seq::new(
                    members@.len(),
                    |i: int|
                        if 0 <= i < members@.len() {
                            (members@[i].0@, members@[i].1.model())
                        } else {
                            (Seq::empty(), JsonView::Null)
                        },
                ),
            ),
        }
    }

    /// The sort of value this is.
    pub fn kind(&self) -> (kind: JsonKind)
        ensures
            kind == self@.kind(),
    {
        match self {
            Json::Null => JsonKind::Null,
            Json::Bool(_) => JsonKind::Bool,
            Json::Number(_) => JsonKind::Number,
            Json::Text(_) => JsonKind::Text,
            Json::Array(_) => JsonKind::Array,
            Json::Object(_) => JsonKind::Object,
        }
    }

    /// Looks up the member called `name`.
    pub fn member(&self, name: &str) -> (found: Option<&Json>)
        ensures
            match found {
                Some(value) => self@.member(name@) == Some(value@),
                None => self@.member(name@) is None,
            },
    {
        match self {
            Json::Object(members) => {
                let ghost model = self@->Object_0;
                let wanted = String::from_str(name);
                let mut i: usize = members.len();
                assert(model.take(i as int) == model);
                while i > 0
                    invariant
                        i <= members.len(),
                        wanted@ == name@,
                        self@ == JsonView::Object(model),
                        model.len() == members@.len(),
                        forall|j: int|
                            0 <= j < members@.len() ==> model[j] == (
                                members@[j].0@,
                                members@[j].1@,
                            ),
                        last_named(model, name@) == last_named(model.take(i as int), name@),
                    decreases i,
                {
                    i = i - 1;
                    proof {
                        let upto = model.take(i + 1);
                        assert(upto.last() == model[i as int]);
                        assert(upto.drop_last() == model.take(i as int));
                    }
                    if members[i].0 == wanted {
                        return Some(&members[i].1);
                    }
                }
                proof {
                    assert(model.take(0).len() == 0);
                }
                None
            },
            _ => None,
        }
    }
}

} // verus!
