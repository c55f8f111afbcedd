use vstd::prelude::*;

verus! {

/// A JSON document as mathematics. An object is the list of its members in
/// the order in which they are held; a number is the text that writes it.
pub enum JsonModel {
    Null,
    Bool(bool),
    Number(Seq<char>),
    Text(Seq<char>),
    Array(Seq<JsonModel>),
    Object(Seq<(Seq<char>, JsonModel)>),
}

/// A JSON document. A number is kept as the text that writes it, and an
/// object as the list of its members.
#[derive(Debug, PartialEq, Eq)]
pub enum JsonValue {
    Null,
    Bool(bool),
    Number(String),
    Text(String),
    Array(Vec<JsonValue>),
    Object(Vec<(String, JsonValue)>),
}

/// The document that a value stands for.
pub open spec fn model_of(value: JsonValue) -> JsonModel
    decreases value,
{
    match value {
        JsonValue::Null => JsonModel::Null,
        JsonValue::Bool(b) => JsonModel::Bool(b),
        JsonValue::Number(digits) => JsonModel::Number(digits@),
        JsonValue::Text(text) => JsonModel::Text(text@),
        JsonValue::Array(items) => JsonModel::Array(
            Seq::new(
                items@.len(),
                |i: int|
                    if 0 <= i < items@.len() {
                        model_of(items@[i])
                    } else {
                        JsonModel::Null
                    },
            ),
        ),
        JsonValue::Object(members) => JsonModel::Object(
            Seq::new(
                members@.len(),
                |i: int|
                    if 0 <= i < members@.len() {
                        (members@[i].0@, model_of(members@[i].1))
                    } else {
                        (Seq::empty(), JsonModel::Null)
                    },
            ),
        ),
    }
}

impl View for JsonValue {
    type V = JsonModel;

    open spec fn view(&self) -> JsonModel {
        model_of(*self)
    }
}

/// The value of the first of `members` that is named `key`, if there is one.
pub open spec fn first_named(members: Seq<(Seq<char>, JsonModel)>, key: Seq<char>) -> Option<
    JsonModel,
>
    decreases members.len(),
{
    if members.len() == 0 {
        None
    } else if members[0].0 == key {
        Some(members[0].1)
    } else {
        first_named(members.drop_first(), key)
    }
}

impl JsonModel {
    /// The member `key` of an object. Anything but an object has no members.
    pub open spec fn member(self, key: Seq<char>) -> Option<JsonModel> {
        match self {
            JsonModel::Object(members) => first_named(members, key),
            _ => None,
        }
    }

    /// The items of an array. Anything but an array has none to give.
    pub open spec fn items(self) -> Option<Seq<JsonModel>> {
        match self {
            JsonModel::Array(items) => Some(items),
            _ => None,
        }
    }

    /// The text of a string. Anything but a string has none to give.
    pub open spec fn text(self) -> Option<Seq<char>> {
        match self {
            JsonModel::Text(text) => Some(text),
            _ => None,
        }
    }
}

/// Members that are not named `key` can be passed over from the front.
proof fn lemma_first_named_skip(members: Seq<(Seq<char>, JsonModel)>, key: Seq<char>, n: int)
    requires
        0 <= n <= members.len(),
        forall|j: int| 0 <= j < n ==> members[j].0 != key,
    ensures
        first_named(members, key) == first_named(members.skip(n), key),
    decreases n,
{
    if n == 0 {
        assert(members.skip(0) =~= members);
    } else {
        lemma_first_named_skip(members.drop_first(), key, n - 1);
        assert(members.drop_first().skip(n - 1) =~= members.skip(n));
    }
}

impl JsonValue {
    /// The member `key` of an object: the first one of that name.
    pub fn member(&self, key: &str) -> (found: Option<&JsonValue>)
        ensures
            match found {
                Some(value) => self@.member(key@) == Some(value@),
                None => self@.member(key@) is None,
            },
    {
        match self {
            JsonValue::Object(members) => {
                let wanted = key.to_owned();
                let ghost model = self@->Object_0;
                let mut i: usize = 0;
                while i < members.len()
                    invariant
                        i <= members.len(),
                        wanted@ == key@,
                        self@.member(key@) == first_named(model, key@),
                        model.len() == members@.len(),
                        forall|j: int|
                            0 <= j < members@.len() ==> #[trigger] model[j] == (
                                members@[j].0@,
                                members@[j].1@,
                            ),
                        forall|j: int| 0 <= j < i ==> model[j].0 != key@,
                    decreases members.len() - i,
                {
                    if members[i].0 == wanted {
                        proof {
                            lemma_first_named_skip(model, key@, i as int);
                        }
                        return Some(&members[i].1);
                    }
                    i += 1;
                }
                proof {
                    lemma_first_named_skip(model, key@, i as int);
                }
                None
            },
            _ => None,
        }
    }

    /// The items of an array.
    pub fn items(&self) -> (found: Option<&Vec<JsonValue>>)
        ensures
            match found {
                Some(items) => self@.items() == Some(models(items@)),
                None => self@.items() is None,
            },
    {
        match self {
            JsonValue::Array(items) => {
                assert(self@->Array_0 =~= models(items@));
                Some(items)
            },
            _ => None,
        }
    }

    /// The text of a string.
    pub fn text(&self) -> (found: Option<&String>)
        ensures
            match found {
                Some(text) => self@.text() == Some(text@),
                None => self@.text() is None,
            },
    {
        match self {
            JsonValue::Text(text) => Some(text),
            _ => None,
        }
    }
}

/// The documents that a list of values stands for, in the same order.
pub open spec fn models(values: Seq<JsonValue>) -> Seq<JsonModel> {
    values.map_values(|v: JsonValue| v@)
}

} // verus!
