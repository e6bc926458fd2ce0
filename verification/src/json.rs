//! A small JSON document type for hook bodies and attribute reports.

use crate::assoc::{lemma_key_index, put, value_of};
use vstd::prelude::*;

verus! {

/// A JSON value as the hook bodies need it: scalars and objects whose members
/// keep the order in which they were written.
#[derive(Debug, PartialEq, Eq)]
pub enum Json {
    Null,
    Bool(bool),
    Num(i128),
    Str(String),
    Object(Vec<(String, Json)>),
}

/// The mathematical model of a [`Json`] value.
pub enum JsonModel {
    Null,
    Bool(bool),
    Num(int),
    Str(Seq<char>),
    Object(Seq<(Seq<char>, JsonModel)>),
}

impl Json {
    /// What this value is, as a mathematical value.
    pub open spec fn model(self) -> JsonModel
        decreases self,
    {
        match self {
            Json::Null => JsonModel::Null,
            Json::Bool(b) => JsonModel::Bool(b),
            Json::Num(n) => JsonModel::Num(n as int),
            Json::Str(s) => JsonModel::Str(s@),
            Json::Object(members) => JsonModel::Object(
                Seq::new(
                    members@.len(),
                    |i: int|
                        if 0 <= i < members@.len() {
                            (members@[i].0@, members@[i].1.model())
                        } else {
                            (Seq::<char>::empty(), JsonModel::Null)
                        },
                ),
            ),
        }
    }
}

impl View for Json {
    type V = JsonModel;

    open spec fn view(&self) -> JsonModel {
        self.model()
    }
}

/// The model of a vector of members.
pub open spec fn members_model(members: Seq<(String, Json)>) -> Seq<(Seq<char>, JsonModel)> {
    Seq::new(
        members.len(),
        |i: int|
            if 0 <= i < members.len() {
                (members[i].0@, members[i].1.model())
            } else {
                (Seq::<char>::empty(), JsonModel::Null)
            },
    )
}

/// The model of an object is the model of its members.
pub proof fn lemma_object_model(members: Vec<(String, Json)>)
    ensures
        Json::Object(members)@ == JsonModel::Object(members_model(members@)),
{
    reveal_with_fuel(Json::model, 2);
    assert(Json::Object(members)@.arrow_Object_0() =~= members_model(members@));
}

impl Json {
    /// The model of this value's members; empty where it is no object.
    pub open spec fn members(&self) -> Seq<(Seq<char>, JsonModel)> {
        match self@ {
            JsonModel::Object(ms) => ms,
            _ => Seq::empty(),
        }
    }

    /// An object with no members.
    pub fn object() -> (r: Json)
        ensures
            r@ == JsonModel::Object(Seq::empty()),
    {
        let r = Json::Object(Vec::new());
        assert(r@.arrow_Object_0() =~= Seq::empty());
        r
    }

    /// The object whose members are `members`, in their order.
    pub fn from_members(members: Vec<(String, Json)>) -> (r: Json)
        ensures
            r@ == JsonModel::Object(members_model(members@)),
    {
        proof {
            lemma_object_model(members);
        }
        Json::Object(members)
    }

    /// A member for an object under construction.
    pub fn entry(key: &str, value: Json) -> (r: (String, Json))
        ensures
            r.0@ == key@,
            r.1@ == value@,
    {
        (String::from_str(key), value)
    }

    /// A number, or null where there is none.
    pub fn opt_num(n: Option<u16>) -> (r: Json)
        ensures
            r@ == match n {
                Some(v) => JsonModel::Num(v as int),
                None => JsonModel::Null,
            },
    {
        match n {
            Some(v) => Json::Num(v as i128),
            None => Json::Null,
        }
    }

    /// A string value holding the text of `s`.
    pub fn text(s: &str) -> (r: Json)
        ensures
            r@ == JsonModel::Str(s@),
    {
        Json::Str(String::from_str(s))
    }

    /// A string value, or null where there is none.
    pub fn opt_text(s: &Option<String>) -> (r: Json)
        ensures
            r@ == match s {
                Some(t) => JsonModel::Str(t@),
                None => JsonModel::Null,
            },
    {
        match s {
            Some(t) => Json::Str(t.clone()),
            None => Json::Null,
        }
    }

    /// A copy of this value, equal to it member by member.
    pub fn duplicate(&self) -> (r: Json)
        ensures
            r@ == self@,
        decreases self,
    {
        match self {
            Json::Null => Json::Null,
            Json::Bool(b) => Json::Bool(*b),
            Json::Num(n) => Json::Num(*n),
            Json::Str(s) => Json::Str(s.clone()),
            Json::Object(members) => {
                let mut copy: Vec<(String, Json)> = Vec::new();
                let mut i: usize = 0;
                while i < members.len()
                    invariant
                        i <= members.len(),
                        copy.len() == i,
                        self == Json::Object(*members),
                        forall|j: int|
                            0 <= j < i ==> copy@[j].0@ == members@[j].0@ && copy@[j].1@
                                == members@[j].1@,
                    decreases members.len() - i,
                {
                    proof {
                        assert(decreases_to!(*self => self->Object_0));
                        assert(decreases_to!(members@ => members@[i as int]));
                    }
                    let value = members[i].1.duplicate();
                    copy.push((members[i].0.clone(), value));
                    i += 1;
                }
                let r = Json::Object(copy);
                assert(r@.arrow_Object_0() =~= self@.arrow_Object_0());
                r
            },
        }
    }

    /// This value with the member `key` set to `value`, where it is an object;
    /// any other value is handed back as it is.
    pub fn with_member(self, key: &str, value: Json) -> (r: Json)
        ensures
            r@ == match self@ {
                JsonModel::Object(ms) => JsonModel::Object(put(ms, key@, value@)),
                other => other,
            },
    {
        match self {
            Json::Object(members) => {
                let mut members = members;
                let ghost before = members@;
                let ghost model = members_model(before);
                let name = String::from_str(key);
                let mut i: usize = 0;
                while i < members.len() && members[i].0 != name
                    invariant
                        i <= members.len(),
                        members@ == before,
                        name@ == key@,
                        forall|j: int| 0 <= j < i ==> before[j].0@ != key@,
                    decreases members.len() - i,
                {
                    i += 1;
                }
                proof {
                    assert(Json::Object(members)@.arrow_Object_0() =~= model);
                    lemma_key_index(model, key@, i as int);
                }
                if i < members.len() {
                    members.set(i, (name, value));
                } else {
                    members.push((name, value));
                }
                let r = Json::Object(members);
                assert(r@.arrow_Object_0() =~= put(model, key@, value@));
                r
            },
            other => other,
        }
    }

    /// The value of the first member named `key`, where this is an object that
    /// has one.
    pub fn member(&self, key: &str) -> (r: Option<&Json>)
        ensures
            match r {
                Some(v) => value_of(self.members(), key@) == Some(v@),
                None => value_of(self.members(), key@).is_none(),
            },
    {
        match self {
            Json::Object(members) => {
                let ghost model = members_model(members@);
                let name = String::from_str(key);
                let mut i: usize = 0;
                while i < members.len() && members[i].0 != name
                    invariant
                        i <= members.len(),
                        name@ == key@,
                        forall|j: int| 0 <= j < i ==> members@[j].0@ != key@,
                    decreases members.len() - i,
                {
                    i += 1;
                }
                proof {
                    assert(self@.arrow_Object_0() =~= model);
                    lemma_key_index(model, key@, i as int);
                }
                if i < members.len() {
                    Some(&members[i].1)
                } else {
                    None
                }
            },
            _ => {
                proof {
                    lemma_key_index(Seq::<(Seq<char>, JsonModel)>::empty(), key@, 0);
                }
                None
            },
        }
    }
}

} // verus!
