//! JSON values as the messages between the interface and the core carry
//! them. Numbers keep the text they were written with.

use vstd::prelude::*;

use crate::seqs::{first_where, lemma_first_where_prefix};

verus! {

/// A JSON value.
#[derive(Debug)]
pub enum Json {
    Null,
    Bool(bool),
    Number(String),
    Str(String),
    Array(Vec<Json>),
    Object(Vec<(String, Json)>),
}

/// A JSON value, with its text and parts taken by their contents.
pub enum JsonView {
    Null,
    Bool(bool),
    Number(Seq<char>),
    Str(Seq<char>),
    Array(Seq<JsonView>),
    Object(Seq<(Seq<char>, JsonView)>),
}

/// The contents of a JSON value.
pub open spec fn json_view(j: Json) -> JsonView
    decreases j, 0int,
{
    match j {
        Json::Null => JsonView::Null,
        Json::Bool(b) => JsonView::Bool(b),
        Json::Number(t) => JsonView::Number(t@),
        Json::Str(s) => JsonView::Str(s@),
        Json::Array(v) => JsonView::Array(items_view(v@)),
        Json::Object(f) => JsonView::Object(members_view(f@)),
    }
}

/// The contents of the elements of an array.
pub open spec fn items_view(s: Seq<Json>) -> Seq<JsonView>
    decreases s, 1int,
{
    if s.len() == 0 {
        Seq::empty()
    } else {
        items_view(s.drop_last()).push(json_view(s.last()))
    }
}

/// The contents of the members of an object.
pub open spec fn members_view(s: Seq<(String, Json)>) -> Seq<(Seq<char>, JsonView)>
    decreases s, 1int,
{
    if s.len() == 0 {
        Seq::empty()
    } else {
        members_view(s.drop_last()).push((s.last().0@, json_view(s.last().1)))
    }
}

impl View for Json {
    type V = JsonView;

    open spec fn view(&self) -> JsonView {
        json_view(*self)
    }
}

pub proof fn lemma_items_view(s: Seq<Json>)
    ensures
        items_view(s).len() == s.len(),
        forall|i: int| 0 <= i < s.len() ==> #[trigger] items_view(s)[i] == json_view(s[i]),
    decreases s.len(),
{
    if s.len() > 0 {
        lemma_items_view(s.drop_last());
    }
}

pub proof fn lemma_members_view(s: Seq<(String, Json)>)
    ensures
        members_view(s).len() == s.len(),
        forall|i: int|
            0 <= i < s.len() ==> #[trigger] members_view(s)[i] == (s[i].0@, json_view(s[i].1)),
    decreases s.len(),
{
    if s.len() > 0 {
        lemma_members_view(s.drop_last());
    }
}

/// The element at position `pos` of an array.
pub open spec fn element_of(j: JsonView, pos: int) -> Option<JsonView> {
    match j {
        JsonView::Array(items) => if 0 <= pos < items.len() {
            Some(items[pos])
        } else {
            None
        },
        _ => None,
    }
}

/// Members that carry the given name.
pub open spec fn named(name: Seq<char>) -> spec_fn((Seq<char>, JsonView)) -> bool {
    |m: (Seq<char>, JsonView)| m.0 == name
}

/// The value of the first member of an object that carries the name.
pub open spec fn member_of(j: JsonView, name: Seq<char>) -> Option<JsonView> {
    match j {
        JsonView::Object(members) => match first_where(members, named(name)) {
            Some(m) => Some(m.1),
            None => None,
        },
        _ => None,
    }
}

/// The text of a JSON string.
pub open spec fn text_of(j: Option<JsonView>) -> Option<Seq<char>> {
    match j {
        Some(JsonView::Str(s)) => Some(s),
        _ => None,
    }
}

/// Whether two texts hold the same characters.
pub fn same_text(a: &str, b: &str) -> (r: bool)
    ensures
        r == (a@ == b@),
{
    let n = a.unicode_len();
    if n != b.unicode_len() {
        return false;
    }
    for i in 0..n
        invariant
            n == a@.len(),
            n == b@.len(),
            forall|j: int| 0 <= j < i ==> a@[j] == b@[j],
    {
        if a.get_char(i) != b.get_char(i) {
            return false;
        }
    }
    assert(a@ =~= b@);
    true
}

impl Json {
    /// A second value with the same contents.
    pub fn duplicate(&self) -> (r: Json)
        ensures
            r@ == self@,
        decreases self,
    {
        match self {
            Json::Null => Json::Null,
            Json::Bool(b) => Json::Bool(*b),
            Json::Number(t) => Json::Number(t.clone()),
            Json::Str(t) => Json::Str(t.clone()),
            Json::Array(v) => {
                let mut out: Vec<Json> = Vec::new();
                let n = v.len();
                for i in 0..n
                    invariant
                        n == v@.len(),
                        *self == Json::Array(*v),
                        items_view(out@) == items_view(v@.take(i as int)),
                {
                    proof {
                        assert(decreases_to!(*self => self->Array_0));
                        assert(decreases_to!(*v => v@));
                        assert(decreases_to!(v@ => v@[i as int]));
                        assert(decreases_to!(*self => v@[i as int]));
                    }
                    let d = v[i].duplicate();
                    let ghost before = out@;
                    out.push(d);
                    assert(out@.drop_last() =~= before);
                    assert(v@.take(i + 1).drop_last() =~= v@.take(i as int));
                }
                assert(v@.take(n as int) =~= v@);
                Json::Array(out)
            },
            Json::Object(f) => {
                let mut out: Vec<(String, Json)> = Vec::new();
                let n = f.len();
                for i in 0..n
                    invariant
                        n == f@.len(),
                        *self == Json::Object(*f),
                        members_view(out@) == members_view(f@.take(i as int)),
                {
                    proof {
                        assert(decreases_to!(*self => self->Object_0));
                        assert(decreases_to!(*f => f@));
                        assert(decreases_to!(f@ => f@[i as int]));
                        assert(decreases_to!(f@[i as int] => f@[i as int].1));
                        assert(decreases_to!(*self => f@[i as int].1));
                    }
                    let d = (f[i].0.clone(), f[i].1.duplicate());
                    let ghost before = out@;
                    out.push(d);
                    assert(out@.drop_last() =~= before);
                    assert(f@.take(i + 1).drop_last() =~= f@.take(i as int));
                }
                assert(f@.take(n as int) =~= f@);
                Json::Object(out)
            },
        }
    }

    /// The element at position `pos`, when this is an array long enough.
    pub fn element(&self, pos: usize) -> (r: Option<&Json>)
        ensures
            match r {
                Some(e) => element_of(self@, pos as int) == Some(e@),
                None => element_of(self@, pos as int) is None,
            },
    {
        match self {
            Json::Array(v) => {
                proof {
                    lemma_items_view(v@);
                }
                if pos < v.len() {
                    Some(&v[pos])
                } else {
                    None
                }
            },
            _ => None,
        }
    }

    /// The value of the first member with the given name, when this is an
    /// object.
    pub fn member(&self, name: &str) -> (r: Option<&Json>)
        ensures
            match r {
                Some(e) => member_of(self@, name@) == Some(e@),
                None => member_of(self@, name@) is None,
            },
    {
        match self {
            Json::Object(f) => {
                let ghost s = members_view(f@);
                proof {
                    lemma_members_view(f@);
                }
                let n = f.len();
                for i in 0..n
                    invariant
                        n == f@.len(),
                        *self == Json::Object(*f),
                        s == members_view(f@),
                        s.len() == n,
                        forall|k: int| 0 <= k < n ==> #[trigger] s[k] == (f@[k].0@, json_view(f@[k].1)),
                        first_where(s.take(i as int), named(name@)) is None,
                {
                    assert(s.take(i + 1).drop_last() =~= s.take(i as int));
                    assert(s.take(i + 1).last() == s[i as int]);
                    assert(s[i as int] == (f@[i as int].0@, json_view(f@[i as int].1)));
                    if same_text(f[i].0.as_str(), name) {
                        proof {
                            lemma_first_where_prefix(s, named(name@), i + 1);
                        }
                        return Some(&f[i].1);
                    }
                }
                assert(s.take(n as int) =~= s);
                None
            },
            _ => None,
        }
    }

    /// The text of this value, when it is a string.
    pub fn text(&self) -> (r: Option<String>)
        ensures
            opt_text_view(r) == text_of(Some(self@)),
    {
        match self {
            Json::Str(s) => Some(s.clone()),
            _ => None,
        }
    }
}

/// The contents of an optional text.
pub open spec fn opt_text_view(o: Option<String>) -> Option<Seq<char>> {
    match o {
        Some(s) => Some(s@),
        None => None,
    }
}

} // verus!
