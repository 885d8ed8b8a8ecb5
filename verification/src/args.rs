//! The structured value carried by tool-call arguments, tool parameter
//! schemas, and backend request bodies.
//!
//! A value is a tree of nulls, booleans, integers, text, arrays and objects;
//! an object keeps its entries in order, and a lookup takes the first entry
//! with the requested key. Numbers that do not fit a signed 64-bit integer
//! are carried as their decimal text.

use vstd::prelude::*;

verus! {

broadcast use
    vstd::std_specs::vec::axiom_vec_index_decreases,
    vstd::std_specs::vec::axiom_vec_decreases_to_view;


/// A structured argument value.
#[derive(Debug, PartialEq, Eq)]
pub enum ArgValue {
    Null,
    Bool(bool),
    Int(i64),
    Str(String),
    Arr(Vec<ArgValue>),
    Obj(Vec<(String, ArgValue)>),
}

/// The mathematical model of an [`ArgValue`]: the same tree over sequences.
pub enum ArgModel {
    Null,
    Bool(bool),
    Int(i64),
    Str(Seq<char>),
    Arr(Seq<ArgModel>),
    Obj(Seq<(Seq<char>, ArgModel)>),
}

/// The model of a value: each string becomes its character sequence, each
/// array or object its sequence of modelled elements or entries.
pub open spec fn arg_model(v: ArgValue) -> ArgModel
    decreases v,
{
    match v {
        ArgValue::Null => ArgModel::Null,
        ArgValue::Bool(b) => ArgModel::Bool(b),
        ArgValue::Int(i) => ArgModel::Int(i),
        ArgValue::Str(s) => ArgModel::Str(s@),
        ArgValue::Arr(items) => ArgModel::Arr(
            Seq::new(
                items@.len(),
                |i: int|
                    if 0 <= i < items@.len() {
                        arg_model(items@[i])
                    } else {
                        ArgModel::Null
                    },
            ),
        ),
        ArgValue::Obj(pairs) => ArgModel::Obj(
            Seq::new(
                pairs@.len(),
                |i: int|
                    if 0 <= i < pairs@.len() {
                        (pairs@[i].0@, arg_model(pairs@[i].1))
                    } else {
                        (Seq::empty(), ArgModel::Null)
                    },
            ),
        ),
    }
}

impl View for ArgValue {
    type V = ArgModel;

    open spec fn view(&self) -> ArgModel {
        arg_model(*self)
    }
}

/// The model of an optional value.
pub open spec fn opt_arg_model(v: Option<ArgValue>) -> Option<ArgModel> {
    match v {
        Some(a) => Some(arg_model(a)),
        None => None,
    }
}

/// Lookup in an object's entry sequence: the first entry whose key matches.
pub open spec fn obj_lookup(pairs: Seq<(Seq<char>, ArgModel)>, key: Seq<char>) -> Option<ArgModel>
    decreases pairs.len(),
{
    if pairs.len() == 0 {
        None
    } else if pairs[0].0 == key {
        Some(pairs[0].1)
    } else {
        obj_lookup(pairs.drop_first(), key)
    }
}

/// Field lookup on a model: only objects have fields.
pub open spec fn model_get(m: ArgModel, key: Seq<char>) -> Option<ArgModel> {
    match m {
        ArgModel::Obj(pairs) => obj_lookup(pairs, key),
        _ => None,
    }
}

/// The string content of a model, if it is a string.
pub open spec fn model_str(m: ArgModel) -> Option<Seq<char>> {
    match m {
        ArgModel::Str(s) => Some(s),
        _ => None,
    }
}

/// Field lookup followed by string extraction, the way a tool reads a
/// text-valued argument.
pub open spec fn model_get_str(m: ArgModel, key: Seq<char>) -> Option<Seq<char>> {
    match model_get(m, key) {
        Some(f) => model_str(f),
        None => None,
    }
}

proof fn lemma_obj_lookup_at(pairs: Seq<(Seq<char>, ArgModel)>, key: Seq<char>, i: int)
    requires
        0 <= i < pairs.len(),
        pairs[i].0 == key,
        forall|j: int| 0 <= j < i ==> pairs[j].0 != key,
    ensures
        obj_lookup(pairs, key) == Some(pairs[i].1),
    decreases i,
{
    if i > 0 {
        lemma_obj_lookup_at(pairs.drop_first(), key, i - 1);
    }
}

proof fn lemma_obj_lookup_absent(pairs: Seq<(Seq<char>, ArgModel)>, key: Seq<char>)
    requires
        forall|j: int| 0 <= j < pairs.len() ==> pairs[j].0 != key,
    ensures
        obj_lookup(pairs, key) is None,
    decreases pairs.len(),
{
    if pairs.len() > 0 {
        lemma_obj_lookup_absent(pairs.drop_first(), key);
    }
}

/// Compares two string slices by their character sequences.
pub fn str_eq(a: &str, b: &str) -> (r: bool)
    ensures
        r == (a@ == b@),
{
    let sa: String = a.to_owned();
    let sb: String = b.to_owned();
    sa == sb
}

impl ArgValue {
    /// Looks a field up by key; `None` on anything but an object that has it.
    pub fn get<'a>(&'a self, key: &str) -> (r: Option<&'a ArgValue>)
        ensures
            match r {
                Some(f) => model_get(self@, key@) == Some(f@),
                None => model_get(self@, key@) is None,
            },
    {
        match self {
            ArgValue::Obj(pairs) => {
                let n = pairs.len();
                for i in 0..n
                    invariant
                        n == pairs@.len(),
                        *self == ArgValue::Obj(*pairs),
                        forall|j: int| 0 <= j < i ==> pairs@[j].0@ != key@,
                {
                    if str_eq(pairs[i].0.as_str(), key) {
                        proof {
                            let mpairs = arg_model(*self)->Obj_0;
                            assert forall|j: int| 0 <= j < i implies mpairs[j].0 != key@ by {
                                assert(mpairs[j] == (pairs@[j].0@, arg_model(pairs@[j].1)));
                            }
                            assert(mpairs[i as int] == (pairs@[i as int].0@, arg_model(
                                pairs@[i as int].1,
                            )));
                            lemma_obj_lookup_at(mpairs, key@, i as int);
                        }
                        return Some(&pairs[i].1);
                    }
                }
                proof {
                    let mpairs = arg_model(*self)->Obj_0;
                    assert forall|j: int| 0 <= j < mpairs.len() implies mpairs[j].0 != key@ by {
                        assert(mpairs[j] == (pairs@[j].0@, arg_model(pairs@[j].1)));
                    }
                    lemma_obj_lookup_absent(mpairs, key@);
                }
                None
            },
            _ => None,
        }
    }

    /// The string content, if this value is a string.
    pub fn as_str(&self) -> (r: Option<&String>)
        ensures
            match r {
                Some(s) => model_str(self@) == Some(s@),
                None => model_str(self@) is None,
            },
    {
        match self {
            ArgValue::Str(s) => Some(s),
            _ => None,
        }
    }

    /// Field lookup followed by string extraction.
    pub fn get_str<'a>(&'a self, key: &str) -> (r: Option<&'a String>)
        ensures
            match r {
                Some(s) => model_get_str(self@, key@) == Some(s@),
                None => model_get_str(self@, key@) is None,
            },
    {
        match self.get(key) {
            Some(f) => f.as_str(),
            None => None,
        }
    }

    /// A structurally equal copy.
    pub fn duplicate(&self) -> (r: ArgValue)
        ensures
            r@ == self@,
        decreases *self,
    {
        match self {
            ArgValue::Null => ArgValue::Null,
            ArgValue::Bool(b) => ArgValue::Bool(*b),
            ArgValue::Int(i) => ArgValue::Int(*i),
            ArgValue::Str(s) => ArgValue::Str(s.clone()),
            ArgValue::Arr(items) => {
                let mut out: Vec<ArgValue> = Vec::new();
                let n = items.len();
                for i in 0..n
                    invariant
                        n == items@.len(),
                        out@.len() == i,
                        *self == ArgValue::Arr(*items),
                        forall|j: int| 0 <= j < i ==> arg_model(#[trigger] out@[j]) == arg_model(
                            items@[j],
                        ),
                {
                    proof {
                        assert(decreases_to!(*self => (*self)->Arr_0));
                        assert(decreases_to!(*items => (*items)[i as int]));
                    }
                    out.push(items[i].duplicate());
                }
                let r = ArgValue::Arr(out);
                proof {
                    let s1 = arg_model(r)->Arr_0;
                    let s2 = arg_model(*self)->Arr_0;
                    assert forall|j: int| 0 <= j < s1.len() implies s1[j] == s2[j] by {
                        assert(s1[j] == arg_model(out@[j]));
                        assert(s2[j] == arg_model(items@[j]));
                    }
                    assert(s1 =~= s2);
                }
                r
            },
            ArgValue::Obj(pairs) => {
                let mut out: Vec<(String, ArgValue)> = Vec::new();
                let n = pairs.len();
                for i in 0..n
                    invariant
                        n == pairs@.len(),
                        out@.len() == i,
                        *self == ArgValue::Obj(*pairs),
                        forall|j: int| 0 <= j < i ==> (#[trigger] out@[j]).0@ == pairs@[j].0@
                            && arg_model(out@[j].1) == arg_model(pairs@[j].1),
                {
                    proof {
                        assert(decreases_to!(*self => (*self)->Obj_0));
                        assert(decreases_to!(*pairs => (*pairs)[i as int]));
                        assert(decreases_to!((*pairs)[i as int] => (*pairs)[i as int].1));
                    }
                    out.push((pairs[i].0.clone(), pairs[i].1.duplicate()));
                }
                let r = ArgValue::Obj(out);
                proof {
                    let s1 = arg_model(r)->Obj_0;
                    let s2 = arg_model(*self)->Obj_0;
                    assert forall|j: int| 0 <= j < s1.len() implies s1[j] == s2[j] by {
                        assert(s1[j] == (out@[j].0@, arg_model(out@[j].1)));
                        assert(s2[j] == (pairs@[j].0@, arg_model(pairs@[j].1)));
                    }
                    assert(s1 =~= s2);
                }
                r
            },
        }
    }
}

} // verus!
