//! A model of wire JSON built from plain values, so that the protocol logic
//! that reads and builds JSON payloads can be verified. Integers in the `i64`
//! range are held as `Int`; any other number keeps its raw decimal text in
//! `Num` and is passed through untouched. Objects are ordered field lists;
//! a lookup returns the first field with the given key.

use vstd::prelude::*;

verus! {

broadcast use vstd::std_specs::vec::group_vec_axioms, vstd::seq::group_seq_axioms;

/// One wire JSON value, as the protocol logic sees it.
#[derive(Debug)]
pub enum JsonValue {
    Null,
    Bool(bool),
    Int(i64),
    Num(String),
    Str(String),
    Arr(Vec<JsonValue>),
    Obj(Vec<(String, JsonValue)>),
}

/// The mathematical shape of a JSON value: what the contracts speak of.
#[verifier::ext_equal]
pub enum JsonModel {
    Null,
    Bool(bool),
    Int(i64),
    Num(Seq<char>),
    Str(Seq<char>),
    Arr(Seq<JsonModel>),
    Obj(Seq<(Seq<char>, JsonModel)>),
}

/// The mathematical value that a `JsonValue` holds.
pub open spec fn json_model(v: JsonValue) -> JsonModel
    decreases v,
{
    match v {
        JsonValue::Null => JsonModel::Null,
        JsonValue::Bool(b) => JsonModel::Bool(b),
        JsonValue::Int(i) => JsonModel::Int(i),
        JsonValue::Num(s) => JsonModel::Num(s@),
        JsonValue::Str(s) => JsonModel::Str(s@),
        JsonValue::Arr(items) => JsonModel::Arr(
            Seq::new(
                items@.len(),
                |i: int|
                    if 0 <= i < items@.len() {
                        json_model(items@[i])
                    } else {
                        JsonModel::Null
                    },
            ),
        ),
        JsonValue::Obj(fields) => JsonModel::Obj(
            Seq::new(
                fields@.len(),
                |i: int|
                    if 0 <= i < fields@.len() {
                        (fields@[i].0@, json_model(fields@[i].1))
                    } else {
                        (Seq::empty(), JsonModel::Null)
                    },
            ),
        ),
    }
}

impl View for JsonValue {
    type V = JsonModel;

    open spec fn view(&self) -> JsonModel {
        json_model(*self)
    }
}

impl DeepView for JsonValue {
    type V = JsonModel;

    open spec fn deep_view(&self) -> JsonModel {
        self.view()
    }
}

impl Clone for JsonValue {
    /// A structural copy: the clone models the same JSON value.
    #[verifier::loop_isolation(false)]
    fn clone(&self) -> (r: Self)
        ensures
            r@ == self@,
        decreases self,
    {
        match self {
            JsonValue::Null => JsonValue::Null,
            JsonValue::Bool(b) => JsonValue::Bool(*b),
            JsonValue::Int(i) => JsonValue::Int(*i),
            JsonValue::Num(s) => JsonValue::Num(s.clone()),
            JsonValue::Str(s) => JsonValue::Str(s.clone()),
            JsonValue::Arr(items) => {
                let mut out: Vec<JsonValue> = Vec::new();
                let mut i: usize = 0;
                while i < items.len()
                    invariant
                        i <= items@.len(),
                        out@.len() == i,
                        forall|j: int| 0 <= j < i ==> out@[j]@ == items@[j]@,
                    decreases items@.len() - i,
                {
                    proof {
                        assert(*self == JsonValue::Arr(*items));
                        assert(decreases_to!(*self => *items));
                        assert(decreases_to!(*items => items@));
                        assert(decreases_to!(items@ => items@[i as int]));
                    }
                    out.push(items[i].clone());
                    i += 1;
                }
                let r = JsonValue::Arr(out);
                proof {
                    let m = Seq::new(out@.len(), |j: int| json_model(out@[j]));
                    lemma_arr_model(out, m);
                    assert(*self == JsonValue::Arr(*items));
                    lemma_arr_model(*items, m);
                }
                r
            },
            JsonValue::Obj(fields) => {
                let mut out: Vec<(String, JsonValue)> = Vec::new();
                let mut i: usize = 0;
                while i < fields.len()
                    invariant
                        i <= fields@.len(),
                        out@.len() == i,
                        forall|j: int|
                            0 <= j < i ==> out@[j].0@ == fields@[j].0@ && out@[j].1@
                                == fields@[j].1@,
                    decreases fields@.len() - i,
                {
                    proof {
                        assert(*self == JsonValue::Obj(*fields));
                        assert(decreases_to!(*self => *fields));
                        assert(decreases_to!(*fields => fields@));
                        assert(decreases_to!(fields@ => fields@[i as int]));
                        assert(decreases_to!(fields@[i as int] => fields@[i as int].1));
                    }
                    let key = fields[i].0.clone();
                    let val = fields[i].1.clone();
                    out.push((key, val));
                    i += 1;
                }
                let r = JsonValue::Obj(out);
                proof {
                    let m = Seq::new(out@.len(), |j: int| (out@[j].0@, json_model(out@[j].1)));
                    lemma_obj_model(out, m);
                    assert(*self == JsonValue::Obj(*fields));
                    lemma_obj_model(*fields, m);
                }
                r
            },
        }
    }
}

/// The first field of `fields` named `key`, if any.
pub open spec fn spec_get_fields(fields: Seq<(Seq<char>, JsonModel)>, key: Seq<char>) -> Option<
    JsonModel,
>
    decreases fields.len(),
{
    if fields.len() == 0 {
        None
    } else if fields[0].0 == key {
        Some(fields[0].1)
    } else {
        spec_get_fields(fields.drop_first(), key)
    }
}

/// The value of field `key` when `m` is an object holding one, and nothing
/// otherwise.
pub open spec fn spec_get(m: JsonModel, key: Seq<char>) -> Option<JsonModel> {
    match m {
        JsonModel::Obj(fields) => spec_get_fields(fields, key),
        _ => None,
    }
}

proof fn lemma_get_fields_skip(fields: Seq<(Seq<char>, JsonModel)>, key: Seq<char>, i: int)
    requires
        0 <= i < fields.len(),
        fields[i].0 != key,
    ensures
        spec_get_fields(fields.skip(i), key) == spec_get_fields(fields.skip(i + 1), key),
{
    assert(fields.skip(i).len() > 0);
    assert(fields.skip(i)[0] == fields[i]);
    assert(fields.skip(i).drop_first() =~= fields.skip(i + 1));
}

impl JsonValue {
    /// The field named `key` of this object; `None` when this is not an
    /// object or has no such field. The first field with the key wins.
    #[verifier::loop_isolation(false)]
    pub fn get<'a>(&'a self, key: &str) -> (r: Option<&'a JsonValue>)
        ensures
            match r {
                Some(v) => spec_get(self@, key@) == Some(v@),
                None => spec_get(self@, key@) is None,
            },
    {
        match self {
            JsonValue::Obj(fields) => {
                let ghost m = Seq::new(fields@.len(), |i: int| (fields@[i].0@, fields@[i].1@));
                proof {
                    lemma_obj_model(*fields, m);
                    assert(*self == JsonValue::Obj(*fields));
                    assert(m.skip(0) =~= m);
                }
                let mut i: usize = 0;
                while i < fields.len()
                    invariant
                        i <= fields@.len(),
                        m == Seq::new(fields@.len(), |k: int| (fields@[k].0@, fields@[k].1@)),
                        spec_get_fields(m, key@) == spec_get_fields(m.skip(i as int), key@),
                    decreases fields@.len() - i,
                {
                    if crate::strutil::str_eq(fields[i].0.as_str(), key) {
                        assert(m.skip(i as int)[0] == m[i as int]);
                        return Some(&fields[i].1);
                    }
                    proof {
                        lemma_get_fields_skip(m, key@, i as int);
                    }
                    i += 1;
                }
                assert(m.skip(fields@.len() as int) =~= Seq::<(Seq<char>, JsonModel)>::empty());
                None
            },
            _ => None,
        }
    }

    /// The characters of this value when it is a string.
    pub fn as_str<'a>(&'a self) -> (r: Option<&'a String>)
        ensures
            match r {
                Some(s) => self@ == JsonModel::Str(s@),
                None => !(self@ is Str),
            },
    {
        match self {
            JsonValue::Str(s) => Some(s),
            _ => None,
        }
    }

    /// The value of this JSON integer.
    pub fn as_i64(&self) -> (r: Option<i64>)
        ensures
            match r {
                Some(i) => self@ == JsonModel::Int(i),
                None => !(self@ is Int),
            },
    {
        match self {
            JsonValue::Int(i) => Some(*i),
            _ => None,
        }
    }

    /// The value of this JSON boolean.
    pub fn as_bool(&self) -> (r: Option<bool>)
        ensures
            match r {
                Some(b) => self@ == JsonModel::Bool(b),
                None => !(self@ is Bool),
            },
    {
        match self {
            JsonValue::Bool(b) => Some(*b),
            _ => None,
        }
    }

    /// The elements of this value when it is an array.
    pub fn as_arr<'a>(&'a self) -> (r: Option<&'a Vec<JsonValue>>)
        ensures
            match r {
                Some(items) => self@ == JsonModel::Arr(
                    Seq::new(items@.len(), |i: int| items@[i]@),
                ),
                None => !(self@ is Arr),
            },
    {
        match self {
            JsonValue::Arr(items) => {
                proof {
                    lemma_arr_model(*items, Seq::new(items@.len(), |i: int| items@[i]@));
                    assert(*self == JsonValue::Arr(*items));
                }
                Some(items)
            },
            _ => None,
        }
    }

    /// The fields of this value when it is an object.
    pub fn as_obj<'a>(&'a self) -> (r: Option<&'a Vec<(String, JsonValue)>>)
        ensures
            match r {
                Some(fields) => self@ == JsonModel::Obj(
                    Seq::new(fields@.len(), |i: int| (fields@[i].0@, fields@[i].1@)),
                ),
                None => !(self@ is Obj),
            },
    {
        match self {
            JsonValue::Obj(fields) => {
                proof {
                    lemma_obj_model(
                        *fields,
                        Seq::new(fields@.len(), |i: int| (fields@[i].0@, fields@[i].1@)),
                    );
                    assert(*self == JsonValue::Obj(*fields));
                }
                Some(fields)
            },
            _ => None,
        }
    }

    /// Whether this value is JSON `null`.
    pub fn is_null(&self) -> (r: bool)
        ensures
            r == (self@ is Null),
    {
        match self {
            JsonValue::Null => true,
            _ => false,
        }
    }
}


/// The model of an array value, element by element.
pub proof fn lemma_arr_model(items: Vec<JsonValue>, m: Seq<JsonModel>)
    requires
        m.len() == items@.len(),
        forall|i: int| 0 <= i < items@.len() ==> m[i] == json_model(items@[i]),
    ensures
        json_model(JsonValue::Arr(items)) == JsonModel::Arr(m),
{
    assert(json_model(JsonValue::Arr(items)) is Arr);
    assert(json_model(JsonValue::Arr(items))->Arr_0.len() == m.len());
    assert forall|i: int| 0 <= i < m.len() implies json_model(JsonValue::Arr(items))->Arr_0[i]
        == m[i] by {
        assert(json_model(JsonValue::Arr(items))->Arr_0[i] == json_model(items@[i]));
    };
    assert(json_model(JsonValue::Arr(items))->Arr_0 =~= m);
    assert(json_model(JsonValue::Arr(items)) =~= JsonModel::Arr(m));
}

/// The model of an object value, field by field.
pub proof fn lemma_obj_model(fields: Vec<(String, JsonValue)>, m: Seq<(Seq<char>, JsonModel)>)
    requires
        m.len() == fields@.len(),
        forall|i: int|
            0 <= i < fields@.len() ==> m[i].0 == fields@[i].0@ && m[i].1 == json_model(
                fields@[i].1,
            ),
    ensures
        json_model(JsonValue::Obj(fields)) == JsonModel::Obj(m),
{
    assert(json_model(JsonValue::Obj(fields)) is Obj);
    assert(json_model(JsonValue::Obj(fields))->Obj_0.len() == m.len());
    assert forall|i: int| 0 <= i < m.len() implies json_model(JsonValue::Obj(fields))->Obj_0[i]
        == m[i] by {
        assert(json_model(JsonValue::Obj(fields))->Obj_0[i] == (
            fields@[i].0@,
            json_model(fields@[i].1),
        ));
    };
    assert(json_model(JsonValue::Obj(fields))->Obj_0 =~= m);
    assert(json_model(JsonValue::Obj(fields)) =~= JsonModel::Obj(m));
}


/// The value of field `k` when `m` is an object holding it as a string.
pub open spec fn spec_str_field(m: JsonModel, k: Seq<char>) -> Option<Seq<char>> {
    match spec_get(m, k) {
        Some(v) => match v {
            JsonModel::Str(s) => Some(s),
            _ => None,
        },
        None => None,
    }
}

/// The value of field `k` when `m` is an object holding it as an integer.
pub open spec fn spec_int_field(m: JsonModel, k: Seq<char>) -> Option<i64> {
    match spec_get(m, k) {
        Some(v) => match v {
            JsonModel::Int(i) => Some(i),
            _ => None,
        },
        None => None,
    }
}

/// The value of field `k` when `m` is an object holding it as a boolean.
pub open spec fn spec_bool_field(m: JsonModel, k: Seq<char>) -> Option<bool> {
    match spec_get(m, k) {
        Some(v) => match v {
            JsonModel::Bool(b) => Some(b),
            _ => None,
        },
        None => None,
    }
}

/// The elements of field `k` when `m` is an object holding it as an array.
pub open spec fn spec_arr_field(m: JsonModel, k: Seq<char>) -> Option<Seq<JsonModel>> {
    match spec_get(m, k) {
        Some(v) => match v {
            JsonModel::Arr(a) => Some(a),
            _ => None,
        },
        None => None,
    }
}

/// The fields of field `k` when `m` is an object holding it as an object.
pub open spec fn spec_obj_field(m: JsonModel, k: Seq<char>) -> Option<
    Seq<(Seq<char>, JsonModel)>,
> {
    match spec_get(m, k) {
        Some(v) => match v {
            JsonModel::Obj(fs) => Some(fs),
            _ => None,
        },
        None => None,
    }
}

/// An optional string field decodes when it is absent, null, or a string.
pub open spec fn spec_opt_str_field_ok(m: JsonModel, k: Seq<char>) -> bool {
    match spec_get(m, k) {
        None => true,
        Some(v) => v is Null || v is Str,
    }
}

/// The value of an optional string field; absent and null are both `None`.
pub open spec fn spec_opt_str_field(m: JsonModel, k: Seq<char>) -> Option<Seq<char>> {
    spec_str_field(m, k)
}

/// An optional integer field decodes when it is absent, null, or an integer.
pub open spec fn spec_opt_int_field_ok(m: JsonModel, k: Seq<char>) -> bool {
    match spec_get(m, k) {
        None => true,
        Some(v) => v is Null || v is Int,
    }
}

/// An optional boolean field decodes when it is absent, null, or a boolean.
pub open spec fn spec_opt_bool_field_ok(m: JsonModel, k: Seq<char>) -> bool {
    match spec_get(m, k) {
        None => true,
        Some(v) => v is Null || v is Bool,
    }
}

/// The value of an optional pass-through field; absent and null are `None`.
pub open spec fn spec_opt_any_field(m: JsonModel, k: Seq<char>) -> Option<JsonModel> {
    match spec_get(m, k) {
        Some(v) => if v is Null {
            None
        } else {
            Some(v)
        },
        None => None,
    }
}

impl JsonValue {
    /// Field `k` as a string, when this is an object holding one.
    pub fn str_field<'a>(&'a self, k: &str) -> (r: Option<&'a String>)
        ensures
            match r {
                Some(s) => spec_str_field(self@, k@) == Some(s@),
                None => spec_str_field(self@, k@) is None,
            },
    {
        match self.get(k) {
            Some(v) => v.as_str(),
            None => None,
        }
    }

    /// Field `k` as an integer, when this is an object holding one.
    pub fn int_field(&self, k: &str) -> (r: Option<i64>)
        ensures
            r == spec_int_field(self@, k@),
    {
        match self.get(k) {
            Some(v) => v.as_i64(),
            None => None,
        }
    }

    /// Field `k` as a boolean, when this is an object holding one.
    pub fn bool_field(&self, k: &str) -> (r: Option<bool>)
        ensures
            r == spec_bool_field(self@, k@),
    {
        match self.get(k) {
            Some(v) => v.as_bool(),
            None => None,
        }
    }

    /// Field `k` as an array, when this is an object holding one.
    pub fn arr_field<'a>(&'a self, k: &str) -> (r: Option<&'a Vec<JsonValue>>)
        ensures
            match r {
                Some(items) => spec_arr_field(self@, k@) matches Some(a) && a.len()
                    == items@.len() && (forall|i: int|
                    #![trigger a[i]]
                    #![trigger items@[i]]
                    0 <= i < items@.len() ==> a[i] == items@[i]@),
                None => spec_arr_field(self@, k@) is None,
            },
    {
        match self.get(k) {
            Some(v) => v.as_arr(),
            None => None,
        }
    }

    /// Field `k` as an object, when this is an object holding one.
    pub fn obj_field<'a>(&'a self, k: &str) -> (r: Option<&'a Vec<(String, JsonValue)>>)
        ensures
            match r {
                Some(fs) => spec_obj_field(self@, k@) matches Some(a) && a.len() == fs@.len() && (
                forall|i: int|
                    #![trigger a[i]]
                    #![trigger fs@[i]]
                    0 <= i < fs@.len() ==> a[i].0 == fs@[i].0@ && a[i].1 == fs@[i].1@),
                None => spec_obj_field(self@, k@) is None,
            },
    {
        match self.get(k) {
            Some(v) => v.as_obj(),
            None => None,
        }
    }

    /// An optional string field: absent and null are `None`; any other
    /// non-string value refuses to decode.
    pub fn opt_str_field(&self, k: &str) -> (r: Result<Option<String>, ()>)
        ensures
            match r {
                Ok(v) => spec_opt_str_field_ok(self@, k@) && (match v {
                    Some(s) => spec_opt_str_field(self@, k@) == Some(s@),
                    None => spec_opt_str_field(self@, k@) is None,
                }),
                Err(u) => !spec_opt_str_field_ok(self@, k@),
            },
    {
        match self.get(k) {
            None => Ok(None),
            Some(v) => match v {
                JsonValue::Null => Ok(None),
                JsonValue::Str(s) => Ok(Some(s.clone())),
                _ => Err(()),
            },
        }
    }

    /// An optional integer field: absent and null are `None`; any other
    /// non-integer value refuses to decode.
    pub fn opt_int_field(&self, k: &str) -> (r: Result<Option<i64>, ()>)
        ensures
            match r {
                Ok(v) => spec_opt_int_field_ok(self@, k@) && v == spec_int_field(self@, k@),
                Err(u) => !spec_opt_int_field_ok(self@, k@),
            },
    {
        match self.get(k) {
            None => Ok(None),
            Some(v) => match v {
                JsonValue::Null => Ok(None),
                JsonValue::Int(i) => Ok(Some(*i)),
                _ => Err(()),
            },
        }
    }

    /// An optional boolean field: absent and null are `None`; any other
    /// non-boolean value refuses to decode.
    pub fn opt_bool_field(&self, k: &str) -> (r: Result<Option<bool>, ()>)
        ensures
            match r {
                Ok(v) => spec_opt_bool_field_ok(self@, k@) && v == spec_bool_field(self@, k@),
                Err(u) => !spec_opt_bool_field_ok(self@, k@),
            },
    {
        match self.get(k) {
            None => Ok(None),
            Some(v) => match v {
                JsonValue::Null => Ok(None),
                JsonValue::Bool(b) => Ok(Some(*b)),
                _ => Err(()),
            },
        }
    }

    /// An optional pass-through field: absent and null are `None`, anything
    /// else is kept as it came.
    pub fn opt_any_field<'a>(&'a self, k: &str) -> (r: Option<&'a JsonValue>)
        ensures
            match r {
                Some(v) => spec_opt_any_field(self@, k@) == Some(v@),
                None => spec_opt_any_field(self@, k@) is None,
            },
    {
        match self.get(k) {
            None => None,
            Some(v) => match v {
                JsonValue::Null => None,
                _ => Some(v),
            },
        }
    }
}


/// Copy a whole array of JSON values; the copy models the same sequence.
#[verifier::loop_isolation(false)]
pub fn clone_json_vec(items: &Vec<JsonValue>) -> (r: Vec<JsonValue>)
    ensures
        r@.len() == items@.len(),
        forall|i: int|
            #![trigger r@[i]]
            #![trigger items@[i]]
            0 <= i < items@.len() ==> r@[i]@ == items@[i]@,
{
    let mut out: Vec<JsonValue> = Vec::new();
    let mut i: usize = 0;
    while i < items.len()
        invariant
            i <= items@.len(),
            out@.len() == i,
            forall|j: int|
                #![trigger out@[j]]
                #![trigger items@[j]]
                0 <= j < i ==> out@[j]@ == items@[j]@,
        decreases items@.len() - i,
    {
        out.push(items[i].clone());
        i += 1;
    }
    out
}

} // verus!