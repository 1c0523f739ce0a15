//! The negotiated wire data model: the registry lookup response, the
//! application configuration with its route table, the capability schema,
//! and the queue protocol messages. Each type carries a decoder from the
//! JSON model together with the exact shape it accepts.

use vstd::prelude::*;

verus! {

broadcast use vstd::std_specs::vec::group_vec_axioms, vstd::seq::group_seq_axioms, vstd::string::group_string_axioms;

use crate::json::JsonValue;
use crate::json::JsonModel;
use crate::json::spec_get;
use crate::json::spec_str_field;
use crate::json::spec_int_field;
use crate::json::spec_bool_field;
use crate::json::spec_opt_bool_field_ok;
use crate::json::spec_opt_int_field_ok;
use crate::json::spec_opt_str_field_ok;
use crate::json::spec_opt_str_field;
use crate::json::spec_opt_any_field;
use crate::json::spec_arr_field;
use crate::json::spec_obj_field;

/// The sentinel a route entry declares when its execution index is unset:
/// the entry's position in the route table is used instead.
pub const UNSET_ROUTE_ID: i64 = -1;

/// The execution index that a route entry takes when the wire omits one.
pub fn default_id() -> (r: i64)
    ensures
        r == UNSET_ROUTE_ID,
{
    -1
}

/// The registry's answer to an `owner/name` lookup: the hosting URL.
#[derive(Clone, Debug)]
pub struct HuggingFaceAPIHost {
    pub host: String,
}

/// The body of a registry lookup response decodes when it is an object with
/// a string `host` field.
pub open spec fn spec_host_ok(m: JsonModel) -> bool {
    spec_str_field(m, "host"@) is Some
}

impl HuggingFaceAPIHost {
    /// Decode a registry lookup response body.
    pub fn from_json(v: &JsonValue) -> (r: Option<HuggingFaceAPIHost>)
        ensures
            match r {
                Some(h) => spec_str_field(v@, "host"@) == Some(h.host@),
                None => !spec_host_ok(v@),
            },
    {
        match v.str_field("host") {
            Some(h) => Some(HuggingFaceAPIHost { host: h.clone() }),
            None => None,
        }
    }
}

/// A wire value that is either a string or an integer.
#[derive(Clone, Debug)]
pub enum StringOrI64 {
    Str(String),
    I64(i64),
}

/// What a [`StringOrI64`] accepts.
pub open spec fn spec_string_or_i64_ok(m: JsonModel) -> bool {
    m is Str || m is Int
}

/// `x` is the decode of `m`.
pub open spec fn spec_string_or_i64_matches(x: StringOrI64, m: JsonModel) -> bool {
    match x {
        StringOrI64::Str(s) => m == JsonModel::Str(s@),
        StringOrI64::I64(i) => m == JsonModel::Int(i),
    }
}

impl StringOrI64 {
    /// Decode a string-or-integer wire value.
    pub fn from_json(v: &JsonValue) -> (r: Option<StringOrI64>)
        ensures
            match r {
                Some(x) => spec_string_or_i64_matches(x, v@),
                None => !spec_string_or_i64_ok(v@),
            },
    {
        match v {
            JsonValue::Str(s) => Some(StringOrI64::Str(s.clone())),
            JsonValue::Int(i) => Some(StringOrI64::I64(*i)),
            _ => None,
        }
    }
}

/// One route table entry: a route name and its declared execution index;
/// the index defaults to the unset sentinel when the wire omits it.
#[derive(Clone, Debug)]
pub struct Dependency {
    pub api_name: String,
    pub id: i64,
    pub queue: Option<bool>,
}

/// What a route table entry accepts: a string `api_name`, an `id` that is
/// an integer when present at all, and a `queue` flag that is a boolean
/// when present and not null.
pub open spec fn spec_dependency_ok(m: JsonModel) -> bool {
    &&& spec_str_field(m, "api_name"@) is Some
    &&& (match spec_get(m, "id"@) {
        None => true,
        Some(v) => v is Int,
    })
    &&& spec_opt_bool_field_ok(m, "queue"@)
}

/// The declared execution index of entry `m`: its `id` field, or the unset
/// sentinel when the wire omits it.
pub open spec fn spec_dependency_id(m: JsonModel) -> i64 {
    match spec_int_field(m, "id"@) {
        Some(i) => i,
        None => UNSET_ROUTE_ID,
    }
}

/// `d` is the decode of `m`.
pub open spec fn spec_dependency_matches(d: Dependency, m: JsonModel) -> bool {
    &&& spec_str_field(m, "api_name"@) == Some(d.api_name@)
    &&& d.id == spec_dependency_id(m)
    &&& d.queue == spec_bool_field(m, "queue"@)
}

impl Dependency {
    /// Decode one route table entry.
    pub fn from_json(v: &JsonValue) -> (r: Option<Dependency>)
        ensures
            match r {
                Some(d) => spec_dependency_ok(v@) && spec_dependency_matches(d, v@),
                None => !spec_dependency_ok(v@),
            },
    {
        let api_name = match v.str_field("api_name") {
            Some(s) => s.clone(),
            None => {
                return None;
            },
        };
        let id: i64 = match v.get("id") {
            None => default_id(),
            Some(idv) => match idv.as_i64() {
                Some(i) => i,
                None => {
                    return None;
                },
            },
        };
        let queue = match v.opt_bool_field("queue") {
            Ok(q) => q,
            Err(u) => {
                return None;
            },
        };
        Some(Dependency { api_name, id, queue })
    }
}

/// The queue-join response: the event identifier that scopes the rest of
/// the invocation.
#[derive(Clone, Debug)]
pub struct QueueJoinResponse {
    pub event_id: String,
}

/// What a queue-join response accepts: a string `event_id`.
pub open spec fn spec_join_response_ok(m: JsonModel) -> bool {
    spec_str_field(m, "event_id"@) is Some
}

impl QueueJoinResponse {
    /// Decode a queue-join response body.
    pub fn from_json(v: &JsonValue) -> (r: Option<QueueJoinResponse>)
        ensures
            match r {
                Some(j) => spec_str_field(v@, "event_id"@) == Some(j.event_id@),
                None => !spec_join_response_ok(v@),
            },
    {
        match v.str_field("event_id") {
            Some(s) => Some(QueueJoinResponse { event_id: s.clone() }),
            None => None,
        }
    }
}

/// The wire-level type tag of a parameter or return slot, with its
/// description; the description defaults to empty when the wire omits it.
#[derive(Clone, Debug)]
pub struct ApiDataType {
    pub ty: String,
    pub description: String,
}

/// What a wire type tag accepts: a string `type`, and a `description` that
/// is a string when present at all.
pub open spec fn spec_api_data_type_ok(m: JsonModel) -> bool {
    &&& spec_str_field(m, "type"@) is Some
    &&& (match spec_get(m, "description"@) {
        None => true,
        Some(v) => v is Str,
    })
}

/// `t` is the decode of `m`.
pub open spec fn spec_api_data_type_matches(t: ApiDataType, m: JsonModel) -> bool {
    &&& spec_str_field(m, "type"@) == Some(t.ty@)
    &&& (match spec_str_field(m, "description"@) {
        Some(d) => t.description@ == d,
        None => t.description@ == Seq::<char>::empty(),
    })
}

impl ApiDataType {
    /// Decode a wire type tag.
    pub fn from_json(v: &JsonValue) -> (r: Option<ApiDataType>)
        ensures
            match r {
                Some(t) => spec_api_data_type_ok(v@) && spec_api_data_type_matches(t, v@),
                None => !spec_api_data_type_ok(v@),
            },
    {
        let ty = match v.str_field("type") {
            Some(s) => s.clone(),
            None => {
                return None;
            },
        };
        let description: String = match v.get("description") {
            None => String::new(),
            Some(d) => match d.as_str() {
                Some(s) => s.clone(),
                None => {
                    return None;
                },
            },
        };
        Some(ApiDataType { ty, description })
    }
}

/// The richer descriptive type of a parameter or return slot.
#[derive(Clone, Debug)]
pub struct ApiDataPythonType {
    pub ty: String,
    pub description: String,
}

/// What a descriptive type accepts: string `type` and `description`.
pub open spec fn spec_api_data_python_type_ok(m: JsonModel) -> bool {
    &&& spec_str_field(m, "type"@) is Some
    &&& spec_str_field(m, "description"@) is Some
}

/// `t` is the decode of `m`.
pub open spec fn spec_api_data_python_type_matches(t: ApiDataPythonType, m: JsonModel) -> bool {
    &&& spec_str_field(m, "type"@) == Some(t.ty@)
    &&& spec_str_field(m, "description"@) == Some(t.description@)
}

impl ApiDataPythonType {
    /// Decode a descriptive type.
    pub fn from_json(v: &JsonValue) -> (r: Option<ApiDataPythonType>)
        ensures
            match r {
                Some(t) => spec_api_data_python_type_ok(v@) && spec_api_data_python_type_matches(
                    t,
                    v@,
                ),
                None => !spec_api_data_python_type_ok(v@),
            },
    {
        let ty = match v.str_field("type") {
            Some(s) => s.clone(),
            None => {
                return None;
            },
        };
        let description = match v.str_field("description") {
            Some(s) => s.clone(),
            None => {
                return None;
            },
        };
        Some(ApiDataPythonType { ty, description })
    }
}


/// `x` carries exactly the optional pass-through value `o`.
pub open spec fn spec_opt_json_matches(x: Option<JsonValue>, o: Option<JsonModel>) -> bool {
    match x {
        Some(j) => o == Some(j@),
        None => o is None,
    }
}

/// `x` carries exactly the optional string `o`.
pub open spec fn spec_opt_string_matches(x: Option<String>, o: Option<Seq<char>>) -> bool {
    match x {
        Some(t) => o == Some(t@),
        None => o is None,
    }
}

/// One parameter or return slot of a route: its display label, optional
/// parameter name, wire type tag and richer descriptive type.
#[derive(Clone, Debug)]
pub struct ApiData {
    pub label: Option<String>,
    pub parameter_name: Option<String>,
    pub parameter_default: Option<JsonValue>,
    pub parameter_has_default: Option<bool>,
    pub component: String,
    pub example_input: Option<JsonValue>,
    pub ty: ApiDataType,
    pub python_type: ApiDataPythonType,
}

/// What a slot descriptor accepts.
pub open spec fn spec_api_data_ok(m: JsonModel) -> bool {
    &&& spec_opt_str_field_ok(m, "label"@)
    &&& spec_opt_str_field_ok(m, "parameter_name"@)
    &&& spec_opt_bool_field_ok(m, "parameter_has_default"@)
    &&& spec_str_field(m, "component"@) is Some
    &&& (spec_get(m, "type"@) matches Some(tm) && spec_api_data_type_ok(tm))
    &&& (spec_get(m, "python_type"@) matches Some(pm) && spec_api_data_python_type_ok(pm))
}

/// `d` is the decode of `m`.
pub open spec fn spec_api_data_matches(d: ApiData, m: JsonModel) -> bool {
    &&& spec_opt_string_matches(d.label, spec_opt_str_field(m, "label"@))
    &&& spec_opt_string_matches(d.parameter_name, spec_opt_str_field(m, "parameter_name"@))
    &&& spec_opt_json_matches(d.parameter_default, spec_opt_any_field(m, "parameter_default"@))
    &&& d.parameter_has_default == spec_bool_field(m, "parameter_has_default"@)
    &&& spec_str_field(m, "component"@) == Some(d.component@)
    &&& spec_opt_json_matches(d.example_input, spec_opt_any_field(m, "example_input"@))
    &&& (spec_get(m, "type"@) matches Some(tm) && spec_api_data_type_matches(d.ty, tm))
    &&& (spec_get(m, "python_type"@) matches Some(pm) && spec_api_data_python_type_matches(
        d.python_type,
        pm,
    ))
}

impl ApiData {
    /// Decode one slot descriptor.
    pub fn from_json(v: &JsonValue) -> (r: Option<ApiData>)
        ensures
            match r {
                Some(d) => spec_api_data_ok(v@) && spec_api_data_matches(d, v@),
                None => !spec_api_data_ok(v@),
            },
    {
        let label = match v.opt_str_field("label") {
            Ok(x) => x,
            Err(u) => {
                return None;
            },
        };
        let parameter_name = match v.opt_str_field("parameter_name") {
            Ok(x) => x,
            Err(u) => {
                return None;
            },
        };
        let parameter_default = match v.opt_any_field("parameter_default") {
            Some(x) => Some(x.clone()),
            None => None,
        };
        let parameter_has_default = match v.opt_bool_field("parameter_has_default") {
            Ok(x) => x,
            Err(u) => {
                return None;
            },
        };
        let component = match v.str_field("component") {
            Some(s) => s.clone(),
            None => {
                return None;
            },
        };
        let example_input = match v.opt_any_field("example_input") {
            Some(x) => Some(x.clone()),
            None => None,
        };
        let ty = match v.get("type") {
            Some(tv) => match ApiDataType::from_json(tv) {
                Some(t) => t,
                None => {
                    return None;
                },
            },
            None => {
                return None;
            },
        };
        let python_type = match v.get("python_type") {
            Some(pv) => match ApiDataPythonType::from_json(pv) {
                Some(t) => t,
                None => {
                    return None;
                },
            },
            None => {
                return None;
            },
        };
        Some(
            ApiData {
                label,
                parameter_name,
                parameter_default,
                parameter_has_default,
                component,
                example_input,
                ty,
                python_type,
            },
        )
    }
}

/// Every element of `a` is an acceptable slot descriptor.
pub open spec fn spec_api_data_arr_ok(a: Seq<JsonModel>) -> bool {
    forall|i: int| 0 <= i < a.len() ==> spec_api_data_ok(a[i])
}

/// Decode a whole array of slot descriptors; one bad element refuses the
/// array.
#[verifier::loop_isolation(false)]
fn decode_api_data_vec(items: &Vec<JsonValue>) -> (r: Option<Vec<ApiData>>)
    ensures
        match r {
            Some(ds) => ds@.len() == items@.len() && (forall|i: int|
                #![trigger ds@[i]]
                #![trigger items@[i]]
                0 <= i < items@.len() ==> spec_api_data_ok(items@[i]@) && spec_api_data_matches(
                    ds@[i],
                    items@[i]@,
                )),
            None => exists|i: int| 0 <= i < items@.len() && !spec_api_data_ok(items@[i]@),
        },
{
    let mut out: Vec<ApiData> = Vec::new();
    let mut i: usize = 0;
    while i < items.len()
        invariant
            i <= items@.len(),
            out@.len() == i,
            forall|j: int|
                #![trigger out@[j]]
                #![trigger items@[j]]
                0 <= j < i ==> spec_api_data_ok(items@[j]@) && spec_api_data_matches(
                    out@[j],
                    items@[j]@,
                ),
        decreases items@.len() - i,
    {
        match ApiData::from_json(&items[i]) {
            Some(d) => {
                out.push(d);
            },
            None => {
                return None;
            },
        }
        i += 1;
    }
    Some(out)
}

/// The declared parameter and return slots of one route.
#[derive(Clone, Debug)]
pub struct EndpointInfo {
    pub parameters: Vec<ApiData>,
    pub outputs: Vec<ApiData>,
    pub show_api: Option<bool>,
}

/// What a route schema accepts: `parameters` and `returns` arrays of slot
/// descriptors, and a `show_api` flag that is a boolean when present.
pub open spec fn spec_endpoint_info_ok(m: JsonModel) -> bool {
    &&& (spec_arr_field(m, "parameters"@) matches Some(a) && spec_api_data_arr_ok(a))
    &&& (spec_arr_field(m, "returns"@) matches Some(a) && spec_api_data_arr_ok(a))
    &&& spec_opt_bool_field_ok(m, "show_api"@)
}

/// `e` is the decode of `m`.
pub open spec fn spec_endpoint_info_matches(e: EndpointInfo, m: JsonModel) -> bool {
    &&& (spec_arr_field(m, "parameters"@) matches Some(a) && e.parameters@.len() == a.len() && (
    forall|i: int| 0 <= i < a.len() ==> spec_api_data_matches(e.parameters@[i], a[i])))
    &&& (spec_arr_field(m, "returns"@) matches Some(a) && e.outputs@.len() == a.len() && (forall|
    i: int|
        0 <= i < a.len() ==> spec_api_data_matches(e.outputs@[i], a[i])))
    &&& e.show_api == spec_bool_field(m, "show_api"@)
}

impl EndpointInfo {
    /// Decode one route schema.
    pub fn from_json(v: &JsonValue) -> (r: Option<EndpointInfo>)
        ensures
            match r {
                Some(e) => spec_endpoint_info_ok(v@) && spec_endpoint_info_matches(e, v@),
                None => !spec_endpoint_info_ok(v@),
            },
    {
        let parameters = match v.arr_field("parameters") {
            Some(items) => match decode_api_data_vec(items) {
                Some(ds) => ds,
                None => {
                    return None;
                },
            },
            None => {
                return None;
            },
        };
        let outputs = match v.arr_field("returns") {
            Some(items) => match decode_api_data_vec(items) {
                Some(ds) => ds,
                None => {
                    return None;
                },
            },
            None => {
                return None;
            },
        };
        let show_api = match v.opt_bool_field("show_api") {
            Ok(x) => x,
            Err(u) => {
                return None;
            },
        };
        Some(EndpointInfo { parameters, outputs, show_api })
    }
}

/// The capability schema: each named route with its declared parameter and
/// return slots, in the order the service listed them.
#[derive(Clone, Debug)]
pub struct ApiInfo {
    pub named_endpoints: Vec<(String, EndpointInfo)>,
}

/// What a capability schema accepts: a `named_endpoints` object whose every
/// field is a route schema.
pub open spec fn spec_api_info_ok(m: JsonModel) -> bool {
    spec_obj_field(m, "named_endpoints"@) matches Some(fs) && (forall|i: int|
        0 <= i < fs.len() ==> spec_endpoint_info_ok(fs[i].1))
}

/// `a` is the decode of `m`.
pub open spec fn spec_api_info_matches(a: ApiInfo, m: JsonModel) -> bool {
    spec_obj_field(m, "named_endpoints"@) matches Some(fs) && a.named_endpoints@.len() == fs.len()
        && (forall|i: int|
        0 <= i < fs.len() ==> a.named_endpoints@[i].0@ == fs[i].0 && spec_endpoint_info_matches(
            a.named_endpoints@[i].1,
            fs[i].1,
        ))
}

impl ApiInfo {
    /// Decode a capability schema body.
    #[verifier::loop_isolation(false)]
    pub fn from_json(v: &JsonValue) -> (r: Option<ApiInfo>)
        ensures
            match r {
                Some(a) => spec_api_info_ok(v@) && spec_api_info_matches(a, v@),
                None => !spec_api_info_ok(v@),
            },
    {
        let fs = match v.obj_field("named_endpoints") {
            Some(fs) => fs,
            None => {
                return None;
            },
        };
        let mut out: Vec<(String, EndpointInfo)> = Vec::new();
        let mut i: usize = 0;
        while i < fs.len()
            invariant
                i <= fs@.len(),
                out@.len() == i,
                forall|j: int|
                    #![trigger out@[j]]
                    #![trigger fs@[j]]
                    0 <= j < i ==> out@[j].0@ == fs@[j].0@ && spec_endpoint_info_ok(fs@[j].1@)
                        && spec_endpoint_info_matches(out@[j].1, fs@[j].1@),
            decreases fs@.len() - i,
        {
            match EndpointInfo::from_json(&fs[i].1) {
                Some(e) => {
                    let name = fs[i].0.clone();
                    out.push((name, e));
                },
                None => {
                    return None;
                },
            }
            i += 1;
        }
        Some(ApiInfo { named_endpoints: out })
    }

    /// The schema of the route named `name`, if the service declared one.
    #[verifier::loop_isolation(false)]
    pub fn endpoint<'a>(&'a self, name: &str) -> (r: Option<&'a EndpointInfo>)
        ensures
            match r {
                Some(e) => exists|i: int|
                    0 <= i < self.named_endpoints@.len() && self.named_endpoints@[i].0@ == name@
                        && *e == self.named_endpoints@[i].1,
                None => forall|i: int|
                    0 <= i < self.named_endpoints@.len() ==> self.named_endpoints@[i].0@ != name@,
            },
    {
        let mut i: usize = 0;
        while i < self.named_endpoints.len()
            invariant
                i <= self.named_endpoints@.len(),
                forall|j: int| 0 <= j < i ==> self.named_endpoints@[j].0@ != name@,
            decreases self.named_endpoints@.len() - i,
        {
            if crate::strutil::str_eq(self.named_endpoints[i].0.as_str(), name) {
                return Some(&self.named_endpoints[i].1);
            }
            i += 1;
        }
        None
    }
}


/// One UI component entry of the configuration, passed through with its
/// untouched properties.
#[derive(Clone, Debug)]
pub struct ComponentMeta {
    pub ty: String,
    pub id: StringOrI64,
    pub props: JsonValue,
    pub component_class_id: String,
    pub component: Option<JsonValue>,
    pub value: Option<JsonValue>,
    pub key: Option<String>,
}

/// What a component entry accepts.
pub open spec fn spec_component_ok(m: JsonModel) -> bool {
    &&& spec_str_field(m, "type"@) is Some
    &&& (spec_get(m, "id"@) matches Some(idm) && spec_string_or_i64_ok(idm))
    &&& spec_get(m, "props"@) is Some
    &&& spec_str_field(m, "component_class_id"@) is Some
    &&& spec_opt_str_field_ok(m, "key"@)
}

/// `c` is the decode of `m`.
pub open spec fn spec_component_matches(c: ComponentMeta, m: JsonModel) -> bool {
    &&& spec_str_field(m, "type"@) == Some(c.ty@)
    &&& (spec_get(m, "id"@) matches Some(idm) && spec_string_or_i64_matches(c.id, idm))
    &&& spec_get(m, "props"@) == Some(c.props@)
    &&& spec_str_field(m, "component_class_id"@) == Some(c.component_class_id@)
    &&& spec_opt_json_matches(c.component, spec_opt_any_field(m, "component"@))
    &&& spec_opt_json_matches(c.value, spec_opt_any_field(m, "value"@))
    &&& spec_opt_string_matches(c.key, spec_opt_str_field(m, "key"@))
}

impl ComponentMeta {
    /// Decode one component entry.
    pub fn from_json(v: &JsonValue) -> (r: Option<ComponentMeta>)
        ensures
            match r {
                Some(c) => spec_component_ok(v@) && spec_component_matches(c, v@),
                None => !spec_component_ok(v@),
            },
    {
        let ty = match v.str_field("type") {
            Some(s) => s.clone(),
            None => {
                return None;
            },
        };
        let id = match v.get("id") {
            Some(idv) => match StringOrI64::from_json(idv) {
                Some(x) => x,
                None => {
                    return None;
                },
            },
            None => {
                return None;
            },
        };
        let props = match v.get("props") {
            Some(p) => p.clone(),
            None => {
                return None;
            },
        };
        let component_class_id = match v.str_field("component_class_id") {
            Some(s) => s.clone(),
            None => {
                return None;
            },
        };
        let component = match v.opt_any_field("component") {
            Some(x) => Some(x.clone()),
            None => None,
        };
        let value = match v.opt_any_field("value") {
            Some(x) => Some(x.clone()),
            None => None,
        };
        let key = match v.opt_str_field("key") {
            Ok(x) => x,
            Err(u) => {
                return None;
            },
        };
        Some(ComponentMeta { ty, id, props, component_class_id, component, value, key })
    }
}

/// Every element of `a` is an acceptable component entry.
pub open spec fn spec_component_arr_ok(a: Seq<JsonModel>) -> bool {
    forall|i: int| 0 <= i < a.len() ==> spec_component_ok(a[i])
}

/// Decode a whole array of component entries.
#[verifier::loop_isolation(false)]
fn decode_component_vec(items: &Vec<JsonValue>) -> (r: Option<Vec<ComponentMeta>>)
    ensures
        match r {
            Some(cs) => cs@.len() == items@.len() && (forall|i: int|
                #![trigger cs@[i]]
                #![trigger items@[i]]
                0 <= i < items@.len() ==> spec_component_ok(items@[i]@) && spec_component_matches(
                    cs@[i],
                    items@[i]@,
                )),
            None => exists|i: int| 0 <= i < items@.len() && !spec_component_ok(items@[i]@),
        },
{
    let mut out: Vec<ComponentMeta> = Vec::new();
    let mut i: usize = 0;
    while i < items.len()
        invariant
            i <= items@.len(),
            out@.len() == i,
            forall|j: int|
                #![trigger out@[j]]
                #![trigger items@[j]]
                0 <= j < i ==> spec_component_ok(items@[j]@) && spec_component_matches(
                    out@[j],
                    items@[j]@,
                ),
        decreases items@.len() - i,
    {
        match ComponentMeta::from_json(&items[i]) {
            Some(c) => {
                out.push(c);
            },
            None => {
                return None;
            },
        }
        i += 1;
    }
    Some(out)
}

/// Every element of `a` is an acceptable route table entry.
pub open spec fn spec_dependency_arr_ok(a: Seq<JsonModel>) -> bool {
    forall|i: int| 0 <= i < a.len() ==> spec_dependency_ok(a[i])
}

/// Decode a whole route table.
#[verifier::loop_isolation(false)]
fn decode_dependency_vec(items: &Vec<JsonValue>) -> (r: Option<Vec<Dependency>>)
    ensures
        match r {
            Some(ds) => ds@.len() == items@.len() && (forall|i: int|
                #![trigger ds@[i]]
                #![trigger items@[i]]
                0 <= i < items@.len() ==> spec_dependency_ok(items@[i]@)
                    && spec_dependency_matches(ds@[i], items@[i]@)),
            None => exists|i: int| 0 <= i < items@.len() && !spec_dependency_ok(items@[i]@),
        },
{
    let mut out: Vec<Dependency> = Vec::new();
    let mut i: usize = 0;
    while i < items.len()
        invariant
            i <= items@.len(),
            out@.len() == i,
            forall|j: int|
                #![trigger out@[j]]
                #![trigger items@[j]]
                0 <= j < i ==> spec_dependency_ok(items@[j]@) && spec_dependency_matches(
                    out@[j],
                    items@[j]@,
                ),
        decreases items@.len() - i,
    {
        match Dependency::from_json(&items[i]) {
            Some(d) => {
                out.push(d);
            },
            None => {
                return None;
            },
        }
        i += 1;
    }
    Some(out)
}

/// Every element of `a` is a string.
pub open spec fn spec_str_arr_ok(a: Seq<JsonModel>) -> bool {
    forall|i: int| 0 <= i < a.len() ==> a[i] is Str
}

/// Decode an array of strings.
#[verifier::loop_isolation(false)]
fn decode_string_vec(items: &Vec<JsonValue>) -> (r: Option<Vec<String>>)
    ensures
        match r {
            Some(ss) => ss@.len() == items@.len() && (forall|i: int|
                #![trigger ss@[i]]
                #![trigger items@[i]]
                0 <= i < items@.len() ==> items@[i]@ == JsonModel::Str(ss@[i]@)),
            None => exists|i: int| 0 <= i < items@.len() && !(items@[i]@ is Str),
        },
{
    let mut out: Vec<String> = Vec::new();
    let mut i: usize = 0;
    while i < items.len()
        invariant
            i <= items@.len(),
            out@.len() == i,
            forall|j: int|
                #![trigger out@[j]]
                #![trigger items@[j]]
                0 <= j < i ==> items@[j]@ == JsonModel::Str(out@[j]@),
        decreases items@.len() - i,
    {
        match items[i].as_str() {
            Some(t) => {
                out.push(t.clone());
            },
            None => {
                return None;
            },
        }
        i += 1;
    }
    Some(out)
}

/// `x` carries exactly the optional string-or-integer `o`.
pub open spec fn spec_opt_string_or_i64_matches(x: Option<StringOrI64>, o: Option<JsonModel>) -> bool {
    match x {
        Some(t) => o matches Some(v) && spec_string_or_i64_matches(t, v),
        None => o is None,
    }
}


/// The negotiated application configuration: the route table, component
/// list, display metadata and service flags, with the layout passed
/// through untouched.
#[derive(Clone, Debug)]
pub struct AppConfig {
    pub components: Vec<ComponentMeta>,
    pub dependencies: Vec<Dependency>,
    pub mode: String,
    pub root: String,
    pub theme: String,
    pub title: String,
    pub version: String,
    pub protocol: String,
    pub layout: JsonValue,
    pub auth_message: Option<String>,
    pub css: Option<String>,
    pub js: Option<String>,
    pub head: Option<String>,
    pub root_url: Option<String>,
    pub space_id: Option<String>,
    pub stylesheets: Vec<String>,
    pub path: Option<String>,
    pub theme_hash: Option<StringOrI64>,
    pub username: Option<String>,
    pub max_file_size: Option<i64>,
    pub api_prefix: Option<String>,
    pub auth_required: Option<bool>,
    pub analytics_enabled: Option<bool>,
    pub connect_heartbeat: Option<bool>,
    pub dev_mode: Option<bool>,
    pub enable_queue: Option<bool>,
    pub show_error: Option<bool>,
    pub is_space: Option<bool>,
    pub is_colab: Option<bool>,
    pub show_api: Option<bool>,
}

/// What a configuration body accepts.
pub open spec fn spec_app_config_ok(m: JsonModel) -> bool {
    &&& (spec_arr_field(m, "components"@) matches Some(a) && spec_component_arr_ok(a))
    &&& (spec_arr_field(m, "dependencies"@) matches Some(a) && spec_dependency_arr_ok(a))
    &&& spec_str_field(m, "mode"@) is Some
    &&& spec_str_field(m, "root"@) is Some
    &&& spec_str_field(m, "theme"@) is Some
    &&& spec_str_field(m, "title"@) is Some
    &&& spec_str_field(m, "version"@) is Some
    &&& spec_str_field(m, "protocol"@) is Some
    &&& spec_get(m, "layout"@) is Some
    &&& spec_opt_str_field_ok(m, "auth_message"@)
    &&& spec_opt_str_field_ok(m, "css"@)
    &&& spec_opt_str_field_ok(m, "js"@)
    &&& spec_opt_str_field_ok(m, "head"@)
    &&& spec_opt_str_field_ok(m, "root_url"@)
    &&& spec_opt_str_field_ok(m, "space_id"@)
    &&& (spec_arr_field(m, "stylesheets"@) matches Some(a) && spec_str_arr_ok(a))
    &&& spec_opt_str_field_ok(m, "path"@)
    &&& (match spec_opt_any_field(m, "theme_hash"@) {
        None => true,
        Some(v) => spec_string_or_i64_ok(v),
    })
    &&& spec_opt_str_field_ok(m, "username"@)
    &&& spec_opt_int_field_ok(m, "max_file_size"@)
    &&& spec_opt_str_field_ok(m, "api_prefix"@)
    &&& spec_opt_bool_field_ok(m, "auth_required"@)
    &&& spec_opt_bool_field_ok(m, "analytics_enabled"@)
    &&& spec_opt_bool_field_ok(m, "connect_heartbeat"@)
    &&& spec_opt_bool_field_ok(m, "dev_mode"@)
    &&& spec_opt_bool_field_ok(m, "enable_queue"@)
    &&& spec_opt_bool_field_ok(m, "show_error"@)
    &&& spec_opt_bool_field_ok(m, "is_space"@)
    &&& spec_opt_bool_field_ok(m, "is_colab"@)
    &&& spec_opt_bool_field_ok(m, "show_api"@)
}

/// `c` is the decode of `m`.
pub open spec fn spec_app_config_matches(c: AppConfig, m: JsonModel) -> bool {
    &&& (spec_arr_field(m, "components"@) matches Some(a) && c.components@.len() == a.len() && (
    forall|i: int|
        #![trigger c.components@[i]]
        #![trigger a[i]]
        0 <= i < a.len() ==> spec_component_matches(c.components@[i], a[i])))
    &&& (spec_arr_field(m, "dependencies"@) matches Some(a) && c.dependencies@.len() == a.len()
        && (forall|i: int|
        #![trigger c.dependencies@[i]]
        #![trigger a[i]]
        0 <= i < a.len() ==> spec_dependency_matches(c.dependencies@[i], a[i])))
    &&& spec_str_field(m, "mode"@) == Some(c.mode@)
    &&& spec_str_field(m, "root"@) == Some(c.root@)
    &&& spec_str_field(m, "theme"@) == Some(c.theme@)
    &&& spec_str_field(m, "title"@) == Some(c.title@)
    &&& spec_str_field(m, "version"@) == Some(c.version@)
    &&& spec_str_field(m, "protocol"@) == Some(c.protocol@)
    &&& spec_get(m, "layout"@) == Some(c.layout@)
    &&& spec_opt_string_matches(c.auth_message, spec_opt_str_field(m, "auth_message"@))
    &&& spec_opt_string_matches(c.css, spec_opt_str_field(m, "css"@))
    &&& spec_opt_string_matches(c.js, spec_opt_str_field(m, "js"@))
    &&& spec_opt_string_matches(c.head, spec_opt_str_field(m, "head"@))
    &&& spec_opt_string_matches(c.root_url, spec_opt_str_field(m, "root_url"@))
    &&& spec_opt_string_matches(c.space_id, spec_opt_str_field(m, "space_id"@))
    &&& (spec_arr_field(m, "stylesheets"@) matches Some(a) && c.stylesheets@.len() == a.len() && (
    forall|i: int|
        #![trigger c.stylesheets@[i]]
        #![trigger a[i]]
        0 <= i < a.len() ==> a[i] == JsonModel::Str(c.stylesheets@[i]@)))
    &&& spec_opt_string_matches(c.path, spec_opt_str_field(m, "path"@))
    &&& spec_opt_string_or_i64_matches(c.theme_hash, spec_opt_any_field(m, "theme_hash"@))
    &&& spec_opt_string_matches(c.username, spec_opt_str_field(m, "username"@))
    &&& c.max_file_size == spec_int_field(m, "max_file_size"@)
    &&& spec_opt_string_matches(c.api_prefix, spec_opt_str_field(m, "api_prefix"@))
    &&& c.auth_required == spec_bool_field(m, "auth_required"@)
    &&& c.analytics_enabled == spec_bool_field(m, "analytics_enabled"@)
    &&& c.connect_heartbeat == spec_bool_field(m, "connect_heartbeat"@)
    &&& c.dev_mode == spec_bool_field(m, "dev_mode"@)
    &&& c.enable_queue == spec_bool_field(m, "enable_queue"@)
    &&& c.show_error == spec_bool_field(m, "show_error"@)
    &&& c.is_space == spec_bool_field(m, "is_space"@)
    &&& c.is_colab == spec_bool_field(m, "is_colab"@)
    &&& c.show_api == spec_bool_field(m, "show_api"@)
}

impl AppConfig {
    /// Decode a configuration body.
    pub fn from_json(v: &JsonValue) -> (r: Option<AppConfig>)
        ensures
            match r {
                Some(c) => spec_app_config_ok(v@) && spec_app_config_matches(c, v@),
                None => !spec_app_config_ok(v@),
            },
    {
        let components = match v.arr_field("components") {
            Some(items) => match decode_component_vec(items) {
                Some(cs) => cs,
                None => {
                    return None;
                },
            },
            None => {
                return None;
            },
        };
        let dependencies = match v.arr_field("dependencies") {
            Some(items) => match decode_dependency_vec(items) {
                Some(ds) => ds,
                None => {
                    return None;
                },
            },
            None => {
                return None;
            },
        };
        let mode = match v.str_field("mode") {
            Some(s) => s.clone(),
            None => {
                return None;
            },
        };
        let root = match v.str_field("root") {
            Some(s) => s.clone(),
            None => {
                return None;
            },
        };
        let theme = match v.str_field("theme") {
            Some(s) => s.clone(),
            None => {
                return None;
            },
        };
        let title = match v.str_field("title") {
            Some(s) => s.clone(),
            None => {
                return None;
            },
        };
        let version = match v.str_field("version") {
            Some(s) => s.clone(),
            None => {
                return None;
            },
        };
        let protocol = match v.str_field("protocol") {
            Some(s) => s.clone(),
            None => {
                return None;
            },
        };
        let layout = match v.get("layout") {
            Some(l) => l.clone(),
            None => {
                return None;
            },
        };
        let auth_message = match v.opt_str_field("auth_message") {
            Ok(x) => x,
            Err(u) => {
                return None;
            },
        };
        let css = match v.opt_str_field("css") {
            Ok(x) => x,
            Err(u) => {
                return None;
            },
        };
        let js = match v.opt_str_field("js") {
            Ok(x) => x,
            Err(u) => {
                return None;
            },
        };
        let head = match v.opt_str_field("head") {
            Ok(x) => x,
            Err(u) => {
                return None;
            },
        };
        let root_url = match v.opt_str_field("root_url") {
            Ok(x) => x,
            Err(u) => {
                return None;
            },
        };
        let space_id = match v.opt_str_field("space_id") {
            Ok(x) => x,
            Err(u) => {
                return None;
            },
        };
        let stylesheets = match v.arr_field("stylesheets") {
            Some(items) => match decode_string_vec(items) {
                Some(ss) => ss,
                None => {
                    return None;
                },
            },
            None => {
                return None;
            },
        };
        let path = match v.opt_str_field("path") {
            Ok(x) => x,
            Err(u) => {
                return None;
            },
        };
        let theme_hash = match v.opt_any_field("theme_hash") {
            None => None,
            Some(tv) => match StringOrI64::from_json(tv) {
                Some(x) => Some(x),
                None => {
                    return None;
                },
            },
        };
        let username = match v.opt_str_field("username") {
            Ok(x) => x,
            Err(u) => {
                return None;
            },
        };
        let max_file_size = match v.opt_int_field("max_file_size") {
            Ok(x) => x,
            Err(u) => {
                return None;
            },
        };
        let api_prefix = match v.opt_str_field("api_prefix") {
            Ok(x) => x,
            Err(u) => {
                return None;
            },
        };
        let auth_required = match v.opt_bool_field("auth_required") {
            Ok(x) => x,
            Err(u) => {
                return None;
            },
        };
        let analytics_enabled = match v.opt_bool_field("analytics_enabled") {
            Ok(x) => x,
            Err(u) => {
                return None;
            },
        };
        let connect_heartbeat = match v.opt_bool_field("connect_heartbeat") {
            Ok(x) => x,
            Err(u) => {
                return None;
            },
        };
        let dev_mode = match v.opt_bool_field("dev_mode") {
            Ok(x) => x,
            Err(u) => {
                return None;
            },
        };
        let enable_queue = match v.opt_bool_field("enable_queue") {
            Ok(x) => x,
            Err(u) => {
                return None;
            },
        };
        let show_error = match v.opt_bool_field("show_error") {
            Ok(x) => x,
            Err(u) => {
                return None;
            },
        };
        let is_space = match v.opt_bool_field("is_space") {
            Ok(x) => x,
            Err(u) => {
                return None;
            },
        };
        let is_colab = match v.opt_bool_field("is_colab") {
            Ok(x) => x,
            Err(u) => {
                return None;
            },
        };
        let show_api = match v.opt_bool_field("show_api") {
            Ok(x) => x,
            Err(u) => {
                return None;
            },
        };
        Some(
            AppConfig {
                components,
                dependencies,
                mode,
                root,
                theme,
                title,
                version,
                protocol,
                layout,
                auth_message,
                css,
                js,
                head,
                root_url,
                space_id,
                stylesheets,
                path,
                theme_hash,
                username,
                max_file_size,
                api_prefix,
                auth_required,
                analytics_enabled,
                connect_heartbeat,
                dev_mode,
                enable_queue,
                show_error,
                is_space,
                is_colab,
                show_api,
            },
        )
    }
}


/// One progress tuple of a progress-update message.
#[derive(Clone, Debug)]
pub struct ProcessingProgressData {
    pub index: usize,
    pub length: Option<usize>,
    pub unit: String,
}

/// What one progress tuple accepts: an `index` integer within the portable
/// index range, an optional `length` in the same range, and a string
/// `unit`.
pub open spec fn spec_progress_item_ok(m: JsonModel) -> bool {
    &&& (spec_int_field(m, "index"@) matches Some(i) && 0 <= i <= 0xffff_ffffi64)
    &&& (match spec_get(m, "length"@) {
        None => true,
        Some(v) => match v {
            JsonModel::Null => true,
            JsonModel::Int(l) => 0 <= l <= 0xffff_ffffi64,
            _ => false,
        },
    })
    &&& spec_str_field(m, "unit"@) is Some
}

/// `p` is the decode of `m`.
pub open spec fn spec_progress_item_matches(p: ProcessingProgressData, m: JsonModel) -> bool {
    &&& (spec_int_field(m, "index"@) matches Some(i) && p.index == i)
    &&& (match spec_int_field(m, "length"@) {
        Some(l) => p.length matches Some(pl) && pl == l,
        None => p.length is None,
    })
    &&& spec_str_field(m, "unit"@) == Some(p.unit@)
}

impl ProcessingProgressData {
    /// Decode one progress tuple.
    pub fn from_json(v: &JsonValue) -> (r: Option<ProcessingProgressData>)
        ensures
            match r {
                Some(p) => spec_progress_item_ok(v@) && spec_progress_item_matches(p, v@),
                None => !spec_progress_item_ok(v@),
            },
    {
        let index_raw: i64 = match v.int_field("index") {
            Some(i) => i,
            None => {
                return None;
            },
        };
        if index_raw < 0 || index_raw > 0xffff_ffffi64 {
            return None;
        }
        let length: Option<usize> = match v.get("length") {
            None => None,
            Some(lv) => match lv {
                JsonValue::Null => None,
                JsonValue::Int(l) => {
                    if *l < 0 || *l > 0xffff_ffffi64 {
                        return None;
                    }
                    Some(*l as usize)
                },
                _ => {
                    return None;
                },
            },
        };
        let unit = match v.str_field("unit") {
            Some(s) => s.clone(),
            None => {
                return None;
            },
        };
        Some(ProcessingProgressData { index: index_raw as usize, length, unit })
    }
}

/// Every element of `a` is an acceptable progress tuple.
pub open spec fn spec_progress_arr_ok(a: Seq<JsonModel>) -> bool {
    forall|i: int| 0 <= i < a.len() ==> spec_progress_item_ok(a[i])
}

/// Decode a whole array of progress tuples.
#[verifier::loop_isolation(false)]
fn decode_progress_vec(items: &Vec<JsonValue>) -> (r: Option<Vec<ProcessingProgressData>>)
    ensures
        match r {
            Some(ps) => ps@.len() == items@.len() && (forall|i: int|
                #![trigger ps@[i]]
                #![trigger items@[i]]
                0 <= i < items@.len() ==> spec_progress_item_ok(items@[i]@)
                    && spec_progress_item_matches(ps@[i], items@[i]@)),
            None => exists|i: int| 0 <= i < items@.len() && !spec_progress_item_ok(items@[i]@),
        },
{
    let mut out: Vec<ProcessingProgressData> = Vec::new();
    let mut i: usize = 0;
    while i < items.len()
        invariant
            i <= items@.len(),
            out@.len() == i,
            forall|j: int|
                #![trigger out@[j]]
                #![trigger items@[j]]
                0 <= j < i ==> spec_progress_item_ok(items@[j]@) && spec_progress_item_matches(
                    out@[j],
                    items@[j]@,
                ),
        decreases items@.len() - i,
    {
        match ProcessingProgressData::from_json(&items[i]) {
            Some(p) => {
                out.push(p);
            },
            None => {
                return None;
            },
        }
        i += 1;
    }
    Some(out)
}

/// The payload of a completed invocation: the ordered output values with
/// the run's duration, or the server's error text.
#[derive(Clone, Debug)]
pub enum QueueDataMessageOutput {
    Success { data: Vec<JsonValue>, duration: JsonValue },
    Error { error: Option<String> },
}

/// An output payload in the success shape: a `data` array together with a
/// `duration`.
pub open spec fn spec_output_success_shape(o: JsonModel) -> bool {
    spec_arr_field(o, "data"@) is Some && spec_get(o, "duration"@) is Some
}

/// What an output payload accepts: the success shape, or any other object
/// whose `error` field, when present and not null, is a string.
pub open spec fn spec_output_ok(o: JsonModel) -> bool {
    o is Obj && (spec_output_success_shape(o) || spec_opt_str_field_ok(o, "error"@))
}

/// `x` is the decode of `o`. The success shape is tried first; everything
/// else is read as an error payload.
pub open spec fn spec_output_matches(x: QueueDataMessageOutput, o: JsonModel) -> bool {
    match x {
        QueueDataMessageOutput::Success { data, duration } => {
            &&& (spec_arr_field(o, "data"@) matches Some(a) && data@.len() == a.len() && (forall|
            i: int|
                #![trigger data@[i]]
                #![trigger a[i]]
                0 <= i < a.len() ==> a[i] == data@[i]@))
            &&& spec_get(o, "duration"@) == Some(duration@)
        },
        QueueDataMessageOutput::Error { error } => {
            &&& o is Obj
            &&& !spec_output_success_shape(o)
            &&& spec_opt_string_matches(error, spec_opt_str_field(o, "error"@))
        },
    }
}

impl QueueDataMessageOutput {
    /// Decode a completed invocation's output payload.
    pub fn from_json(o: &JsonValue) -> (r: Option<QueueDataMessageOutput>)
        ensures
            match r {
                Some(x) => spec_output_ok(o@) && spec_output_matches(x, o@),
                None => !spec_output_ok(o@),
            },
    {
        if o.as_obj().is_none() {
            return None;
        }
        match o.arr_field("data") {
            Some(items) => match o.get("duration") {
                Some(d) => {
                    return Some(
                        QueueDataMessageOutput::Success {
                            data: crate::json::clone_json_vec(items),
                            duration: d.clone(),
                        },
                    );
                },
                None => {},
            },
            None => {},
        }
        match o.opt_str_field("error") {
            Ok(e) => Some(QueueDataMessageOutput::Error { error: e }),
            Err(u) => None,
        }
    }
}


/// One message of the queue event stream, already classified. `Open` marks
/// the stream-opened event (it carries no JSON body); `Unknown` keeps any
/// well-formed message whose shape this client does not recognize, so that
/// callers may log or ignore it rather than abort.
#[derive(Clone, Debug)]
pub enum QueueDataMessage {
    Open,
    Estimation { event_id: String, rank: i64, queue_size: i64, rank_eta: Option<JsonValue> },
    ProcessStarts { event_id: String, eta: Option<JsonValue> },
    Progress { event_id: String, progress_data: Vec<ProcessingProgressData> },
    Log { event_id: String, log: String, level: Option<String> },
    Heartbeat,
    ProcessCompleted { event_id: String, output: QueueDataMessageOutput, success: bool },
    UnexpectedError { event_id: Option<String>, message: Option<String> },
    Unknown(JsonValue),
}

/// A completed-invocation message: tagged `process_completed`, carrying an
/// event id, a decodable `output` payload and a `success` flag.
pub open spec fn spec_completed_shape(m: JsonModel) -> bool {
    &&& spec_str_field(m, "msg"@) == Some("process_completed"@)
    &&& spec_str_field(m, "event_id"@) is Some
    &&& (spec_get(m, "output"@) matches Some(o) && spec_output_ok(o))
    &&& spec_bool_field(m, "success"@) is Some
}

/// A queued-with-position message: tagged `estimation`, carrying an event
/// id, the queue rank and the queue size.
pub open spec fn spec_estimation_shape(m: JsonModel) -> bool {
    &&& spec_str_field(m, "msg"@) == Some("estimation"@)
    &&& spec_str_field(m, "event_id"@) is Some
    &&& spec_int_field(m, "rank"@) is Some
    &&& spec_int_field(m, "queue_size"@) is Some
}

/// A processing-started message: tagged `process_starts` with an event id.
pub open spec fn spec_process_starts_shape(m: JsonModel) -> bool {
    &&& spec_str_field(m, "msg"@) == Some("process_starts"@)
    &&& spec_str_field(m, "event_id"@) is Some
}

/// A progress-update message: tagged `progress`, carrying an event id and
/// an array of decodable progress tuples.
pub open spec fn spec_progress_shape(m: JsonModel) -> bool {
    &&& spec_str_field(m, "msg"@) == Some("progress"@)
    &&& spec_str_field(m, "event_id"@) is Some
    &&& (spec_arr_field(m, "progress_data"@) matches Some(a) && spec_progress_arr_ok(a))
}

/// A log-line message: tagged `log`, carrying an event id and the line.
pub open spec fn spec_log_shape(m: JsonModel) -> bool {
    &&& spec_str_field(m, "msg"@) == Some("log"@)
    &&& spec_str_field(m, "event_id"@) is Some
    &&& spec_str_field(m, "log"@) is Some
    &&& spec_opt_str_field_ok(m, "level"@)
}

/// A keep-alive message: tagged `heartbeat`, carrying no data.
pub open spec fn spec_heartbeat_shape(m: JsonModel) -> bool {
    spec_str_field(m, "msg"@) == Some("heartbeat"@)
}

/// An unexpected-server-error message: tagged `unexpected_error`; its
/// event id and message text are both optional strings.
pub open spec fn spec_unexpected_error_shape(m: JsonModel) -> bool {
    &&& spec_str_field(m, "msg"@) == Some("unexpected_error"@)
    &&& spec_opt_str_field_ok(m, "event_id"@)
    &&& spec_opt_str_field_ok(m, "message"@)
}

/// `m` matches none of the recognized message shapes.
pub open spec fn spec_unrecognized(m: JsonModel) -> bool {
    &&& !spec_completed_shape(m)
    &&& !spec_estimation_shape(m)
    &&& !spec_process_starts_shape(m)
    &&& !spec_progress_shape(m)
    &&& !spec_log_shape(m)
    &&& !spec_heartbeat_shape(m)
    &&& !spec_unexpected_error_shape(m)
}

/// `msg` is the classification of the message body `m`. The shapes are
/// checked in a fixed order — completion first, then queue position,
/// processing, progress, log, heartbeat and server error — and are
/// mutually exclusive because each demands a different `msg` tag; a body
/// matching none is kept whole as `Unknown`. `Open` never arises from a
/// body: it stands for the stream-opened event.
pub open spec fn spec_message_matches(msg: QueueDataMessage, m: JsonModel) -> bool {
    match msg {
        QueueDataMessage::ProcessCompleted { event_id, output, success } => {
            &&& spec_completed_shape(m)
            &&& spec_str_field(m, "event_id"@) == Some(event_id@)
            &&& (spec_get(m, "output"@) matches Some(o) && spec_output_matches(output, o))
            &&& spec_bool_field(m, "success"@) == Some(success)
        },
        QueueDataMessage::Estimation { event_id, rank, queue_size, rank_eta } => {
            &&& spec_estimation_shape(m)
            &&& spec_str_field(m, "event_id"@) == Some(event_id@)
            &&& spec_int_field(m, "rank"@) == Some(rank)
            &&& spec_int_field(m, "queue_size"@) == Some(queue_size)
            &&& spec_opt_json_matches(rank_eta, spec_opt_any_field(m, "rank_eta"@))
        },
        QueueDataMessage::ProcessStarts { event_id, eta } => {
            &&& spec_process_starts_shape(m)
            &&& spec_str_field(m, "event_id"@) == Some(event_id@)
            &&& spec_opt_json_matches(eta, spec_opt_any_field(m, "eta"@))
        },
        QueueDataMessage::Progress { event_id, progress_data } => {
            &&& spec_progress_shape(m)
            &&& spec_str_field(m, "event_id"@) == Some(event_id@)
            &&& (spec_arr_field(m, "progress_data"@) matches Some(a) && progress_data@.len()
                == a.len() && (forall|i: int|
                #![trigger progress_data@[i]]
                #![trigger a[i]]
                0 <= i < a.len() ==> spec_progress_item_matches(progress_data@[i], a[i])))
        },
        QueueDataMessage::Log { event_id, log, level } => {
            &&& spec_log_shape(m)
            &&& spec_str_field(m, "event_id"@) == Some(event_id@)
            &&& spec_str_field(m, "log"@) == Some(log@)
            &&& spec_opt_string_matches(level, spec_opt_str_field(m, "level"@))
        },
        QueueDataMessage::Heartbeat => spec_heartbeat_shape(m),
        QueueDataMessage::UnexpectedError { event_id, message } => {
            &&& spec_unexpected_error_shape(m)
            &&& spec_opt_string_matches(event_id, spec_opt_str_field(m, "event_id"@))
            &&& spec_opt_string_matches(message, spec_opt_str_field(m, "message"@))
        },
        QueueDataMessage::Unknown(u) => spec_unrecognized(m) && u@ == m,
        QueueDataMessage::Open => false,
    }
}

/// The seven message tags have pairwise different lengths, so no two of
/// them are the same string.
pub proof fn lemma_tag_lengths()
    ensures
        "process_completed"@.len() == 17,
        "estimation"@.len() == 10,
        "process_starts"@.len() == 14,
        "progress"@.len() == 8,
        "log"@.len() == 3,
        "heartbeat"@.len() == 9,
        "unexpected_error"@.len() == 16,
{
    reveal_strlit("process_completed");
    reveal_strlit("estimation");
    reveal_strlit("process_starts");
    reveal_strlit("progress");
    reveal_strlit("log");
    reveal_strlit("heartbeat");
    reveal_strlit("unexpected_error");
}

impl QueueDataMessage {
    /// Classify one stream message body into its tagged variant; a body of
    /// no recognized shape is kept whole as `Unknown`.
    pub fn classify(v: &JsonValue) -> (r: QueueDataMessage)
        ensures
            spec_message_matches(r, v@),
    {
        proof {
            lemma_tag_lengths();
        }
        let tag = match v.str_field("msg") {
            Some(t) => t.clone(),
            None => {
                return QueueDataMessage::Unknown(v.clone());
            },
        };
        if crate::strutil::str_eq(tag.as_str(), "process_completed") {
            let event_id = match v.str_field("event_id") {
                Some(s) => s.clone(),
                None => {
                    return QueueDataMessage::Unknown(v.clone());
                },
            };
            let output = match v.get("output") {
                Some(o) => match QueueDataMessageOutput::from_json(o) {
                    Some(x) => x,
                    None => {
                        return QueueDataMessage::Unknown(v.clone());
                    },
                },
                None => {
                    return QueueDataMessage::Unknown(v.clone());
                },
            };
            let success = match v.bool_field("success") {
                Some(b) => b,
                None => {
                    return QueueDataMessage::Unknown(v.clone());
                },
            };
            QueueDataMessage::ProcessCompleted { event_id, output, success }
        } else if crate::strutil::str_eq(tag.as_str(), "estimation") {
            let event_id = match v.str_field("event_id") {
                Some(s) => s.clone(),
                None => {
                    return QueueDataMessage::Unknown(v.clone());
                },
            };
            let rank = match v.int_field("rank") {
                Some(i) => i,
                None => {
                    return QueueDataMessage::Unknown(v.clone());
                },
            };
            let queue_size = match v.int_field("queue_size") {
                Some(i) => i,
                None => {
                    return QueueDataMessage::Unknown(v.clone());
                },
            };
            let rank_eta = match v.opt_any_field("rank_eta") {
                Some(x) => Some(x.clone()),
                None => None,
            };
            QueueDataMessage::Estimation { event_id, rank, queue_size, rank_eta }
        } else if crate::strutil::str_eq(tag.as_str(), "process_starts") {
            let event_id = match v.str_field("event_id") {
                Some(s) => s.clone(),
                None => {
                    return QueueDataMessage::Unknown(v.clone());
                },
            };
            let eta = match v.opt_any_field("eta") {
                Some(x) => Some(x.clone()),
                None => None,
            };
            QueueDataMessage::ProcessStarts { event_id, eta }
        } else if crate::strutil::str_eq(tag.as_str(), "progress") {
            let event_id = match v.str_field("event_id") {
                Some(s) => s.clone(),
                None => {
                    return QueueDataMessage::Unknown(v.clone());
                },
            };
            let progress_data = match v.arr_field("progress_data") {
                Some(items) => match decode_progress_vec(items) {
                    Some(ps) => ps,
                    None => {
                        return QueueDataMessage::Unknown(v.clone());
                    },
                },
                None => {
                    return QueueDataMessage::Unknown(v.clone());
                },
            };
            QueueDataMessage::Progress { event_id, progress_data }
        } else if crate::strutil::str_eq(tag.as_str(), "log") {
            let event_id = match v.str_field("event_id") {
                Some(s) => s.clone(),
                None => {
                    return QueueDataMessage::Unknown(v.clone());
                },
            };
            let log = match v.str_field("log") {
                Some(s) => s.clone(),
                None => {
                    return QueueDataMessage::Unknown(v.clone());
                },
            };
            let level = match v.opt_str_field("level") {
                Ok(x) => x,
                Err(u) => {
                    return QueueDataMessage::Unknown(v.clone());
                },
            };
            QueueDataMessage::Log { event_id, log, level }
        } else if crate::strutil::str_eq(tag.as_str(), "heartbeat") {
            QueueDataMessage::Heartbeat
        } else if crate::strutil::str_eq(tag.as_str(), "unexpected_error") {
            let event_id = match v.opt_str_field("event_id") {
                Ok(x) => x,
                Err(u) => {
                    return QueueDataMessage::Unknown(v.clone());
                },
            };
            let message = match v.opt_str_field("message") {
                Ok(x) => x,
                Err(u) => {
                    return QueueDataMessage::Unknown(v.clone());
                },
            };
            QueueDataMessage::UnexpectedError { event_id, message }
        } else {
            QueueDataMessage::Unknown(v.clone())
        }
    }

    /// The event identifier this message is tagged with, if any: the
    /// stream-opened marker, heartbeats, unrecognized bodies and untagged
    /// server errors carry none.
    pub fn event_id<'a>(&'a self) -> (r: Option<&'a String>)
        ensures
            match r {
                Some(s) => spec_message_event_id(*self) == Some(s@),
                None => spec_message_event_id(*self) is None,
            },
    {
        match self {
            QueueDataMessage::Estimation { event_id, .. } => Some(event_id),
            QueueDataMessage::ProcessStarts { event_id, .. } => Some(event_id),
            QueueDataMessage::Progress { event_id, .. } => Some(event_id),
            QueueDataMessage::Log { event_id, .. } => Some(event_id),
            QueueDataMessage::ProcessCompleted { event_id, .. } => Some(event_id),
            QueueDataMessage::UnexpectedError { event_id, .. } => match event_id {
                Some(s) => Some(s),
                None => None,
            },
            _ => None,
        }
    }
}

/// The event identifier a classified message is tagged with, if any.
pub open spec fn spec_message_event_id(msg: QueueDataMessage) -> Option<Seq<char>> {
    match msg {
        QueueDataMessage::Estimation { event_id, .. } => Some(event_id@),
        QueueDataMessage::ProcessStarts { event_id, .. } => Some(event_id@),
        QueueDataMessage::Progress { event_id, .. } => Some(event_id@),
        QueueDataMessage::Log { event_id, .. } => Some(event_id@),
        QueueDataMessage::ProcessCompleted { event_id, .. } => Some(event_id@),
        QueueDataMessage::UnexpectedError { event_id, .. } => match event_id {
            Some(s) => Some(s@),
            None => None,
        },
        _ => None,
    }
}

} // verus!
