//! Inputs and outputs of an invocation: the typed input tree handed to the
//! marshaler, the file envelope sent in place of uploaded payloads, and the
//! classification of each completed output as a file reference or an opaque
//! value.

use vstd::prelude::*;

verus! {

broadcast use vstd::std_specs::vec::group_vec_axioms, vstd::seq::group_seq_axioms, vstd::string::group_string_axioms;

use crate::error::GradioError;
use crate::json::JsonValue;
use crate::json::JsonModel;
use crate::json::spec_get;
use crate::json::spec_str_field;
use crate::json::spec_opt_str_field_ok;
use crate::json::spec_opt_str_field;
use crate::json::lemma_obj_model;
use crate::structs::spec_opt_string_matches;
use crate::strutil::after_last;
use crate::strutil::spec_after_last;
use vstd::string::StrSliceExecFns;
use vstd::string::StringExecFns;

/// The type marker carried by every file envelope and file descriptor.
#[derive(Debug)]
pub struct GradioFileDataMeta {
    pub _type: String,
}

/// A decoded file reference: the server-side path, original name, type
/// marker, optional public URL and optional byte size.
#[derive(Debug)]
pub struct GradioFileData {
    pub path: Option<String>,
    pub orig_name: Option<String>,
    pub meta: GradioFileDataMeta,
    pub url: Option<String>,
    pub size: Option<usize>,
}

/// The wire shape of the envelope sent in place of an uploaded payload:
/// `{path, orig_name, meta: {_type: "gradio.FileData"}}`.
pub open spec fn spec_file_envelope(path: Seq<char>, orig_name: Seq<char>) -> JsonModel {
    JsonModel::Obj(
        seq![
            ("path"@, JsonModel::Str(path)),
            ("orig_name"@, JsonModel::Str(orig_name)),
            ("meta"@, JsonModel::Obj(seq![("_type"@, JsonModel::Str("gradio.FileData"@))])),
        ],
    )
}

/// Build the file envelope for one uploaded payload.
pub fn file_envelope(path: &str, orig_name: &str) -> (r: JsonValue)
    ensures
        r@ == spec_file_envelope(path@, orig_name@),
{
    let mut meta_fields: Vec<(String, JsonValue)> = Vec::new();
    meta_fields.push(("_type".to_owned(), JsonValue::Str("gradio.FileData".to_owned())));
    let meta = JsonValue::Obj(meta_fields);
    proof {
        lemma_obj_model(
            meta_fields,
            seq![("_type"@, JsonModel::Str("gradio.FileData"@))],
        );
    }
    let mut fields: Vec<(String, JsonValue)> = Vec::new();
    fields.push(("path".to_owned(), JsonValue::Str(path.to_owned())));
    fields.push(("orig_name".to_owned(), JsonValue::Str(orig_name.to_owned())));
    fields.push(("meta".to_owned(), meta));
    let r = JsonValue::Obj(fields);
    proof {
        lemma_obj_model(
            fields,
            seq![
                ("path"@, JsonModel::Str(path@)),
                ("orig_name"@, JsonModel::Str(orig_name@)),
                ("meta"@, JsonModel::Obj(seq![("_type"@, JsonModel::Str("gradio.FileData"@))])),
            ],
        );
    }
    r
}

/// What a value must look like to be read as a file reference: an object
/// whose `meta` field carries a string type marker, whose `path`,
/// `orig_name` and `url` are strings when present and not null, and whose
/// `size` is a non-negative integer in the portable range when present.
/// Unknown extra fields change nothing.
pub open spec fn spec_file_shape(m: JsonModel) -> bool {
    &&& m is Obj
    &&& (spec_get(m, "meta"@) matches Some(mm) && spec_str_field(mm, "_type"@) is Some)
    &&& spec_opt_str_field_ok(m, "path"@)
    &&& spec_opt_str_field_ok(m, "orig_name"@)
    &&& spec_opt_str_field_ok(m, "url"@)
    &&& (match spec_get(m, "size"@) {
        None => true,
        Some(v) => match v {
            JsonModel::Null => true,
            JsonModel::Int(n) => 0 <= n <= 0xffff_ffffi64,
            _ => false,
        },
    })
}

/// `fd` is the file reference read from `m`.
pub open spec fn spec_file_data_matches(fd: GradioFileData, m: JsonModel) -> bool {
    &&& spec_opt_string_matches(fd.path, spec_opt_str_field(m, "path"@))
    &&& spec_opt_string_matches(fd.orig_name, spec_opt_str_field(m, "orig_name"@))
    &&& (spec_get(m, "meta"@) matches Some(mm) && spec_str_field(mm, "_type"@) == Some(
        fd.meta._type@,
    ))
    &&& spec_opt_string_matches(fd.url, spec_opt_str_field(m, "url"@))
    &&& (match spec_get(m, "size"@) {
        Some(v) => match v {
            JsonModel::Int(n) => fd.size matches Some(sz) && sz == n,
            _ => fd.size is None,
        },
        None => fd.size is None,
    })
}

/// One element of a completed invocation's output: a file reference when
/// its shape says so, otherwise the value kept whole.
#[derive(Debug)]
pub enum PredictionOutput {
    File(GradioFileData),
    Value(JsonValue),
}

/// `out` is the classification of the output element `m`: a value of the
/// file shape always becomes `File`, and nothing else does.
pub open spec fn spec_output_decode_matches(out: PredictionOutput, m: JsonModel) -> bool {
    match out {
        PredictionOutput::File(fd) => spec_file_shape(m) && spec_file_data_matches(fd, m),
        PredictionOutput::Value(u) => !spec_file_shape(m) && u@ == m,
    }
}

impl PredictionOutput {
    /// Classify one output element.
    pub fn decode(v: &JsonValue) -> (r: PredictionOutput)
        ensures
            spec_output_decode_matches(r, v@),
    {
        if v.as_obj().is_none() {
            return PredictionOutput::Value(v.clone());
        }
        let marker = match v.get("meta") {
            Some(mm) => match mm.str_field("_type") {
                Some(t) => t.clone(),
                None => {
                    return PredictionOutput::Value(v.clone());
                },
            },
            None => {
                return PredictionOutput::Value(v.clone());
            },
        };
        let path = match v.opt_str_field("path") {
            Ok(x) => x,
            Err(u) => {
                return PredictionOutput::Value(v.clone());
            },
        };
        let orig_name = match v.opt_str_field("orig_name") {
            Ok(x) => x,
            Err(u) => {
                return PredictionOutput::Value(v.clone());
            },
        };
        let url = match v.opt_str_field("url") {
            Ok(x) => x,
            Err(u) => {
                return PredictionOutput::Value(v.clone());
            },
        };
        let size: Option<usize> = match v.get("size") {
            None => None,
            Some(sv) => match sv {
                JsonValue::Null => None,
                JsonValue::Int(n) => {
                    if *n < 0 || *n > 0xffff_ffffi64 {
                        return PredictionOutput::Value(v.clone());
                    }
                    Some(*n as usize)
                },
                _ => {
                    return PredictionOutput::Value(v.clone());
                },
            },
        };
        PredictionOutput::File(
            GradioFileData {
                path,
                orig_name,
                meta: GradioFileDataMeta { _type: marker },
                url,
                size,
            },
        )
    }

    /// Whether this output is a file reference.
    pub fn is_file(&self) -> (r: bool)
        ensures
            r == (self is File),
    {
        match self {
            PredictionOutput::File(fd) => true,
            _ => false,
        }
    }

    /// Whether this output is an opaque value.
    pub fn is_value(&self) -> (r: bool)
        ensures
            r == (self is Value),
    {
        match self {
            PredictionOutput::Value(u) => true,
            _ => false,
        }
    }

    /// Narrow this output to a file reference; narrowing a value this way
    /// is a shape mismatch error.
    pub fn as_file(self) -> (r: Result<GradioFileData, GradioError>)
        ensures
            match r {
                Ok(fd) => self matches PredictionOutput::File(f) && f == fd,
                Err(e) => self is Value && e is OutputShapeMismatch,
            },
    {
        match self {
            PredictionOutput::File(fd) => Ok(fd),
            PredictionOutput::Value(u) => Err(
                GradioError::OutputShapeMismatch("Expected file output".to_owned()),
            ),
        }
    }

    /// Narrow this output to an opaque value; narrowing a file this way is
    /// a shape mismatch error.
    pub fn as_value(self) -> (r: Result<JsonValue, GradioError>)
        ensures
            match r {
                Ok(u) => self matches PredictionOutput::Value(w) && w == u,
                Err(e) => self is File && e is OutputShapeMismatch,
            },
    {
        match self {
            PredictionOutput::Value(u) => Ok(u),
            PredictionOutput::File(fd) => Err(
                GradioError::OutputShapeMismatch("Expected value output".to_owned()),
            ),
        }
    }
}

/// The three envelope keys and the optional keys read by the file shape
/// are pairwise different strings.
proof fn lemma_envelope_keys()
    ensures
        "path"@.len() == 4,
        "orig_name"@.len() == 9,
        "meta"@.len() == 4,
        "url"@.len() == 3,
        "size"@.len() == 4,
        "path"@ != "meta"@,
        "size"@ != "path"@,
        "size"@ != "meta"@,
{
    reveal_strlit("path");
    reveal_strlit("orig_name");
    reveal_strlit("meta");
    reveal_strlit("url");
    reveal_strlit("size");
    assert("path"@[0] == 'p');
    assert("meta"@[0] == 'm');
    assert("size"@[0] == 's');
}

/// A value in the file envelope shape is always classified as a file —
/// never as an opaque value — whatever else stands beside the recognized
/// fields.
pub proof fn lemma_file_shape_always_file(m: JsonModel, out: PredictionOutput)
    requires
        spec_file_shape(m),
        spec_output_decode_matches(out, m),
    ensures
        out is File,
{
}

/// The envelope built for an uploaded payload is in the file shape, so it
/// always decodes back to a file reference carrying the same server path
/// and original name — never to an opaque value.
pub proof fn lemma_file_envelope_round_trip(
    path: Seq<char>,
    orig_name: Seq<char>,
    out: PredictionOutput,
)
    requires
        spec_output_decode_matches(out, spec_file_envelope(path, orig_name)),
    ensures
        out matches PredictionOutput::File(fd) && ({
            &&& fd.path matches Some(p) && p@ == path
            &&& fd.orig_name matches Some(n) && n@ == orig_name
            &&& fd.meta._type@ == "gradio.FileData"@
        }),
{
    lemma_envelope_keys();
    let m = spec_file_envelope(path, orig_name);
    let mfs = seq![("_type"@, JsonModel::Str("gradio.FileData"@))];
    let meta_obj = JsonModel::Obj(mfs);
    let fs = seq![
        ("path"@, JsonModel::Str(path)),
        ("orig_name"@, JsonModel::Str(orig_name)),
        ("meta"@, meta_obj),
    ];
    let f1 = fs.drop_first();
    let f2 = f1.drop_first();
    let f3 = f2.drop_first();
    assert(f1[0] == fs[1] && f1[1] == fs[2] && f1.len() == 2);
    assert(f2[0] == fs[2] && f2.len() == 1);
    assert(f3.len() == 0);
    assert("orig_name"@ != "path"@ && "orig_name"@ != "meta"@);
    assert("url"@ != "path"@ && "url"@ != "orig_name"@ && "url"@ != "meta"@);
    assert("size"@ != "orig_name"@);
    assert(spec_get(m, "path"@) == Some(JsonModel::Str(path)));
    assert(crate::json::spec_get_fields(fs, "orig_name"@) == crate::json::spec_get_fields(
        f1,
        "orig_name"@,
    ));
    assert(spec_get(m, "orig_name"@) == Some(JsonModel::Str(orig_name)));
    assert(crate::json::spec_get_fields(fs, "meta"@) == crate::json::spec_get_fields(f1, "meta"@)
        && crate::json::spec_get_fields(f1, "meta"@) == crate::json::spec_get_fields(f2, "meta"@));
    assert(spec_get(m, "meta"@) == Some(meta_obj));
    assert(spec_str_field(meta_obj, "_type"@) == Some("gradio.FileData"@));
    assert(crate::json::spec_get_fields(fs, "url"@) == crate::json::spec_get_fields(f1, "url"@)
        && crate::json::spec_get_fields(f1, "url"@) == crate::json::spec_get_fields(f2, "url"@)
        && crate::json::spec_get_fields(f2, "url"@) == crate::json::spec_get_fields(f3, "url"@));
    assert(spec_get(m, "url"@) is None);
    assert(crate::json::spec_get_fields(fs, "size"@) == crate::json::spec_get_fields(f1, "size"@)
        && crate::json::spec_get_fields(f1, "size"@) == crate::json::spec_get_fields(f2, "size"@)
        && crate::json::spec_get_fields(f2, "size"@) == crate::json::spec_get_fields(f3, "size"@));
    assert(spec_get(m, "size"@) is None);
    assert(spec_file_shape(m));
}


/// One input slot of an invocation: an already-encoded value, a binary
/// payload named by a local path or held in memory, or an ordered nested
/// list marshaled recursively.
#[derive(Debug)]
pub enum PredictionInput {
    Value(JsonValue),
    FilePath(String),
    FileData(String, Vec<u8>),
    Array(Vec<PredictionInput>),
}

impl PredictionInput {
    /// An input read from a local file path.
    pub fn from_file(path: &str) -> (r: Self)
        ensures
            r matches PredictionInput::FilePath(p) && p@ == path@,
    {
        PredictionInput::FilePath(path.to_owned())
    }

    /// An input held in memory under an explicit file name.
    pub fn from_file_data(filename: &str, data: Vec<u8>) -> (r: Self)
        ensures
            r matches PredictionInput::FileData(n, d) && n@ == filename@ && d == data,
    {
        PredictionInput::FileData(filename.to_owned(), data)
    }

    /// An input that is already an encoded value.
    pub fn from_value(value: JsonValue) -> (r: Self)
        ensures
            r matches PredictionInput::Value(v) && v == value,
    {
        PredictionInput::Value(value)
    }
}

/// The binary payloads of one input, in depth-first order: the file leaves
/// themselves.
pub open spec fn spec_files(inp: PredictionInput) -> Seq<PredictionInput>
    decreases inp, 0int,
{
    match inp {
        PredictionInput::Value(v) => Seq::empty(),
        PredictionInput::FilePath(p) => seq![PredictionInput::FilePath(p)],
        PredictionInput::FileData(n, b) => seq![PredictionInput::FileData(n, b)],
        PredictionInput::Array(items) => spec_files_from(items@, 0),
    }
}

/// The binary payloads of `items[i..]`, in depth-first order.
pub open spec fn spec_files_from(items: Seq<PredictionInput>, i: int) -> Seq<PredictionInput>
    decreases items, items.len() - i,
{
    if i < 0 || i >= items.len() {
        Seq::empty()
    } else {
        spec_files(items[i]) + spec_files_from(items, i + 1)
    }
}

/// A file-path input needs a non-empty final path segment to name its
/// upload; every other input is always valid.
pub open spec fn spec_input_valid(inp: PredictionInput) -> bool
    decreases inp, 0int,
{
    match inp {
        PredictionInput::Value(v) => true,
        PredictionInput::FilePath(p) => spec_after_last(p@, '/').len() > 0,
        PredictionInput::FileData(n, b) => true,
        PredictionInput::Array(items) => spec_inputs_valid_from(items@, 0),
    }
}

/// Every input of `items[i..]` is valid.
pub open spec fn spec_inputs_valid_from(items: Seq<PredictionInput>, i: int) -> bool
    decreases items, items.len() - i,
{
    if i < 0 || i >= items.len() {
        true
    } else {
        spec_input_valid(items[i]) && spec_inputs_valid_from(items, i + 1)
    }
}

/// The views of a sequence of path strings.
pub open spec fn spec_views(paths: Seq<String>) -> Seq<Seq<char>> {
    Seq::new(
        paths.len(),
        |i: int|
            if 0 <= i < paths.len() {
                paths[i]@
            } else {
                Seq::empty()
            },
    )
}

/// The models of a sequence of JSON values.
pub open spec fn spec_json_views(s: Seq<JsonValue>) -> Seq<JsonModel> {
    Seq::new(
        s.len(),
        |i: int|
            if 0 <= i < s.len() {
                crate::json::json_model(s[i])
            } else {
                JsonModel::Null
            },
    )
}

/// The wire value of one input, with its binary payloads replaced by file
/// envelopes: `paths[k]` onward hold the server paths of this input's
/// payloads in depth-first order.
pub open spec fn spec_marshal_one(inp: PredictionInput, paths: Seq<Seq<char>>, k: int) -> JsonModel
    decreases inp, 0int,
{
    match inp {
        PredictionInput::Value(v) => v@,
        PredictionInput::FilePath(p) => spec_file_envelope(paths[k], spec_after_last(p@, '/')),
        PredictionInput::FileData(n, b) => spec_file_envelope(paths[k], n@),
        PredictionInput::Array(items) => JsonModel::Arr(spec_marshal_from(items@, paths, k, 0)),
    }
}

/// The wire values of `items[i..]`, consuming server paths from `k` on.
pub open spec fn spec_marshal_from(
    items: Seq<PredictionInput>,
    paths: Seq<Seq<char>>,
    k: int,
    i: int,
) -> Seq<JsonModel>
    decreases items, items.len() - i,
{
    if i < 0 || i >= items.len() {
        Seq::empty()
    } else {
        seq![spec_marshal_one(items[i], paths, k)] + spec_marshal_from(
            items,
            paths,
            k + spec_files(items[i]).len(),
            i + 1,
        )
    }
}

/// Marshal one input against the uploaded server paths, consuming them
/// from position `k` on; gives back the wire value and the next unused
/// position. Fails when a file path has no final segment to name its
/// upload, or when the server paths run short.
#[verifier::loop_isolation(false)]
fn marshal_one(inp: &PredictionInput, paths: &Vec<String>, k: usize) -> (r: Result<
    (JsonValue, usize),
    GradioError,
>)
    ensures
        match r {
            Ok((j, k2)) => {
                &&& spec_input_valid(*inp)
                &&& j@ == spec_marshal_one(*inp, spec_views(paths@), k as int)
                &&& k2 == k + spec_files(*inp).len()
            },
            Err(e) => e is Upload && (k + spec_files(*inp).len() > paths@.len()
                || !spec_input_valid(*inp)),
        },
    decreases *inp,
{
    match inp {
        PredictionInput::Value(v) => Ok((v.clone(), k)),
        PredictionInput::FilePath(p) => {
            proof {
                assert(*inp == PredictionInput::FilePath(*p));
            }
            let name = after_last(p.as_str(), '/');
            if name.unicode_len() == 0 {
                return Err(GradioError::Upload("Invalid file path".to_owned()));
            }
            if k >= paths.len() {
                return Err(GradioError::Upload("Invalid file upload response".to_owned()));
            }
            let env = file_envelope(paths[k].as_str(), name);
            Ok((env, k + 1))
        },
        PredictionInput::FileData(n, b) => {
            proof {
                assert(*inp == PredictionInput::FileData(*n, *b));
            }
            if k >= paths.len() {
                return Err(GradioError::Upload("Invalid file upload response".to_owned()));
            }
            let env = file_envelope(paths[k].as_str(), n.as_str());
            Ok((env, k + 1))
        },
        PredictionInput::Array(items) => {
            proof {
                assert(*inp == PredictionInput::Array(*items));
            }
            let ghost pv = spec_views(paths@);
            let ghost whole = spec_marshal_from(items@, pv, k as int, 0);
            let mut out: Vec<JsonValue> = Vec::new();
            let mut kk: usize = k;
            let mut i: usize = 0;
            while i < items.len()
                invariant
                    i <= items@.len(),
                    out@.len() == i,
                    spec_inputs_valid_from(items@, 0) <==> spec_inputs_valid_from(items@, i as int),
                    kk as int + spec_files_from(items@, i as int).len() == k as int
                        + spec_files_from(items@, 0).len(),
                    spec_json_views(out@) + spec_marshal_from(items@, pv, kk as int, i as int)
                        =~= whole,
                decreases items@.len() - i,
            {
                proof {
                    assert(decreases_to!(*inp => *items));
                    assert(decreases_to!(*items => items@));
                    assert(decreases_to!(items@ => items@[i as int]));
                    assert(spec_files_from(items@, i as int) == spec_files(items@[i as int])
                        + spec_files_from(items@, i as int + 1));
                    assert(spec_inputs_valid_from(items@, i as int) == (spec_input_valid(
                        items@[i as int],
                    ) && spec_inputs_valid_from(items@, i as int + 1)));
                }
                match marshal_one(&items[i], paths, kk) {
                    Ok((j, k2)) => {
                        proof {
                            assert(spec_marshal_from(items@, pv, kk as int, i as int) == seq![
                                spec_marshal_one(items@[i as int], pv, kk as int),
                            ] + spec_marshal_from(items@, pv, k2 as int, i as int + 1));
                            assert(spec_json_views(out@.push(j)) =~= spec_json_views(out@) + seq![
                                j@,
                            ]);
                            assert((spec_json_views(out@) + seq![j@]) + spec_marshal_from(
                                items@,
                                pv,
                                k2 as int,
                                i as int + 1,
                            ) =~= spec_json_views(out@) + (seq![j@] + spec_marshal_from(
                                items@,
                                pv,
                                k2 as int,
                                i as int + 1,
                            )));
                        }
                        out.push(j);
                        kk = k2;
                    },
                    Err(e) => {
                        return Err(e);
                    },
                }
                i += 1;
            }
            proof {
                assert(spec_files_from(items@, items@.len() as int) =~= Seq::<
                    PredictionInput,
                >::empty());
                assert(spec_marshal_from(items@, pv, kk as int, items@.len() as int) =~= Seq::<
                    JsonModel,
                >::empty());
                assert(spec_json_views(out@) =~= whole);
            }
            let r = JsonValue::Arr(out);
            proof {
                crate::json::lemma_arr_model(out, spec_json_views(out@));
                assert(r@ =~= JsonModel::Arr(whole));
            }
            Ok((r, kk))
        },
    }
}

/// Marshal a whole positional input list against the uploaded server
/// paths: one wire value per top-level input, in order, with every binary
/// payload replaced by its file envelope. The server paths must be exactly
/// one per payload, in the payloads' depth-first order.
#[verifier::loop_isolation(false)]
pub fn marshal_inputs(inputs: &Vec<PredictionInput>, server_paths: &Vec<String>) -> (r: Result<
    Vec<JsonValue>,
    GradioError,
>)
    ensures
        match r {
            Ok(out) => {
                &&& spec_inputs_valid_from(inputs@, 0)
                &&& server_paths@.len() == spec_files_from(inputs@, 0).len()
                &&& out@.len() == inputs@.len()
                &&& spec_json_views(out@) == spec_marshal_from(
                    inputs@,
                    spec_views(server_paths@),
                    0,
                    0,
                )
            },
            Err(e) => e is Upload && (server_paths@.len() != spec_files_from(inputs@, 0).len()
                || !spec_inputs_valid_from(inputs@, 0)),
        },
{
    let ghost pv = spec_views(server_paths@);
    let ghost whole = spec_marshal_from(inputs@, pv, 0, 0);
    let mut out: Vec<JsonValue> = Vec::new();
    let mut kk: usize = 0;
    let mut i: usize = 0;
    while i < inputs.len()
        invariant
            i <= inputs@.len(),
            out@.len() == i,
            spec_inputs_valid_from(inputs@, 0) <==> spec_inputs_valid_from(inputs@, i as int),
            kk as int + spec_files_from(inputs@, i as int).len() == spec_files_from(
                inputs@,
                0,
            ).len(),
            spec_json_views(out@) + spec_marshal_from(inputs@, pv, kk as int, i as int) =~= whole,
        decreases inputs@.len() - i,
    {
        proof {
            assert(spec_files_from(inputs@, i as int) == spec_files(inputs@[i as int])
                + spec_files_from(inputs@, i as int + 1));
            assert(spec_inputs_valid_from(inputs@, i as int) == (spec_input_valid(
                inputs@[i as int],
            ) && spec_inputs_valid_from(inputs@, i as int + 1)));
        }
        match marshal_one(&inputs[i], server_paths, kk) {
            Ok((j, k2)) => {
                proof {
                    assert(spec_marshal_from(inputs@, pv, kk as int, i as int) == seq![
                        spec_marshal_one(inputs@[i as int], pv, kk as int),
                    ] + spec_marshal_from(inputs@, pv, k2 as int, i as int + 1));
                    assert(spec_json_views(out@.push(j)) =~= spec_json_views(out@) + seq![j@]);
                    assert((spec_json_views(out@) + seq![j@]) + spec_marshal_from(
                        inputs@,
                        pv,
                        k2 as int,
                        i as int + 1,
                    ) =~= spec_json_views(out@) + (seq![j@] + spec_marshal_from(
                        inputs@,
                        pv,
                        k2 as int,
                        i as int + 1,
                    )));
                }
                out.push(j);
                kk = k2;
            },
            Err(e) => {
                return Err(e);
            },
        }
        i += 1;
    }
    proof {
        assert(spec_files_from(inputs@, inputs@.len() as int) =~= Seq::<PredictionInput>::empty());
        assert(spec_marshal_from(inputs@, pv, kk as int, inputs@.len() as int) =~= Seq::<
            JsonModel,
        >::empty());
    }
    if kk != server_paths.len() {
        return Err(GradioError::Upload("Invalid file upload response".to_owned()));
    }
    proof {
        assert(spec_json_views(out@) =~= whole);
    }
    Ok(out)
}


/// What the service will return for one uploaded payload's file name when
/// asked to guess its media type: a fixed function of the name alone.
pub uninterp spec fn mime_of(filename: Seq<char>) -> Seq<char>;

/// Relies on `mime_guess::from_path` with `first_or_octet_stream`: the
/// guess is a fixed table lookup on the name's extension, so it depends on
/// the file name alone.
#[verifier::external_body]
fn guess_mime(filename: &str) -> (r: String)
    ensures
        r@ == mime_of(filename@),
{
    mime_guess::from_path(filename).first_or_octet_stream().as_ref().to_owned()
}

/// Where the bytes of one upload come from.
#[derive(Debug)]
pub enum UploadSource {
    /// Read the file at this local path.
    Path(String),
    /// The bytes are already in memory.
    Memory(Vec<u8>),
}

/// One payload to upload before submission: its source, the file name sent
/// with the multipart part, and the media type guessed from that name.
#[derive(Debug)]
pub struct UploadItem {
    pub source: UploadSource,
    pub filename: String,
    pub mime: String,
}

/// `it` is the upload planned for the file leaf `f`.
pub open spec fn spec_upload_item_matches(it: UploadItem, f: PredictionInput) -> bool {
    match f {
        PredictionInput::FilePath(p) => {
            &&& it.source matches UploadSource::Path(q) && q@ == p@
            &&& it.filename@ == spec_after_last(p@, '/')
            &&& it.mime@ == mime_of(spec_after_last(p@, '/'))
        },
        PredictionInput::FileData(n, b) => {
            &&& it.source matches UploadSource::Memory(d) && d@ == b@
            &&& it.filename@ == n@
            &&& it.mime@ == mime_of(n@)
        },
        _ => false,
    }
}

/// Copy a byte buffer.
#[verifier::loop_isolation(false)]
fn copy_bytes(b: &Vec<u8>) -> (r: Vec<u8>)
    ensures
        r@ == b@,
{
    let mut out: Vec<u8> = Vec::new();
    let mut i: usize = 0;
    while i < b.len()
        invariant
            i <= b@.len(),
            out@ == b@.subrange(0, i as int),
        decreases b@.len() - i,
    {
        out.push(b[i]);
        proof {
            assert(out@ =~= b@.subrange(0, i + 1));
        }
        i += 1;
    }
    proof {
        assert(out@ =~= b@);
    }
    out
}

/// Append the uploads planned for one input, depth first.
#[verifier::loop_isolation(false)]
fn collect_into(inp: &PredictionInput, out: &mut Vec<UploadItem>) -> (r: Result<(), GradioError>)
    ensures
        match r {
            Ok(unit) => {
                &&& spec_input_valid(*inp)
                &&& final(out)@.len() == old(out)@.len() + spec_files(*inp).len()
                &&& (forall|j: int|
                    0 <= j < old(out)@.len() ==> final(out)@[j] == old(out)@[j])
                &&& (forall|j: int|
                    #![trigger spec_files(*inp)[j]]
                    0 <= j < spec_files(*inp).len() ==> spec_upload_item_matches(
                        final(out)@[old(out)@.len() + j],
                        spec_files(*inp)[j],
                    ))
            },
            Err(e) => e is Upload && !spec_input_valid(*inp),
        },
    decreases *inp,
{
    match inp {
        PredictionInput::Value(v) => Ok(()),
        PredictionInput::FilePath(p) => {
            proof {
                assert(*inp == PredictionInput::FilePath(*p));
            }
            let name = after_last(p.as_str(), '/');
            if name.unicode_len() == 0 {
                return Err(GradioError::Upload("Invalid file path".to_owned()));
            }
            let mime = guess_mime(name);
            out.push(
                UploadItem {
                    source: UploadSource::Path(p.clone()),
                    filename: name.to_owned(),
                    mime,
                },
            );
            Ok(())
        },
        PredictionInput::FileData(n, b) => {
            proof {
                assert(*inp == PredictionInput::FileData(*n, *b));
            }
            let mime = guess_mime(n.as_str());
            out.push(
                UploadItem {
                    source: UploadSource::Memory(copy_bytes(b)),
                    filename: n.clone(),
                    mime,
                },
            );
            Ok(())
        },
        PredictionInput::Array(items) => {
            proof {
                assert(*inp == PredictionInput::Array(*items));
            }
            let ghost base = out@.len() as int;
            let ghost mut done: Seq<PredictionInput> = Seq::empty();
            let mut i: usize = 0;
            proof {
                assert(done + spec_files_from(items@, 0) =~= spec_files_from(items@, 0));
            }
            while i < items.len()
                invariant
                    i <= items@.len(),
                    out@.len() == base + done.len(),
                    spec_inputs_valid_from(items@, 0) <==> spec_inputs_valid_from(items@, i as int),
                    done + spec_files_from(items@, i as int) =~= spec_files_from(items@, 0),
                    forall|j: int| 0 <= j < base ==> out@[j] == old(out)@[j],
                    forall|j: int|
                        #![trigger done[j]]
                        0 <= j < done.len() ==> spec_upload_item_matches(out@[base + j], done[j]),
                decreases items@.len() - i,
            {
                proof {
                    assert(decreases_to!(*inp => *items));
                    assert(decreases_to!(*items => items@));
                    assert(decreases_to!(items@ => items@[i as int]));
                    assert(spec_files_from(items@, i as int) == spec_files(items@[i as int])
                        + spec_files_from(items@, i as int + 1));
                    assert(spec_inputs_valid_from(items@, i as int) == (spec_input_valid(
                        items@[i as int],
                    ) && spec_inputs_valid_from(items@, i as int + 1)));
                }
                let ghost out_before = out@;
                match collect_into(&items[i], out) {
                    Ok(unit) => {
                        proof {
                            let fs = spec_files(items@[i as int]);
                            assert((done + fs) + spec_files_from(items@, i as int + 1) =~= done + (
                            fs + spec_files_from(items@, i as int + 1)));
                            done = done + fs;
                        }
                    },
                    Err(e) => {
                        return Err(e);
                    },
                }
                i += 1;
            }
            proof {
                assert(spec_files_from(items@, items@.len() as int) =~= Seq::<
                    PredictionInput,
                >::empty());
                assert(done =~= spec_files_from(items@, 0));
            }
            Ok(())
        },
    }
}

/// Plan the uploads for a whole positional input list: one item per binary
/// payload, in the payloads' depth-first order, each named and typed for
/// its multipart part.
#[verifier::loop_isolation(false)]
pub fn collect_uploads(inputs: &Vec<PredictionInput>) -> (r: Result<Vec<UploadItem>, GradioError>)
    ensures
        match r {
            Ok(items) => {
                &&& spec_inputs_valid_from(inputs@, 0)
                &&& items@.len() == spec_files_from(inputs@, 0).len()
                &&& (forall|j: int|
                    #![trigger items@[j]]
                    0 <= j < items@.len() ==> spec_upload_item_matches(
                        items@[j],
                        spec_files_from(inputs@, 0)[j],
                    ))
            },
            Err(e) => e is Upload && !spec_inputs_valid_from(inputs@, 0),
        },
{
    let ghost whole = spec_files_from(inputs@, 0);
    let mut out: Vec<UploadItem> = Vec::new();
    let ghost mut done: Seq<PredictionInput> = Seq::empty();
    let mut i: usize = 0;
    proof {
        assert(done + spec_files_from(inputs@, 0) =~= whole);
    }
    while i < inputs.len()
        invariant
            i <= inputs@.len(),
            out@.len() == done.len(),
            spec_inputs_valid_from(inputs@, 0) <==> spec_inputs_valid_from(inputs@, i as int),
            done + spec_files_from(inputs@, i as int) =~= whole,
            forall|j: int|
                #![trigger done[j]]
                0 <= j < done.len() ==> spec_upload_item_matches(out@[j], done[j]),
        decreases inputs@.len() - i,
    {
        proof {
            assert(spec_files_from(inputs@, i as int) == spec_files(inputs@[i as int])
                + spec_files_from(inputs@, i as int + 1));
            assert(spec_inputs_valid_from(inputs@, i as int) == (spec_input_valid(
                inputs@[i as int],
            ) && spec_inputs_valid_from(inputs@, i as int + 1)));
        }
        match collect_into(&inputs[i], &mut out) {
            Ok(unit) => {
                proof {
                    let fs = spec_files(inputs@[i as int]);
                    assert((done + fs) + spec_files_from(inputs@, i as int + 1) =~= done + (fs
                        + spec_files_from(inputs@, i as int + 1)));
                    done = done + fs;
                }
            },
            Err(e) => {
                return Err(e);
            },
        }
        i += 1;
    }
    proof {
        assert(spec_files_from(inputs@, inputs@.len() as int) =~= Seq::<PredictionInput>::empty());
        assert(done =~= whole);
    }
    Ok(out)
}

/// The server paths carried by an upload response body, when it is an
/// array of strings.
pub open spec fn spec_upload_paths(m: JsonModel) -> Option<Seq<Seq<char>>> {
    match m {
        JsonModel::Arr(a) => if forall|i: int| 0 <= i < a.len() ==> a[i] is Str {
            Some(Seq::new(a.len(), |i: int| a[i]->Str_0))
        } else {
            None
        },
        _ => None,
    }
}

/// Interpret one upload response: a non-success status, an unreadable
/// body, or anything but an array holding exactly one server path is a
/// fatal upload error; the one path is returned.
#[verifier::loop_isolation(false)]
pub fn interpret_upload_response(status_ok: bool, body: Option<&JsonValue>) -> (r: Result<
    String,
    GradioError,
>)
    ensures
        match r {
            Ok(p) => {
                &&& status_ok
                &&& body matches Some(b) && spec_upload_paths(b@) matches Some(ps) && ps.len() == 1
                    && ps[0] == p@
            },
            Err(e) => {
                &&& e is Upload
                &&& (!status_ok || body is None || (body matches Some(b) && !(spec_upload_paths(b@)
                    matches Some(ps) && ps.len() == 1)))
            },
        },
{
    if !status_ok {
        return Err(GradioError::Upload("Error uploading file".to_owned()));
    }
    let v = match body {
        Some(v) => v,
        None => {
            return Err(GradioError::Upload("Error uploading file".to_owned()));
        },
    };
    match v {
        JsonValue::Arr(items) => {
            proof {
                assert(*v == JsonValue::Arr(*items));
            }
            if items.len() != 1 {
                return Err(GradioError::Upload("Invalid file upload response".to_owned()));
            }
            match items[0].as_str() {
                Some(p) => {
                    proof {
                        assert(v@ matches JsonModel::Arr(a) && a.len() == 1 && a[0] is Str);
                    }
                    Ok(p.clone())
                },
                None => Err(GradioError::Upload("Invalid file upload response".to_owned())),
            }
        },
        _ => Err(GradioError::Upload("Invalid file upload response".to_owned())),
    }
}

impl GradioFileData {
    /// The extension this file suggests for saving: what follows the last
    /// dot of its original name, else its path, else its URL; a file with
    /// none of the three suggests the generic binary extension.
    pub fn suggest_extension<'a>(&'a self) -> (r: &'a str)
        ensures
            r@ == spec_suggest_extension(*self),
    {
        if let Some(n) = &self.orig_name {
            after_last(n.as_str(), '.')
        } else if let Some(p) = &self.path {
            after_last(p.as_str(), '.')
        } else if let Some(u) = &self.url {
            after_last(u.as_str(), '.')
        } else {
            "bin"
        }
    }
}

/// The extension a decoded file suggests: the last dot-suffix of its
/// original name, else its path, else its URL, else the generic `bin`.
pub open spec fn spec_suggest_extension(fd: GradioFileData) -> Seq<char> {
    match fd.orig_name {
        Some(n) => spec_after_last(n@, '.'),
        None => match fd.path {
            Some(p) => spec_after_last(p@, '.'),
            None => match fd.url {
                Some(u) => spec_after_last(u@, '.'),
                None => "bin"@,
            },
        },
    }
}

} // verus!
