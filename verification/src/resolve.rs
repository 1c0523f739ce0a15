//! Application-reference resolution: classify a raw reference into the
//! registry-hosted `owner/name` form, a hosted hostname, or a direct API
//! root, and say what must be fetched to finish the resolution. Only the
//! `owner/name` form needs a registry lookup; the other two resolve locally.

use vstd::prelude::*;

verus! {

use crate::error::GradioError;
use crate::json::JsonValue;
use crate::json::JsonModel;
use crate::json::spec_get;
use crate::strutil::spec_trim_trailing_slashes;
use crate::strutil::str_ends_with;
use crate::strutil::trim_trailing_slashes;
use crate::strutil::concat_str;
use vstd::string::StrSliceExecFns;
use vstd::string::StringExecFns;

/// A character allowed on either side of the `/` of an `owner/name`
/// reference: ASCII letters, digits, `_`, `-` and `.`.
pub open spec fn is_ref_char(c: char) -> bool {
    ('a' <= c && c <= 'z') || ('A' <= c && c <= 'Z') || ('0' <= c && c <= '9') || c == '_' || c
        == '-' || c == '.'
}

/// Position `i` splits `s` into a non-empty owner and a non-empty name,
/// both made only of reference characters.
pub open spec fn is_owner_name_split(s: Seq<char>, i: int) -> bool {
    &&& 0 < i
    &&& i + 1 < s.len()
    &&& s[i] == '/'
    &&& forall|j: int| 0 <= j < s.len() && j != i ==> is_ref_char(s[j])
}

/// Whether `s` is an `owner/name` registry reference: exactly one `/`,
/// non-empty on both sides, all other characters from the reference set.
pub open spec fn is_owner_name_ref(s: Seq<char>) -> bool {
    exists|i: int| is_owner_name_split(s, i)
}

/// Whether `s` (already trimmed of trailing slashes) names a hosted
/// application by its hostname suffix.
pub open spec fn is_hosted_ref(s: Seq<char>) -> bool {
    "hf.space"@.is_suffix_of(s)
}

/// The logical space id carried by a hosted reference: the reference with
/// its hosting suffix (and the dot before it, when present) stripped.
pub open spec fn spec_hosted_space_id(s: Seq<char>) -> Seq<char> {
    if ".hf.space"@.is_suffix_of(s) {
        s.take(s.len() - ".hf.space"@.len())
    } else if "hf.space"@.is_suffix_of(s) {
        s.take(s.len() - "hf.space"@.len())
    } else {
        s
    }
}

/// The absolute registry endpoint that maps an `owner/name` reference to
/// its hosting URL.
pub open spec fn spec_registry_lookup_url(reference: Seq<char>) -> Seq<char> {
    "https://huggingface.co/api/spaces/"@ + reference + "/"@ + "host"@
}

/// Whether `c` is allowed on either side of the `/` of an `owner/name`
/// reference.
pub fn is_ref_char_exec(c: char) -> (r: bool)
    ensures
        r == is_ref_char(c),
{
    ('a' <= c && c <= 'z') || ('A' <= c && c <= 'Z') || ('0' <= c && c <= '9') || c == '_' || c
        == '-' || c == '.'
}

/// Whether `s` is an `owner/name` registry reference.
#[verifier::loop_isolation(false)]
pub fn matches_owner_name(s: &str) -> (r: bool)
    ensures
        r == is_owner_name_ref(s@),
{
    let len: usize = s.unicode_len();
    let mut slash: Option<usize> = None;
    let mut i: usize = 0;
    while i < len
        invariant
            i <= len,
            match slash {
                Some(p) => p < i && s@[p as int] == '/' && (forall|j: int|
                    0 <= j < i && j != p ==> is_ref_char(s@[j])),
                None => forall|j: int| 0 <= j < i ==> is_ref_char(s@[j]) && s@[j] != '/',
            },
        decreases len - i,
    {
        let c = s.get_char(i);
        if c == '/' {
            match slash {
                Some(p) => {
                    proof {
                        assert forall|k: int| !is_owner_name_split(s@, k) by {
                            if is_owner_name_split(s@, k) {
                                if k != p {
                                    assert(is_ref_char(s@[p as int]));
                                } else {
                                    assert(is_ref_char(s@[i as int]));
                                }
                            }
                        }
                    }
                    return false;
                },
                None => {
                    slash = Some(i);
                },
            }
        } else if !is_ref_char_exec(c) {
            proof {
                assert forall|k: int| !is_owner_name_split(s@, k) by {
                    if is_owner_name_split(s@, k) {
                        if k == i {
                            assert(s@[i as int] == '/');
                        } else {
                            assert(is_ref_char(s@[i as int]));
                        }
                    }
                }
            }
            return false;
        }
        i += 1;
    }
    match slash {
        Some(p) => {
            if 0 < p && p + 1 < len {
                proof {
                    assert(is_owner_name_split(s@, p as int));
                }
                true
            } else {
                proof {
                    assert forall|k: int| !is_owner_name_split(s@, k) by {
                        if is_owner_name_split(s@, k) {
                            if k != p {
                                assert(is_ref_char(s@[p as int]));
                            }
                        }
                    }
                }
                false
            }
        },
        None => {
            proof {
                assert forall|k: int| !is_owner_name_split(s@, k) by {
                    if is_owner_name_split(s@, k) {
                        assert(s@[k] == '/');
                    }
                }
            }
            false
        },
    }
}

/// The first move of resolution: either the registry must be consulted, or
/// the reference resolves locally.
#[derive(Debug)]
pub enum ResolveStep {
    /// The reference is `owner/name`: fetch `lookup_url` and hand the
    /// response to [`finish_registry_resolution`].
    NeedRegistry { lookup_url: String, reference: String },
    /// The reference resolves without any network call.
    Done { api_root: String, space_id: Option<String> },
}

/// The registry endpoint for an `owner/name` reference.
pub fn registry_lookup_url(reference: &str) -> (r: String)
    ensures
        r@ == spec_registry_lookup_url(reference@),
{
    let mut s: String = concat_str("https://huggingface.co/api/spaces/", reference);
    s.append("/");
    s.append("host");
    proof {
        assert(s@ =~= spec_registry_lookup_url(reference@));
    }
    s
}

/// Classify a raw application reference, trimmed of trailing slashes, and
/// say how its resolution proceeds: an `owner/name` reference needs one
/// registry lookup; a hosted hostname yields its space id locally; anything
/// else is taken as a direct API root with no space id.
pub fn resolve_start(app_reference: &str) -> (r: ResolveStep)
    ensures
        spec_resolution_step(r, app_reference@),
{
    let trimmed: &str = trim_trailing_slashes(app_reference);
    if matches_owner_name(trimmed) {
        ResolveStep::NeedRegistry {
            lookup_url: registry_lookup_url(trimmed),
            reference: trimmed.to_owned(),
        }
    } else if str_ends_with(trimmed, "hf.space") {
        let sid: String = hosted_space_id(trimmed);
        ResolveStep::Done { api_root: trimmed.to_owned(), space_id: Some(sid) }
    } else {
        ResolveStep::Done { api_root: trimmed.to_owned(), space_id: None }
    }
}

/// What classifying the raw reference guarantees of the first resolution
/// move: an `owner/name` reference asks for exactly one registry lookup,
/// keyed by the trimmed reference; anything else resolves locally, a
/// hosted hostname with its space id and any other reference with none.
pub open spec fn spec_resolution_step(r: ResolveStep, raw: Seq<char>) -> bool {
    let t = spec_trim_trailing_slashes(raw);
    match r {
        ResolveStep::NeedRegistry { lookup_url, reference } => {
            &&& is_owner_name_ref(t)
            &&& reference@ == t
            &&& lookup_url@ == spec_registry_lookup_url(t)
        },
        ResolveStep::Done { api_root, space_id } => {
            &&& !is_owner_name_ref(t)
            &&& api_root@ == t
            &&& (match space_id {
                Some(sid) => is_hosted_ref(t) && sid@ == spec_hosted_space_id(t),
                None => !is_hosted_ref(t),
            })
        },
    }
}

/// The logical space id of a hosted reference: the hosting suffix, and the
/// dot before it when present, are stripped.
pub fn hosted_space_id(s: &str) -> (r: String)
    ensures
        r@ == spec_hosted_space_id(s@),
{
    let len: usize = s.unicode_len();
    if str_ends_with(s, ".hf.space") {
        proof {
            reveal_strlit(".hf.space");
            assert(s@.subrange(0, s@.len() - 9) =~= s@.take(s@.len() - ".hf.space"@.len()));
        }
        s.substring_char(0, len - 9).to_owned()
    } else if str_ends_with(s, "hf.space") {
        proof {
            reveal_strlit("hf.space");
            assert(s@.subrange(0, s@.len() - 8) =~= s@.take(s@.len() - "hf.space"@.len()));
        }
        s.substring_char(0, len - 8).to_owned()
    } else {
        s.to_owned()
    }
}

/// The `host` field of a registry lookup response, when the response is an
/// object carrying one as a string.
pub open spec fn spec_registry_host(m: JsonModel) -> Option<Seq<char>> {
    match spec_get(m, "host"@) {
        Some(h) => match h {
            JsonModel::Str(t) => Some(t),
            _ => None,
        },
        None => None,
    }
}

/// Interpret the registry lookup response: a non-success status or a body
/// without a string `host` field is a fatal resolution error; otherwise the
/// returned host becomes the API root and the reference itself the space id.
pub fn finish_registry_resolution(
    status_ok: bool,
    body: Option<&JsonValue>,
    reference: &str,
) -> (r: Result<(String, Option<String>), GradioError>)
    ensures
        match r {
            Ok((api_root, space_id)) => {
                &&& status_ok
                &&& body matches Some(b) && spec_registry_host(b@) == Some(api_root@)
                &&& space_id matches Some(sid) && sid@ == reference@
            },
            Err(e) => {
                &&& e is Resolution
                &&& (!status_ok || body is None || (body matches Some(b) && spec_registry_host(b@)
                    is None))
            },
        },
{
    if !status_ok {
        return Err(GradioError::Resolution("Space metadata could not be loaded".to_owned()));
    }
    match body {
        None => Err(GradioError::Resolution("Space metadata could not be loaded".to_owned())),
        Some(v) => match v.get("host") {
            Some(h) => match h.as_str() {
                Some(host) => Ok((host.clone(), Some(reference.to_owned()))),
                None => Err(
                    GradioError::Resolution("Space metadata could not be loaded".to_owned()),
                ),
            },
            None => Err(GradioError::Resolution("Space metadata could not be loaded".to_owned())),
        },
    }
}

/// Every `owner/name` reference has at least an owner character, the
/// separator and a name character.
pub proof fn lemma_owner_name_ref_nonempty(s: Seq<char>)
    requires
        is_owner_name_ref(s),
    ensures
        s.len() >= 3,
{
    let i = choose|i: int| is_owner_name_split(s, i);
    assert(0 < i && i + 1 < s.len());
}

/// For every reference in the `owner/name` form, resolution performs
/// exactly one registry lookup — the single `NeedRegistry` move, keyed by
/// the trimmed reference — and the registry outcome carries a non-empty
/// logical space id equal to that reference.
pub proof fn lemma_owner_name_resolution(raw: Seq<char>, r: ResolveStep, space_id: Seq<char>)
    requires
        spec_resolution_step(r, raw),
        is_owner_name_ref(spec_trim_trailing_slashes(raw)),
        r matches ResolveStep::NeedRegistry { lookup_url, reference } && space_id == reference@,
    ensures
        space_id == spec_trim_trailing_slashes(raw),
        space_id.len() >= 3,
{
    lemma_owner_name_ref_nonempty(spec_trim_trailing_slashes(raw));
}

/// A reference matching neither the `owner/name` form nor the hosted
/// suffix is already a full URL: its resolution is local, the API root is
/// the trimmed input unchanged, and there is no logical space id.
pub proof fn lemma_direct_url_resolution(raw: Seq<char>, r: ResolveStep)
    requires
        spec_resolution_step(r, raw),
        !is_owner_name_ref(spec_trim_trailing_slashes(raw)),
        !is_hosted_ref(spec_trim_trailing_slashes(raw)),
    ensures
        r matches ResolveStep::Done { api_root, space_id } && api_root@
            == spec_trim_trailing_slashes(raw) && space_id is None,
{
}

} // verus!
