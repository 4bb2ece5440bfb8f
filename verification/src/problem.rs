//! The wire-safe problem envelope: a title, four optional core fields and
//! an open map of extension fields, serialized as one flat JSON object.

use vstd::prelude::*;
use vstd::utf8::encode_utf8;

use crate::is_reserved_field_name;
use crate::jsonval::JsonEntries;
use crate::jsonval::MAX_VALUE_DEPTH;
use crate::jsonval::entries_depth_ok;
use crate::jsonval::json_as_i64;
use crate::jsonval::json_fits_depth;
use crate::jsonval::parsed_entries;
use crate::jsonval::json_as_text;
use crate::jsonval::json_as_u64;
use crate::jsonval::json_is_null;
use crate::jsonval::map_entries;
use crate::jsonval::map_remove;
use crate::jsonval::map_insert;
use crate::jsonval::map_new;
use crate::jsonval::num_value_of;
use crate::jsonval::object_text;
use crate::jsonval::str_value_of;
use crate::jsonval::value_clone;
use crate::jsonval::value_fits_depth;
use crate::jsonval::value_from_str;
use crate::jsonval::value_from_u64;
use crate::reserved_field_name;
use crate::status::StatusCode;
use crate::status::dec_digits;
use crate::status::reason_phrase_of;
use crate::str_eq;

verus! {

/// The model of a problem: the characters of each core field and the
/// extension fields as a map from key characters to JSON values.
pub ghost struct ProblemModel {
    pub type_url: Option<Seq<char>>,
    pub status: Option<u16>,
    pub title: Seq<char>,
    pub detail: Option<Seq<char>>,
    pub instance: Option<Seq<char>>,
    pub fields: JsonEntries,
}

impl ProblemModel {
    /// No extension field uses a reserved core field name.
    pub open spec fn wf(&self) -> bool {
        forall|k: Seq<char>| self.fields.dom().contains(k) ==> !is_reserved_field_name(k)
    }

    /// Every extension field value nests within the stored-value
    /// allowance, so the model's wire text parses back.
    pub open spec fn depth_ok(&self) -> bool {
        entries_depth_ok(self.fields)
    }
}

/// Pairwise distinct keys in an association list.
pub open spec fn pairs_distinct(pairs: Seq<(String, serde_json::Value)>) -> bool {
    forall|a: int, b: int| 0 <= a < b < pairs.len() ==> pairs[a].0@ != pairs[b].0@
}

/// No reserved key in an association list.
pub open spec fn pairs_unreserved(pairs: Seq<(String, serde_json::Value)>) -> bool {
    forall|i: int|
        0 <= i < pairs.len() ==> !is_reserved_field_name((#[trigger] pairs[i]).0@)
}

/// Every value in an association list nests within the stored-value
/// allowance.
pub open spec fn pairs_depth_ok(pairs: Seq<(String, serde_json::Value)>) -> bool {
    forall|i: int|
        0 <= i < pairs.len() ==> json_fits_depth((#[trigger] pairs[i]).1, MAX_VALUE_DEPTH)
}

/// The map an association list denotes; a later pair with the same key
/// overrides an earlier one.
pub open spec fn pairs_to_map(pairs: Seq<(String, serde_json::Value)>) -> JsonEntries
    decreases pairs.len(),
{
    if pairs.len() == 0 {
        JsonEntries::empty()
    } else {
        pairs_to_map(pairs.drop_last()).insert(pairs.last().0@, pairs.last().1)
    }
}

/// The keys of the map an association list denotes are exactly the keys of
/// its pairs.
pub proof fn lemma_pairs_to_map_dom(pairs: Seq<(String, serde_json::Value)>)
    ensures
        forall|k: Seq<char>|
            pairs_to_map(pairs).dom().contains(k) <==> exists|i: int|
                0 <= i < pairs.len() && (#[trigger] pairs[i]).0@ == k,
    decreases pairs.len(),
{
    if pairs.len() > 0 {
        lemma_pairs_to_map_dom(pairs.drop_last());
        assert forall|k: Seq<char>| pairs_to_map(pairs).dom().contains(k) implies exists|i: int|
            0 <= i < pairs.len() && (#[trigger] pairs[i]).0@ == k by {
            if k == pairs.last().0@ {
                assert(pairs[pairs.len() - 1].0@ == k);
            } else {
                assert(pairs_to_map(pairs.drop_last()).dom().contains(k));
                let i = choose|i: int|
                    0 <= i < pairs.drop_last().len() && (#[trigger] pairs.drop_last()[i]).0@ == k;
                assert(pairs[i].0@ == k);
            }
        }
        assert forall|k: Seq<char>|
            exists|i: int| 0 <= i < pairs.len() && (#[trigger] pairs[i]).0@ == k implies pairs_to_map(
            pairs,
        ).dom().contains(k) by {
            let i = choose|i: int| 0 <= i < pairs.len() && (#[trigger] pairs[i]).0@ == k;
            if i < pairs.len() - 1 {
                assert(pairs.drop_last()[i].0@ == k);
                assert(pairs_to_map(pairs.drop_last()).dom().contains(k));
            } else {
                assert(pairs.last().0@ == k);
            }
        }
    }
}

/// In an association list with pairwise distinct keys, the map value of a
/// pair's key is that pair's value.
pub proof fn lemma_pairs_to_map_at(pairs: Seq<(String, serde_json::Value)>, i: int)
    requires
        forall|a: int, b: int| 0 <= a < b < pairs.len() ==> pairs[a].0@ != pairs[b].0@,
        0 <= i < pairs.len(),
    ensures
        pairs_to_map(pairs).dom().contains(pairs[i].0@),
        pairs_to_map(pairs)[pairs[i].0@] == pairs[i].1,
    decreases pairs.len(),
{
    if i == pairs.len() - 1 {
    } else {
        lemma_pairs_to_map_at(pairs.drop_last(), i);
        assert(pairs.drop_last()[i] == pairs[i]);
        assert(pairs.last().0@ != pairs[i].0@);
    }
}

/// An association list whose values all nest within the stored-value
/// allowance denotes a map whose values all do.
pub proof fn lemma_pairs_depth_to_entries(pairs: Seq<(String, serde_json::Value)>)
    requires
        pairs_depth_ok(pairs),
    ensures
        entries_depth_ok(pairs_to_map(pairs)),
    decreases pairs.len(),
{
    if pairs.len() > 0 {
        assert(pairs_depth_ok(pairs.drop_last()));
        lemma_pairs_depth_to_entries(pairs.drop_last());
        assert forall|k: Seq<char>| #[trigger]
            pairs_to_map(pairs).dom().contains(k) implies json_fits_depth(
            pairs_to_map(pairs)[k],
            MAX_VALUE_DEPTH,
        ) by {
            if k == pairs.last().0@ {
                assert(pairs_to_map(pairs)[k] == pairs[pairs.len() - 1].1);
            } else {
                assert(pairs_to_map(pairs.drop_last()).dom().contains(k));
            }
        }
    }
}

/// The wire-safe problem envelope of an HTTP API, shaped after RFC 7807:
/// a mandatory title, an optional problem-type URL, status, detail and
/// instance, and arbitrary extension fields under non-reserved keys.
#[derive(Debug, Clone)]
pub struct HttpApiProblem {
    /// A URI reference identifying the problem type.
    pub type_url: Option<String>,
    /// The status code of this occurrence; a boundary treats an absent
    /// status as 500 when it picks the response code.
    pub status: Option<StatusCode>,
    /// A short human-readable summary; the only mandatory field.
    pub title: String,
    /// A human-readable explanation specific to this occurrence.
    pub detail: Option<String>,
    /// A URI reference identifying this specific occurrence.
    pub instance: Option<String>,
    additional_fields: Vec<(String, serde_json::Value)>,
}

impl View for HttpApiProblem {
    type V = ProblemModel;

    closed spec fn view(&self) -> ProblemModel {
        ProblemModel {
            type_url: match self.type_url {
                Some(u) => Some(u@),
                None => None,
            },
            status: match self.status {
                Some(s) => Some(s.code),
                None => None,
            },
            title: self.title@,
            detail: match self.detail {
                Some(d) => Some(d@),
                None => None,
            },
            instance: match self.instance {
                Some(i) => Some(i@),
                None => None,
            },
            fields: pairs_to_map(self.additional_fields@),
        }
    }
}

impl HttpApiProblem {
    /// The extension fields hold pairwise distinct keys, none of them a
    /// reserved core field name.
    pub closed spec fn wf(&self) -> bool {
        pairs_distinct(self.additional_fields@) && pairs_unreserved(self.additional_fields@)
    }

    /// Every extension field value nests within the stored-value
    /// allowance; the field methods keep this, so the problem's wire text
    /// parses back.
    pub closed spec fn depth_wf(&self) -> bool {
        pairs_depth_ok(self.additional_fields@)
    }

    /// A well-formed problem has a well-formed model.
    pub proof fn lemma_wf_model(&self)
        requires
            self.wf(),
        ensures
            self@.wf(),
    {
        lemma_pairs_to_map_dom(self.additional_fields@);
    }

    /// A depth-bounded problem has a depth-bounded model.
    pub proof fn lemma_depth_model(&self)
        requires
            self.depth_wf(),
        ensures
            self@.depth_ok(),
    {
        lemma_pairs_depth_to_entries(self.additional_fields@);
    }

    /// Creates a problem with the given title; everything else is absent.
    pub fn new(title: &str) -> (r: HttpApiProblem)
        ensures
            r@.title == title@,
            r@.type_url is None,
            r@.status is None,
            r@.detail is None,
            r@.instance is None,
            r@.fields == JsonEntries::empty(),
            r.wf(),
            r.depth_wf(),
    {
        HttpApiProblem {
            type_url: None,
            status: None,
            title: title.to_owned(),
            detail: None,
            instance: None,
            additional_fields: Vec::new(),
        }
    }

    /// Creates a problem from a status: the title is the status's reason
    /// phrase and the type URL is the canonical status lookup URL.
    pub fn with_title_and_type_from_status(status: StatusCode) -> (r: HttpApiProblem)
        ensures
            r@.title == reason_phrase_of(status.code),
            r@.type_url == Some(status_lookup_url(status.code)),
            r@.status == Some(status.code),
            r@.detail is None,
            r@.instance is None,
            r@.fields == JsonEntries::empty(),
            r.wf(),
            r.depth_wf(),
    {
        let mut url = String::new();
        url.append("https://httpstatuses.com/");
        crate::status::append_dec(&mut url, status.as_u16());
        proof {
            assert(url@ =~= status_lookup_url(status.code));
        }
        HttpApiProblem {
            type_url: Some(url),
            status: Some(status),
            title: status.reason_phrase().to_owned(),
            detail: None,
            instance: None,
            additional_fields: Vec::new(),
        }
    }

    /// Creates a problem from a status: the title is the status's reason
    /// phrase; the type URL stays absent.
    pub fn with_title_from_status(status: StatusCode) -> (r: HttpApiProblem)
        ensures
            r@.title == reason_phrase_of(status.code),
            r@.type_url is None,
            r@.status == Some(status.code),
            r@.detail is None,
            r@.instance is None,
            r@.fields == JsonEntries::empty(),
            r.wf(),
            r.depth_wf(),
    {
        HttpApiProblem {
            type_url: None,
            status: Some(status),
            title: status.reason_phrase().to_owned(),
            detail: None,
            instance: None,
            additional_fields: Vec::new(),
        }
    }

    /// Replaces the type URL; everything else is kept.
    pub fn set_type_url(self, type_url: &str) -> (r: HttpApiProblem)
        ensures
            r@ == (ProblemModel { type_url: Some(type_url@), ..self@ }),
            r.wf() == self.wf(),
            r.depth_wf() == self.depth_wf(),
    {
        let mut s = self;
        s.type_url = Some(type_url.to_owned());
        s
    }

    /// Replaces the status; everything else is kept.
    pub fn set_status(self, status: StatusCode) -> (r: HttpApiProblem)
        ensures
            r@ == (ProblemModel { status: Some(status.code), ..self@ }),
            r.wf() == self.wf(),
            r.depth_wf() == self.depth_wf(),
    {
        let mut s = self;
        s.status = Some(status);
        s
    }

    /// Replaces the title; everything else is kept.
    pub fn set_title(self, title: &str) -> (r: HttpApiProblem)
        ensures
            r@ == (ProblemModel { title: title@, ..self@ }),
            r.wf() == self.wf(),
            r.depth_wf() == self.depth_wf(),
    {
        let mut s = self;
        s.title = title.to_owned();
        s
    }

    /// Replaces the detail text; everything else is kept.
    pub fn set_detail(self, detail: &str) -> (r: HttpApiProblem)
        ensures
            r@ == (ProblemModel { detail: Some(detail@), ..self@ }),
            r.wf() == self.wf(),
            r.depth_wf() == self.depth_wf(),
    {
        let mut s = self;
        s.detail = Some(detail.to_owned());
        s
    }

    /// Replaces the instance; everything else is kept.
    pub fn set_instance(self, instance: &str) -> (r: HttpApiProblem)
        ensures
            r@ == (ProblemModel { instance: Some(instance@), ..self@ }),
            r.wf() == self.wf(),
            r.depth_wf() == self.depth_wf(),
    {
        let mut s = self;
        s.instance = Some(instance.to_owned());
        s
    }
}

/// The canonical lookup URL of a status value.
pub open spec fn status_lookup_url(code: u16) -> Seq<char> {
    "https://httpstatuses.com/"@ + dec_digits(code as int)
}

/// Why a JSON text failed to parse as a problem.
#[derive(Clone, Copy, PartialEq, Eq, Structural, Debug)]
pub enum ParseProblemError {
    /// The text is not a JSON object.
    NotAnObject,
    /// The object has no "title" member: the title is mandatory.
    MissingTitle,
    /// The "title" member is not a string.
    InvalidTitle,
    /// The "status" member is present and neither null nor an integer.
    InvalidStatus,
    /// The "type" member is present and not a string.
    InvalidTypeUrl,
    /// The "detail" member is present and not a string.
    InvalidDetail,
    /// The "instance" member is present and not a string.
    InvalidInstance,
}

/// A JSON object's entries without the five reserved keys.
pub open spec fn strip_reserved(m: JsonEntries) -> JsonEntries {
    m.remove("type"@).remove("status"@).remove("title"@).remove("detail"@).remove("instance"@)
}

/// How a JSON value found under "status" is read: null stands for an
/// absent status (the inner `None`); an integer keeps its value when it
/// fits in 16 bits and otherwise falls back leniently to 500; anything
/// that is neither null nor an integer is invalid (the outer `None`).
pub open spec fn read_status_value(v: serde_json::Value) -> Option<Option<u16>> {
    if json_is_null(v) {
        Some(None)
    } else {
        match json_as_u64(v) {
            Some(n) => if n <= 0xFFFF {
                Some(Some(n as u16))
            } else {
                Some(Some(500u16))
            },
            None => match json_as_i64(v) {
                Some(_) => Some(Some(500u16)),
                None => None,
            },
        }
    }
}

/// The problem a JSON object denotes: "title" must be present and a
/// string; "status" is read by `read_status_value` where present; "type",
/// "detail" and "instance" must be strings where present; every other
/// member becomes an extension field.
pub open spec fn object_to_model(em: JsonEntries) -> Result<ProblemModel, ParseProblemError> {
    if !em.dom().contains("title"@) {
        Err(ParseProblemError::MissingTitle)
    } else if json_as_text(em["title"@]) is None {
        Err(ParseProblemError::InvalidTitle)
    } else if em.dom().contains("status"@) && read_status_value(em["status"@]) is None {
        Err(ParseProblemError::InvalidStatus)
    } else if em.dom().contains("type"@) && json_as_text(em["type"@]) is None {
        Err(ParseProblemError::InvalidTypeUrl)
    } else if em.dom().contains("detail"@) && json_as_text(em["detail"@]) is None {
        Err(ParseProblemError::InvalidDetail)
    } else if em.dom().contains("instance"@) && json_as_text(em["instance"@]) is None {
        Err(ParseProblemError::InvalidInstance)
    } else {
        Ok(
            ProblemModel {
                type_url: if em.dom().contains("type"@) {
                    json_as_text(em["type"@])
                } else {
                    None
                },
                status: if em.dom().contains("status"@) {
                    read_status_value(em["status"@]).unwrap()
                } else {
                    None
                },
                title: json_as_text(em["title"@]).unwrap(),
                detail: if em.dom().contains("detail"@) {
                    json_as_text(em["detail"@])
                } else {
                    None
                },
                instance: if em.dom().contains("instance"@) {
                    json_as_text(em["instance"@])
                } else {
                    None
                },
                fields: strip_reserved(em),
            },
        )
    }
}

/// The five reserved key names are pairwise distinct character sequences.
proof fn lemma_reserved_keys_distinct()
    ensures
        "type"@ != "status"@,
        "type"@ != "title"@,
        "type"@ != "detail"@,
        "type"@ != "instance"@,
        "status"@ != "title"@,
        "status"@ != "detail"@,
        "status"@ != "instance"@,
        "title"@ != "detail"@,
        "title"@ != "instance"@,
        "detail"@ != "instance"@,
{
    reveal_strlit("type");
    reveal_strlit("status");
    reveal_strlit("title");
    reveal_strlit("detail");
    reveal_strlit("instance");
    assert("type"@.len() == 4);
    assert("status"@.len() == 6);
    assert("title"@.len() == 5);
    assert("detail"@.len() == 6);
    assert("instance"@.len() == 8);
    assert("status"@[0] == 's' && "detail"@[0] == 'd');
}

/// An association list whose pairs are exactly the entries of `m`, with
/// pairwise distinct keys, denotes `m`.
proof fn lemma_pairs_to_map_exact(pairs: Seq<(String, serde_json::Value)>, m: JsonEntries)
    requires
        forall|i: int|
            0 <= i < pairs.len() ==> m.dom().contains((#[trigger] pairs[i]).0@) && m[pairs[i].0@]
                == pairs[i].1,
        forall|a: int, b: int| 0 <= a < b < pairs.len() ==> pairs[a].0@ != pairs[b].0@,
        forall|k: Seq<char>|
            #[trigger] m.dom().contains(k) ==> exists|i: int|
                0 <= i < pairs.len() && pairs[i].0@ == k,
    ensures
        pairs_to_map(pairs) == m,
{
    lemma_pairs_to_map_dom(pairs);
    assert forall|k: Seq<char>| #[trigger]
        pairs_to_map(pairs).dom().contains(k) implies m.dom().contains(k) && pairs_to_map(pairs)[k]
        == m[k] by {
        let i = choose|i: int| 0 <= i < pairs.len() && (#[trigger] pairs[i]).0@ == k;
        lemma_pairs_to_map_at(pairs, i);
    }
    assert forall|k: Seq<char>| #[trigger] m.dom().contains(k) implies pairs_to_map(
        pairs,
    ).dom().contains(k) by {
        let i = choose|i: int| 0 <= i < pairs.len() && (#[trigger] pairs[i]).0@ == k;
        assert(pairs[i].0@ == k);
    }
    assert(pairs_to_map(pairs) =~= m);
}

/// Stripping the reserved keys from the wire object of a well-formed model
/// hands back exactly the model's extension fields.
proof fn lemma_strip_wire(pm: ProblemModel)
    requires
        pm.wf(),
    ensures
        strip_reserved(wire_entries(pm)) == pm.fields,
{
    lemma_reserved_keys_distinct();
    assert forall|k: Seq<char>| #[trigger]
        pm.fields.dom().contains(k) implies !is_reserved_field_name(k) by {}
    assert(strip_reserved(wire_entries(pm)) =~= pm.fields);
}

impl HttpApiProblem {
    /// Reads a problem out of a JSON object: the reserved members become
    /// the core fields, everything else an extension field. Exactly the
    /// problem denoted by `object_to_model`; in particular, the object a
    /// well-formed problem serializes to is read back to an equal problem.
    #[verifier::rlimit(60)]
    pub fn from_json_object(obj: serde_json::Map<String, serde_json::Value>) -> (r: Result<
        HttpApiProblem,
        ParseProblemError,
    >)
        ensures
            (match r {
                Ok(p) => object_to_model(map_entries(obj)) == Ok::<ProblemModel,
                ParseProblemError>(p@) && p.wf(),
                Err(e) => object_to_model(map_entries(obj)) == Err::<ProblemModel,
                ParseProblemError>(e),
            }),
            entries_depth_ok(map_entries(obj)) && r is Ok ==> r->Ok_0.depth_wf(),
            forall|pm: ProblemModel|
                pm.wf() && map_entries(obj) == #[trigger] wire_entries(pm) ==> r is Ok
                    && r->Ok_0@ == pm,
    {
        let ghost em = map_entries(obj);
        proof {
            lemma_reserved_keys_distinct();
        }
        let mut m = obj;
        let v_type = map_remove(&mut m, "type");
        let v_status = map_remove(&mut m, "status");
        let v_title = map_remove(&mut m, "title");
        let v_detail = map_remove(&mut m, "detail");
        let v_instance = map_remove(&mut m, "instance");
        proof {
            assert(map_entries(m) == strip_reserved(em));
        }

        let title_res: Result<String, ParseProblemError> = match v_title {
            None => Err(ParseProblemError::MissingTitle),
            Some(v) => match crate::jsonval::value_as_text(&v) {
                Some(t) => Ok(t),
                None => Err(ParseProblemError::InvalidTitle),
            },
        };
        let type_res: Result<Option<String>, ParseProblemError> = match v_type {
            None => Ok(None),
            Some(v) => match crate::jsonval::value_as_text(&v) {
                Some(t) => Ok(Some(t)),
                None => Err(ParseProblemError::InvalidTypeUrl),
            },
        };
        let detail_res: Result<Option<String>, ParseProblemError> = match v_detail {
            None => Ok(None),
            Some(v) => match crate::jsonval::value_as_text(&v) {
                Some(t) => Ok(Some(t)),
                None => Err(ParseProblemError::InvalidDetail),
            },
        };
        let instance_res: Result<Option<String>, ParseProblemError> = match v_instance {
            None => Ok(None),
            Some(v) => match crate::jsonval::value_as_text(&v) {
                Some(t) => Ok(Some(t)),
                None => Err(ParseProblemError::InvalidInstance),
            },
        };
        let status_res: Result<Option<StatusCode>, ParseProblemError> = match v_status {
            None => Ok(None),
            Some(v) => {
                if crate::jsonval::value_is_null(&v) {
                    Ok(None)
                } else {
                    match crate::jsonval::value_as_u64(&v) {
                        Some(n) => if n <= 0xFFFF {
                            Ok(Some(StatusCode::from_u16(n as u16)))
                        } else {
                            Ok(Some(StatusCode::from_u16(500)))
                        },
                        None => match crate::jsonval::value_as_i64(&v) {
                            Some(_) => Ok(Some(StatusCode::from_u16(500))),
                            None => Err(ParseProblemError::InvalidStatus),
                        },
                    }
                }
            },
        };
        let rest = crate::jsonval::map_entry_pairs(&m);
        proof {
            lemma_pairs_to_map_exact(rest@, strip_reserved(em));
        }

        let r: Result<HttpApiProblem, ParseProblemError> = match (
            title_res,
            status_res,
            type_res,
            detail_res,
            instance_res,
        ) {
            (Ok(title), Ok(status), Ok(type_url), Ok(detail), Ok(instance)) => Ok(
                HttpApiProblem {
                    type_url,
                    status,
                    title,
                    detail,
                    instance,
                    additional_fields: rest,
                },
            ),
            (Err(e), _, _, _, _) => Err(e),
            (_, Err(e), _, _, _) => Err(e),
            (_, _, Err(e), _, _) => Err(e),
            (_, _, _, Err(e), _) => Err(e),
            (_, _, _, _, Err(e)) => Err(e),
        };
        proof {
            if r is Ok {
                let p = r->Ok_0;
                assert forall|a: int|
                    0 <= a < p.additional_fields@.len() implies !is_reserved_field_name(
                    (#[trigger] p.additional_fields@[a]).0@,
                ) by {
                    assert(strip_reserved(em).dom().contains(p.additional_fields@[a].0@));
                }
                assert(p.wf());
                if entries_depth_ok(em) {
                    assert forall|a: int| 0 <= a < p.additional_fields@.len() implies json_fits_depth(
                        (#[trigger] p.additional_fields@[a]).1,
                        MAX_VALUE_DEPTH,
                    ) by {
                        let k = p.additional_fields@[a].0@;
                        assert(strip_reserved(em).dom().contains(k));
                        assert(em.dom().contains(k));
                        assert(strip_reserved(em)[k] == em[k]);
                    }
                    assert(p.depth_wf());
                }
            }
            assert forall|pm: ProblemModel|
                pm.wf() && em == #[trigger] wire_entries(pm) implies r is Ok && r->Ok_0@
                == pm by {
                lemma_strip_wire(pm);
                assert(em.dom().contains("title"@));
                assert(em["title"@] == str_value_of(pm.title));
                if pm.type_url is Some {
                    assert(em["type"@] == str_value_of(pm.type_url.unwrap()));
                } else {
                    assert(!em.dom().contains("type"@));
                }
                if pm.status is Some {
                    assert(em["status"@] == num_value_of(pm.status.unwrap() as u64));
                } else {
                    assert(!em.dom().contains("status"@));
                }
                if pm.detail is Some {
                    assert(em["detail"@] == str_value_of(pm.detail.unwrap()));
                } else {
                    assert(!em.dom().contains("detail"@));
                }
                if pm.instance is Some {
                    assert(em["instance"@] == str_value_of(pm.instance.unwrap()));
                } else {
                    assert(!em.dom().contains("instance"@));
                }
                let p = r->Ok_0;
                assert(p@.fields == pm.fields);
                assert(p@ == pm);
            }
        }
        r
    }

    /// Parses a problem from JSON text. Text that does not parse as a
    /// JSON object is rejected; a parsed object is read exactly as
    /// `object_to_model` says; and the canonical text of a well-formed,
    /// depth-bounded problem — which is what `json_string` writes — parses
    /// back to an equal problem.
    pub fn from_json_str(text: &str) -> (r: Result<HttpApiProblem, ParseProblemError>)
        ensures
            (match parsed_entries(text@) {
                None => r == Err::<HttpApiProblem, ParseProblemError>(
                    ParseProblemError::NotAnObject,
                ),
                Some(em) => (match r {
                    Ok(p) => object_to_model(em) == Ok::<ProblemModel, ParseProblemError>(p@),
                    Err(e) => object_to_model(em) == Err::<ProblemModel, ParseProblemError>(e),
                }),
            }),
            r is Ok ==> r->Ok_0.wf() && r->Ok_0.depth_wf(),
            forall|pm: ProblemModel|
                pm.wf() && entries_depth_ok(#[trigger] wire_entries(pm)) && text@ == object_text(
                    wire_entries(pm),
                ) ==> r is Ok && r->Ok_0@ == pm,
    {
        match crate::jsonval::parse_object(text) {
            None => Err(ParseProblemError::NotAnObject),
            Some(obj) => Self::from_json_object(obj),
        }
    }
}

/// The JSON object a problem serializes to: its extension fields, with
/// each present core field bound to its reserved key.
pub open spec fn wire_entries(p: ProblemModel) -> JsonEntries {
    let m0 = p.fields;
    let m1 = if p.type_url is Some {
        m0.insert("type"@, str_value_of(p.type_url.unwrap()))
    } else {
        m0
    };
    let m2 = if p.status is Some {
        m1.insert("status"@, num_value_of(p.status.unwrap() as u64))
    } else {
        m1
    };
    let m3 = m2.insert("title"@, str_value_of(p.title));
    let m4 = if p.detail is Some {
        m3.insert("detail"@, str_value_of(p.detail.unwrap()))
    } else {
        m3
    };
    if p.instance is Some {
        m4.insert("instance"@, str_value_of(p.instance.unwrap()))
    } else {
        m4
    }
}

impl HttpApiProblem {
    /// The problem as a JSON object: extension fields first, then each
    /// present core field under its reserved key.
    pub fn to_json_object(&self) -> (m: serde_json::Map<String, serde_json::Value>)
        ensures
            map_entries(m) == wire_entries(self@),
            self.depth_wf() ==> entries_depth_ok(wire_entries(self@)),
    {
        let mut m = map_new();
        let n = self.additional_fields.len();
        let mut i: usize = 0;
        while i < n
            invariant
                i <= n,
                n == self.additional_fields@.len(),
                map_entries(m) == pairs_to_map(self.additional_fields@.take(i as int)),
            decreases n - i,
        {
            let v = value_clone(&self.additional_fields[i].1);
            map_insert(&mut m, self.additional_fields[i].0.as_str(), v);
            proof {
                let pairs = self.additional_fields@;
                assert(pairs.take(i + 1).drop_last() =~= pairs.take(i as int));
                assert(pairs.take(i + 1).last() == pairs[i as int]);
            }
            i = i + 1;
        }
        proof {
            assert(self.additional_fields@.take(n as int) =~= self.additional_fields@);
        }
        if let Some(u) = &self.type_url {
            let v = value_from_str(u.as_str());
            map_insert(&mut m, "type", v);
        }
        if let Some(s) = &self.status {
            let v = value_from_u64(s.as_u16() as u64);
            map_insert(&mut m, "status", v);
        }
        let tv = value_from_str(self.title.as_str());
        map_insert(&mut m, "title", tv);
        if let Some(d) = &self.detail {
            let v = value_from_str(d.as_str());
            map_insert(&mut m, "detail", v);
        }
        if let Some(inst) = &self.instance {
            let v = value_from_str(inst.as_str());
            map_insert(&mut m, "instance", v);
        }
        proof {
            lemma_reserved_keys_distinct();
            if self.depth_wf() {
                lemma_pairs_depth_to_entries(self.additional_fields@);
                assert forall|k: Seq<char>| #[trigger]
                    wire_entries(self@).dom().contains(k) implies json_fits_depth(
                    wire_entries(self@)[k],
                    MAX_VALUE_DEPTH,
                ) by {
                    if k != "type"@ && k != "status"@ && k != "title"@ && k != "detail"@ && k
                        != "instance"@ {
                        assert(self@.fields.dom().contains(k));
                    }
                }
            }
        }
        m
    }

    /// Serializes the problem to its canonical JSON text: one flat object,
    /// absent core fields omitted.
    pub fn json_string(&self) -> (r: String)
        ensures
            r@ == object_text(wire_entries(self@)),
            self.depth_wf() ==> entries_depth_ok(wire_entries(self@)),
    {
        let m = self.to_json_object();
        crate::jsonval::render_object(&m)
    }

    /// Serializes the problem to the UTF-8 bytes of exactly its canonical
    /// JSON text.
    pub fn json_bytes(&self) -> (r: Vec<u8>)
        ensures
            r@ == encode_utf8(object_text(wire_entries(self@))),
    {
        let m = self.to_json_object();
        crate::jsonval::render_object_bytes(&m)
    }
}

/// The message a reserved-key rejection carries.
pub open spec fn reserved_error_text(key: Seq<char>) -> Seq<char> {
    "'"@ + key + "' is a reserved field name"@
}

/// Builds the message a reserved-key rejection carries.
pub(crate) fn reserved_error_message(key: &str) -> (r: String)
    ensures
        r@ == reserved_error_text(key@),
{
    let mut s = String::new();
    s.append("'");
    s.append(key);
    s.append("' is a reserved field name");
    s
}

/// The message a too-deeply-nested value's rejection carries.
pub open spec fn depth_error_text() -> Seq<char> {
    "value nests too deeply for the wire"@
}

/// Builds the message a too-deeply-nested value's rejection carries.
pub(crate) fn depth_error_message() -> (r: String)
    ensures
        r@ == depth_error_text(),
{
    "value nests too deeply for the wire".to_owned()
}

/// Replacing the value of the pair at `i` with a pair of the same key
/// denotes inserting that value in the map.
proof fn lemma_pairs_to_map_update(
    pairs: Seq<(String, serde_json::Value)>,
    i: int,
    p: (String, serde_json::Value),
)
    requires
        forall|a: int, b: int| 0 <= a < b < pairs.len() ==> pairs[a].0@ != pairs[b].0@,
        0 <= i < pairs.len(),
        p.0@ == pairs[i].0@,
    ensures
        pairs_to_map(pairs.update(i, p)) == pairs_to_map(pairs).insert(p.0@, p.1),
    decreases pairs.len(),
{
    let updated = pairs.update(i, p);
    if i == pairs.len() - 1 {
        assert(updated.drop_last() =~= pairs.drop_last());
        assert(pairs_to_map(updated) =~= pairs_to_map(pairs).insert(p.0@, p.1));
    } else {
        lemma_pairs_to_map_update(pairs.drop_last(), i, p);
        assert(updated.drop_last() =~= pairs.drop_last().update(i, p));
        assert(updated.last() == pairs.last());
        assert(pairs.last().0@ != p.0@);
        assert(pairs_to_map(updated) =~= pairs_to_map(pairs).insert(p.0@, p.1));
    }
}

/// Binds `key` to `v` in an association list with distinct keys, replacing
/// the pair of the same key if there is one.
pub(crate) fn vec_put_field(
    fields: &mut Vec<(String, serde_json::Value)>,
    key: &str,
    v: serde_json::Value,
)
    requires
        pairs_distinct(old(fields)@),
    ensures
        pairs_distinct(final(fields)@),
        pairs_to_map(final(fields)@) == pairs_to_map(old(fields)@).insert(key@, v),
        pairs_unreserved(old(fields)@) && !is_reserved_field_name(key@) ==> pairs_unreserved(
            final(fields)@,
        ),
        pairs_depth_ok(old(fields)@) && json_fits_depth(v, MAX_VALUE_DEPTH) ==> pairs_depth_ok(
            final(fields)@,
        ),
{
    let n = fields.len();
    let mut i: usize = 0;
    while i < n
        invariant
            i <= n,
            *fields == *old(fields),
            pairs_distinct(fields@),
            n == fields@.len(),
            forall|j: int| 0 <= j < i ==> fields@[j].0@ != key@,
        decreases n - i,
    {
        if str_eq(fields[i].0.as_str(), key) {
            let ghost old_pairs = fields@;
            fields[i] = (key.to_owned(), v);
            proof {
                let p = fields@[i as int];
                assert(p.0@ == key@);
                assert(old_pairs[i as int].0@ == key@);
                lemma_pairs_to_map_update(old_pairs, i as int, p);
                assert(fields@ =~= old_pairs.update(i as int, p));
                assert forall|a: int| 0 <= a < fields@.len() implies (#[trigger] fields@[a]).0@
                    == old_pairs[a].0@ && (fields@[a].1 == old_pairs[a].1 || fields@[a].1
                    == v) by {
                    if a != i {
                        assert(fields@[a] == old_pairs[a]);
                    }
                }
                assert(pairs_distinct(final(fields)@));
                assert(pairs_to_map(final(fields)@) == pairs_to_map(old(fields)@).insert(key@, v));
            }
            return ;
        }
        i = i + 1;
    }
    let ghost old_pairs = fields@;
    fields.push((key.to_owned(), v));
    proof {
        assert(fields@.drop_last() =~= old_pairs);
        assert(fields@.last().0@ == key@);
        assert(pairs_distinct(final(fields)@));
        assert(pairs_to_map(final(fields)@) == pairs_to_map(old(fields)@).insert(key@, v));
    }
}

impl HttpApiProblem {
    /// Binds `key` to `v` among the extension fields, replacing an earlier
    /// binding of the same key; a reserved key is refused and nothing
    /// changes.
    pub(crate) fn put_field_value(&mut self, key: &str, v: serde_json::Value) -> (r: bool)
        requires
            old(self).wf(),
        ensures
            final(self).wf(),
            r == !is_reserved_field_name(key@),
            r ==> final(self)@ == (ProblemModel {
                fields: old(self)@.fields.insert(key@, v),
                ..old(self)@
            }),
            !r ==> final(self)@ == old(self)@,
            old(self).depth_wf() && json_fits_depth(v, MAX_VALUE_DEPTH) ==> final(self).depth_wf(),
    {
        if reserved_field_name(key) {
            return false;
        }
        vec_put_field(&mut self.additional_fields, key, v);
        true
    }

    /// Stores a serializable value under `key` among the extension fields,
    /// replacing an earlier binding of the same key. A reserved key is
    /// rejected with a message naming it; a value whose own serialization
    /// fails is rejected with that failure's text; in both cases nothing
    /// changes.
    pub fn set_value<V: serde::Serialize>(&mut self, key: &str, value: &V) -> (r: Result<
        (),
        String,
    >)
        requires
            old(self).wf(),
        ensures
            final(self).wf(),
            is_reserved_field_name(key@) ==> (r matches Err(m) && m@ == reserved_error_text(key@)),
            !is_reserved_field_name(key@) && r is Ok ==> (exists|v: serde_json::Value|
                json_fits_depth(v, MAX_VALUE_DEPTH) && final(self)@ == (ProblemModel {
                    fields: #[trigger] old(self)@.fields.insert(key@, v),
                    ..old(self)@
                })),
            r is Err ==> final(self)@ == old(self)@,
            old(self).depth_wf() ==> final(self).depth_wf(),
    {
        if reserved_field_name(key) {
            return Err(reserved_error_message(key));
        }
        match crate::jsonval::encode_value(value) {
            Ok(v) => {
                if !value_fits_depth(&v, MAX_VALUE_DEPTH) {
                    return Err(depth_error_message());
                }
                let ghost vv = v;
                let put = self.put_field_value(key, v);
                proof {
                    assert(final(self)@ == (ProblemModel {
                        fields: old(self)@.fields.insert(key@, vv),
                        ..old(self)@
                    }));
                }
                Ok(())
            },
            Err(msg) => Err(msg),
        }
    }

    /// Stores a serializable value like `set_value`, but only says whether
    /// it was stored: the best-effort counterpart of the fallible entry
    /// point.
    pub fn add_value<V: serde::Serialize>(&mut self, key: &str, value: &V) -> (r: bool)
        requires
            old(self).wf(),
        ensures
            final(self).wf(),
            is_reserved_field_name(key@) ==> !r,
            !is_reserved_field_name(key@) && r ==> (exists|v: serde_json::Value|
                json_fits_depth(v, MAX_VALUE_DEPTH) && final(self)@ == (ProblemModel {
                    fields: #[trigger] old(self)@.fields.insert(key@, v),
                    ..old(self)@
                })),
            !r ==> final(self)@ == old(self)@,
            old(self).depth_wf() ==> final(self).depth_wf(),
    {
        match self.set_value(key, value) {
            Ok(_) => true,
            Err(_) => false,
        }
    }

    /// The raw JSON value stored under `key`, if any.
    pub fn json_value(&self, key: &str) -> (r: Option<&serde_json::Value>)
        requires
            self.wf(),
        ensures
            match r {
                Some(v) => self@.fields.dom().contains(key@) && *v == self@.fields[key@],
                None => !self@.fields.dom().contains(key@),
            },
    {
        let n = self.additional_fields.len();
        let mut i: usize = 0;
        while i < n
            invariant
                i <= n,
                n == self.additional_fields@.len(),
                self.wf(),
                forall|j: int| 0 <= j < i ==> self.additional_fields@[j].0@ != key@,
            decreases n - i,
        {
            if str_eq(self.additional_fields[i].0.as_str(), key) {
                proof {
                    lemma_pairs_to_map_at(self.additional_fields@, i as int);
                }
                return Some(&self.additional_fields[i].1);
            }
            i = i + 1;
        }
        proof {
            lemma_pairs_to_map_dom(self.additional_fields@);
        }
        None
    }

    /// The value stored under `key`, decoded into `V`; `None` when the key
    /// is unbound or decoding fails, without distinction.
    pub fn value<V: serde::de::DeserializeOwned>(&self, key: &str) -> (r: Option<V>)
        requires
            self.wf(),
        ensures
            !self@.fields.dom().contains(key@) ==> r is None,
            r is Some ==> self@.fields.dom().contains(key@),
    {
        match self.json_value(key) {
            Some(v) => crate::jsonval::decode_value(v),
            None => None,
        }
    }

    /// The keys of the extension fields.
    pub fn keys(&self) -> (r: Vec<String>)
        ensures
            forall|i: int| 0 <= i < r@.len() ==> self@.fields.dom().contains((#[trigger] r@[i])@),
            forall|k: Seq<char>|
                #[trigger] self@.fields.dom().contains(k) ==> exists|i: int|
                    0 <= i < r@.len() && r@[i]@ == k,
    {
        let n = self.additional_fields.len();
        let mut out: Vec<String> = Vec::new();
        let mut i: usize = 0;
        while i < n
            invariant
                i <= n,
                n == self.additional_fields@.len(),
                out@.len() == i,
                forall|j: int| 0 <= j < i ==> (#[trigger] out@[j])@ == self.additional_fields@[j].0@,
            decreases n - i,
        {
            out.push(self.additional_fields[i].0.clone());
            i = i + 1;
        }
        proof {
            lemma_pairs_to_map_dom(self.additional_fields@);
            assert forall|k: Seq<char>| #[trigger]
                self@.fields.dom().contains(k) implies exists|i: int|
                0 <= i < out@.len() && out@[i]@ == k by {
                let j = choose|j: int|
                    0 <= j < self.additional_fields@.len() && (#[trigger] self.additional_fields@[j]).0@
                        == k;
                assert(out@[j]@ == k);
            }
        }
        out
    }
}

} // verus!
