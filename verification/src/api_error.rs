//! The in-process error of an API handler: a mandatory status, optional
//! texts, extension fields, an opaque cause and typed annotations. It
//! converts into a wire-safe problem at the API boundary; the cause and
//! the annotations never reach the wire.

use vstd::prelude::*;

use crate::is_reserved_field_name;
use crate::jsonval::JsonEntries;
use crate::jsonval::MAX_VALUE_DEPTH;
use crate::jsonval::json_fits_depth;
use crate::jsonval::value_fits_depth;
use crate::jsonval::value_clone;
use crate::problem::HttpApiProblem;
use crate::problem::ProblemModel;
use crate::problem::pairs_depth_ok;
use crate::problem::pairs_distinct;
use crate::problem::pairs_to_map;
use crate::problem::pairs_unreserved;
use crate::problem::reserved_error_text;
use crate::problem::strip_reserved;
use crate::reserved_field_name;
use crate::status::InvalidStatusCode;
use crate::status::StatusCode;
use crate::status::reason_phrase_of;
use crate::status::status_text;

verus! {

#[verifier::external_type_specification]
#[verifier::external_body]
pub struct ExExtensions(http::Extensions);

/// Relies on http::Extensions::new: an empty typed extension bag. The bag
/// is keyed by runtime types and stays opaque to contracts.
#[verifier::external_body]
fn extensions_new() -> http::Extensions {
    http::Extensions::new()
}

/// Relies on http::Extensions::insert: stores `val` under its type,
/// replacing an earlier value of that type. The bag stays opaque to
/// contracts.
#[verifier::external_body]
fn extensions_insert<T: Clone + Send + Sync + 'static>(e: &mut http::Extensions, val: T) {
    let _ = e.insert(val);
}

/// The in-process stand-in for an opaque cause: what the error chain's
/// head renders to. A boundary that owns a real error value keeps the
/// value itself and hands its rendering here.
#[derive(Debug, Clone)]
pub struct Cause {
    /// The cause rendered as text.
    pub description: String,
}

impl Cause {
    /// A cause with the given rendering.
    pub fn new(description: &str) -> (r: Cause)
        ensures
            r.description@ == description@,
    {
        Cause { description: description.to_owned() }
    }
}

/// The model of a handler error: the status value, the characters of each
/// optional text, the extension fields as a map, and the rendering of the
/// cause if one is attached. The typed annotations are process-local and
/// opaque, so they have no place in the model.
pub ghost struct ApiErrorModel {
    pub status: u16,
    pub title: Option<Seq<char>>,
    pub message: Option<Seq<char>>,
    pub type_url: Option<Seq<char>>,
    pub instance: Option<Seq<char>>,
    pub fields: JsonEntries,
    pub source: Option<Seq<char>>,
}

/// The detail an error derives: its message where one is set, otherwise
/// the rendering of its cause, otherwise nothing.
pub open spec fn detail_of(m: ApiErrorModel) -> Option<Seq<char>> {
    if m.message is Some {
        m.message
    } else if m.source is Some {
        m.source
    } else {
        None
    }
}

/// The extension fields of the problem an error converts to: none at all
/// for the Unauthorized status, the error's own fields (sans any reserved
/// key) otherwise.
pub open spec fn converted_fields(m: ApiErrorModel) -> JsonEntries {
    if m.status == 401 {
        JsonEntries::empty()
    } else {
        strip_reserved(m.fields)
    }
}

/// The text an error renders to, by falling priority: status with title
/// and detail; status with one of them; status with the type URL; status
/// with the instance; the status alone.
pub open spec fn display_of(m: ApiErrorModel) -> Seq<char> {
    let st = status_text(m.status);
    match (m.title, detail_of(m)) {
        (Some(t), Some(d)) => st + " - "@ + t + " - "@ + d,
        (Some(t), None) => st + " - "@ + t,
        (None, Some(d)) => st + " - "@ + d,
        (None, None) => if m.type_url is Some {
            st + " of type "@ + m.type_url.unwrap()
        } else if m.instance is Some {
            st + " on "@ + m.instance.unwrap()
        } else {
            st
        },
    }
}

/// A fluent accumulator for an [`ApiError`]: a status is set at creation,
/// everything else can be chained before `finish`.
pub struct ApiErrorBuilder {
    /// The suggested status for the response to the client.
    pub status: StatusCode,
    /// An optional short title for consumers.
    pub title: Option<String>,
    /// A human-readable description; becomes the problem's detail.
    pub message: Option<String>,
    /// A URL pointing to a detailed description of the error.
    pub type_url: Option<String>,
    /// A URI reference identifying this specific occurrence.
    pub instance: Option<String>,
    /// Extension fields for the wire representation.
    pub fields: Vec<(String, serde_json::Value)>,
    /// Typed process-local annotations; never serialized.
    pub extensions: http::Extensions,
    /// The rendering of an opaque cause, if one is attached.
    pub source: Option<Cause>,
}

impl ApiErrorBuilder {
    /// Replaces the status.
    pub fn status(self, status: StatusCode) -> (r: Self)
        ensures
            r.status == status,
            r.title == self.title,
            r.message == self.message,
            r.type_url == self.type_url,
            r.instance == self.instance,
            r.fields == self.fields,
            r.extensions == self.extensions,
            r.source == self.source,
    {
        let mut s = self;
        s.status = status;
        s
    }

    /// Replaces the status from an external numeric value; fails exactly
    /// when the value does not fit in 16 bits, leaving nothing changed.
    pub fn try_status(self, status: u64) -> (r: Result<Self, InvalidStatusCode>)
        ensures
            status > 0xFFFF ==> r == Err::<Self, InvalidStatusCode>(InvalidStatusCode { value: status }),
            status <= 0xFFFF ==> (r matches Ok(b) && b.status.code == status && b.title
                == self.title && b.message == self.message && b.type_url == self.type_url
                && b.instance == self.instance && b.fields == self.fields && b.extensions
                == self.extensions && b.source == self.source),
    {
        match StatusCode::try_from_u64(status) {
            Ok(code) => Ok(self.status(code)),
            Err(e) => Err(e),
        }
    }

    /// Sets the title.
    pub fn title(self, title: &str) -> (r: Self)
        ensures
            (r.title matches Some(t) && t@ == title@),
            r.status == self.status,
            r.message == self.message,
            r.type_url == self.type_url,
            r.instance == self.instance,
            r.fields == self.fields,
            r.extensions == self.extensions,
            r.source == self.source,
    {
        let mut s = self;
        s.title = Some(title.to_owned());
        s
    }

    /// Sets the message; it becomes the problem's detail.
    pub fn message(self, message: &str) -> (r: Self)
        ensures
            (r.message matches Some(t) && t@ == message@),
            r.status == self.status,
            r.title == self.title,
            r.type_url == self.type_url,
            r.instance == self.instance,
            r.fields == self.fields,
            r.extensions == self.extensions,
            r.source == self.source,
    {
        let mut s = self;
        s.message = Some(message.to_owned());
        s
    }

    /// Sets the type URL.
    pub fn type_url(self, type_url: &str) -> (r: Self)
        ensures
            (r.type_url matches Some(t) && t@ == type_url@),
            r.status == self.status,
            r.title == self.title,
            r.message == self.message,
            r.instance == self.instance,
            r.fields == self.fields,
            r.extensions == self.extensions,
            r.source == self.source,
    {
        let mut s = self;
        s.type_url = Some(type_url.to_owned());
        s
    }

    /// Sets the instance.
    pub fn instance(self, instance: &str) -> (r: Self)
        ensures
            (r.instance matches Some(t) && t@ == instance@),
            r.status == self.status,
            r.title == self.title,
            r.message == self.message,
            r.type_url == self.type_url,
            r.fields == self.fields,
            r.extensions == self.extensions,
            r.source == self.source,
    {
        let mut s = self;
        s.instance = Some(instance.to_owned());
        s
    }

    /// Adds a serializable extension field, replacing an earlier field of
    /// the same name. A reserved name, a value whose own serialization
    /// fails, and one that nests too deeply to parse back from the wire
    /// are each dropped silently, and nothing changes.
    pub fn field<V: serde::Serialize>(self, name: &str, value: &V) -> (r: Self)
        requires
            pairs_distinct(self.fields@),
        ensures
            pairs_distinct(r.fields@),
            pairs_unreserved(self.fields@) ==> pairs_unreserved(r.fields@),
            pairs_depth_ok(self.fields@) ==> pairs_depth_ok(r.fields@),
            is_reserved_field_name(name@) ==> r.fields == self.fields,
            !is_reserved_field_name(name@) ==> (r.fields == self.fields || (
            exists|v: serde_json::Value|
                pairs_to_map(r.fields@) == #[trigger] pairs_to_map(self.fields@).insert(
                    name@,
                    v,
                ))),
            r.status == self.status,
            r.title == self.title,
            r.message == self.message,
            r.type_url == self.type_url,
            r.instance == self.instance,
            r.extensions == self.extensions,
            r.source == self.source,
    {
        let mut s = self;
        if reserved_field_name(name) {
            return s;
        }
        match crate::jsonval::encode_value(value) {
            Ok(v) => {
                if !value_fits_depth(&v, MAX_VALUE_DEPTH) {
                    return s;
                }
                let ghost vv = v;
                crate::problem::vec_put_field(&mut s.fields, name, v);
                proof {
                    assert(pairs_to_map(s.fields@) == pairs_to_map(self.fields@).insert(name@, vv));
                }
                s
            },
            Err(_) => s,
        }
    }

    /// Stores a typed annotation, replacing an earlier value of the same
    /// type. Annotations are process-local: they never reach the wire and
    /// never become part of a problem.
    pub fn extension<T: Clone + Send + Sync + 'static>(self, val: T) -> (r: Self)
        ensures
            r.status == self.status,
            r.title == self.title,
            r.message == self.message,
            r.type_url == self.type_url,
            r.instance == self.instance,
            r.fields == self.fields,
            r.source == self.source,
    {
        let mut s = self;
        extensions_insert(&mut s.extensions, val);
        s
    }

    /// Attaches a cause.
    pub fn source(self, source: Cause) -> (r: Self)
        ensures
            (r.source matches Some(c) && c.description@ == source.description@),
            r.status == self.status,
            r.title == self.title,
            r.message == self.message,
            r.type_url == self.type_url,
            r.instance == self.instance,
            r.fields == self.fields,
            r.extensions == self.extensions,
    {
        let mut s = self;
        s.source = Some(source);
        s
    }

    /// Builds the error from everything accumulated.
    pub fn finish(self) -> (r: ApiError)
        requires
            pairs_distinct(self.fields@),
        ensures
            r@.status == self.status.code,
            r@.title == crate::opt_text(self.title),
            r@.message == crate::opt_text(self.message),
            r@.type_url == crate::opt_text(self.type_url),
            r@.instance == crate::opt_text(self.instance),
            r@.fields == pairs_to_map(self.fields@),
            r@.source == (match self.source {
                Some(c) => Some(c.description@),
                None => None::<Seq<char>>,
            }),
            pairs_unreserved(self.fields@) ==> r.wf(),
            pairs_depth_ok(self.fields@) ==> r.depth_wf(),
    {
        ApiError {
            status: self.status,
            title: self.title,
            message: self.message,
            type_url: self.type_url,
            instance: self.instance,
            fields: self.fields,
            extensions: self.extensions,
            source: self.source,
        }
    }
}

/// An error to be returned from an API handler instead of a response or a
/// problem. Unlike a problem its status is mandatory, and it can carry a
/// cause and typed annotations, which never reach the wire.
#[derive(Debug)]
pub struct ApiError {
    status: StatusCode,
    title: Option<String>,
    message: Option<String>,
    type_url: Option<String>,
    instance: Option<String>,
    fields: Vec<(String, serde_json::Value)>,
    extensions: http::Extensions,
    source: Option<Cause>,
}

impl View for ApiError {
    type V = ApiErrorModel;

    closed spec fn view(&self) -> ApiErrorModel {
        ApiErrorModel {
            status: self.status.code,
            title: crate::opt_text(self.title),
            message: crate::opt_text(self.message),
            type_url: crate::opt_text(self.type_url),
            instance: crate::opt_text(self.instance),
            fields: pairs_to_map(self.fields@),
            source: match self.source {
                Some(c) => Some(c.description@),
                None => None,
            },
        }
    }
}

impl ApiError {
    /// The extension fields hold pairwise distinct keys, none of them
    /// reserved.
    pub closed spec fn wf(&self) -> bool {
        pairs_distinct(self.fields@) && pairs_unreserved(self.fields@)
    }

    /// Every extension field value nests within the stored-value
    /// allowance; the field methods keep this, so a problem converted
    /// from the error serializes to text that parses back.
    pub closed spec fn depth_wf(&self) -> bool {
        pairs_depth_ok(self.fields@)
    }

    /// A builder with the given status preset and everything else empty.
    pub fn builder(status: StatusCode) -> (r: ApiErrorBuilder)
        ensures
            r.status == status,
            r.title is None,
            r.message is None,
            r.type_url is None,
            r.instance is None,
            r.fields@ == Seq::<(String, serde_json::Value)>::empty(),
            r.source is None,
    {
        ApiErrorBuilder {
            status,
            title: None,
            message: None,
            type_url: None,
            instance: None,
            fields: Vec::new(),
            extensions: extensions_new(),
            source: None,
        }
    }

    /// A builder from an external numeric status; fails exactly when the
    /// value does not fit in 16 bits.
    pub fn try_builder(status: u64) -> (r: Result<ApiErrorBuilder, InvalidStatusCode>)
        ensures
            status > 0xFFFF ==> r == Err::<ApiErrorBuilder, InvalidStatusCode>(
                InvalidStatusCode { value: status },
            ),
            status <= 0xFFFF ==> (r matches Ok(b) && b.status.code == status && b.title is None
                && b.message is None && b.type_url is None && b.instance is None && b.fields@
                == Seq::<(String, serde_json::Value)>::empty() && b.source is None),
    {
        match StatusCode::try_from_u64(status) {
            Ok(code) => Ok(Self::builder(code)),
            Err(e) => Err(e),
        }
    }

    /// An error with the given status and nothing else.
    pub fn new(status: StatusCode) -> (r: ApiError)
        ensures
            r@.status == status.code,
            r@.title is None,
            r@.message is None,
            r@.type_url is None,
            r@.instance is None,
            r@.fields == JsonEntries::empty(),
            r@.source is None,
            r.wf(),
            r.depth_wf(),
    {
        ApiError {
            status,
            title: None,
            message: None,
            type_url: None,
            instance: None,
            fields: Vec::new(),
            extensions: extensions_new(),
            source: None,
        }
    }

    /// An error with the given status and a message.
    pub fn with_message(status: StatusCode, message: &str) -> (r: ApiError)
        ensures
            r@.status == status.code,
            r@.message == Some(message@),
            r@.title is None,
            r@.type_url is None,
            r@.instance is None,
            r@.fields == JsonEntries::empty(),
            r@.source is None,
            r.wf(),
            r.depth_wf(),
    {
        let mut e = Self::new(status);
        e.set_message(message);
        e
    }

    /// An error with the given status and a cause.
    pub fn with_source(status: StatusCode, source: Cause) -> (r: ApiError)
        ensures
            r@.status == status.code,
            r@.source == Some(source.description@),
            r@.title is None,
            r@.message is None,
            r@.type_url is None,
            r@.instance is None,
            r@.fields == JsonEntries::empty(),
            r.wf(),
            r.depth_wf(),
    {
        let mut e = Self::new(status);
        e.set_source(source);
        e
    }

    /// An error with the given status, a message and a cause.
    pub fn with_message_and_source(status: StatusCode, message: &str, source: Cause) -> (r:
        ApiError)
        ensures
            r@.status == status.code,
            r@.message == Some(message@),
            r@.source == Some(source.description@),
            r@.title is None,
            r@.type_url is None,
            r@.instance is None,
            r@.fields == JsonEntries::empty(),
            r.wf(),
            r.depth_wf(),
    {
        let mut e = Self::new(status);
        e.set_message(message);
        e.set_source(source);
        e
    }

    /// An error from an external numeric status; fails exactly when the
    /// value does not fit in 16 bits.
    pub fn try_new(status: u64) -> (r: Result<ApiError, InvalidStatusCode>)
        ensures
            status > 0xFFFF ==> r == Err::<ApiError, InvalidStatusCode>(
                InvalidStatusCode { value: status },
            ),
            status <= 0xFFFF ==> (r matches Ok(e) && e@.status == status && e@.title is None
                && e@.message is None && e@.type_url is None && e@.instance is None && e@.fields
                == JsonEntries::empty() && e@.source is None && e.wf() && e.depth_wf()),
    {
        match StatusCode::try_from_u64(status) {
            Ok(code) => Ok(Self::new(code)),
            Err(e) => Err(e),
        }
    }

    /// Replaces the status.
    pub fn set_status(&mut self, status: StatusCode)
        ensures
            final(self)@ == (ApiErrorModel { status: status.code, ..old(self)@ }),
            final(self).wf() == old(self).wf(),
            final(self).depth_wf() == old(self).depth_wf(),
    {
        self.status = status;
    }

    /// The status.
    pub fn status(&self) -> (r: StatusCode)
        ensures
            r.code == self@.status,
    {
        self.status
    }

    /// Sets the title.
    pub fn set_title(&mut self, title: &str)
        ensures
            final(self)@ == (ApiErrorModel { title: Some(title@), ..old(self)@ }),
            final(self).wf() == old(self).wf(),
            final(self).depth_wf() == old(self).depth_wf(),
    {
        self.title = Some(title.to_owned());
    }

    /// The title, if set.
    pub fn title(&self) -> (r: Option<&str>)
        ensures
            match r {
                Some(t) => self@.title == Some(t@),
                None => self@.title is None,
            },
    {
        match &self.title {
            Some(t) => Some(t.as_str()),
            None => None,
        }
    }

    /// Sets the message; it becomes the problem's detail.
    pub fn set_message(&mut self, message: &str)
        ensures
            final(self)@ == (ApiErrorModel { message: Some(message@), ..old(self)@ }),
            final(self).wf() == old(self).wf(),
            final(self).depth_wf() == old(self).depth_wf(),
    {
        self.message = Some(message.to_owned());
    }

    /// The message, if set.
    pub fn message(&self) -> (r: Option<&str>)
        ensures
            match r {
                Some(t) => self@.message == Some(t@),
                None => self@.message is None,
            },
    {
        match &self.message {
            Some(t) => Some(t.as_str()),
            None => None,
        }
    }

    /// Sets the type URL.
    pub fn set_type_url(&mut self, type_url: &str)
        ensures
            final(self)@ == (ApiErrorModel { type_url: Some(type_url@), ..old(self)@ }),
            final(self).wf() == old(self).wf(),
            final(self).depth_wf() == old(self).depth_wf(),
    {
        self.type_url = Some(type_url.to_owned());
    }

    /// The type URL, if set.
    pub fn type_url(&self) -> (r: Option<&str>)
        ensures
            match r {
                Some(t) => self@.type_url == Some(t@),
                None => self@.type_url is None,
            },
    {
        match &self.type_url {
            Some(t) => Some(t.as_str()),
            None => None,
        }
    }

    /// Sets the instance.
    pub fn set_instance(&mut self, instance: &str)
        ensures
            final(self)@ == (ApiErrorModel { instance: Some(instance@), ..old(self)@ }),
            final(self).wf() == old(self).wf(),
            final(self).depth_wf() == old(self).depth_wf(),
    {
        self.instance = Some(instance.to_owned());
    }

    /// The instance, if set.
    pub fn instance(&self) -> (r: Option<&str>)
        ensures
            match r {
                Some(t) => self@.instance == Some(t@),
                None => self@.instance is None,
            },
    {
        match &self.instance {
            Some(t) => Some(t.as_str()),
            None => None,
        }
    }

    /// Attaches a cause.
    pub fn set_source(&mut self, source: Cause)
        ensures
            final(self)@ == (ApiErrorModel {
                source: Some(source.description@),
                ..old(self)@
            }),
            final(self).wf() == old(self).wf(),
            final(self).depth_wf() == old(self).depth_wf(),
    {
        self.source = Some(source);
    }

    /// The cause, if one is attached.
    pub fn source(&self) -> (r: Option<&Cause>)
        ensures
            match r {
                Some(c) => self@.source == Some(c.description@),
                None => self@.source is None,
            },
    {
        match &self.source {
            Some(c) => Some(c),
            None => None,
        }
    }

    /// Adds a serializable extension field, replacing an earlier field of
    /// the same name. A reserved name is rejected with a message naming
    /// it; a value whose own serialization fails is rejected with that
    /// failure's text; one that nests too deeply to parse back from the
    /// wire is rejected too; in every rejection nothing changes.
    pub fn try_add_field<V: serde::Serialize>(&mut self, name: &str, value: &V) -> (r: Result<
        (),
        String,
    >)
        requires
            old(self).wf(),
        ensures
            final(self).wf(),
            is_reserved_field_name(name@) ==> (r matches Err(m) && m@ == reserved_error_text(
                name@,
            )),
            !is_reserved_field_name(name@) && r is Ok ==> (exists|v: serde_json::Value|
                json_fits_depth(v, MAX_VALUE_DEPTH) && final(self)@ == (ApiErrorModel {
                    fields: #[trigger] old(self)@.fields.insert(name@, v),
                    ..old(self)@
                })),
            r is Err ==> final(self)@ == old(self)@,
            old(self).depth_wf() ==> final(self).depth_wf(),
    {
        if reserved_field_name(name) {
            return Err(crate::problem::reserved_error_message(name));
        }
        match crate::jsonval::encode_value(value) {
            Ok(v) => {
                if !value_fits_depth(&v, MAX_VALUE_DEPTH) {
                    return Err(crate::problem::depth_error_message());
                }
                let ghost vv = v;
                crate::problem::vec_put_field(&mut self.fields, name, v);
                proof {
                    assert(final(self)@ == (ApiErrorModel {
                        fields: old(self)@.fields.insert(name@, vv),
                        ..old(self)@
                    }));
                }
                Ok(())
            },
            Err(msg) => Err(msg),
        }
    }

    /// Adds a serializable extension field like `try_add_field`, but only
    /// says whether it was added.
    pub fn add_field<V: serde::Serialize>(&mut self, name: &str, value: &V) -> (r: bool)
        requires
            old(self).wf(),
        ensures
            final(self).wf(),
            is_reserved_field_name(name@) ==> !r,
            !is_reserved_field_name(name@) && r ==> (exists|v: serde_json::Value|
                json_fits_depth(v, MAX_VALUE_DEPTH) && final(self)@ == (ApiErrorModel {
                    fields: #[trigger] old(self)@.fields.insert(name@, v),
                    ..old(self)@
                })),
            !r ==> final(self)@ == old(self)@,
            old(self).depth_wf() ==> final(self).depth_wf(),
    {
        match self.try_add_field(name, value) {
            Ok(_) => true,
            Err(_) => false,
        }
    }

    /// The extension fields as key-value pairs.
    pub fn fields(&self) -> (r: &Vec<(String, serde_json::Value)>)
        ensures
            pairs_to_map(r@) == self@.fields,
            self.wf() ==> pairs_distinct(r@) && pairs_unreserved(r@),
            self.depth_wf() ==> pairs_depth_ok(r@),
    {
        &self.fields
    }

    /// The extension fields as mutable key-value pairs. A caller that
    /// leaves duplicate or reserved keys behind loses the well-formedness
    /// the field methods rely on.
    pub fn fields_mut(&mut self) -> (r: &mut Vec<(String, serde_json::Value)>)
        ensures
            pairs_to_map((*r)@) == old(self)@.fields,
            old(self).wf() ==> pairs_distinct((*r)@) && pairs_unreserved((*r)@),
            old(self).depth_wf() ==> pairs_depth_ok((*r)@),
            final(self)@ == (ApiErrorModel {
                fields: pairs_to_map((*final(r))@),
                ..old(self)@
            }),
            pairs_distinct((*final(r))@) && pairs_unreserved((*final(r))@) ==> final(self).wf(),
            pairs_depth_ok((*final(r))@) ==> final(self).depth_wf(),
    {
        &mut self.fields
    }

    /// The typed annotations.
    pub fn extensions(&self) -> &http::Extensions {
        &self.extensions
    }

    /// The typed annotations, mutably.
    pub fn extensions_mut(&mut self) -> &mut http::Extensions {
        &mut self.extensions
    }

    /// The detail an error derives: its message where one is set, otherwise
    /// the rendering of its cause, otherwise nothing. Both the rendering of
    /// the error and the detail of the problem it converts to use this.
    pub fn detail_message(&self) -> (r: Option<String>)
        ensures
            match r {
                Some(s) => detail_of(self@) == Some(s@),
                None => detail_of(self@) is None,
            },
    {
        if let Some(msg) = &self.message {
            return Some(msg.clone());
        }
        if let Some(c) = &self.source {
            return Some(c.description.clone());
        }
        None
    }

    /// Renders the error by falling priority: status with title and
    /// detail, status with one of them, status with the type URL, status
    /// with the instance, the status alone. The first form that applies
    /// wins.
    pub fn display_string(&self) -> (r: String)
        ensures
            r@ == display_of(self@),
    {
        let mut out = self.status.display_text();
        let detail = self.detail_message();
        match (&self.title, &detail) {
            (Some(t), Some(d)) => {
                out.append(" - ");
                out.append(t.as_str());
                out.append(" - ");
                out.append(d.as_str());
            },
            (Some(t), None) => {
                out.append(" - ");
                out.append(t.as_str());
            },
            (None, Some(d)) => {
                out.append(" - ");
                out.append(d.as_str());
            },
            (None, None) => {
                if let Some(u) = &self.type_url {
                    out.append(" of type ");
                    out.append(u.as_str());
                } else if let Some(inst) = &self.instance {
                    out.append(" on ");
                    out.append(inst.as_str());
                }
            },
        }
        out
    }

    /// The user-facing default text: the derived detail where there is
    /// one, the status's reason phrase otherwise — so never empty in the
    /// phrase case.
    pub fn display_message(&self) -> (r: String)
        ensures
            r@ == (match detail_of(self@) {
                Some(d) => d,
                None => reason_phrase_of(self@.status),
            }),
            detail_of(self@) is None ==> r@.len() > 0,
    {
        match self.detail_message() {
            Some(d) => d,
            None => {
                proof {
                    crate::status::lemma_reason_phrase_nonempty(self.status.code);
                }
                self.status.reason_phrase().to_owned()
            },
        }
    }

    /// Converts the error into a wire-safe problem. The problem's status
    /// is the error's; its title is the error's title where set and the
    /// status's reason phrase otherwise; its detail is the derived detail
    /// message; type URL and instance carry over as they are; the
    /// extension fields carry over except for the Unauthorized status,
    /// which drops them all; the cause and the typed annotations are
    /// discarded.
    pub fn to_http_api_problem(&self) -> (r: HttpApiProblem)
        ensures
            r@.status == Some(self@.status),
            r@.title == (match self@.title {
                Some(t) => t,
                None => reason_phrase_of(self@.status),
            }),
            r@.detail == detail_of(self@),
            r@.type_url == self@.type_url,
            r@.instance == self@.instance,
            r@.fields == converted_fields(self@),
            r.wf(),
            self.depth_wf() ==> r.depth_wf(),
    {
        let mut p = HttpApiProblem::with_title_from_status(self.status);
        if let Some(t) = &self.title {
            p = p.set_title(t.as_str());
        }
        if let Some(d) = self.detail_message() {
            p = p.set_detail(d.as_str());
        }
        if let Some(u) = &self.type_url {
            p = p.set_type_url(u.as_str());
        }
        if let Some(inst) = &self.instance {
            p = p.set_instance(inst.as_str());
        }
        if self.status.as_u16() != 401 {
            let n = self.fields.len();
            let mut i: usize = 0;
            while i < n
                invariant
                    i <= n,
                    n == self.fields@.len(),
                    p.wf(),
                    self.depth_wf() ==> p.depth_wf(),
                    p@.fields == strip_reserved(pairs_to_map(self.fields@.take(i as int))),
                    p@.status == Some(self@.status),
                    p@.title == (match self@.title {
                        Some(t) => t,
                        None => reason_phrase_of(self@.status),
                    }),
                    p@.detail == detail_of(self@),
                    p@.type_url == self@.type_url,
                    p@.instance == self@.instance,
                decreases n - i,
            {
                let v = value_clone(&self.fields[i].1);
                let _added = p.put_field_value(self.fields[i].0.as_str(), v);
                proof {
                    let pairs = self.fields@;
                    assert(pairs.take(i + 1).drop_last() =~= pairs.take(i as int));
                    assert(pairs.take(i + 1).last() == pairs[i as int]);
                    let k = pairs[i as int].0@;
                    let vv = pairs[i as int].1;
                    if is_reserved_field_name(k) {
                        assert(strip_reserved(pairs_to_map(pairs.take(i + 1))) =~= strip_reserved(
                            pairs_to_map(pairs.take(i as int)),
                        ));
                    } else {
                        assert(strip_reserved(pairs_to_map(pairs.take(i + 1))) =~= strip_reserved(
                            pairs_to_map(pairs.take(i as int)),
                        ).insert(k, vv));
                    }
                }
                i = i + 1;
            }
            proof {
                assert(self.fields@.take(n as int) =~= self.fields@);
                assert(p@.fields == converted_fields(self@));
            }
        } else {
            proof {
                assert(p@.fields =~= converted_fields(self@));
            }
        }
        p
    }

    /// Turns the error into a wire-safe problem, consuming it; the problem
    /// is the same one `to_http_api_problem` builds.
    pub fn into_http_api_problem(self) -> (r: HttpApiProblem)
        ensures
            r@.status == Some(self@.status),
            r@.title == (match self@.title {
                Some(t) => t,
                None => reason_phrase_of(self@.status),
            }),
            r@.detail == detail_of(self@),
            r@.type_url == self@.type_url,
            r@.instance == self@.instance,
            r@.fields == converted_fields(self@),
            r.wf(),
            self.depth_wf() ==> r.depth_wf(),
    {
        self.to_http_api_problem()
    }
}

/// Anything that knows how to become an [`ApiError`]; handler code can
/// then hand such values up the chain.
pub trait IntoApiError {
    /// Turns the value into an error.
    fn into_api_error(self) -> ApiError;
}

/// An error with the Unauthorized status hands no extension fields at all
/// to the problem it converts to, whatever fields it carries; every other
/// status hands them over unchanged (sans reserved keys).
pub proof fn lemma_unauthorized_drops_fields(m: ApiErrorModel)
    ensures
        m.status == 401 ==> converted_fields(m) == JsonEntries::empty(),
        m.status != 401 ==> converted_fields(m) == strip_reserved(m.fields),
{
}

/// An error without a message derives its detail from the rendering of
/// its cause.
pub proof fn lemma_detail_from_cause(m: ApiErrorModel)
    requires
        m.message is None,
        m.source is Some,
    ensures
        detail_of(m) == m.source,
{
}

/// An error with neither a message nor a cause derives no detail.
pub proof fn lemma_no_detail(m: ApiErrorModel)
    requires
        m.message is None,
        m.source is None,
    ensures
        detail_of(m) is None,
{
}

/// When both a title and a derived detail are present, the rendering is
/// the status, the title and the detail — the type URL and the instance
/// do not appear, whether set or not.
pub proof fn lemma_display_priority(m: ApiErrorModel)
    requires
        m.title is Some,
        detail_of(m) is Some,
    ensures
        display_of(m) == status_text(m.status) + " - "@ + m.title.unwrap() + " - "@ + detail_of(
            m,
        ).unwrap(),
{
}

} // verus!
