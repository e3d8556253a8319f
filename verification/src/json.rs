//! Reading JSON documents through `serde_json`.
//!
//! A parsed document is carried as `serde_json::Value`. Verified code never
//! looks inside one: it asks for a member by key and gets a [`JsonField`],
//! a plain value it can reason about.

use vstd::prelude::*;

verus! {

/// The members this crate looks for in a reply of the service.
#[derive(Clone, Copy, Debug, PartialEq, Eq, Structural)]
pub enum FieldName {
    AuthCode,
    AutoLoginSeries,
    AutoLoginToken,
    CustId,
    Email,
    SsoCookieDomain,
    SsoCookieName,
    SsoCookiePath,
    SsoCookieValue,
    Message,
    Inactive,
    VerificationRequired,
    Link,
}

impl FieldName {
    /// The key under which the member stands in the document.
    pub open spec fn key_text(self) -> Seq<char> {
        match self {
            FieldName::AuthCode => "authcode"@,
            FieldName::AutoLoginSeries => "autoLoginSeries"@,
            FieldName::AutoLoginToken => "autoLoginToken"@,
            FieldName::CustId => "custId"@,
            FieldName::Email => "email"@,
            FieldName::SsoCookieDomain => "ssoCookieDomain"@,
            FieldName::SsoCookieName => "ssoCookieName"@,
            FieldName::SsoCookiePath => "ssoCookiePath"@,
            FieldName::SsoCookieValue => "ssoCookieValue"@,
            FieldName::Message => "message"@,
            FieldName::Inactive => "inactive"@,
            FieldName::VerificationRequired => "verificationRequired"@,
            FieldName::Link => "link"@,
        }
    }

    /// The key under which the member stands in the document.
    pub fn key(self) -> (r: &'static str)
        ensures
            r@ == self.key_text(),
    {
        match self {
            FieldName::AuthCode => "authcode",
            FieldName::AutoLoginSeries => "autoLoginSeries",
            FieldName::AutoLoginToken => "autoLoginToken",
            FieldName::CustId => "custId",
            FieldName::Email => "email",
            FieldName::SsoCookieDomain => "ssoCookieDomain",
            FieldName::SsoCookieName => "ssoCookieName",
            FieldName::SsoCookiePath => "ssoCookiePath",
            FieldName::SsoCookieValue => "ssoCookieValue",
            FieldName::Message => "message",
            FieldName::Inactive => "inactive",
            FieldName::VerificationRequired => "verificationRequired",
            FieldName::Link => "link",
        }
    }
}

/// Why a reply could not be read as the shape that was expected of it.
#[derive(Clone, Copy, Debug, PartialEq, Eq, Structural)]
pub enum DecodeError {
    /// The body could not be parsed as a JSON text.
    InvalidJson,
    /// A member that must be there is absent.
    MissingField(FieldName),
    /// A member is there, but its value has another type than the one
    /// expected, or is a number outside the expected range.
    WrongType(FieldName),
}

/// A parsed JSON document, opaque to the verifier.
#[verifier::external_type_specification]
#[verifier::external_body]
pub struct ExJsonValue(serde_json::Value);

/// The error `serde_json` reports for a document it cannot parse.
#[verifier::external_type_specification]
#[verifier::external_body]
pub struct ExJsonError(serde_json::Error);

/// What `serde_json::from_slice` makes of `bytes` when asked for a
/// `serde_json::Value`: the document, or `None` where it refuses the bytes.
pub uninterp spec fn json_parse(bytes: Seq<u8>) -> Option<serde_json::Value>;

/// Calls `serde_json::from_slice::<serde_json::Value>`.
///
/// Trusted: parsing is a function of the bytes alone, so the outcome is the
/// one that [`json_parse`] names. Nothing is claimed about which bytes parse.
#[verifier::external_body]
pub(crate) fn parse_json(bytes: &[u8]) -> (r: Result<serde_json::Value, serde_json::Error>)
    ensures
        match r {
            Ok(value) => json_parse(bytes@) == Some(value),
            Err(_) => json_parse(bytes@).is_none(),
        },
{
    serde_json::from_slice::<serde_json::Value>(bytes)
}

/// Parses a reply body. A body that the parser refuses is reported as
/// [`DecodeError::InvalidJson`].
pub fn read_document(bytes: &[u8]) -> (r: Result<serde_json::Value, DecodeError>)
    ensures
        match r {
            Ok(value) => json_parse(bytes@) == Some(value),
            Err(e) => e == DecodeError::InvalidJson && json_parse(bytes@).is_none(),
        },
{
    match parse_json(bytes) {
        Ok(value) => Ok(value),
        Err(_) => Err(DecodeError::InvalidJson),
    }
}

/// One member of a JSON object, as far as this crate reads it.
#[derive(Clone, Debug)]
pub enum JsonField {
    /// The document is not an object, or the object has no such key.
    Missing,
    /// `null`.
    Null,
    /// `true` or `false`.
    Bool(bool),
    /// A number, with its value where the document holds it as an integer
    /// from 0 to `u64::MAX`. Negative numbers, and numbers held as floating
    /// point, carry `None`.
    Number(Option<u64>),
    /// A string.
    Text(String),
    /// An array; its elements are not read.
    Array,
    /// An object; its members are not read.
    Object,
}

/// The mathematical value of a [`JsonField`]: text is a sequence of characters.
pub enum JsonFieldView {
    Missing,
    Null,
    Bool(bool),
    Number(Option<u64>),
    Text(Seq<char>),
    Array,
    Object,
}

impl View for JsonField {
    type V = JsonFieldView;

    open spec fn view(&self) -> JsonFieldView {
        match *self {
            JsonField::Missing => JsonFieldView::Missing,
            JsonField::Null => JsonFieldView::Null,
            JsonField::Bool(b) => JsonFieldView::Bool(b),
            JsonField::Number(n) => JsonFieldView::Number(n),
            JsonField::Text(s) => JsonFieldView::Text(s@),
            JsonField::Array => JsonFieldView::Array,
            JsonField::Object => JsonFieldView::Object,
        }
    }
}

/// What a member gives when a string is required of it.
pub open spec fn text_of(field: JsonFieldView, name: FieldName) -> Result<Seq<char>, DecodeError> {
    match field {
        JsonFieldView::Text(s) => Ok(s),
        JsonFieldView::Missing => Err(DecodeError::MissingField(name)),
        _ => Err(DecodeError::WrongType(name)),
    }
}

/// What a member gives when a string may stand there: an absent member and
/// `null` both mean that there is none.
pub open spec fn optional_text_of(field: JsonFieldView, name: FieldName) -> Result<
    Option<Seq<char>>,
    DecodeError,
> {
    match field {
        JsonFieldView::Text(s) => Ok(Some(s)),
        JsonFieldView::Missing | JsonFieldView::Null => Ok(None),
        _ => Err(DecodeError::WrongType(name)),
    }
}

/// What a member gives when an unsigned 32-bit integer is required of it.
pub open spec fn u32_of(field: JsonFieldView, name: FieldName) -> Result<u32, DecodeError> {
    match field {
        JsonFieldView::Number(Some(n)) if n <= u32::MAX => Ok(n as u32),
        JsonFieldView::Missing => Err(DecodeError::MissingField(name)),
        _ => Err(DecodeError::WrongType(name)),
    }
}

/// What a member gives when a boolean is required of it.
pub open spec fn bool_of(field: JsonFieldView, name: FieldName) -> Result<bool, DecodeError> {
    match field {
        JsonFieldView::Bool(b) => Ok(b),
        JsonFieldView::Missing => Err(DecodeError::MissingField(name)),
        _ => Err(DecodeError::WrongType(name)),
    }
}

impl JsonField {
    /// Reads the member as a required string.
    pub fn into_text(self, name: FieldName) -> (r: Result<String, DecodeError>)
        ensures
            match r {
                Ok(s) => text_of(self@, name) == Ok::<Seq<char>, DecodeError>(s@),
                Err(e) => text_of(self@, name) == Err::<Seq<char>, DecodeError>(e),
            },
    {
        match self {
            JsonField::Text(s) => Ok(s),
            JsonField::Missing => Err(DecodeError::MissingField(name)),
            _ => Err(DecodeError::WrongType(name)),
        }
    }

    /// Reads the member as a string that may be left out or `null`.
    pub fn into_optional_text(self, name: FieldName) -> (r: Result<Option<String>, DecodeError>)
        ensures
            match r {
                Ok(Some(s)) => optional_text_of(self@, name) == Ok::<
                    Option<Seq<char>>,
                    DecodeError,
                >(Some(s@)),
                Ok(None) => optional_text_of(self@, name) == Ok::<Option<Seq<char>>, DecodeError>(
                    None,
                ),
                Err(e) => optional_text_of(self@, name) == Err::<Option<Seq<char>>, DecodeError>(
                    e,
                ),
            },
    {
        match self {
            JsonField::Text(s) => Ok(Some(s)),
            JsonField::Missing => Ok(None),
            JsonField::Null => Ok(None),
            _ => Err(DecodeError::WrongType(name)),
        }
    }

    /// Reads the member as a required unsigned 32-bit integer.
    pub fn into_u32(self, name: FieldName) -> (r: Result<u32, DecodeError>)
        ensures
            r == u32_of(self@, name),
    {
        match self {
            JsonField::Number(Some(n)) => {
                if n <= 0xffff_ffff {
                    Ok(n as u32)
                } else {
                    Err(DecodeError::WrongType(name))
                }
            },
            JsonField::Missing => Err(DecodeError::MissingField(name)),
            _ => Err(DecodeError::WrongType(name)),
        }
    }

    /// Reads the member as a required boolean.
    pub fn into_bool(self, name: FieldName) -> (r: Result<bool, DecodeError>)
        ensures
            r == bool_of(self@, name),
    {
        match self {
            JsonField::Bool(b) => Ok(b),
            JsonField::Missing => Err(DecodeError::MissingField(name)),
            _ => Err(DecodeError::WrongType(name)),
        }
    }
}

/// The member of `value` under `key`, as `serde_json::Value::get` finds it.
pub uninterp spec fn json_member(value: serde_json::Value, key: Seq<char>) -> JsonFieldView;

/// Calls `serde_json::Value::get` with a string key and hands the member out
/// as a plain value, one variant of `serde_json::Value` to one of
/// [`JsonField`]. A number is passed through `serde_json::Number::as_u64`.
///
/// Trusted: the member found depends on the document and the key alone, so it
/// is the one that [`json_member`] names.
#[verifier::external_body]
pub(crate) fn member(value: &serde_json::Value, key: &str) -> (r: JsonField)
    ensures
        r@ == json_member(*value, key@),
{
    match value.get(key) {
        None => JsonField::Missing,
        Some(serde_json::Value::Null) => JsonField::Null,
        Some(serde_json::Value::Bool(b)) => JsonField::Bool(*b),
        Some(serde_json::Value::Number(n)) => JsonField::Number(n.as_u64()),
        Some(serde_json::Value::String(s)) => JsonField::Text(s.clone()),
        Some(serde_json::Value::Array(_)) => JsonField::Array,
        Some(serde_json::Value::Object(_)) => JsonField::Object,
    }
}

} // verus!
