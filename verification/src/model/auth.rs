//! Logging in: the request body, the two shapes of the reply, and how a
//! reply is told apart.
//!
//! The service answers a login with one JSON object for success and another
//! for failure, and marks neither. What tells them apart is the type of the
//! value under `authcode`: a string is a token and the login succeeded, a
//! number is a failure code. Everything else, an absent member included, is a
//! reply this client does not understand, and is reported as such.

use crate::json::{
    bool_of, json_member, json_parse, member, optional_text_of, read_document, text_of, u32_of,
    DecodeError, FieldName, JsonField, JsonFieldView,
};
use vstd::prelude::*;

verus! {

/// Contains authentication credentials used to login to iRacing.
///
/// The credentials cannot be changed once they are made, and the type has no
/// `Debug`: a password does not belong in a log.
#[derive(Clone)]
pub struct AuthRequestBody {
    email: String,
    password: String,
}

impl AuthRequestBody {
    /// The address that identifies the user.
    pub closed spec fn email_text(self) -> Seq<char> {
        self.email@
    }

    /// The user's password.
    pub closed spec fn password_text(self) -> Seq<char> {
        self.password@
    }

    /// The credentials of one user.
    pub fn new(email: &str, password: &str) -> (r: AuthRequestBody)
        ensures
            r.email_text() == email@,
            r.password_text() == password@,
    {
        AuthRequestBody { email: email.to_owned(), password: password.to_owned() }
    }

    /// The address that identifies the user.
    pub fn email(&self) -> (r: &str)
        ensures
            r@ == self.email_text(),
    {
        self.email.as_str()
    }

    /// The user's password.
    pub fn password(&self) -> (r: &str)
        ensures
            r@ == self.password_text(),
    {
        self.password.as_str()
    }
}

/// The response body returned by iRacing when authentication succeeds
#[derive(Clone, Debug)]
pub struct AuthSuccessBody {
    pub auth_code: String,
    pub auto_login_series: Option<String>,
    pub auto_login_token: Option<String>,
    pub cust_id: u32,
    pub email: String,
    pub sso_cookie_domain: String,
    pub sso_cookie_name: String,
    pub sso_cookie_path: String,
    pub sso_cookie_value: String,
}

/// The mathematical value of an [`AuthSuccessBody`].
pub struct AuthSuccessView {
    pub auth_code: Seq<char>,
    pub auto_login_series: Option<Seq<char>>,
    pub auto_login_token: Option<Seq<char>>,
    pub cust_id: u32,
    pub email: Seq<char>,
    pub sso_cookie_domain: Seq<char>,
    pub sso_cookie_name: Seq<char>,
    pub sso_cookie_path: Seq<char>,
    pub sso_cookie_value: Seq<char>,
}

/// The text of a string that may be absent.
pub open spec fn optional_text(s: Option<String>) -> Option<Seq<char>> {
    match s {
        Some(s) => Some(s@),
        None => None,
    }
}

impl View for AuthSuccessBody {
    type V = AuthSuccessView;

    open spec fn view(&self) -> AuthSuccessView {
        AuthSuccessView {
            auth_code: self.auth_code@,
            auto_login_series: optional_text(self.auto_login_series),
            auto_login_token: optional_text(self.auto_login_token),
            cust_id: self.cust_id,
            email: self.email@,
            sso_cookie_domain: self.sso_cookie_domain@,
            sso_cookie_name: self.sso_cookie_name@,
            sso_cookie_path: self.sso_cookie_path@,
            sso_cookie_value: self.sso_cookie_value@,
        }
    }
}

/// The response body returned by iRacing when authentication fails
#[derive(Clone, Debug)]
pub struct AuthFailureBody {
    /// Appears to always be `0` when auth fails
    pub authcode: u32,
    /// The message describing what went wrong
    pub message: String,
    /// Probably refers to the user's subscription status
    pub inactive: bool,
    /// Indicates whether or not the user needs to login through the web client
    pub verification_required: bool,
}

/// The mathematical value of an [`AuthFailureBody`].
pub struct AuthFailureView {
    pub authcode: u32,
    pub message: Seq<char>,
    pub inactive: bool,
    pub verification_required: bool,
}

impl View for AuthFailureBody {
    type V = AuthFailureView;

    open spec fn view(&self) -> AuthFailureView {
        AuthFailureView {
            authcode: self.authcode,
            message: self.message@,
            inactive: self.inactive,
            verification_required: self.verification_required,
        }
    }
}

/// The response returned by the authentication endpoint: authentication
/// succeeded, or it did not
#[derive(Clone, Debug)]
pub enum AuthResponse {
    Success(AuthSuccessBody),
    Failure(AuthFailureBody),
}

/// The mathematical value of an [`AuthResponse`].
pub enum AuthResponseView {
    Success(AuthSuccessView),
    Failure(AuthFailureView),
}

impl View for AuthResponse {
    type V = AuthResponseView;

    open spec fn view(&self) -> AuthResponseView {
        match *self {
            AuthResponse::Success(body) => AuthResponseView::Success(body@),
            AuthResponse::Failure(body) => AuthResponseView::Failure(body@),
        }
    }
}

/// The members of a login reply that this client reads, each as it was found
/// in the document.
#[derive(Clone, Debug)]
pub struct AuthFields {
    pub authcode: JsonField,
    pub auto_login_series: JsonField,
    pub auto_login_token: JsonField,
    pub cust_id: JsonField,
    pub email: JsonField,
    pub sso_cookie_domain: JsonField,
    pub sso_cookie_name: JsonField,
    pub sso_cookie_path: JsonField,
    pub sso_cookie_value: JsonField,
    pub message: JsonField,
    pub inactive: JsonField,
    pub verification_required: JsonField,
}

/// The mathematical value of [`AuthFields`].
pub struct AuthFieldsView {
    pub authcode: JsonFieldView,
    pub auto_login_series: JsonFieldView,
    pub auto_login_token: JsonFieldView,
    pub cust_id: JsonFieldView,
    pub email: JsonFieldView,
    pub sso_cookie_domain: JsonFieldView,
    pub sso_cookie_name: JsonFieldView,
    pub sso_cookie_path: JsonFieldView,
    pub sso_cookie_value: JsonFieldView,
    pub message: JsonFieldView,
    pub inactive: JsonFieldView,
    pub verification_required: JsonFieldView,
}

impl View for AuthFields {
    type V = AuthFieldsView;

    open spec fn view(&self) -> AuthFieldsView {
        AuthFieldsView {
            authcode: self.authcode@,
            auto_login_series: self.auto_login_series@,
            auto_login_token: self.auto_login_token@,
            cust_id: self.cust_id@,
            email: self.email@,
            sso_cookie_domain: self.sso_cookie_domain@,
            sso_cookie_name: self.sso_cookie_name@,
            sso_cookie_path: self.sso_cookie_path@,
            sso_cookie_value: self.sso_cookie_value@,
            message: self.message@,
            inactive: self.inactive@,
            verification_required: self.verification_required@,
        }
    }
}

/// The first of two possible errors: `first` if there is one, else `second`.
pub open spec fn or_else(first: Option<DecodeError>, second: Option<DecodeError>) -> Option<
    DecodeError,
> {
    if first is Some {
        first
    } else {
        second
    }
}

/// The error of a decoded member, if it has one.
pub open spec fn error_of<T>(decoded: Result<T, DecodeError>) -> Option<DecodeError> {
    match decoded {
        Ok(_) => None,
        Err(e) => Some(e),
    }
}

/// The error that stops a success reply from being read: that of the first
/// member, in the order of [`AuthSuccessBody`], that is not as expected.
pub open spec fn success_error(f: AuthFieldsView) -> Option<DecodeError> {
    or_else(
        error_of(text_of(f.authcode, FieldName::AuthCode)),
        or_else(
            error_of(optional_text_of(f.auto_login_series, FieldName::AutoLoginSeries)),
            or_else(
                error_of(optional_text_of(f.auto_login_token, FieldName::AutoLoginToken)),
                or_else(
                    error_of(u32_of(f.cust_id, FieldName::CustId)),
                    or_else(
                        error_of(text_of(f.email, FieldName::Email)),
                        or_else(
                            error_of(text_of(f.sso_cookie_domain, FieldName::SsoCookieDomain)),
                            or_else(
                                error_of(text_of(f.sso_cookie_name, FieldName::SsoCookieName)),
                                or_else(
                                    error_of(
                                        text_of(f.sso_cookie_path, FieldName::SsoCookiePath),
                                    ),
                                    error_of(
                                        text_of(f.sso_cookie_value, FieldName::SsoCookieValue),
                                    ),
                                ),
                            ),
                        ),
                    ),
                ),
            ),
        ),
    )
}

/// A success reply read from its members: every member decoded, or the first
/// error.
pub open spec fn success_of(f: AuthFieldsView) -> Result<AuthSuccessView, DecodeError> {
    match success_error(f) {
        Some(e) => Err(e),
        None => Ok(
            AuthSuccessView {
                auth_code: text_of(f.authcode, FieldName::AuthCode).unwrap(),
                auto_login_series: optional_text_of(
                    f.auto_login_series,
                    FieldName::AutoLoginSeries,
                ).unwrap(),
                auto_login_token: optional_text_of(
                    f.auto_login_token,
                    FieldName::AutoLoginToken,
                ).unwrap(),
                cust_id: u32_of(f.cust_id, FieldName::CustId).unwrap(),
                email: text_of(f.email, FieldName::Email).unwrap(),
                sso_cookie_domain: text_of(
                    f.sso_cookie_domain,
                    FieldName::SsoCookieDomain,
                ).unwrap(),
                sso_cookie_name: text_of(f.sso_cookie_name, FieldName::SsoCookieName).unwrap(),
                sso_cookie_path: text_of(f.sso_cookie_path, FieldName::SsoCookiePath).unwrap(),
                sso_cookie_value: text_of(f.sso_cookie_value, FieldName::SsoCookieValue).unwrap(),
            },
        ),
    }
}

/// The error that stops a failure reply from being read: that of the first
/// member, in the order of [`AuthFailureBody`], that is not as expected.
pub open spec fn failure_error(f: AuthFieldsView) -> Option<DecodeError> {
    or_else(
        error_of(u32_of(f.authcode, FieldName::AuthCode)),
        or_else(
            error_of(text_of(f.message, FieldName::Message)),
            or_else(
                error_of(bool_of(f.inactive, FieldName::Inactive)),
                error_of(bool_of(f.verification_required, FieldName::VerificationRequired)),
            ),
        ),
    )
}

/// A failure reply read from its members: every member decoded, or the first
/// error.
pub open spec fn failure_of(f: AuthFieldsView) -> Result<AuthFailureView, DecodeError> {
    match failure_error(f) {
        Some(e) => Err(e),
        None => Ok(
            AuthFailureView {
                authcode: u32_of(f.authcode, FieldName::AuthCode).unwrap(),
                message: text_of(f.message, FieldName::Message).unwrap(),
                inactive: bool_of(f.inactive, FieldName::Inactive).unwrap(),
                verification_required: bool_of(
                    f.verification_required,
                    FieldName::VerificationRequired,
                ).unwrap(),
            },
        ),
    }
}

/// How a login reply is classified. The type of the value under `authcode`
/// decides: a string makes it a success reply, a number a failure reply, and
/// the members of that shape are then read. An absent `authcode`, or one of
/// any other type, is a decode error.
pub open spec fn classify(f: AuthFieldsView) -> Result<AuthResponseView, DecodeError> {
    match f.authcode {
        JsonFieldView::Text(_) => match success_of(f) {
            Ok(body) => Ok(AuthResponseView::Success(body)),
            Err(e) => Err(e),
        },
        JsonFieldView::Number(_) => match failure_of(f) {
            Ok(body) => Ok(AuthResponseView::Failure(body)),
            Err(e) => Err(e),
        },
        JsonFieldView::Missing => Err(DecodeError::MissingField(FieldName::AuthCode)),
        _ => Err(DecodeError::WrongType(FieldName::AuthCode)),
    }
}

/// The members that [`AuthFields::read`] takes out of a document.
pub open spec fn auth_fields_of(value: serde_json::Value) -> AuthFieldsView {
    AuthFieldsView {
        authcode: json_member(value, FieldName::AuthCode.key_text()),
        auto_login_series: json_member(value, FieldName::AutoLoginSeries.key_text()),
        auto_login_token: json_member(value, FieldName::AutoLoginToken.key_text()),
        cust_id: json_member(value, FieldName::CustId.key_text()),
        email: json_member(value, FieldName::Email.key_text()),
        sso_cookie_domain: json_member(value, FieldName::SsoCookieDomain.key_text()),
        sso_cookie_name: json_member(value, FieldName::SsoCookieName.key_text()),
        sso_cookie_path: json_member(value, FieldName::SsoCookiePath.key_text()),
        sso_cookie_value: json_member(value, FieldName::SsoCookieValue.key_text()),
        message: json_member(value, FieldName::Message.key_text()),
        inactive: json_member(value, FieldName::Inactive.key_text()),
        verification_required: json_member(value, FieldName::VerificationRequired.key_text()),
    }
}

impl AuthFields {
    /// Takes the members of a login reply out of a parsed document.
    pub fn read(value: &serde_json::Value) -> (r: AuthFields)
        ensures
            r@ == auth_fields_of(*value),
    {
        AuthFields {
            authcode: member(value, FieldName::AuthCode.key()),
            auto_login_series: member(value, FieldName::AutoLoginSeries.key()),
            auto_login_token: member(value, FieldName::AutoLoginToken.key()),
            cust_id: member(value, FieldName::CustId.key()),
            email: member(value, FieldName::Email.key()),
            sso_cookie_domain: member(value, FieldName::SsoCookieDomain.key()),
            sso_cookie_name: member(value, FieldName::SsoCookieName.key()),
            sso_cookie_path: member(value, FieldName::SsoCookiePath.key()),
            sso_cookie_value: member(value, FieldName::SsoCookieValue.key()),
            message: member(value, FieldName::Message.key()),
            inactive: member(value, FieldName::Inactive.key()),
            verification_required: member(value, FieldName::VerificationRequired.key()),
        }
    }
}

impl AuthSuccessBody {
    /// Reads a success reply from the members of the document.
    pub fn from_fields(fields: AuthFields) -> (r: Result<AuthSuccessBody, DecodeError>)
        ensures
            match r {
                Ok(body) => success_of(fields@) == Ok::<AuthSuccessView, DecodeError>(body@),
                Err(e) => success_of(fields@) == Err::<AuthSuccessView, DecodeError>(e),
            },
    {
        let auth_code = match fields.authcode.into_text(FieldName::AuthCode) {
            Ok(v) => v,
            Err(e) => return Err(e),
        };
        let auto_login_series = match fields.auto_login_series.into_optional_text(
            FieldName::AutoLoginSeries,
        ) {
            Ok(v) => v,
            Err(e) => return Err(e),
        };
        let auto_login_token = match fields.auto_login_token.into_optional_text(
            FieldName::AutoLoginToken,
        ) {
            Ok(v) => v,
            Err(e) => return Err(e),
        };
        let cust_id = match fields.cust_id.into_u32(FieldName::CustId) {
            Ok(v) => v,
            Err(e) => return Err(e),
        };
        let email = match fields.email.into_text(FieldName::Email) {
            Ok(v) => v,
            Err(e) => return Err(e),
        };
        let sso_cookie_domain = match fields.sso_cookie_domain.into_text(
            FieldName::SsoCookieDomain,
        ) {
            Ok(v) => v,
            Err(e) => return Err(e),
        };
        let sso_cookie_name = match fields.sso_cookie_name.into_text(FieldName::SsoCookieName) {
            Ok(v) => v,
            Err(e) => return Err(e),
        };
        let sso_cookie_path = match fields.sso_cookie_path.into_text(FieldName::SsoCookiePath) {
            Ok(v) => v,
            Err(e) => return Err(e),
        };
        let sso_cookie_value = match fields.sso_cookie_value.into_text(FieldName::SsoCookieValue) {
            Ok(v) => v,
            Err(e) => return Err(e),
        };
        Ok(
            AuthSuccessBody {
                auth_code,
                auto_login_series,
                auto_login_token,
                cust_id,
                email,
                sso_cookie_domain,
                sso_cookie_name,
                sso_cookie_path,
                sso_cookie_value,
            },
        )
    }
}

impl AuthFailureBody {
    /// Reads a failure reply from the members of the document.
    pub fn from_fields(fields: AuthFields) -> (r: Result<AuthFailureBody, DecodeError>)
        ensures
            match r {
                Ok(body) => failure_of(fields@) == Ok::<AuthFailureView, DecodeError>(body@),
                Err(e) => failure_of(fields@) == Err::<AuthFailureView, DecodeError>(e),
            },
    {
        let authcode = match fields.authcode.into_u32(FieldName::AuthCode) {
            Ok(v) => v,
            Err(e) => return Err(e),
        };
        let message = match fields.message.into_text(FieldName::Message) {
            Ok(v) => v,
            Err(e) => return Err(e),
        };
        let inactive = match fields.inactive.into_bool(FieldName::Inactive) {
            Ok(v) => v,
            Err(e) => return Err(e),
        };
        let verification_required = match fields.verification_required.into_bool(
            FieldName::VerificationRequired,
        ) {
            Ok(v) => v,
            Err(e) => return Err(e),
        };
        Ok(AuthFailureBody { authcode, message, inactive, verification_required })
    }
}

/// Whether `r` is the value that `expected` describes.
pub open spec fn response_is(
    r: Result<AuthResponse, DecodeError>,
    expected: Result<AuthResponseView, DecodeError>,
) -> bool {
    match r {
        Ok(response) => expected == Ok::<AuthResponseView, DecodeError>(response@),
        Err(e) => expected == Err::<AuthResponseView, DecodeError>(e),
    }
}

/// How the body of a login reply is classified: it must be a JSON text, and
/// the document is then classified by its members.
pub open spec fn auth_response_of(body: Seq<u8>) -> Result<AuthResponseView, DecodeError> {
    match json_parse(body) {
        None => Err(DecodeError::InvalidJson),
        Some(value) => classify(auth_fields_of(value)),
    }
}

impl AuthResponse {
    /// Classifies a login reply by the members found in it, and reads the
    /// members of the shape that `authcode` announces.
    pub fn from_fields(fields: AuthFields) -> (r: Result<AuthResponse, DecodeError>)
        ensures
            response_is(r, classify(fields@)),
    {
        match &fields.authcode {
            JsonField::Text(_) => match AuthSuccessBody::from_fields(fields) {
                Ok(body) => Ok(AuthResponse::Success(body)),
                Err(e) => Err(e),
            },
            JsonField::Number(_) => match AuthFailureBody::from_fields(fields) {
                Ok(body) => Ok(AuthResponse::Failure(body)),
                Err(e) => Err(e),
            },
            JsonField::Missing => Err(DecodeError::MissingField(FieldName::AuthCode)),
            _ => Err(DecodeError::WrongType(FieldName::AuthCode)),
        }
    }

    /// Interpret a raw json value as either an [AuthSuccessBody] or an
    /// [AuthFailureBody], or report that it is neither.
    pub fn from_json(value: serde_json::Value) -> (r: Result<AuthResponse, DecodeError>)
        ensures
            response_is(r, classify(auth_fields_of(value))),
    {
        AuthResponse::from_fields(AuthFields::read(&value))
    }

    /// Parses the body of a login reply and classifies it.
    pub fn from_body(body: &[u8]) -> (r: Result<AuthResponse, DecodeError>)
        ensures
            response_is(r, auth_response_of(body@)),
    {
        match read_document(body) {
            Err(e) => Err(e),
            Ok(value) => AuthResponse::from_json(value),
        }
    }
}

/// What the service says when the address or the password is wrong.
pub open spec fn invalid_credentials_message() -> Seq<char> {
    "Invalid email address or password. Please try again."@
}

/// What the service says when the address is not one it can look up.
pub open spec fn missing_identifier_message() -> Seq<char> {
    "Missing auth identifier."@
}

/// What the service says when it wants the user to log in by hand first.
pub open spec fn verification_required_message() -> Seq<char> {
    "Verification required."@
}

/// The various ways authentication can fail
#[derive(Clone, Debug)]
pub enum AuthErrorKind {
    /// The provided username or password (or both!) was incorrect
    InvalidCredentials,
    /// Usually caused by a malformed email, check the format
    MissingAuthIdentifier,
    /// Usually caused by too many failed login attempts. iRacing is requiring
    /// manual verification. Go to <https://members-login.iracing.com> and
    /// re-enter your login credentials.
    VerificationRequired,
    /// Authentication failed and returned a response in the correct format,
    /// but the error message was not recognized. Holds the message as the
    /// service sent it.
    Unknown(String),
}

/// The mathematical value of an [`AuthErrorKind`].
pub enum AuthErrorKindView {
    InvalidCredentials,
    MissingAuthIdentifier,
    VerificationRequired,
    Unknown(Seq<char>),
}

impl View for AuthErrorKind {
    type V = AuthErrorKindView;

    open spec fn view(&self) -> AuthErrorKindView {
        match *self {
            AuthErrorKind::InvalidCredentials => AuthErrorKindView::InvalidCredentials,
            AuthErrorKind::MissingAuthIdentifier => AuthErrorKindView::MissingAuthIdentifier,
            AuthErrorKind::VerificationRequired => AuthErrorKindView::VerificationRequired,
            AuthErrorKind::Unknown(message) => AuthErrorKindView::Unknown(message@),
        }
    }
}

/// The cause that a failure message names. The three messages the service is
/// known to send are matched letter for letter; any other message is an
/// unknown cause that keeps the message.
pub open spec fn kind_of_message(message: Seq<char>) -> AuthErrorKindView {
    if message == invalid_credentials_message() {
        AuthErrorKindView::InvalidCredentials
    } else if message == missing_identifier_message() {
        AuthErrorKindView::MissingAuthIdentifier
    } else if message == verification_required_message() {
        AuthErrorKindView::VerificationRequired
    } else {
        AuthErrorKindView::Unknown(message)
    }
}

impl AuthErrorKindView {
    /// The cause in words.
    pub open spec fn text(self) -> Seq<char> {
        match self {
            AuthErrorKindView::InvalidCredentials => "Invalid email address or password"@,
            AuthErrorKindView::MissingAuthIdentifier => "Missing auth identifier"@,
            AuthErrorKindView::VerificationRequired => "Verification required"@,
            AuthErrorKindView::Unknown(message) => "Unkown authentication error: "@ + message,
        }
    }
}

impl AuthErrorKind {
    /// Names the cause of a failure from the message that came with it.
    pub fn from_message(message: &str) -> (r: AuthErrorKind)
        ensures
            r@ == kind_of_message(message@),
    {
        let message = message.to_owned();
        if message == "Invalid email address or password. Please try again.".to_owned() {
            AuthErrorKind::InvalidCredentials
        } else if message == "Missing auth identifier.".to_owned() {
            AuthErrorKind::MissingAuthIdentifier
        } else if message == "Verification required.".to_owned() {
            AuthErrorKind::VerificationRequired
        } else {
            AuthErrorKind::Unknown(message)
        }
    }

    /// The cause in words.
    pub fn to_string(&self) -> (r: String)
        ensures
            r@ == self@.text(),
    {
        match self {
            AuthErrorKind::InvalidCredentials => "Invalid email address or password".to_owned(),
            AuthErrorKind::MissingAuthIdentifier => "Missing auth identifier".to_owned(),
            AuthErrorKind::VerificationRequired => "Verification required".to_owned(),
            AuthErrorKind::Unknown(message) => "Unkown authentication error: ".to_owned().concat(
                message.as_str(),
            ),
        }
    }
}

/// An authentication error, including the detected cause and the response
/// returned by iRacing
#[derive(Clone, Debug)]
pub struct AuthError {
    /// What caused the authentication failure
    pub kind: AuthErrorKind,
    pub body: AuthFailureBody,
}

/// The mathematical value of an [`AuthError`].
pub struct AuthErrorView {
    pub kind: AuthErrorKindView,
    pub body: AuthFailureView,
}

impl View for AuthError {
    type V = AuthErrorView;

    open spec fn view(&self) -> AuthErrorView {
        AuthErrorView { kind: self.kind@, body: self.body@ }
    }
}

/// The error that a failure reply stands for: the reply itself, under the
/// cause that its message names.
pub open spec fn auth_error_of(body: AuthFailureView) -> AuthErrorView {
    AuthErrorView { kind: kind_of_message(body.message), body }
}

impl AuthErrorView {
    /// The error in words.
    pub open spec fn text(self) -> Seq<char> {
        "Authentication failed: "@ + self.kind.text()
    }
}

impl AuthError {
    /// Turns a failure reply into the error it stands for.
    pub fn from_failure(body: AuthFailureBody) -> (r: AuthError)
        ensures
            r@ == auth_error_of(body@),
    {
        let kind = AuthErrorKind::from_message(body.message.as_str());
        AuthError { kind, body }
    }

    /// The error in words.
    pub fn to_string(&self) -> (r: String)
        ensures
            r@ == self@.text(),
    {
        let kind = self.kind.to_string();
        "Authentication failed: ".to_owned().concat(kind.as_str())
    }
}

/// Each message that the service is known to send names its documented
/// cause.
pub proof fn lemma_known_messages_name_their_cause()
    ensures
        kind_of_message(invalid_credentials_message()) == AuthErrorKindView::InvalidCredentials,
        kind_of_message(missing_identifier_message())
            == AuthErrorKindView::MissingAuthIdentifier,
        kind_of_message(verification_required_message())
            == AuthErrorKindView::VerificationRequired,
{
    lemma_cause_names_its_message(missing_identifier_message());
    lemma_cause_names_its_message(verification_required_message());
}

/// A message that is none of the known ones names the unknown cause, and
/// that cause carries the message unchanged.
pub proof fn lemma_unknown_message_is_kept(message: Seq<char>)
    requires
        message != invalid_credentials_message(),
        message != missing_identifier_message(),
        message != verification_required_message(),
    ensures
        kind_of_message(message) == AuthErrorKindView::Unknown(message),
{
}

/// Whatever the message, a known cause is named by its own message and by no
/// other, and the unknown cause holds exactly the message it was made from:
/// no message is lost or rewritten.
pub proof fn lemma_cause_names_its_message(message: Seq<char>)
    ensures
        kind_of_message(message) matches AuthErrorKindView::Unknown(kept) ==> kept == message,
        kind_of_message(message) is InvalidCredentials <==> message
            == invalid_credentials_message(),
        kind_of_message(message) is MissingAuthIdentifier <==> message
            == missing_identifier_message(),
        kind_of_message(message) is VerificationRequired <==> message
            == verification_required_message(),
{
    reveal_strlit("Invalid email address or password. Please try again.");
    reveal_strlit("Missing auth identifier.");
    reveal_strlit("Verification required.");
    assert(invalid_credentials_message().len() == 52);
    assert(missing_identifier_message().len() == 24);
    assert(verification_required_message().len() == 22);
}

/// The type of the value under `authcode` decides the shape of a reply, and
/// nothing else does: a reply is a success reply only where it is a string,
/// and then has just the members that a success reply is read from; it is a
/// failure reply only where it is a number; and where it is neither, or is
/// absent, the reply is not understood.
pub proof fn lemma_authcode_decides_the_shape(f: AuthFieldsView)
    ensures
        f.authcode is Text ==> match success_of(f) {
            Ok(body) => classify(f) == Ok::<AuthResponseView, DecodeError>(
                AuthResponseView::Success(body),
            ),
            Err(e) => classify(f) == Err::<AuthResponseView, DecodeError>(e),
        },
        f.authcode is Number ==> match failure_of(f) {
            Ok(body) => classify(f) == Ok::<AuthResponseView, DecodeError>(
                AuthResponseView::Failure(body),
            ),
            Err(e) => classify(f) == Err::<AuthResponseView, DecodeError>(e),
        },
        f.authcode is Missing ==> classify(f) == Err::<AuthResponseView, DecodeError>(
            DecodeError::MissingField(FieldName::AuthCode),
        ),
        !(f.authcode is Text) && !(f.authcode is Number) && !(f.authcode is Missing) ==> classify(f)
            == Err::<AuthResponseView, DecodeError>(DecodeError::WrongType(FieldName::AuthCode)),
        classify(f) matches Ok(AuthResponseView::Success(_)) ==> f.authcode is Text,
        classify(f) matches Ok(AuthResponseView::Failure(_)) ==> f.authcode is Number,
{
}

} // verus!
