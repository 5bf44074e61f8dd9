//! Turning what the API answered into a typed result.
//!
//! Reading a response happens in two steps. `body_reading` says, from the
//! status alone, what the body is to be read as: the endpoint's declared
//! result type on success, the platform's error envelope otherwise. The
//! outcome of that read is handed to `classify_response`, which decides the
//! result. The status is kept on every failure, and an envelope that could not
//! be read becomes the blank envelope rather than a second error. A success
//! with an empty body gives the empty value of a result type that has one
//! (`ApiResult::empty_value`), whatever reading it as JSON gave.
use vstd::prelude::*;

verus! {

#[verifier::external_type_specification]
#[verifier::external_body]
pub struct ExReqwestError(reqwest::Error);

/// What some endpoints answer with: an empty object, an empty list, or nothing.
#[derive(Debug)]
pub struct Empty {}

#[verifier::external_type_specification]
#[verifier::external_body]
pub struct ExResponse(reqwest::blocking::Response);

/// A type that an endpoint declares as its result.
pub trait ApiResult: Sized {
    /// Whether an empty body stands for a value of this type.
    spec fn reads_empty_body() -> bool;

    /// Whether `v` is the value that an empty body stands for.
    spec fn is_empty_value(v: Self) -> bool;

    /// The value that an empty body stands for, if there is one.
    fn empty_value() -> (r: Option<Self>)
        ensures
            match r {
                Some(v) => Self::reads_empty_body() && Self::is_empty_value(v),
                None => !Self::reads_empty_body(),
            },
    ;
}

impl ApiResult for Empty {
    open spec fn reads_empty_body() -> bool {
        true
    }

    open spec fn is_empty_value(v: Empty) -> bool {
        true
    }

    fn empty_value() -> (r: Option<Empty>) {
        Some(Empty {})
    }
}

impl ApiResult for () {
    open spec fn reads_empty_body() -> bool {
        true
    }

    open spec fn is_empty_value(v: ()) -> bool {
        true
    }

    fn empty_value() -> (r: Option<()>) {
        Some(())
    }
}

impl ApiResult for Vec<Empty> {
    open spec fn reads_empty_body() -> bool {
        true
    }

    open spec fn is_empty_value(v: Vec<Empty>) -> bool {
        v@.len() == 0
    }

    fn empty_value() -> (r: Option<Vec<Empty>>) {
        Some(Vec::new())
    }
}

/// A response taken as it came, unread; it has no value for an empty body.
impl ApiResult for reqwest::blocking::Response {
    open spec fn reads_empty_body() -> bool {
        false
    }

    open spec fn is_empty_value(v: reqwest::blocking::Response) -> bool {
        false
    }

    fn empty_value() -> (r: Option<reqwest::blocking::Response>) {
        None
    }
}

/// The error envelope that the platform sends with a failing status.
#[derive(Debug)]
pub struct HerokuApiError {
    /// machine-readable error code
    pub id: String,
    /// human-readable description
    pub message: String,
    /// where to read more about the error
    pub url: Option<String>,
}

impl HerokuApiError {
    /// Whether this is the blank envelope, which stands in for one that could not be read.
    pub open spec fn is_blank(&self) -> bool {
        &&& self.id@.len() == 0
        &&& self.message@.len() == 0
        &&& self.url.is_none()
    }
}

impl Default for HerokuApiError {
    fn default() -> (r: HerokuApiError)
        ensures
            r.is_blank(),
    {
        HerokuApiError { id: String::new(), message: String::new(), url: None }
    }
}

/// Why a call did not give its declared result.
#[derive(Debug)]
pub enum HerokuApiFailure {
    /// The status was not a success: the status, and the envelope as far as it could be read.
    Error(u16, HerokuApiError),
    /// The status was a success, but the body could not be read as the declared type.
    Invalid(reqwest::Error),
}

/// The result of a call: the declared value, or why there is none.
pub type ApiResponse<T> = Result<T, HerokuApiFailure>;

/// Whether an HTTP status is in the success range, 200 to 299.
pub open spec fn is_success_status(status: u16) -> bool {
    200 <= status && status < 300
}

/// Whether an HTTP status is in the success range, 200 to 299.
pub fn is_success(status: u16) -> (r: bool)
    ensures
        r == is_success_status(status),
{
    200 <= status && status < 300
}

/// What the body of a response is to be read as.
#[derive(Clone, Copy, Debug, PartialEq, Eq, Structural)]
pub enum BodyReading {
    /// the endpoint's declared result type
    Payload,
    /// the platform's error envelope
    ErrorEnvelope,
}

/// The reading that a status calls for.
pub open spec fn reading_for(status: u16) -> BodyReading {
    if is_success_status(status) {
        BodyReading::Payload
    } else {
        BodyReading::ErrorEnvelope
    }
}

/// What the body of a response with this status is to be read as.
pub fn body_reading(status: u16) -> (r: BodyReading)
    ensures
        r == reading_for(status),
{
    if is_success(status) {
        BodyReading::Payload
    } else {
        BodyReading::ErrorEnvelope
    }
}

/// The outcome of reading the body of a response.
#[derive(Debug)]
pub enum ResponseBody<T> {
    /// read as the declared result type
    Payload(Result<T, reqwest::Error>),
    /// the body had no bytes; what reading it as the declared result type gave
    EmptyPayload(Result<T, reqwest::Error>),
    /// read as the error envelope
    ErrorEnvelope(Result<HerokuApiError, reqwest::Error>),
}

/// Whether `r` is a failure for `status` that carries the envelope `envelope`.
pub open spec fn fails_with<T>(r: ApiResponse<T>, status: u16, envelope: HerokuApiError) -> bool {
    r == Err::<T, HerokuApiFailure>(HerokuApiFailure::Error(status, envelope))
}

/// Whether `r` is a failure for `status` that carries the blank envelope.
pub open spec fn fails_blank<T>(r: ApiResponse<T>, status: u16) -> bool {
    r matches Err(HerokuApiFailure::Error(s, e)) && s == status && e.is_blank()
}

/// The result that a success status gives for a body read as `parsed`: the
/// value read, or `Invalid` with the error of the read.
pub open spec fn payload_result<T>(parsed: Result<T, reqwest::Error>) -> ApiResponse<T> {
    match parsed {
        Ok(v) => Ok(v),
        Err(e) => Err(HerokuApiFailure::Invalid(e)),
    }
}

/// The reading that a body was read with.
pub open spec fn reading_of<T>(body: ResponseBody<T>) -> BodyReading {
    match body {
        ResponseBody::Payload(_) => BodyReading::Payload,
        ResponseBody::EmptyPayload(_) => BodyReading::Payload,
        ResponseBody::ErrorEnvelope(_) => BodyReading::ErrorEnvelope,
    }
}

/// The outcome of reading a payload of `len` bytes as the declared type,
/// which gave `parsed`: an empty payload is told apart from the others.
pub fn payload_body<T>(len: usize, parsed: Result<T, reqwest::Error>) -> (r: ResponseBody<T>)
    ensures
        len == 0 ==> r == ResponseBody::EmptyPayload(parsed),
        len != 0 ==> r == ResponseBody::Payload(parsed),
{
    if len == 0 {
        ResponseBody::EmptyPayload(parsed)
    } else {
        ResponseBody::Payload(parsed)
    }
}

/// The result that a response with `status` and the body read as `body` gives,
/// where `body` was read as `reading_for(status)` says.
///
/// A success status gives the value read, or `Invalid` with the error of the
/// read; an empty body gives the empty value of a type that has one. Any other
/// status gives `Error` with that status and the envelope, or the blank
/// envelope where none could be read.
pub open spec fn classifies_as<T: ApiResult>(status: u16, body: ResponseBody<T>, r: ApiResponse<T>) -> bool {
    match body {
        ResponseBody::Payload(parsed) => r == payload_result(parsed),
        ResponseBody::EmptyPayload(parsed) => if T::reads_empty_body() {
            r matches Ok(v) && T::is_empty_value(v)
        } else {
            r == payload_result(parsed)
        },
        ResponseBody::ErrorEnvelope(Ok(envelope)) => fails_with(r, status, envelope),
        ResponseBody::ErrorEnvelope(Err(_)) => fails_blank(r, status),
    }
}

/// The result of a response with `status` whose body was read as `body`.
pub fn classify_response<T: ApiResult>(status: u16, body: ResponseBody<T>) -> (r: ApiResponse<T>)
    requires
        reading_of(body) == reading_for(status),
    ensures
        classifies_as(status, body, r),
{
    match body {
        ResponseBody::Payload(Ok(v)) => Ok(v),
        ResponseBody::Payload(Err(e)) => Err(HerokuApiFailure::Invalid(e)),
        ResponseBody::EmptyPayload(parsed) => match T::empty_value() {
            Some(v) => Ok(v),
            None => match parsed {
                Ok(v) => Ok(v),
                Err(e) => Err(HerokuApiFailure::Invalid(e)),
            },
        },
        ResponseBody::ErrorEnvelope(Ok(envelope)) => Err(HerokuApiFailure::Error(status, envelope)),
        ResponseBody::ErrorEnvelope(Err(_)) => Err(HerokuApiFailure::Error(status, HerokuApiError::default())),
    }
}

/// A response with a success status has its body read as the declared type,
/// and a body that reads as `v` gives exactly `Ok(v)`.
pub proof fn success_gives_parsed_value<T: ApiResult>(status: u16, v: T, r: ApiResponse<T>)
    requires
        is_success_status(status),
    ensures
        reading_for(status) == BodyReading::Payload,
        reading_of(ResponseBody::Payload(Ok(v))) == reading_for(status),
        classifies_as(status, ResponseBody::Payload(Ok(v)), r) <==> r == Ok::<T, HerokuApiFailure>(v),
{
}

/// A response with a success status whose body cannot be read as the declared
/// type gives exactly the `Invalid` failure that carries the error of the read.
pub proof fn success_with_unreadable_body_is_invalid<T: ApiResult>(status: u16, e: reqwest::Error, r: ApiResponse<T>)
    requires
        is_success_status(status),
    ensures
        reading_for(status) == BodyReading::Payload,
        reading_of(ResponseBody::<T>::Payload(Err(e))) == reading_for(status),
        classifies_as(status, ResponseBody::Payload(Err(e)), r)
            <==> r == Err::<T, HerokuApiFailure>(HerokuApiFailure::Invalid(e)),
{
}

/// A response with any other status has its body read as the error envelope,
/// and an envelope that reads as `envelope` gives exactly the `Error` failure
/// that carries the original status and that envelope.
pub proof fn failure_carries_status_and_envelope<T: ApiResult>(status: u16, envelope: HerokuApiError, r: ApiResponse<T>)
    requires
        !is_success_status(status),
    ensures
        reading_for(status) == BodyReading::ErrorEnvelope,
        reading_of(ResponseBody::<T>::ErrorEnvelope(Ok(envelope))) == reading_for(status),
        classifies_as(status, ResponseBody::ErrorEnvelope(Ok(envelope)), r)
            <==> r == Err::<T, HerokuApiFailure>(HerokuApiFailure::Error(status, envelope)),
{
}

/// A response with any other status whose envelope cannot be read gives the
/// `Error` failure with the original status and the blank envelope: the error
/// of the second read is never what comes out.
pub proof fn failure_with_unreadable_envelope_is_blank<T: ApiResult>(status: u16, e: reqwest::Error, r: ApiResponse<T>)
    requires
        !is_success_status(status),
        classifies_as(status, ResponseBody::ErrorEnvelope(Err(e)), r),
    ensures
        reading_for(status) == BodyReading::ErrorEnvelope,
        reading_of(ResponseBody::<T>::ErrorEnvelope(Err(e))) == reading_for(status),
        r matches Err(HerokuApiFailure::Error(s, blank)) && s == status && blank.is_blank(),
        !(r matches Err(HerokuApiFailure::Invalid(_))),
{
}

/// A response with a success status whose body is empty gives `Ok` of the empty
/// value for a type that has one (`Empty`, `()`, an empty `Vec<Empty>`), whatever
/// reading the empty body as JSON gave.
pub proof fn success_with_empty_body_gives_empty_value<T: ApiResult>(
    status: u16,
    parsed: Result<T, reqwest::Error>,
    r: ApiResponse<T>,
)
    requires
        is_success_status(status),
        T::reads_empty_body(),
        classifies_as(status, ResponseBody::EmptyPayload(parsed), r),
    ensures
        reading_of(ResponseBody::EmptyPayload(parsed)) == reading_for(status),
        r matches Ok(v) && T::is_empty_value(v),
{
}
} // verus!
