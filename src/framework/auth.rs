//! Credentials, and how they are attached to an outgoing request.
use vstd::prelude::*;
use reqwest::blocking::RequestBuilder;

verus! {

#[verifier::external_type_specification]
#[verifier::external_body]
pub struct ExRequestBuilder(RequestBuilder);

/// Authentication material; only a user's bearer token for now.
#[derive(Debug)]
pub enum Credentials {
    UserAuthToken { token: String },
}

impl Credentials {
    /// The value of the `Authorization` header that these credentials call for.
    pub open spec fn authorization_value(&self) -> Seq<char> {
        match self {
            Credentials::UserAuthToken { token } => "Bearer "@ + token@,
        }
    }

    /// The headers that every request made with these credentials carries:
    /// exactly one, `Authorization: Bearer <token>`.
    pub fn headers(&self) -> (r: Vec<(&'static str, String)>)
        ensures
            r@.len() == 1,
            r@[0].0@ == "Authorization"@,
            r@[0].1@ == self.authorization_value(),
    {
        match self {
            Credentials::UserAuthToken { token } => {
                let mut value = String::from_str("Bearer ");
                value.append(token.as_str());
                vec![("Authorization", value)]
            },
        }
    }
}

/// A request under construction that credentials can be attached to.
pub trait AuthClient: Sized {
    /// Whether credentials can be attached to `self` without running into a limit.
    spec fn can_take_credentials(&self) -> bool;

    /// Whether `self` is `before` with the headers of `credentials` attached,
    /// and nothing else changed.
    spec fn authorized_from(&self, before: &Self, credentials: &Credentials) -> bool;

    fn auth(self, credentials: &Credentials) -> (r: Self)
        requires
            self.can_take_credentials(),
        ensures
            r.authorized_from(&self, credentials),
    ;
}

/// The headers of a request under construction: for each (lower-case) name,
/// its values in the order they were added; `None` once the builder holds an
/// error instead of a request.
pub uninterp spec fn request_headers(b: RequestBuilder) -> Option<Map<Seq<char>, Seq<Seq<char>>>>;

/// The rest of a request under construction: its method, its URL, and the
/// bytes of its body where it has a body of bytes (`None` for no body or a
/// streamed one); `None` once the builder holds an error instead of a request.
pub uninterp spec fn request_parts(b: RequestBuilder) -> Option<(Seq<char>, Seq<char>, Option<Seq<u8>>)>;

/// The most distinct header names a builder may hold before one more header is
/// added. `http`'s `HeaderMap` panics when its table would outgrow 32768 slots,
/// which, counting the doubling it does on many hash collisions, cannot happen
/// below this many names.
pub const MAX_HEADER_NAMES: usize = 4096;

/// Whether one more header can be added to `b` without reaching that limit.
pub open spec fn has_header_room(b: RequestBuilder) -> bool {
    match request_headers(b) {
        Some(hs) => hs.dom().finite() && hs.dom().len() < MAX_HEADER_NAMES,
        None => true,
    }
}

/// Whether `c` may stand in a header value: a tab, or any character from the
/// space up but DEL. (Characters beyond ASCII are encoded as bytes of 128 and up.)
pub open spec fn is_header_value_char(c: char) -> bool {
    (c as u32 >= 32 && c as u32 != 127) || c as u32 == 9
}

/// The values that `headers` holds under `name`, in order.
pub open spec fn values_of(headers: Map<Seq<char>, Seq<Seq<char>>>, name: Seq<char>) -> Seq<Seq<char>> {
    if headers.contains_key(name) {
        headers[name]
    } else {
        Seq::empty()
    }
}

/// The headers after `value` is appended to the values of `authorization`: a
/// value with a character that a header value cannot hold turns the builder
/// into an error, and an error stays an error.
pub open spec fn with_authorization(
    headers: Option<Map<Seq<char>, Seq<Seq<char>>>>,
    value: Seq<char>,
) -> Option<Map<Seq<char>, Seq<Seq<char>>>> {
    match headers {
        Some(hs) => if forall|i: int| 0 <= i < value.len() ==> is_header_value_char(#[trigger] value[i]) {
            Some(hs.insert("authorization"@, values_of(hs, "authorization"@).push(value)))
        } else {
            None
        },
        None => None,
    }
}

/// The rest of the request after a header was added to `before`, leaving `after`:
/// unchanged while a request is held, gone once the builder holds an error.
pub open spec fn parts_kept(after: RequestBuilder, before: RequestBuilder) -> bool {
    request_parts(after) == if request_headers(after).is_some() {
        request_parts(before)
    } else {
        None
    }
}

/// Relies on reqwest's `RequestBuilder::header`: while the builder holds a
/// request, it appends `value` to the values of `name` (lower-cased, as
/// `http`'s `HeaderName` stores it) and touches nothing else; a value with a
/// byte that `http`'s `HeaderValue` refuses (under 32 but tab, or DEL) makes
/// the builder hold an error instead; a builder that holds an error is left as
/// it is. `http`'s `HeaderMap::append` panics past its size limit, which the
/// `requires` keeps away from.
#[verifier::external_body]
fn with_header(builder: RequestBuilder, name: &'static str, value: String) -> (r: RequestBuilder)
    requires
        has_header_room(builder),
    ensures
        name@ == "Authorization"@ ==> request_headers(r) == with_authorization(request_headers(builder), value@),
        request_parts(r) == if request_headers(r).is_some() {
            request_parts(builder)
        } else {
            None
        },
{
    builder.header(name, value)
}

impl AuthClient for RequestBuilder {
    open spec fn can_take_credentials(&self) -> bool {
        has_header_room(*self)
    }

    open spec fn authorized_from(&self, before: &RequestBuilder, credentials: &Credentials) -> bool {
        &&& request_headers(*self) == with_authorization(request_headers(*before), credentials.authorization_value())
        &&& parts_kept(*self, *before)
    }

    /// Attaches each header of `credentials`, in order.
    fn auth(self, credentials: &Credentials) -> (r: RequestBuilder) {
        let headers = credentials.headers();
        let ghost before = self;
        let mut builder = self;
        let mut i: usize = 0;
        while i < headers.len()
            invariant
                i <= headers@.len(),
                headers@.len() == 1,
                headers@[0].0@ == "Authorization"@,
                headers@[0].1@ == credentials.authorization_value(),
                has_header_room(before),
                i == 0 ==> builder == before,
                i == 1 ==> request_headers(builder) == with_authorization(
                    request_headers(before),
                    credentials.authorization_value(),
                ),
                i == 1 ==> parts_kept(builder, before),
            decreases headers@.len() - i,
        {
            builder = with_header(builder, headers[i].0, headers[i].1.clone());
            i = i + 1;
        }
        builder
    }
}

} // verus!
