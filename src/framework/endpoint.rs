//! The contract that every endpoint descriptor offers: an HTTP method, a path
//! relative to the API base, and an optional request body.
use vstd::prelude::*;

verus! {

/// The HTTP methods that the platform API uses.
#[derive(Clone, Copy, Debug, PartialEq, Eq, Structural)]
pub enum Method {
    Get,
    Post,
    Put,
    Patch,
    Delete,
}

/// One operation of the API, described as data.
///
/// `spec_method`, `spec_path` and `body_is` say what the descriptor stands for;
/// the executable methods are held to them.
pub trait HerokuEndpoint<BodyType> {
    /// The method of the operation.
    spec fn spec_method(&self) -> Method;

    /// The path of the operation, relative to the API base.
    spec fn spec_path(&self) -> Seq<char>;

    /// Whether `body` is the body that the operation sends.
    spec fn body_is(&self, body: Option<BodyType>) -> bool;

    fn method(&self) -> (r: Method)
        ensures
            r == self.spec_method(),
    ;

    fn path(&self) -> (r: String)
        ensures
            r@ == self.spec_path(),
    ;

    fn body(&self) -> (r: Option<BodyType>)
        ensures
            self.body_is(r),
    ;
}

/// The base that every endpoint path is relative to.
pub const API_BASE: &'static str = "https://api.heroku.com/";

/// The full URL of an endpoint whose path is `path`.
pub fn request_url(path: &str) -> (r: String)
    ensures
        r@ == API_BASE@ + path@,
{
    let mut url = String::from_str(API_BASE);
    url.append(path);
    url
}

} // verus!
