//! Adding a collaborator to an app.
use vstd::prelude::*;
use crate::framework::endpoint::{HerokuEndpoint, Method};

verus! {

/// Collaborator Create: create a new collaborator.
pub struct CollaboratorCreate {
    /// app_id can be the app name or the app id
    pub app_id: String,
    /// The parameters to pass to the Heroku API
    pub params: CollaboratorCreateParams,
}

/// The body of a collaborator creation.
#[derive(Clone, Debug)]
pub struct CollaboratorCreateParams {
    /// unique email address, identifier of an account or implicit reference to currently authorized user
    pub user: String,
    /// whether to suppress email invitation when creating collaborator
    pub silent: Option<bool>,
}

impl CollaboratorCreateParams {
    /// Whether `other` holds the same parameters as `self`.
    pub open spec fn same_as(&self, other: &CollaboratorCreateParams) -> bool {
        self.user@ == other.user@ && self.silent == other.silent
    }
}

impl HerokuEndpoint<CollaboratorCreateParams> for CollaboratorCreate {
    open spec fn spec_method(&self) -> Method {
        Method::Post
    }

    open spec fn spec_path(&self) -> Seq<char> {
        "apps/"@ + self.app_id@ + "/collaborators"@
    }

    open spec fn body_is(&self, body: Option<CollaboratorCreateParams>) -> bool {
        body matches Some(p) && p.same_as(&self.params)
    }

    fn method(&self) -> (r: Method) {
        Method::Post
    }

    fn path(&self) -> (r: String) {
        let mut p = String::from_str("apps/");
        p.append(self.app_id.as_str());
        p.append("/collaborators");
        p
    }

    fn body(&self) -> (r: Option<CollaboratorCreateParams>) {
        Some(CollaboratorCreateParams { user: self.params.user.clone(), silent: self.params.silent })
    }
}

} // verus!
