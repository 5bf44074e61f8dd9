//! Add-ons: creating them, resolving them by name, marking them provisioned or
//! deprovisioned, attaching them to apps, and subscribing to their webhooks.
use vstd::prelude::*;
use crate::framework::endpoint::{HerokuEndpoint, Method};
use std::collections::HashMap;

verus! {

/// Add-on Create: create a new add-on.
pub struct AddonCreate<'a> {
    /// unique app identifier, either app id or app name
    pub app_id: &'a str,
    /// parameters to pass to the Heroku API
    pub params: AddonCreateParams<'a>,
}

/// The body of an add-on creation.
#[derive(Clone, Debug)]
pub struct AddonCreateParams<'a> {
    /// unique name for this add-on attachment to this app
    pub attachment: Option<Attachment<'a>>,
    /// custom add-on provisioning options
    pub config: Option<HashMap<&'a str, &'a str>>,
    /// name of billing entity for confirmation
    pub confirm: Option<&'a str>,
    /// unique identifier or name of this plan
    pub plan: &'a str,
    /// globally unique name of the add-on
    pub name: Option<&'a str>,
}

/// The attachment that an add-on is created with.
#[derive(Clone, Copy, Debug)]
pub struct Attachment<'a> {
    /// unique name for this add-on attachment to this app
    pub name: Option<&'a str>,
}

impl<'a> AddonCreateParams<'a> {
    /// Whether `other` holds the same parameters as `self`.
    pub open spec fn same_as(&self, other: &AddonCreateParams<'a>) -> bool {
        &&& self.attachment == other.attachment
        &&& self.confirm == other.confirm
        &&& self.plan == other.plan
        &&& self.name == other.name
        &&& match (self.config, other.config) {
            (Some(a), Some(b)) => a@ == b@,
            (None, None) => true,
            _ => false,
        }
    }

    /// A copy of the parameters.
    pub fn duplicate(&self) -> (r: AddonCreateParams<'a>)
        ensures
            r.same_as(self),
    {
        let config = match &self.config {
            Some(c) => Some(c.clone()),
            None => None,
        };
        AddonCreateParams {
            attachment: self.attachment,
            config,
            confirm: self.confirm,
            plan: self.plan,
            name: self.name,
        }
    }
}

impl<'a> AddonCreate<'a> {
    /// An add-on creation with its required parameters only.
    pub fn new(app_id: &'a str, plan: &'a str) -> (r: AddonCreate<'a>)
        ensures
            r.app_id == app_id,
            r.params.plan == plan,
            r.params.attachment.is_none(),
            r.params.config.is_none(),
            r.params.confirm.is_none(),
            r.params.name.is_none(),
    {
        AddonCreate {
            app_id,
            params: AddonCreateParams { attachment: None, config: None, plan, confirm: None, name: None },
        }
    }

    /// Sets the unique name of the attachment of the add-on to this app.
    pub fn attachment_name(&mut self, attachment_name: &'a str) -> (r: &mut Self)
        ensures
            r.app_id == old(self).app_id,
            r.params == (AddonCreateParams {
                attachment: Some(Attachment { name: Some(attachment_name) }),
                ..old(self).params
            }),
            *final(self) == *final(r),
    {
        self.params.attachment = Some(Attachment { name: Some(attachment_name) });
        self
    }

    /// Sets the custom provisioning options.
    pub fn config(&mut self, config: HashMap<&'a str, &'a str>) -> (r: &mut Self)
        ensures
            r.app_id == old(self).app_id,
            r.params == (AddonCreateParams { config: Some(config), ..old(self).params }),
            *final(self) == *final(r),
    {
        self.params.config = Some(config);
        self
    }

    /// Sets the name of the billing entity for confirmation.
    pub fn confirm(&mut self, confirm: &'a str) -> (r: &mut Self)
        ensures
            r.app_id == old(self).app_id,
            r.params == (AddonCreateParams { confirm: Some(confirm), ..old(self).params }),
            *final(self) == *final(r),
    {
        self.params.confirm = Some(confirm);
        self
    }

    /// Sets the globally unique name of the add-on.
    pub fn name(&mut self, name: &'a str) -> (r: &mut Self)
        ensures
            r.app_id == old(self).app_id,
            r.params == (AddonCreateParams { name: Some(name), ..old(self).params }),
            *final(self) == *final(r),
    {
        self.params.name = Some(name);
        self
    }

    /// The finished descriptor: a copy of what was set.
    pub fn build(&self) -> (r: AddonCreate<'a>)
        ensures
            r.app_id == self.app_id,
            r.params.same_as(&self.params),
    {
        AddonCreate { app_id: self.app_id, params: self.params.duplicate() }
    }
}

impl<'a> HerokuEndpoint<AddonCreateParams<'a>> for AddonCreate<'a> {
    open spec fn spec_method(&self) -> Method {
        Method::Post
    }

    open spec fn spec_path(&self) -> Seq<char> {
        "apps/"@ + self.app_id@ + "/addons"@
    }

    open spec fn body_is(&self, body: Option<AddonCreateParams<'a>>) -> bool {
        body matches Some(p) && p.same_as(&self.params)
    }

    fn method(&self) -> (r: Method) {
        Method::Post
    }

    fn path(&self) -> (r: String) {
        let mut p = String::from_str("apps/");
        p.append(self.app_id);
        p.append("/addons");
        p
    }

    fn body(&self) -> (r: Option<AddonCreateParams<'a>>) {
        Some(self.params.duplicate())
    }
}

/// Add-on Resolution: resolve an add-on from a name, optionally within an app.
pub struct AddonResolutionCreate<'a> {
    /// parameters to pass to the Heroku API
    pub params: AddonResolutionCreateParams<'a>,
}

/// The body of an add-on resolution.
#[derive(Clone, Copy, Debug, PartialEq, Eq)]
pub struct AddonResolutionCreateParams<'a> {
    /// globally unique name of the add-on
    pub addon: &'a str,
    /// unique name of this add-on-service
    pub addon_service: Option<&'a str>,
    /// unique name of app
    pub app: Option<&'a str>,
}

impl<'a> AddonResolutionCreate<'a> {
    /// A resolution of the add-on named `addon`, without optional parameters.
    pub fn new(addon: &'a str) -> (r: AddonResolutionCreate<'a>)
        ensures
            r.params == (AddonResolutionCreateParams { addon, addon_service: None, app: None }),
    {
        AddonResolutionCreate { params: AddonResolutionCreateParams { addon, addon_service: None, app: None } }
    }

    /// Sets the unique name of the add-on service.
    pub fn addon_service(&mut self, addon_service: &'a str) -> (r: &mut Self)
        ensures
            r.params == (AddonResolutionCreateParams { addon_service: Some(addon_service), ..old(self).params }),
            *final(self) == *final(r),
    {
        self.params.addon_service = Some(addon_service);
        self
    }

    /// Sets the unique name of the app.
    pub fn app(&mut self, app: &'a str) -> (r: &mut Self)
        ensures
            r.params == (AddonResolutionCreateParams { app: Some(app), ..old(self).params }),
            *final(self) == *final(r),
    {
        self.params.app = Some(app);
        self
    }

    /// The finished descriptor: a copy of what was set.
    pub fn build(&self) -> (r: AddonResolutionCreate<'a>)
        ensures
            r.params == self.params,
    {
        AddonResolutionCreate { params: self.params }
    }
}

impl<'a> HerokuEndpoint<AddonResolutionCreateParams<'a>> for AddonResolutionCreate<'a> {
    open spec fn spec_method(&self) -> Method {
        Method::Post
    }

    open spec fn spec_path(&self) -> Seq<char> {
        "actions/addons/resolve"@
    }

    open spec fn body_is(&self, body: Option<AddonResolutionCreateParams<'a>>) -> bool {
        body == Some(self.params)
    }

    fn method(&self) -> (r: Method) {
        Method::Post
    }

    fn path(&self) -> (r: String) {
        String::from_str("actions/addons/resolve")
    }

    fn body(&self) -> (r: Option<AddonResolutionCreateParams<'a>>) {
        Some(self.params)
    }
}

/// Add-on Action Provision: mark an add-on as provisioned for use.
pub struct AddonActionProvision<'a> {
    /// unique add-on identifier, either id or name
    pub addon_id: &'a str,
}

impl<'a> AddonActionProvision<'a> {
    /// Provisioning of the add-on `addon_id`.
    pub fn new(addon_id: &'a str) -> (r: AddonActionProvision<'a>)
        ensures
            r.addon_id == addon_id,
    {
        AddonActionProvision { addon_id }
    }
}

impl<'a> HerokuEndpoint<()> for AddonActionProvision<'a> {
    open spec fn spec_method(&self) -> Method {
        Method::Post
    }

    open spec fn spec_path(&self) -> Seq<char> {
        "addons/"@ + self.addon_id@ + "/actions/provision"@
    }

    open spec fn body_is(&self, body: Option<()>) -> bool {
        body.is_none()
    }

    fn method(&self) -> (r: Method) {
        Method::Post
    }

    fn path(&self) -> (r: String) {
        let mut p = String::from_str("addons/");
        p.append(self.addon_id);
        p.append("/actions/provision");
        p
    }

    fn body(&self) -> (r: Option<()>) {
        None
    }
}

/// Add-on Action Deprovision: mark an add-on as deprovisioned.
pub struct AddonActionDeprovision<'a> {
    /// unique add-on identifier, either id or name
    pub addon_id: &'a str,
}

impl<'a> AddonActionDeprovision<'a> {
    /// Deprovisioning of the add-on `addon_id`.
    pub fn new(addon_id: &'a str) -> (r: AddonActionDeprovision<'a>)
        ensures
            r.addon_id == addon_id,
    {
        AddonActionDeprovision { addon_id }
    }
}

impl<'a> HerokuEndpoint<()> for AddonActionDeprovision<'a> {
    open spec fn spec_method(&self) -> Method {
        Method::Post
    }

    open spec fn spec_path(&self) -> Seq<char> {
        "addons/"@ + self.addon_id@ + "/actions/deprovision"@
    }

    open spec fn body_is(&self, body: Option<()>) -> bool {
        body.is_none()
    }

    fn method(&self) -> (r: Method) {
        Method::Post
    }

    fn path(&self) -> (r: String) {
        let mut p = String::from_str("addons/");
        p.append(self.addon_id);
        p.append("/actions/deprovision");
        p
    }

    fn body(&self) -> (r: Option<()>) {
        None
    }
}

/// Add-on Attachment Create: attach an add-on to an app.
pub struct AttachmentCreate<'a> {
    /// parameters to pass to the Heroku API
    pub params: AttachmentCreateParams<'a>,
}

/// The body of an attachment creation.
#[derive(Clone, Copy, Debug, PartialEq, Eq)]
pub struct AttachmentCreateParams<'a> {
    /// globally unique name of the add-on
    pub addon: &'a str,
    /// unique name of app
    pub app: &'a str,
    /// name of owning app for confirmation; left out of the body when unset
    pub confirm: Option<&'a str>,
    /// unique name for this add-on attachment to this app; left out of the body when unset
    pub name: Option<&'a str>,
    /// attachment namespace; sent as null when unset
    pub namespace: Option<&'a str>,
}

impl<'a> AttachmentCreate<'a> {
    /// An attachment of `addon` to `app`, without optional parameters.
    pub fn new(addon: &'a str, app: &'a str) -> (r: AttachmentCreate<'a>)
        ensures
            r.params == (AttachmentCreateParams { addon, app, confirm: None, name: None, namespace: None }),
    {
        AttachmentCreate { params: AttachmentCreateParams { addon, app, confirm: None, name: None, namespace: None } }
    }

    /// Sets the name of the owning app for confirmation.
    pub fn confirm(&mut self, confirm: &'a str) -> (r: &mut Self)
        ensures
            r.params == (AttachmentCreateParams { confirm: Some(confirm), ..old(self).params }),
            *final(self) == *final(r),
    {
        self.params.confirm = Some(confirm);
        self
    }

    /// Sets the unique name of the attachment.
    pub fn name(&mut self, name: &'a str) -> (r: &mut Self)
        ensures
            r.params == (AttachmentCreateParams { name: Some(name), ..old(self).params }),
            *final(self) == *final(r),
    {
        self.params.name = Some(name);
        self
    }

    /// Sets the namespace of the attachment.
    pub fn namespace(&mut self, namespace: &'a str) -> (r: &mut Self)
        ensures
            r.params == (AttachmentCreateParams { namespace: Some(namespace), ..old(self).params }),
            *final(self) == *final(r),
    {
        self.params.namespace = Some(namespace);
        self
    }

    /// The finished descriptor: a copy of what was set.
    pub fn build(&self) -> (r: AttachmentCreate<'a>)
        ensures
            r.params == self.params,
    {
        AttachmentCreate { params: self.params }
    }
}

impl<'a> HerokuEndpoint<AttachmentCreateParams<'a>> for AttachmentCreate<'a> {
    open spec fn spec_method(&self) -> Method {
        Method::Post
    }

    open spec fn spec_path(&self) -> Seq<char> {
        "addon-attachments"@
    }

    open spec fn body_is(&self, body: Option<AttachmentCreateParams<'a>>) -> bool {
        body == Some(self.params)
    }

    fn method(&self) -> (r: Method) {
        Method::Post
    }

    fn path(&self) -> (r: String) {
        String::from_str("addon-attachments")
    }

    fn body(&self) -> (r: Option<AttachmentCreateParams<'a>>) {
        Some(self.params)
    }
}

/// Add-on Attachment Resolution: resolve an attachment from a name, optionally within an app.
pub struct AttachmentResolutionCreate<'a> {
    /// parameters to pass to the Heroku API
    pub params: AttachmentResolutionCreateParams<'a>,
}

/// The body of an attachment resolution.
#[derive(Clone, Copy, Debug, PartialEq, Eq)]
pub struct AttachmentResolutionCreateParams<'a> {
    /// unique name for this add-on attachment to this app
    pub addon_attachment: &'a str,
    /// unique name of this add-on-service
    pub addon_service: Option<&'a str>,
    /// unique name of app
    pub app: Option<&'a str>,
}

impl<'a> AttachmentResolutionCreate<'a> {
    /// A resolution of the attachment named `addon_attachment`, without optional parameters.
    pub fn new(addon_attachment: &'a str) -> (r: AttachmentResolutionCreate<'a>)
        ensures
            r.params == (AttachmentResolutionCreateParams { addon_attachment, addon_service: None, app: None }),
    {
        AttachmentResolutionCreate {
            params: AttachmentResolutionCreateParams { addon_attachment, addon_service: None, app: None },
        }
    }

    /// Sets the name of the app.
    pub fn app(&mut self, app: &'a str) -> (r: &mut Self)
        ensures
            r.params == (AttachmentResolutionCreateParams { app: Some(app), ..old(self).params }),
            *final(self) == *final(r),
    {
        self.params.app = Some(app);
        self
    }

    /// Sets the unique name of the add-on service.
    pub fn addon_service(&mut self, addon_service: &'a str) -> (r: &mut Self)
        ensures
            r.params == (AttachmentResolutionCreateParams {
                addon_service: Some(addon_service),
                ..old(self).params
            }),
            *final(self) == *final(r),
    {
        self.params.addon_service = Some(addon_service);
        self
    }

    /// The finished descriptor: a copy of what was set.
    pub fn build(&self) -> (r: AttachmentResolutionCreate<'a>)
        ensures
            r.params == self.params,
    {
        AttachmentResolutionCreate { params: self.params }
    }
}

impl<'a> HerokuEndpoint<AttachmentResolutionCreateParams<'a>> for AttachmentResolutionCreate<'a> {
    open spec fn spec_method(&self) -> Method {
        Method::Post
    }

    open spec fn spec_path(&self) -> Seq<char> {
        "actions/addon-attachments/resolve"@
    }

    open spec fn body_is(&self, body: Option<AttachmentResolutionCreateParams<'a>>) -> bool {
        body == Some(self.params)
    }

    fn method(&self) -> (r: Method) {
        Method::Post
    }

    fn path(&self) -> (r: String) {
        String::from_str("actions/addon-attachments/resolve")
    }

    fn body(&self) -> (r: Option<AttachmentResolutionCreateParams<'a>>) {
        Some(self.params)
    }
}

/// Add-on Webhook Create: subscribe to the notifications of an add-on.
pub struct WebhookCreate<'a> {
    /// unique add-on identifier, either id or name
    pub addon_id: &'a str,
    /// parameters to pass to the Heroku API
    pub params: WebhookCreateParams<'a>,
}

/// The body of a webhook creation.
#[derive(Clone, Debug)]
pub struct WebhookCreateParams<'a> {
    /// a custom Authorization header that Heroku adds to all webhook notifications
    pub authorization: Option<&'a str>,
    /// the entities that the subscription provides notifications for
    pub includes: Vec<&'a str>,
    /// "notify" or "sync"
    pub level: &'a str,
    /// a value that Heroku will use to sign all webhook notification requests
    pub secret: Option<&'a str>,
    /// the URL where the webhook's notification requests are sent
    pub url: &'a str,
}

impl<'a> WebhookCreateParams<'a> {
    /// Whether `other` holds the same parameters as `self`.
    pub open spec fn same_as(&self, other: &WebhookCreateParams<'a>) -> bool {
        &&& self.authorization == other.authorization
        &&& self.includes@ == other.includes@
        &&& self.level == other.level
        &&& self.secret == other.secret
        &&& self.url == other.url
    }

    /// A copy of the parameters.
    pub fn duplicate(&self) -> (r: WebhookCreateParams<'a>)
        ensures
            r.same_as(self),
    {
        let includes = self.includes.clone();
        assert(includes@ =~= self.includes@);
        WebhookCreateParams {
            authorization: self.authorization,
            includes,
            level: self.level,
            secret: self.secret,
            url: self.url,
        }
    }
}

impl<'a> WebhookCreate<'a> {
    /// A webhook subscription with its required parameters only.
    pub fn new(addon_id: &'a str, includes: Vec<&'a str>, level: &'a str, url: &'a str) -> (r: WebhookCreate<'a>)
        ensures
            r.addon_id == addon_id,
            r.params == (WebhookCreateParams { authorization: None, includes, level, secret: None, url }),
    {
        WebhookCreate {
            addon_id,
            params: WebhookCreateParams { authorization: None, includes, level, secret: None, url },
        }
    }

    /// Sets the Authorization header that notifications carry.
    pub fn authorization(&mut self, authorization: &'a str) -> (r: &mut Self)
        ensures
            r.addon_id == old(self).addon_id,
            r.params == (WebhookCreateParams { authorization: Some(authorization), ..old(self).params }),
            *final(self) == *final(r),
    {
        self.params.authorization = Some(authorization);
        self
    }

    /// Sets the secret that notifications are signed with.
    pub fn secret(&mut self, secret: &'a str) -> (r: &mut Self)
        ensures
            r.addon_id == old(self).addon_id,
            r.params == (WebhookCreateParams { secret: Some(secret), ..old(self).params }),
            *final(self) == *final(r),
    {
        self.params.secret = Some(secret);
        self
    }

    /// The finished descriptor: a copy of what was set.
    pub fn build(&self) -> (r: WebhookCreate<'a>)
        ensures
            r.addon_id == self.addon_id,
            r.params.same_as(&self.params),
    {
        WebhookCreate { addon_id: self.addon_id, params: self.params.duplicate() }
    }
}

impl<'a> HerokuEndpoint<WebhookCreateParams<'a>> for WebhookCreate<'a> {
    open spec fn spec_method(&self) -> Method {
        Method::Post
    }

    open spec fn spec_path(&self) -> Seq<char> {
        "addons/"@ + self.addon_id@ + "/webhooks"@
    }

    open spec fn body_is(&self, body: Option<WebhookCreateParams<'a>>) -> bool {
        body matches Some(p) && p.same_as(&self.params)
    }

    fn method(&self) -> (r: Method) {
        Method::Post
    }

    fn path(&self) -> (r: String) {
        let mut p = String::from_str("addons/");
        p.append(self.addon_id);
        p.append("/webhooks");
        p
    }

    fn body(&self) -> (r: Option<WebhookCreateParams<'a>>) {
        Some(self.params.duplicate())
    }
}

} // verus!
