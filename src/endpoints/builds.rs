//! Creating a build of an app from a source tarball.
use vstd::prelude::*;
use crate::framework::endpoint::{HerokuEndpoint, Method};

verus! {

/// Build Create: create a new build of an app.
pub struct BuildCreate<'a> {
    /// app_id can be the app name or the app id
    pub app_id: &'a str,
    /// The parameters to pass to the Heroku API
    pub params: BuildCreateParams<'a>,
}

/// The body of a build creation.
#[derive(Clone, Debug)]
pub struct BuildCreateParams<'a> {
    /// Buildpacks to run for this build, in order; `None` sends null.
    pub buildpacks: Option<Vec<BuildpackParam<'a>>>,
    pub source_blob: SourceBlobParam<'a>,
}

/// Where the source of a build is found.
#[derive(Clone, Copy, Debug)]
pub struct SourceBlobParam<'a> {
    /// an optional checksum of the gzipped tarball for verifying its integrity
    pub checksum: Option<&'a str>,
    /// URL where gzipped tar archive of source code for build was downloaded
    pub url: &'a str,
    /// Version of the gzipped tarball
    pub version: Option<&'a str>,
}

/// One buildpack of a build.
#[derive(Clone, Copy, Debug)]
pub struct BuildpackParam<'a> {
    /// location of the buildpack for the app: a url or an internal urn
    pub url: &'a str,
    /// either the Buildpack Registry name or a URL of the buildpack for the app
    pub name: &'a str,
}

impl<'a> BuildCreateParams<'a> {
    /// Whether `other` holds the same parameters as `self`.
    pub open spec fn same_as(&self, other: &BuildCreateParams<'a>) -> bool {
        &&& self.source_blob == other.source_blob
        &&& match (self.buildpacks, other.buildpacks) {
            (Some(a), Some(b)) => a@ == b@,
            (None, None) => true,
            _ => false,
        }
    }

    /// A copy of the parameters.
    pub fn duplicate(&self) -> (r: BuildCreateParams<'a>)
        ensures
            r.same_as(self),
    {
        let buildpacks = match &self.buildpacks {
            Some(packs) => {
                let mut copy: Vec<BuildpackParam<'a>> = Vec::new();
                let mut i: usize = 0;
                while i < packs.len()
                    invariant
                        i <= packs@.len(),
                        copy@ == packs@.subrange(0, i as int),
                    decreases packs@.len() - i,
                {
                    copy.push(packs[i]);
                    i = i + 1;
                }
                assert(copy@ =~= packs@);
                Some(copy)
            },
            None => None,
        };
        BuildCreateParams { buildpacks, source_blob: self.source_blob }
    }
}

impl<'a> BuildCreate<'a> {
    /// A build with its required parameters only; the optional ones are sent as null.
    pub fn new(app_id: &'a str, source_blob_url: &'a str) -> (r: BuildCreate<'a>)
        ensures
            r.app_id == app_id,
            r.params.buildpacks.is_none(),
            r.params.source_blob == (SourceBlobParam { checksum: None, url: source_blob_url, version: None }),
    {
        BuildCreate {
            app_id,
            params: BuildCreateParams {
                buildpacks: None,
                source_blob: SourceBlobParam { checksum: None, url: source_blob_url, version: None },
            },
        }
    }

    /// Sets the checksum of the gzipped tarball.
    pub fn checksum(&mut self, checksum: &'a str) -> (r: &mut Self)
        ensures
            r.app_id == old(self).app_id,
            r.params.buildpacks == old(self).params.buildpacks,
            r.params.source_blob == (SourceBlobParam { checksum: Some(checksum), ..old(self).params.source_blob }),
            *final(self) == *final(r),
    {
        self.params.source_blob.checksum = Some(checksum);
        self
    }

    /// Sets the version of the gzipped tarball.
    pub fn version(&mut self, version: &'a str) -> (r: &mut Self)
        ensures
            r.app_id == old(self).app_id,
            r.params.buildpacks == old(self).params.buildpacks,
            r.params.source_blob == (SourceBlobParam { version: Some(version), ..old(self).params.source_blob }),
            *final(self) == *final(r),
    {
        self.params.source_blob.version = Some(version);
        self
    }

    /// Sets the buildpacks of the build to the one given by `url` and `name`.
    pub fn buildpack(&mut self, url: &'a str, name: &'a str) -> (r: &mut Self)
        ensures
            r.app_id == old(self).app_id,
            r.params.source_blob == old(self).params.source_blob,
            r.params.buildpacks matches Some(packs) && packs@ == seq![BuildpackParam { url, name }],
            *final(self) == *final(r),
    {
        self.params.buildpacks = Some(vec![BuildpackParam { url, name }]);
        self
    }

    /// The finished descriptor: a copy of what was set.
    pub fn build(&self) -> (r: BuildCreate<'a>)
        ensures
            r.app_id == self.app_id,
            r.params.same_as(&self.params),
    {
        BuildCreate { app_id: self.app_id, params: self.params.duplicate() }
    }
}

impl<'a> HerokuEndpoint<BuildCreateParams<'a>> for BuildCreate<'a> {
    open spec fn spec_method(&self) -> Method {
        Method::Post
    }

    open spec fn spec_path(&self) -> Seq<char> {
        "apps/"@ + self.app_id@ + "/builds"@
    }

    open spec fn body_is(&self, body: Option<BuildCreateParams<'a>>) -> bool {
        match body {
            Some(p) => p.same_as(&self.params),
            None => false,
        }
    }

    fn method(&self) -> (r: Method) {
        Method::Post
    }

    fn path(&self) -> (r: String) {
        let mut p = String::from_str("apps/");
        p.append(self.app_id);
        p.append("/builds");
        p
    }

    fn body(&self) -> (r: Option<BuildCreateParams<'a>>) {
        Some(self.params.duplicate())
    }
}

} // verus!
