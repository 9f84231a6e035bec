//! Registry protocol client state and decision logic.
//!
//! The client holds the immutable service configuration and the current
//! bearer token.  It builds the exact request a fetch issues — URL, scope
//! and query — and interprets the response's status into the typed outcome.
//! The HTTP transport itself sits outside the library: it is handed a built
//! request and returns a status with decoded bodies as plain values.

use crate::digest::{render, Digest};
use crate::errors::{ErrorList, ErrorResponse};
use vstd::prelude::*;
use vstd::string::*;

verus! {

/// Media type accepted for the API version endpoint.
pub const MEDIA_TYPE_JSON: &'static str = "application/json";

/// Media type accepted for a manifest list (the "fat manifest").
pub const MEDIA_TYPE_MANIFEST_LIST_V2: &'static str =
    "application/vnd.docker.distribution.manifest.list.v2+json";

/// Media type accepted for a single-platform image manifest.
pub const MEDIA_TYPE_MANIFEST_V2: &'static str =
    "application/vnd.docker.distribution.manifest.v2+json";

/// Media type accepted for an image configuration blob.
pub const MEDIA_TYPE_IMAGE_CONFIG: &'static str =
    "application/vnd.docker.container.image.v1+json";

/// OAuth 2.0 bearer token, fetched once per session and reused for all
/// subsequent authenticated calls.
#[derive(Debug)]
pub struct AuthToken {
    pub access_token: String,
    pub expires_in: i32,
    pub issued_at: String,
}

impl Clone for AuthToken {
    /// A clone carries the same credential fields.
    fn clone(&self) -> (r: AuthToken)
        ensures
            r.access_token@ == self.access_token@,
            r.expires_in == self.expires_in,
            r.issued_at@ == self.issued_at@,
    {
        AuthToken {
            access_token: self.access_token.clone(),
            expires_in: self.expires_in,
            issued_at: self.issued_at.clone(),
        }
    }
}

/// Body of the API version endpoint's response.
#[derive(Debug)]
pub struct Version {}

/// Client for an OCI image registry speaking the Docker Registry API V2.
///
/// Holds the service name, the API base URL, the token endpoint URL, and
/// the current bearer token.  All fetch state is per-call; the token is the
/// only field that changes after construction.
#[derive(Debug)]
pub struct DockerRegistryClientV2 {
    pub service: String,
    pub api_url: String,
    pub oauth_url: String,
    pub auth_token: Option<AuthToken>,
}

impl Clone for DockerRegistryClientV2 {
    /// A clone carries the same configuration and the same credential.
    fn clone(&self) -> (r: DockerRegistryClientV2)
        ensures
            r.service@ == self.service@,
            r.api_url@ == self.api_url@,
            r.oauth_url@ == self.oauth_url@,
            r.auth_token is Some <==> self.auth_token is Some,
            (r.auth_token matches Some(t) ==> self.auth_token matches Some(o)
                && t.access_token@ == o.access_token@ && t.expires_in == o.expires_in
                && t.issued_at@ == o.issued_at@),
    {
        let auth_token = match &self.auth_token {
            Some(t) => Some(t.clone()),
            None => None,
        };
        DockerRegistryClientV2 {
            service: self.service.clone(),
            api_url: self.api_url.clone(),
            oauth_url: self.oauth_url.clone(),
            auth_token,
        }
    }
}

impl DockerRegistryClientV2 {
    /// A new client for `service`, with its API at `api_url` and its token
    /// endpoint at `oauth_url`; no token is set yet.
    pub fn new(service: &str, api_url: &str, oauth_url: &str) -> (r: Self)
        ensures
            r.service@ == service@,
            r.api_url@ == api_url@,
            r.oauth_url@ == oauth_url@,
            r.auth_token is None,
    {
        DockerRegistryClientV2 {
            service: service.to_owned(),
            api_url: api_url.to_owned(),
            oauth_url: oauth_url.to_owned(),
            auth_token: None,
        }
    }

    /// Replaces the token used by subsequent authenticated calls.
    pub fn set_auth_token(&mut self, token: Option<AuthToken>)
        ensures
            final(self).auth_token == token,
            final(self).service == old(self).service,
            final(self).api_url == old(self).api_url,
            final(self).oauth_url == old(self).oauth_url,
    {
        self.auth_token = token;
    }

    /// The query of a token request: `service=<service>` and
    /// `scope=<type>:<name>:<action>`.
    pub fn auth_query(&self, scope_type: &str, name: &str, action: &str) -> (r: Vec<(
        String,
        String,
    )>)
        ensures
            r@.len() == 2,
            r@[0].0@ == "service"@,
            r@[0].1@ == self.service@,
            r@[1].0@ == "scope"@,
            r@[1].1@ == scope_type@ + ":"@ + name@ + ":"@ + action@,
    {
        let mut scope = scope_type.to_owned();
        scope.append(":");
        scope.append(name);
        scope.append(":");
        scope.append(action);
        let mut r: Vec<(String, String)> = Vec::new();
        r.push((String::from_str("service"), self.service.clone()));
        r.push((String::from_str("scope"), scope));
        r
    }

    /// URL of the API version endpoint: `{api_url}/v2`.
    pub fn version_url(&self) -> (r: String)
        ensures
            r@ == self.api_url@ + "/v2"@,
    {
        let mut r = self.api_url.clone();
        r.append("/v2");
        r
    }

    /// URL of a manifest (or manifest list) fetch:
    /// `{api_url}/v2/{image}/manifests/{reference}`.
    pub fn manifests_url(&self, image: &str, reference: &str) -> (r: String)
        ensures
            r@ == self.api_url@ + "/v2/"@ + image@ + "/manifests/"@ + reference@,
    {
        let mut r = self.api_url.clone();
        r.append("/v2/");
        r.append(image);
        r.append("/manifests/");
        r.append(reference);
        r
    }

    /// URL of a blob fetch: `{api_url}/v2/{image}/blobs/{digest}`, with the
    /// digest in its canonical `<algorithm>:<hash>` form.
    pub fn blobs_url(&self, image: &str, digest: &Digest) -> (r: String)
        ensures
            r@ == self.api_url@ + "/v2/"@ + image@ + "/blobs/"@ + render(digest@),
    {
        let mut r = self.api_url.clone();
        r.append("/v2/");
        r.append(image);
        r.append("/blobs/");
        let d = digest.to_string();
        r.append(d.as_str());
        r
    }
}

/// Whether an HTTP status is the success a fetch decodes a typed body for.
pub fn is_success(status: u16) -> (r: bool)
    ensures
        r == (status == 200),
{
    status == 200
}

/// Settles a fetch from its HTTP status and what could be decoded from the
/// response body.
///
/// The transport hands in the status, the typed body if the status was 200
/// and it decoded (`body`), and the decoded error list if the status was
/// not 200 (`errors`).  A 200 with a decoded body succeeds with exactly
/// that body.  A 200 whose body did not decode is a `DecodeError`.  A
/// non-200 with a decoded error list is an `APIError` carrying that list
/// verbatim.  A non-200 whose error body did not decode is the distinct
/// transport-level failure.
pub fn interpret_response<T>(status: u16, body: Option<T>, errors: Option<ErrorList>) -> (r: Result<
    T,
    ErrorResponse,
>)
    ensures
        r is Ok <==> (status == 200 && body is Some),
        (status == 200 && body is Some ==> r == Ok::<T, ErrorResponse>(body->Some_0)),
        (status == 200 && body is None ==> r matches Err(ErrorResponse::DecodeError(_))),
        (status != 200 && errors is Some ==> r == Err::<T, ErrorResponse>(
            ErrorResponse::APIError(errors->Some_0),
        )),
        (status != 200 && errors is None ==> r matches Err(ErrorResponse::TransportError(_))),
{
    if status == 200 {
        match body {
            Some(v) => Ok(v),
            None => Err(
                ErrorResponse::DecodeError(
                    String::from_str("response body did not match the expected schema"),
                ),
            ),
        }
    } else {
        match errors {
            Some(e) => Err(ErrorResponse::APIError(e)),
            None => Err(
                ErrorResponse::TransportError(String::from_str("error body could not be decoded")),
            ),
        }
    }
}

} // verus!
