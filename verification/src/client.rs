//! The upload client.
use vstd::prelude::*;
use vstd::string::*;
use crate::error::UploadError;
use crate::resource::Resource;
use crate::target::{check_target, compose_request, spec_target, uri_accepts, UploadRequest};

verus! {

/// A client of one store. It holds the base endpoint and nothing else, so
/// any number of uploads can be composed from one client.
#[derive(Debug)]
pub struct StoreClient {
    endpoint: String,
}

impl StoreClient {
    /// The base endpoint: scheme, host and port, without a path.
    pub closed spec fn endpoint(&self) -> Seq<char> {
        self.endpoint@
    }

    /// A client of the store at `endpoint`. Nothing is sent or checked here.
    pub fn new(endpoint: String) -> (client: StoreClient)
        ensures
            client.endpoint() == endpoint@,
    {
        StoreClient { endpoint }
    }

    /// Whether every kind of resource can be sent to the store at
    /// `endpoint`.
    pub open spec fn serves_all(endpoint: Seq<char>) -> bool {
        forall|resource: Resource| uri_accepts(#[trigger] spec_target(endpoint, resource))
    }

    /// A client of the store at `endpoint`, made only if the endpoint gives
    /// a URI with each of the three resource paths. Every upload of a client
    /// made here composes its request without a configuration error.
    pub fn checked(endpoint: String) -> (r: Result<StoreClient, UploadError>)
        ensures
            r is Ok <==> Self::serves_all(endpoint@),
            r matches Ok(client) ==> client.endpoint() == endpoint@,
            r matches Err(e) ==> e is Configuration,
    {
        match check_target(endpoint.as_str(), Resource::Raw) {
            Err(e) => { return Err(e); },
            Ok(_) => {},
        }
        match check_target(endpoint.as_str(), Resource::Sidecar) {
            Err(e) => { return Err(e); },
            Ok(_) => {},
        }
        match check_target(endpoint.as_str(), Resource::Image) {
            Err(e) => { return Err(e); },
            Ok(_) => {},
        }
        assert forall|resource: Resource|
            uri_accepts(#[trigger] spec_target(endpoint@, resource)) by {
            match resource {
                Resource::Raw => {},
                Resource::Sidecar => {},
                Resource::Image => {},
            }
        }
        Ok(StoreClient { endpoint })
    }

    /// A client of the store at the endpoint with the given scheme and
    /// authority (host and port). The endpoint has no path, so the path of
    /// every request is the resource's path and nothing else.
    pub fn from_parts(scheme: &str, authority: &str) -> (client: StoreClient)
        ensures
            client.endpoint() == scheme@ + "://"@ + authority@,
    {
        let mut endpoint = String::from_str(scheme);
        endpoint.append("://");
        endpoint.append(authority);
        StoreClient { endpoint }
    }

    /// The base endpoint as text.
    pub fn base(&self) -> (text: &str)
        ensures
            text@ == self.endpoint(),
    {
        self.endpoint.as_str()
    }

    /// The request that uploads `data` as the given kind of resource.
    pub fn upload(&self, resource: Resource, data: Vec<u8>) -> (r: Result<UploadRequest, UploadError>)
        ensures
            r is Ok <==> uri_accepts(spec_target(self.endpoint(), resource)),
            r matches Ok(req) ==> req.target@ == spec_target(self.endpoint(), resource) && req.body
                == data,
            r matches Err(e) ==> e is Configuration,
    {
        compose_request(self.endpoint.as_str(), resource, data)
    }

    /// The request that uploads a raw image: a POST of `data` to `/raw`.
    pub fn upload_raw_image(&self, data: Vec<u8>) -> (r: Result<UploadRequest, UploadError>)
        ensures
            r is Ok <==> uri_accepts(spec_target(self.endpoint(), Resource::Raw)),
            r matches Ok(req) ==> req.target@ == self.endpoint() + "/raw"@ && req.body == data,
            r matches Err(e) ==> e is Configuration,
    {
        self.upload(Resource::Raw, data)
    }

    /// The request that uploads a sidecar: a POST of `data` to `/sidecar`.
    pub fn upload_sidecar(&self, data: Vec<u8>) -> (r: Result<UploadRequest, UploadError>)
        ensures
            r is Ok <==> uri_accepts(spec_target(self.endpoint(), Resource::Sidecar)),
            r matches Ok(req) ==> req.target@ == self.endpoint() + "/sidecar"@ && req.body == data,
            r matches Err(e) ==> e is Configuration,
    {
        self.upload(Resource::Sidecar, data)
    }

    /// The request that uploads a processed image: a POST of `data` to
    /// `/image`.
    pub fn upload_image(&self, data: Vec<u8>) -> (r: Result<UploadRequest, UploadError>)
        ensures
            r is Ok <==> uri_accepts(spec_target(self.endpoint(), Resource::Image)),
            r matches Ok(req) ==> req.target@ == self.endpoint() + "/image"@ && req.body == data,
            r matches Err(e) ==> e is Configuration,
    {
        self.upload(Resource::Image, data)
    }
}

} // verus!
