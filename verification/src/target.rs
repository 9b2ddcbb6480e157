//! Composing the request of an upload: the target URI and the body.
use vstd::prelude::*;
use vstd::string::*;
use crate::error::UploadError;
use crate::resource::Resource;
use hyper::Uri;
use hyper::error::UriError;

verus! {

/// hyper's parsed URI. Opaque here: it is parsed once and handed to the
/// transport as it is.
#[verifier::external_type_specification]
#[verifier::external_body]
pub struct ExUri(hyper::Uri);

/// Whether hyper accepts `text` as a URI.
pub uninterp spec fn uri_accepts(text: Seq<char>) -> bool;

/// Calls hyper's `<Uri as FromStr>::from_str`. The parser reads only its
/// argument, so whether it succeeds depends on the text alone; `uri_accepts`
/// names that answer. Nothing is claimed about the parts of the parsed
/// value.
#[verifier::external_body]
pub(crate) fn parse_uri(text: &str) -> (parsed: Result<Uri, UriError>)
    ensures
        parsed is Ok <==> uri_accepts(text@),
{
    text.parse::<Uri>()
}

/// A request ready to be sent: one POST of `body` to `target`.
#[derive(Debug)]
pub struct UploadRequest {
    /// The text of the target URI: base endpoint followed by resource path.
    pub target: String,
    /// What hyper parsed from `target`.
    pub uri: Uri,
    /// The payload, sent whole as the request body.
    pub body: Vec<u8>,
}

/// The text of the URI that a resource is posted to: the endpoint with the
/// resource's path appended, nothing added or removed in between.
pub open spec fn spec_target(endpoint: Seq<char>, resource: Resource) -> Seq<char> {
    endpoint + resource.spec_path()
}

/// Joins the base endpoint and the path of a resource.
pub fn join_target(endpoint: &str, resource: Resource) -> (target: String)
    ensures
        target@ == spec_target(endpoint@, resource),
{
    let mut target = String::from_str(endpoint);
    target.append(resource.path());
    target
}

/// Builds the request from the target text, the outcome of parsing it, and
/// the payload. A parse failure becomes a configuration error that keeps the
/// parser's cause; otherwise the payload is forwarded untouched, whatever its
/// length.
pub fn finish_request(target: String, parsed: Result<Uri, UriError>, data: Vec<u8>) -> (r: Result<
    UploadRequest,
    UploadError,
>)
    ensures
        match parsed {
            Ok(uri) => r == Ok::<UploadRequest, UploadError>(
                (UploadRequest { target: target, uri: uri, body: data }),
            ),
            Err(cause) => r == Err::<UploadRequest, UploadError>(UploadError::Configuration(cause)),
        },
{
    match parsed {
        Ok(uri) => Ok(UploadRequest { target, uri, body: data }),
        Err(cause) => Err(UploadError::Configuration(cause)),
    }
}

/// Checks that the store at `endpoint` can be sent this kind of resource,
/// that is, that the joined text is a URI.
pub fn check_target(endpoint: &str, resource: Resource) -> (r: Result<(), UploadError>)
    ensures
        r is Ok <==> uri_accepts(spec_target(endpoint@, resource)),
        r matches Err(e) ==> e is Configuration,
{
    let target = join_target(endpoint, resource);
    match parse_uri(target.as_str()) {
        Ok(_) => Ok(()),
        Err(cause) => Err(UploadError::Configuration(cause)),
    }
}

/// Composes the request that uploads `data` as `resource` to the store at
/// `endpoint`. Succeeds exactly when hyper accepts the joined text as a URI.
pub fn compose_request(endpoint: &str, resource: Resource, data: Vec<u8>) -> (r: Result<
    UploadRequest,
    UploadError,
>)
    ensures
        r is Ok <==> uri_accepts(spec_target(endpoint@, resource)),
        r matches Ok(req) ==> req.target@ == spec_target(endpoint@, resource) && req.body == data,
        r matches Err(e) ==> e is Configuration,
{
    let target = join_target(endpoint, resource);
    let parsed = parse_uri(target.as_str());
    finish_request(target, parsed, data)
}

} // verus!
