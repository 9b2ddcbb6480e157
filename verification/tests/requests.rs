use hyper::Uri;
use store_client::client::StoreClient;
use store_client::error::UploadError;
use store_client::progress::{Event, UploadState};
use store_client::resource::Resource;
use store_client::target::{check_target, compose_request, finish_request, join_target};

fn local() -> StoreClient {
    StoreClient::new("http://localhost:8000".to_string())
}

fn answer_ok(id: &str) -> Result<String, UploadError> {
    UploadState::start()
        .step(Event::Head(200))
        .step(Event::Chunk(id.as_bytes().to_vec()))
        .step(Event::End)
        .outcome()
        .unwrap()
}

#[test]
fn upload_raw_image() {
    let client = local();
    let req = client.upload_raw_image(b"123".to_vec()).unwrap();
    assert_eq!(req.target, "http://localhost:8000/raw");
    assert_eq!(req.uri.path(), "/raw");
    assert_eq!(req.body, b"123".to_vec());
    assert_eq!(answer_ok("42").unwrap(), "42");
}

#[test]
fn upload_sidecar() {
    let client = local();
    let req = client.upload_sidecar(b"123".to_vec()).unwrap();
    assert_eq!(req.target, "http://localhost:8000/sidecar");
    assert_eq!(req.uri.path(), "/sidecar");
    assert_eq!(req.body, b"123".to_vec());
    assert_eq!(answer_ok("42").unwrap(), "42");
}

#[test]
fn upload_image() {
    let client = local();
    let req = client.upload_image(b"123".to_vec()).unwrap();
    assert_eq!(req.target, "http://localhost:8000/image");
    assert_eq!(req.uri.path(), "/image");
    assert_eq!(req.body, b"123".to_vec());
    assert_eq!(answer_ok("42").unwrap(), "42");
}

#[test]
fn paths_are_exact_and_follow_the_endpoint() {
    let client = StoreClient::new("http://store.example:9000".to_string());
    let cases = [
        (Resource::Raw, "/raw"),
        (Resource::Sidecar, "/sidecar"),
        (Resource::Image, "/image"),
    ];
    for (resource, path) in cases {
        assert_eq!(resource.path(), path);
        let req = client.upload(resource, vec![1, 2, 3]).unwrap();
        assert_eq!(req.target, format!("http://store.example:9000{}", path));
        assert!(req.target.starts_with(client.base()));
        assert_eq!(req.uri.scheme(), Some("http"));
        assert_eq!(req.uri.authority(), Some("store.example:9000"));
        assert_eq!(req.uri.path(), path);
        assert_eq!(req.uri.query(), None);
    }
}

#[test]
fn named_operations_agree_with_their_resource() {
    let client = local();
    let a = client.upload_raw_image(vec![7]).unwrap();
    let b = client.upload(Resource::Raw, vec![7]).unwrap();
    assert_eq!(a.target, b.target);
    assert_eq!(a.uri, b.uri);
    let a = client.upload_sidecar(vec![7]).unwrap();
    let b = client.upload(Resource::Sidecar, vec![7]).unwrap();
    assert_eq!(a.target, b.target);
    assert_eq!(a.uri, b.uri);
    let a = client.upload_image(vec![7]).unwrap();
    let b = client.upload(Resource::Image, vec![7]).unwrap();
    assert_eq!(a.target, b.target);
    assert_eq!(a.uri, b.uri);
}

#[test]
fn empty_payload_is_forwarded() {
    let client = local();
    for resource in [Resource::Raw, Resource::Sidecar, Resource::Image] {
        let req = client.upload(resource, Vec::new()).unwrap();
        assert!(req.body.is_empty());
        assert_eq!(req.uri.path(), resource.path());
    }
    assert_eq!(answer_ok("abc123").unwrap(), "abc123");
}

#[test]
fn payload_is_not_inspected() {
    let client = local();
    let data: Vec<u8> = vec![0xff, 0x00, 0xfe, b'/', b'?', b'#'];
    let req = client.upload_image(data.clone()).unwrap();
    assert_eq!(req.body, data);
}

#[test]
fn from_parts_joins_scheme_and_authority() {
    let client = StoreClient::from_parts("http", "localhost:8000");
    assert_eq!(client.base(), "http://localhost:8000");
    let req = client.upload_raw_image(vec![1]).unwrap();
    assert_eq!(req.target, "http://localhost:8000/raw");
    assert_eq!(req.uri.path(), "/raw");
}

#[test]
fn join_target_only_concatenates() {
    assert_eq!(join_target("http://h", Resource::Raw), "http://h/raw");
    assert_eq!(join_target("http://h/", Resource::Raw), "http://h//raw");
    assert_eq!(join_target("", Resource::Sidecar), "/sidecar");
    assert_eq!(join_target("x", Resource::Image), "x/image");
}

#[test]
fn endpoint_without_authority_is_a_configuration_error() {
    let client = StoreClient::new("http://".to_string());
    for resource in [Resource::Raw, Resource::Sidecar, Resource::Image] {
        let r = client.upload(resource, vec![1]);
        assert!(matches!(r, Err(UploadError::Configuration(_))));
    }
}

#[test]
fn endpoint_without_scheme_is_a_configuration_error() {
    let r = compose_request("localhost:8000", Resource::Raw, vec![1]);
    assert!(matches!(r, Err(UploadError::Configuration(_))));
    let r = StoreClient::new("localhost:8000".to_string()).upload_sidecar(vec![]);
    assert!(matches!(r, Err(UploadError::Configuration(_))));
}

#[test]
fn unbalanced_bracket_is_a_configuration_error() {
    let r = compose_request("http://[::1", Resource::Image, vec![1]);
    assert!(matches!(r, Err(UploadError::Configuration(_))));
    let r = compose_request("http://[::1]:8000", Resource::Image, vec![1]).unwrap();
    assert_eq!(r.uri.path(), "/image");
}

#[test]
fn finish_request_keeps_what_it_is_given() {
    let uri: Uri = "http://localhost:8000/raw".parse().unwrap();
    let req = finish_request("http://localhost:8000/raw".to_string(), Ok(uri.clone()), vec![9, 8])
        .unwrap();
    assert_eq!(req.target, "http://localhost:8000/raw");
    assert_eq!(req.uri, uri);
    assert_eq!(req.body, vec![9, 8]);
    let bad = "http://".parse::<Uri>();
    assert!(bad.is_err());
    let r = finish_request("http://".to_string(), bad, vec![9, 8]);
    assert!(matches!(r, Err(UploadError::Configuration(_))));
}

#[test]
fn checked_client_accepts_a_plain_endpoint() {
    let client = StoreClient::checked("http://localhost:8000".to_string()).unwrap();
    assert_eq!(client.base(), "http://localhost:8000");
    assert!(client.upload_raw_image(vec![1]).is_ok());
    assert!(client.upload_sidecar(vec![2]).is_ok());
    assert!(client.upload_image(vec![3]).is_ok());
}

#[test]
fn checked_client_rejects_a_bad_endpoint() {
    for endpoint in ["http://", "localhost:8000", "http://[::1", "host"] {
        let r = StoreClient::checked(endpoint.to_string());
        assert!(matches!(r, Err(UploadError::Configuration(_))));
        assert!(check_target(endpoint, Resource::Raw).is_err());
    }
    assert!(check_target("http://localhost:8000", Resource::Sidecar).is_ok());
}
