use maybe_async::client::{InnerClientSync, ServiceClientSync};

#[test]
fn create_bucket_returns_the_canned_response() {
    let r = ServiceClientSync::create_bucket("bucket".to_string());
    assert_eq!(r, "pretend we have a response".to_string());
}

#[test]
fn delete_bucket_returns_the_canned_response() {
    let r = ServiceClientSync::delete_bucket("bucket".to_string());
    assert_eq!(r, "pretend we have a response".to_string());
}

#[test]
fn the_convenience_wrappers_forward_to_request() {
    let posted = <ServiceClientSync as InnerClientSync>::post("http://host", "data".to_string());
    assert_eq!(posted, "pretend we have a response".to_string());
    let deleted =
        <ServiceClientSync as InnerClientSync>::delete("http://host", "data".to_string());
    assert_eq!(deleted, "pretend we have a response".to_string());
}
