use oci_registry_client::client::{
    interpret_response, is_success, AuthToken, DockerRegistryClientV2, MEDIA_TYPE_IMAGE_CONFIG,
    MEDIA_TYPE_MANIFEST_LIST_V2, MEDIA_TYPE_MANIFEST_V2,
};
use oci_registry_client::digest::Digest;
use oci_registry_client::errors::{Error, ErrorList, ErrorResponse};
use oci_registry_client::manifest::Manifest;

fn client() -> DockerRegistryClientV2 {
    DockerRegistryClientV2::new(
        "registry.docker.io",
        "https://registry-1.docker.io",
        "https://auth.docker.io/token",
    )
}

#[test]
fn new_client_has_no_token() {
    let c = client();
    assert_eq!(c.service, "registry.docker.io");
    assert_eq!(c.api_url, "https://registry-1.docker.io");
    assert_eq!(c.oauth_url, "https://auth.docker.io/token");
    assert!(c.auth_token.is_none());
}

#[test]
fn set_auth_token_replaces_credential() {
    let mut c = client();
    let token = AuthToken {
        access_token: String::from("SECRET-REDACTED"),
        expires_in: 300,
        issued_at: String::from("2020-01-01T00:00:00Z"),
    };
    c.set_auth_token(Some(token.clone()));
    assert_eq!(c.auth_token.as_ref().unwrap().access_token, "SECRET-REDACTED");
    assert_eq!(c.auth_token.as_ref().unwrap().expires_in, 300);
    c.set_auth_token(None);
    assert!(c.auth_token.is_none());
}

#[test]
fn auth_query_builds_service_and_scope() {
    let c = client();
    let q = c.auth_query("repository", "library/ubuntu", "pull");
    assert_eq!(q.len(), 2);
    assert_eq!(q[0].0, "service");
    assert_eq!(q[0].1, "registry.docker.io");
    assert_eq!(q[1].0, "scope");
    assert_eq!(q[1].1, "repository:library/ubuntu:pull");
}

#[test]
fn urls_follow_the_v2_layout() {
    let c = client();
    assert_eq!(c.version_url(), "https://registry-1.docker.io/v2");
    assert_eq!(
        c.manifests_url("library/ubuntu", "latest"),
        "https://registry-1.docker.io/v2/library/ubuntu/manifests/latest"
    );
    let d = Digest { algorithm: String::from("sha256"), hash: String::from("abc123") };
    assert_eq!(
        c.blobs_url("library/ubuntu", &d),
        "https://registry-1.docker.io/v2/library/ubuntu/blobs/sha256:abc123"
    );
}

#[test]
fn media_types_are_exact() {
    assert_eq!(
        MEDIA_TYPE_MANIFEST_V2,
        "application/vnd.docker.distribution.manifest.v2+json"
    );
    assert_eq!(
        MEDIA_TYPE_MANIFEST_LIST_V2,
        "application/vnd.docker.distribution.manifest.list.v2+json"
    );
    assert_eq!(MEDIA_TYPE_IMAGE_CONFIG, "application/vnd.docker.container.image.v1+json");
}

#[test]
fn status_success_is_only_200() {
    assert!(is_success(200));
    assert!(!is_success(201));
    assert!(!is_success(404));
    assert!(!is_success(500));
}

#[test]
fn ok_body_is_returned_verbatim() {
    let r = interpret_response::<u64>(200, Some(7), None);
    assert_eq!(r.unwrap(), 7);
}

#[test]
fn undecodable_success_body_is_a_decode_error() {
    let r = interpret_response::<u64>(200, None, None);
    match r {
        Err(ErrorResponse::DecodeError(_)) => {}
        other => panic!("expected a decode error, got {:?}", other),
    }
}

#[test]
fn not_found_surfaces_the_error_list_verbatim() {
    let injected = ErrorList {
        errors: vec![
            Error {
                code: String::from("MANIFEST_UNKNOWN"),
                message: String::from("manifest unknown"),
                detail: Some(String::from("{\"Name\":\"library/ubuntu\"}")),
            },
            Error {
                code: String::from("TOOMANYREQUESTS"),
                message: String::from("slow down"),
                detail: None,
            },
        ],
    };
    let r = interpret_response::<Manifest>(404, None, Some(injected));
    match r {
        Err(ErrorResponse::APIError(list)) => {
            assert_eq!(list.errors.len(), 2);
            assert_eq!(list.errors[0].code, "MANIFEST_UNKNOWN");
            assert_eq!(list.errors[0].message, "manifest unknown");
            assert_eq!(list.errors[0].detail.as_deref(), Some("{\"Name\":\"library/ubuntu\"}"));
            assert_eq!(list.errors[1].code, "TOOMANYREQUESTS");
            assert_eq!(list.errors[1].message, "slow down");
            assert_eq!(list.errors[1].detail, None);
        }
        other => panic!("expected an API error, got {:?}", other),
    }
}

#[test]
fn undecodable_error_body_is_a_transport_failure() {
    let r = interpret_response::<Manifest>(503, None, None);
    match r {
        Err(ErrorResponse::TransportError(_)) => {}
        other => panic!("expected a transport error, got {:?}", other),
    }
}

#[test]
fn api_error_message_lists_each_error() {
    let e = ErrorResponse::APIError(ErrorList {
        errors: vec![
            Error {
                code: String::from("DENIED"),
                message: String::from("access denied"),
                detail: None,
            },
            Error {
                code: String::from("UNAUTHORIZED"),
                message: String::from("please log in"),
                detail: None,
            },
        ],
    });
    assert_eq!(e.message(), "API error:\n  DENIED: access denied\n  UNAUTHORIZED: please log in");
}

#[test]
fn transport_error_message_names_the_failure() {
    let e = ErrorResponse::TransportError(String::from("connection reset"));
    assert_eq!(e.message(), "Request error: connection reset");
    let d = ErrorResponse::DecodeError(String::from("bad json"));
    assert_eq!(d.message(), "Decode error: bad json");
}
