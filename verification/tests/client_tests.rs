use nextcloud_api::{NextcloudApiClient, NextcloudCredentials, NextcloudApiError, HttpMethod};

fn creds() -> NextcloudCredentials {
    NextcloudCredentials::new("alice".to_string(), "app-password".to_string())
}

#[test]
fn construction_succeeds_on_valid_url() {
    let client = NextcloudApiClient::new("https://cloud.example.com/", creds());
    assert!(client.is_ok());
}

#[test]
fn construction_is_idempotent() {
    let c1 = NextcloudApiClient::new("https://cloud.example.com/", creds()).unwrap();
    let c2 = NextcloudApiClient::new("https://cloud.example.com/", creds()).unwrap();
    assert_eq!(c1.url, c2.url);
    assert_eq!(c1.credentials.user, c2.credentials.user);
    assert_eq!(c1.credentials.password, c2.credentials.password);
}

#[test]
fn construction_fails_on_invalid_url() {
    let r = NextcloudApiClient::new("not a url", creds());
    match r {
        Err(NextcloudApiError::InvalidUrl(m)) => assert_eq!(m, "not a url"),
        _ => panic!("expected an invalid-URL error"),
    }
}

#[test]
fn resolution_is_deterministic_and_order_independent() {
    let client = NextcloudApiClient::new("https://cloud.example.com/", creds()).unwrap();
    let r1 = client.api_get("/ocs/v1.php/cloud/capabilities").unwrap();
    let other = client.api_get("/ocs/v1.php/cloud/users").unwrap();
    let r2 = client.api_get("/ocs/v1.php/cloud/capabilities").unwrap();
    assert_eq!(r1.url, "https://cloud.example.com/ocs/v1.php/cloud/capabilities");
    assert_eq!(r1.url, r2.url);
    assert_eq!(other.url, "https://cloud.example.com/ocs/v1.php/cloud/users");
}

#[test]
fn request_carries_credentials_and_default_headers() {
    let client = NextcloudApiClient::new("https://cloud.example.com/", creds()).unwrap();
    let req = client.api_get("/ocs/v1.php/cloud/capabilities").unwrap();
    assert_eq!(req.user, "alice");
    assert_eq!(req.password, "app-password");
    assert_eq!(req.method, HttpMethod::Get);
    assert_eq!(
        req.headers,
        vec![
            ("OCS-ApiRequest".to_string(), "true".to_string()),
            ("Accept".to_string(), "application/json".to_string()),
        ]
    );
    assert!(req.query.is_none());
    assert!(req.body.is_none());
}

#[test]
fn header_overrides_merge_into_defaults() {
    let client = NextcloudApiClient::new("https://cloud.example.com/", creds()).unwrap();
    let overrides = vec![
        ("Accept".to_string(), "text/plain".to_string()),
        ("X-Extra".to_string(), "1".to_string()),
    ];
    let req = client
        .api_get_ext("/ocs/v1.php/cloud/capabilities", Some(&overrides), None)
        .unwrap();
    assert_eq!(
        req.headers,
        vec![
            ("OCS-ApiRequest".to_string(), "true".to_string()),
            ("Accept".to_string(), "text/plain".to_string()),
            ("X-Extra".to_string(), "1".to_string()),
        ]
    );
}

#[test]
fn path_outside_authority_is_rejected() {
    let client = NextcloudApiClient::new("https://cloud.example.com/", creds()).unwrap();
    let r = client.api_get("https://elsewhere.example.org/x");
    assert!(matches!(r, Err(NextcloudApiError::InvalidUrl(_))));
}

#[test]
fn post_attaches_body_verbatim() {
    let client = NextcloudApiClient::new("https://cloud.example.com/", creds()).unwrap();
    let req = client
        .api_post_raw("/index.php/x", None, None, b"payload".to_vec())
        .unwrap();
    assert_eq!(req.method, HttpMethod::Post);
    assert_eq!(req.body, Some(b"payload".to_vec()));
}

#[test]
fn concurrent_style_requests_are_independent() {
    let client = NextcloudApiClient::new("https://cloud.example.com/", creds()).unwrap();
    let mut queries: Vec<Vec<u8>> = Vec::new();
    for i in 0..8u8 {
        let corr: Vec<(Vec<u8>, Vec<u8>)> = vec![(b"corr".to_vec(), vec![b'0' + i])];
        let req = client
            .api_get_ext("/index.php/apps/deck/api/v1.0/boards", None, Some(&corr))
            .unwrap();
        queries.push(req.query.clone().unwrap());
    }
    for i in 0..queries.len() {
        for j in 0..queries.len() {
            if i != j {
                assert_ne!(queries[i], queries[j]);
            }
        }
    }
}

#[test]
fn user_paths_build_against_the_base() {
    let client = NextcloudApiClient::new("https://cloud.example.com/", creds()).unwrap();
    let one = client.user_metadata("bob").unwrap();
    assert_eq!(one.url, "https://cloud.example.com/ocs/v1.php/cloud/users/bob");
    let own = client.own_metadata().unwrap();
    assert_eq!(own.url, "https://cloud.example.com/ocs/v1.php/cloud/users/alice");
    let all = client.users().unwrap();
    assert_eq!(all.url, "https://cloud.example.com/ocs/v1.php/cloud/users");
    let caps = client.capabilities().unwrap();
    assert_eq!(caps.url, "https://cloud.example.com/ocs/v1.php/cloud/capabilities");
}

#[test]
fn boards_request_carries_the_details_flag() {
    let client = NextcloudApiClient::new("https://cloud.example.com/", creds()).unwrap();
    let with_details = client.boards(true).unwrap();
    assert_eq!(
        with_details.url,
        "https://cloud.example.com/index.php/apps/deck/api/v1.0/boards"
    );
    assert_eq!(with_details.query, Some(b"details=true".to_vec()));
    let without = client.boards(false).unwrap();
    assert!(without.query.is_none());
}

#[test]
fn error_messages_name_their_class() {
    assert_eq!(
        NextcloudApiError::NetworkError("x".to_string()).message(),
        "network error"
    );
    assert_eq!(
        NextcloudApiError::SerdeError("x".to_string()).message(),
        "response format invalid"
    );
    assert_eq!(
        NextcloudApiError::MissingCapabilityError.message(),
        "capability not found"
    );
    assert_eq!(
        NextcloudApiError::InvalidUrl("x".to_string()).message(),
        "invalid URL"
    );
    assert_eq!(
        NextcloudApiError::TransportInit("x".to_string()).message(),
        "transport could not be built"
    );
}
