use nextcloud_api::{Json, NextcloudApiClient, NextcloudCredentials};

#[test]
fn typed_post_serialises_the_tree() {
    let client = NextcloudApiClient::new(
        "https://cloud.example.com/",
        NextcloudCredentials::new("alice".to_string(), "app-password".to_string()),
    )
    .unwrap();
    let body = Json::Obj(vec![
        ("title".to_string(), Json::Str("Board B".to_string())),
        ("color".to_string(), Json::Str("ff0000".to_string())),
        ("order".to_string(), Json::Int(3)),
    ]);
    let req = client
        .api_post("/index.php/apps/deck/api/v1.0/boards", None, None, &body)
        .unwrap();
    assert_eq!(
        req.headers,
        vec![
            ("OCS-ApiRequest".to_string(), "true".to_string()),
            ("Accept".to_string(), "application/json".to_string()),
        ]
    );
    assert!(req.query.is_none());
    let bytes = req.body.expect("a typed post carries a body");
    let text = String::from_utf8(bytes).expect("the body is JSON text");
    let reparsed: serde_json::Value = serde_json::from_str(&text).unwrap();
    assert_eq!(reparsed["title"], serde_json::Value::String("Board B".to_string()));
    assert_eq!(reparsed["color"], serde_json::Value::String("ff0000".to_string()));
    assert_eq!(reparsed["order"], serde_json::Value::from(3));
}
