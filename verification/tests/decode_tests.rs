use nextcloud_api::{
    Json, ApiResponse, CapabilityData, UserList, NextcloudApiError,
    DeckApiError, DeckApiResult, Board, api_decode, ocs_decode, decode_boards,
};
use nextcloud_api::json::parse_json;

const CAPABILITIES_BODY: &str = "{\"ocs\":{\"meta\":{\"status\":\"ok\",\"statuscode\":100,\"message\":\"OK\",\
\"totalitems\":\"\",\"itemsperpage\":\"\"},\"data\":{\"version\":{\"major\":20,\
\"minor\":0,\"micro\":0,\"string\":\"20.0.0\",\"edition\":\"\",\
\"extendedSupport\":false},\"capabilities\":{\"theming\":{\"color\":\"#0082c9\"}}}}}";

#[test]
fn enveloped_decode_reads_version() {
    let r: ApiResponse<CapabilityData> = ocs_decode(CAPABILITIES_BODY).unwrap();
    assert_eq!(r.meta.status, "ok");
    assert_eq!(r.meta.statuscode, 100);
    assert_eq!(r.meta.message, "OK");
    assert_eq!(r.meta.totalitems, "");
    assert_eq!(r.meta.itemsperpage, "");
    assert_eq!(r.data.version.major, 20);
    assert_eq!(r.data.version.minor, 0);
    assert_eq!(r.data.version.micro, 0);
    assert_eq!(r.data.version.string, "20.0.0");
    assert_eq!(r.data.version.extended_support, false);
}

#[test]
fn enveloped_decode_requires_the_root() {
    let r: Result<ApiResponse<CapabilityData>, NextcloudApiError> =
        ocs_decode("{\"meta\":{},\"data\":{}}");
    assert!(matches!(r, Err(NextcloudApiError::SerdeError(_))));
}

const BOARD_BODY: &str = "[{\"id\":1,\"title\":\"Board A\",\"owner\":{\"uid\":\"alice\"},\
\"color\":\"0082c9\",\"archived\":false,\
\"labels\":[{\"id\":7,\"title\":\"todo\",\"color\":\"31cc7c\"}],\
\"acl\":[],\"permissions\":{\"PERMISSION_EDIT\":true,\"PERMISSION_MANAGE\":true,\
\"PERMISSION_READ\":true,\"PERMISSION_SHARE\":false},\
\"users\":[],\"shared\":0,\"deletedAt\":0,\"lastModified\":1586269585,\
\"settings\":{}}]";

#[test]
fn raw_decode_reads_board_list() {
    let boards: Vec<Board> = api_decode(BOARD_BODY).unwrap();
    assert_eq!(boards.len(), 1);
    assert_eq!(boards[0].id, 1);
    assert_eq!(boards[0].title, "Board A");
    assert_eq!(boards[0].labels.len(), 1);
    assert_eq!(boards[0].labels[0].id, 7);
    assert_eq!(boards[0].labels[0].title, "todo");
    assert_eq!(boards[0].permissions.permission_edit, true);
    assert_eq!(boards[0].permissions.permission_share, false);
    assert_eq!(boards[0].shared, 0);
    assert_eq!(boards[0].deleted_at, 0);
    assert_eq!(boards[0].last_modified, 1586269585);
    assert_eq!(boards[0].archived, false);
}

#[test]
fn tagged_error_decode_yields_the_error() {
    let r = decode_boards("{\"status\":404,\"message\":\"Not Found\"}");
    match r {
        Err(DeckApiError::DeckError(e)) => {
            assert_eq!(e.status, 404);
            assert_eq!(e.message, "Not Found");
        },
        _ => panic!("expected the feature error, never a decoded board"),
    }
}

#[test]
fn board_decode_succeeds_through_the_feature_path() {
    let boards = decode_boards(BOARD_BODY).unwrap();
    assert_eq!(boards.len(), 1);
    assert_eq!(boards[0].id, 1);
}

#[test]
fn neither_shape_is_a_decode_failure() {
    let r = decode_boards("{\"unrelated\":true}");
    assert!(matches!(
        r,
        Err(DeckApiError::LowerError(NextcloudApiError::SerdeError(_)))
    ));
    let r2 = decode_boards("not json at all");
    assert!(matches!(
        r2,
        Err(DeckApiError::LowerError(NextcloudApiError::SerdeError(_)))
    ));
}

#[test]
fn success_shape_is_tried_first() {
    // For a target shape that also matches an error body, the success
    // arm wins: the two-phase order is success, then error.
    let j = parse_json("{\"status\":404,\"message\":\"Not Found\"}").unwrap();
    let tagged = DeckApiResult::<Json>::decode(&j).unwrap();
    assert!(matches!(tagged, DeckApiResult::DeckApiOk(_)));
}

#[test]
fn capability_lookup_finds_theming_color() {
    let r: ApiResponse<CapabilityData> = ocs_decode(CAPABILITIES_BODY).unwrap();
    let theming: Json = r.data.get_capabilities("theming").unwrap();
    let color = theming.get("color").and_then(|c| c.as_str());
    assert_eq!(color.map(|s| s.as_str()), Some("#0082c9"));
}

#[test]
fn capability_lookup_misses_with_its_own_error() {
    let r: ApiResponse<CapabilityData> = ocs_decode(CAPABILITIES_BODY).unwrap();
    let missing: Result<Json, NextcloudApiError> = r.data.get_capabilities("missing");
    assert!(matches!(missing, Err(NextcloudApiError::MissingCapabilityError)));
}

#[test]
fn user_list_decodes() {
    let body = "{\"ocs\":{\"meta\":{\"status\":\"ok\",\"statuscode\":100,\"message\":\"OK\",\
\"totalitems\":\"\",\"itemsperpage\":\"\"},\"data\":{\"users\":[\"alice\",\"bob\"]}}}";
    let r: ApiResponse<UserList> = ocs_decode(body).unwrap();
    assert_eq!(r.data.users, vec!["alice".to_string(), "bob".to_string()]);
}

#[test]
fn malformed_meta_is_a_decode_failure() {
    let body = "{\"ocs\":{\"meta\":{\"status\":\"ok\"},\"data\":{\"users\":[]}}}";
    let r: Result<ApiResponse<UserList>, NextcloudApiError> = ocs_decode(body);
    assert!(matches!(r, Err(NextcloudApiError::SerdeError(_))));
}

#[test]
fn parse_reads_the_tree_not_the_text() {
    let arr: Json = api_decode("[1,2,3]").unwrap();
    match &arr {
        Json::Arr(v) => {
            assert_eq!(v.len(), 3);
            assert!(matches!(v[0], Json::Int(1)));
            assert!(matches!(v[2], Json::Int(3)));
        },
        _ => panic!("expected an array tree"),
    }
    assert!(api_decode::<Json>("{oops").is_err());
}
