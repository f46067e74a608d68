use es_client::client::EsClient;
use es_client::client::Method;
use es_client::errors::EsError;
use es_client::index::classify_create_index;
use es_client::index::create_index_plan;
use es_client::index::EsIndexCreateSuccess;

#[test]
fn successfully_create_index() {
    let client = EsClient::new("http://127.0.0.1", 1234);
    let plan = create_index_plan(&client, "test");
    assert_eq!(plan.method, Method::Put);
    assert_eq!(plan.url, "http://127.0.0.1:1234/test");
    let res = classify_create_index(
        200,
        r#"{
            "acknowledged": true,
            "shards_acknowledged": true,
            "index": "test"
        }"#,
    );
    let expected_res = EsIndexCreateSuccess {
        acknowledged: true,
        shards_acknowledged: true,
        index: "test".to_owned(),
    };
    assert_eq!(res.unwrap(), expected_res);
}

#[test]
fn create_index_bad_request_carries_failure() {
    let res = classify_create_index(
        400,
        r#"{
            "error": {
                "root_cause": [{
                    "type": "resource_already_exists_exception",
                    "reason": "index [test/HjwlCaVKQo2766zcX_l7DQ] already exists",
                    "index_uuid": "HjwlCaVKQo2766zcX_l7DQ",
                    "index": "test"
                }],
                "type": "resource_already_exists_exception",
                "reason": "index [test/HjwlCaVKQo2766zcX_l7DQ] already exists"
            },
            "status": 400
        }"#,
    );
    match res {
        Err(EsError::CreateIndex(fail)) => {
            assert_eq!(fail.status, 400);
            assert_eq!(fail.error.root_cause.len(), 1);
            assert_eq!(
                fail.error.root_cause[0].reason,
                "index [test/HjwlCaVKQo2766zcX_l7DQ] already exists"
            );
            assert_eq!(fail.error.root_cause[0].index_uuid, "HjwlCaVKQo2766zcX_l7DQ");
            assert_eq!(fail.error.root_cause[0].index, "test");
            assert_eq!(
                fail.message(),
                "error: index [test/HjwlCaVKQo2766zcX_l7DQ] already exists, status: 400"
            );
        },
        other => panic!("expected an index-creation failure, got {:?}", other),
    }
}

#[test]
fn create_index_created_status_decodes_success() {
    let body = r#"{
        "acknowledged": true,
        "shards_acknowledged": true,
        "index": "test"
    }"#;
    let ok = classify_create_index(200, body).unwrap();
    let created = classify_create_index(201, body).unwrap();
    assert_eq!(ok, created);
    assert_eq!(created.index, "test");
}

#[test]
fn create_index_malformed_error_body_is_decode_error() {
    let res = classify_create_index(400, r#"{"status": 400}"#);
    assert!(matches!(res, Err(EsError::Decode)));
}

#[test]
fn create_index_unexpected_status_is_error() {
    let res = classify_create_index(502, "");
    assert!(matches!(res, Err(EsError::UnexpectedStatus(502))));
}

#[test]
fn create_index_malformed_success_body_is_decode_error() {
    let res = classify_create_index(200, r#"{"acknowledged": true}"#);
    assert!(matches!(res, Err(EsError::Decode)));
}
