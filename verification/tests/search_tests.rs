use es_client::client::EsClient;
use es_client::client::IndexPattern;
use es_client::client::Method;
use es_client::errors::EsError;
use es_client::search::classify_search;
use es_client::search::search_plan;
use es_client::search::Data;
use es_client::search::EsSearchResponse;
use es_client::search::HitResults;
use es_client::search::ShardResults;

fn client() -> EsClient {
    EsClient::new("http://127.0.0.1", 1234)
}

#[test]
fn successful_search_es6_with_results() {
    let client = client();
    let plan = search_plan(&client, IndexPattern::Index("test"));
    assert_eq!(plan.method, Method::Post);
    assert_eq!(plan.url, "http://127.0.0.1:1234/test/_search");
    let res = classify_search(
        200,
        r#"{
            "took": 1,
            "timed_out": false,
            "_shards": {
                "total": 1,
                "successful": 1,
                "skipped": 1,
                "failed": 1
            },
            "hits": {
                "hits": [{
                    "_id": "4jjieidk",
                    "_index": "test",
                    "_type": "_doc",
                    "_score": 1.0,
                    "_source": {
                        "a": "test",
                        "b": 1
                    }
                }],
                "total": 1,
                "max_score": 1.0
            }
        }"#,
    );
    let expected_res = EsSearchResponse {
        took: 1,
        timed_out: false,
        shards: ShardResults { total: 1, successful: 1, skipped: 1, failed: 1 },
        hits: HitResults {
            hits: vec![Data {
                id: "4jjieidk".to_owned(),
                index: "test".to_owned(),
                doc_type: "_doc".to_owned(),
                score: "1.0".to_owned(),
                source: r#"{"a":"test","b":1}"#.to_owned(),
            }],
            total: 1,
            max_score: Some("1.0".to_owned()),
        },
    };
    assert_eq!(res.unwrap(), expected_res);
}

#[test]
fn successful_search_es6_no_results() {
    let client = client();
    let plan = search_plan(&client, IndexPattern::Index("test"));
    assert_eq!(plan.method, Method::Post);
    assert_eq!(plan.url, "http://127.0.0.1:1234/test/_search");
    let res = classify_search(
        200,
        r#"{
            "took": 1,
            "timed_out": false,
            "_shards": {
                "total": 1,
                "successful": 1,
                "skipped": 1,
                "failed": 1
            },
            "hits": {
                "hits": [],
                "total": 0,
                "max_score": null
            }
        }"#,
    );
    let expected_res = EsSearchResponse {
        took: 1,
        timed_out: false,
        shards: ShardResults { total: 1, successful: 1, skipped: 1, failed: 1 },
        hits: HitResults { hits: vec![], total: 0, max_score: None },
    };
    assert_eq!(res.unwrap(), expected_res);
}

#[test]
fn failed_search_es6() {
    let res = classify_search(
        400,
        r#"{
            "error": {
                "root_case": [{
                    "error_type": "incorrect_query",
                    "reason": "could not parse query"
            },
            "status": 400
        }"#,
    );
    assert_eq!(res.is_err(), true);
}

#[test]
fn search_unexpected_status_is_error() {
    let res = classify_search(
        500,
        r#"{
            "status": 500,
            "error": {
                "root_cause": [{
                    "type": "index_create_failure",
                    "reason": "internal server error"
                }]
            }
        }"#,
    );
    assert!(matches!(res, Err(EsError::UnexpectedStatus(500))));
}

#[test]
fn search_created_status_decodes_success() {
    let body = r#"{
        "took": 1,
        "timed_out": false,
        "_shards": { "total": 1, "successful": 1, "skipped": 0, "failed": 0 },
        "hits": { "hits": [], "total": 0, "max_score": null }
    }"#;
    let ok = classify_search(200, body).unwrap();
    let created = classify_search(201, body).unwrap();
    assert_eq!(ok, created);
}

#[test]
fn search_typed_pattern_path() {
    let client = client();
    let plan = search_plan(&client, IndexPattern::IndexType("test", "doc"));
    assert_eq!(plan.method, Method::Post);
    assert_eq!(plan.url, "http://127.0.0.1:1234/test/doc/_search");
}

#[test]
fn search_hits_length_matches_array() {
    let body = r#"{
        "took": 3,
        "timed_out": false,
        "_shards": { "total": 1, "successful": 1, "skipped": 0, "failed": 0 },
        "hits": {
            "hits": [
                {"_id": "a", "_index": "test", "_type": "_doc", "_score": 2.5, "_source": {"x": 1}},
                {"_id": "b", "_index": "test", "_type": "_doc", "_score": 2.0, "_source": {"x": 2}},
                {"_id": "c", "_index": "test", "_type": "_doc", "_score": 1.5, "_source": {"x": 3}}
            ],
            "total": 3,
            "max_score": 2.5
        }
    }"#;
    let res = classify_search(200, body).unwrap();
    assert_eq!(res.hits.hits.len(), 3);
    assert_eq!(res.hits.total, 3);
    assert_eq!(res.hits.hits[2].id, "c");
    assert_eq!(res.hits.hits[2].source, r#"{"x":3}"#);
}

#[test]
fn search_bad_request_carries_generic_failure() {
    let res = classify_search(
        400,
        r#"{
            "error": {
                "root_cause": [{
                    "type": "parsing_exception",
                    "reason": "unknown query"
                }]
            },
            "status": 400
        }"#,
    );
    match res {
        Err(EsError::Generic(fail)) => {
            assert_eq!(fail.status, 400);
            assert_eq!(fail.error.root_cause.len(), 1);
            assert_eq!(fail.error.root_cause[0].error_type, "parsing_exception");
            assert_eq!(fail.error.root_cause[0].reason, "unknown query");
            assert_eq!(fail.message(), "error: unknown query, status: 400");
        },
        other => panic!("expected a generic failure, got {:?}", other),
    }
}
