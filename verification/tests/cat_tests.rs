use es_client::cat::aliases_plan;
use es_client::cat::classify_aliases;
use es_client::cat::AliasResponse;
use es_client::cat::AliasResults;
use es_client::client::EsClient;
use es_client::client::Method;
use es_client::errors::EsError;

#[test]
fn successful_aliases_es6_no_results() {
    let client = EsClient::new("http://127.0.0.1", 1234);
    let plan = aliases_plan(&client);
    assert_eq!(plan.method, Method::Get);
    assert_eq!(plan.url, "http://127.0.0.1:1234/_cat/aliases");
    let res = classify_aliases(200, "");
    let expected_res = AliasResponse { aliases: Vec::new() };
    assert_eq!(res.unwrap(), expected_res);
}

#[test]
fn successful_aliases_es6_with_results() {
    let client = EsClient::new("http://127.0.0.1", 1234);
    let plan = aliases_plan(&client);
    assert_eq!(plan.method, Method::Get);
    assert_eq!(plan.url, "http://127.0.0.1:1234/_cat/aliases");
    let res = classify_aliases(200, "test_alias test - - -\n");
    let expected_res = AliasResponse {
        aliases: vec![AliasResults {
            alias: "test_alias".to_owned(),
            index: "test".to_owned(),
            filter: "-".to_owned(),
            routing_index: "-".to_owned(),
            routing_search: "-".to_owned(),
        }],
    };
    assert_eq!(res.unwrap(), expected_res);
}

#[test]
fn alias_line_five_fields() {
    let res = classify_aliases(200, "a b c d e\n").unwrap();
    assert_eq!(res.aliases.len(), 1);
    let record = &res.aliases[0];
    assert_eq!(record.alias, "a");
    assert_eq!(record.index, "b");
    assert_eq!(record.filter, "c");
    assert_eq!(record.routing_index, "d");
    assert_eq!(record.routing_search, "e");
}

#[test]
fn alias_two_lines() {
    let res = classify_aliases(200, "a b c d e\nf g h i j\n").unwrap();
    assert_eq!(res.aliases.len(), 2);
    assert_eq!(res.aliases[1].alias, "f");
    assert_eq!(res.aliases[1].routing_search, "j");
}

#[test]
fn alias_created_status_decodes_success() {
    let ok = classify_aliases(200, "a b c d e\n").unwrap();
    let created = classify_aliases(201, "a b c d e\n").unwrap();
    assert_eq!(ok, created);
}

#[test]
fn alias_short_line_is_decode_error() {
    let res = classify_aliases(200, "only four fields\n");
    assert!(matches!(res, Err(EsError::Decode)));
}

#[test]
fn alias_unexpected_status_is_error() {
    let res = classify_aliases(503, "");
    assert!(matches!(res, Err(EsError::UnexpectedStatus(503))));
}
