use es_client::client::EsClient;
use es_client::client::Method;
use es_client::client::Version;
use es_client::info::classify_info;

const INFO_BODY: &str = r#"{
    "name": "DbU-kT2",
    "cluster_name": "docker-cluster",
    "cluster_uuid": "HjwlCaVKQo2766zcX_l7DQ",
    "version": {
        "number": "6.8.6",
        "build_flavor": "default",
        "build_type": "docker",
        "build_hash": "3d9f765",
        "build_date": "2019-12-13T17:11:52.013738Z",
        "build_snapshot": false,
        "lucene_version": "7.7.2",
        "minimum_wire_compatibility_version": "5.6.0",
        "minimum_index_compatibility_version": "5.0.0"
    },
    "tagline": "You Know, for Search"
}"#;

#[test]
fn create_esclient() {
    let mut client = EsClient::new("http://127.0.0.1", 1234);
    let info = classify_info(INFO_BODY).unwrap();
    let version = Version::from_version_string(&info.get_version_string()).unwrap();
    client.set_version(version);
    assert_eq!(client.host, "http://127.0.0.1");
    assert_eq!(client.port, "1234");
    assert_eq!(client.version, Version::Es6);
}

#[test]
fn test_get_version() {
    let info = classify_info(INFO_BODY).unwrap();
    let version = Version::from_version_string(&info.get_version_string()).unwrap();
    assert_eq!(version, Version::Es6);
}

#[test]
fn test_get_url() {
    let client = EsClient {
        host: "http://127.0.0.1".to_owned(),
        port: 1234.to_string(),
        version: Version::Es6,
    };
    let url = client.get_url();
    assert_eq!(url, "http://127.0.0.1:1234");
}

#[test]
fn version_string_majors() {
    assert_eq!(Version::from_version_string("5.6.0"), Some(Version::Es5));
    assert_eq!(Version::from_version_string("6.8.6"), Some(Version::Es6));
    assert_eq!(Version::from_version_string("7.10.2"), Some(Version::Es7));
    assert_eq!(Version::from_version_string("8.0.0"), None);
    assert_eq!(Version::from_version_string("beta 7.0"), Some(Version::Es7));
    assert_eq!(Version::from_version_string("(7)"), Some(Version::Es7));
    assert_eq!(Version::from_version_string("+6.8"), Some(Version::Es6));
    assert_eq!(Version::from_version_string("unversioned"), None);
    assert_eq!(Version::from_version_string(""), None);
}

#[test]
fn default_client_is_local() {
    let client = EsClient::default();
    assert_eq!(client.host, "http://localhost");
    assert_eq!(client.port, "9200");
    assert_eq!(client.version, Version::Es6);
}

#[test]
fn get_plan_urls() {
    let client = EsClient::new("http://127.0.0.1", 1234);
    let bare = client.get(None);
    assert_eq!(bare.method, Method::Get);
    assert_eq!(bare.url, "http://127.0.0.1:1234");
    let endpoint = client.get(Some("_cat/aliases"));
    assert_eq!(endpoint.method, Method::Get);
    assert_eq!(endpoint.url, "http://127.0.0.1:1234/_cat/aliases");
}

#[test]
fn post_plan_urls() {
    let client = EsClient::new("http://127.0.0.1", 1234);
    let bare = client.post("test", None, None);
    assert_eq!(bare.method, Method::Post);
    assert_eq!(bare.url, "http://127.0.0.1:1234/test");
    let full = client.post("test", Some("doc"), Some("_search"));
    assert_eq!(full.url, "http://127.0.0.1:1234/test/doc/_search");
}

#[test]
fn put_plan_urls() {
    let client = EsClient::new("http://127.0.0.1", 1234);
    let bare = client.put(None, None);
    assert_eq!(bare.method, Method::Put);
    assert_eq!(bare.url, "http://127.0.0.1:1234");
    let indexed = client.put(Some("test"), Some("doc"));
    assert_eq!(indexed.url, "http://127.0.0.1:1234/test/doc");
}

#[test]
fn put_doc_plan_urls() {
    let client = EsClient::new("http://127.0.0.1", 1234);
    let typeless = client.put_doc("test", None, "1", None);
    assert_eq!(typeless.method, Method::Put);
    assert_eq!(typeless.url, "http://127.0.0.1:1234/test/_doc/1");
    let typed = client.put_doc("test", Some("doc"), "1", Some("_update"));
    assert_eq!(typed.url, "http://127.0.0.1:1234/test/doc/1/_update");
}

#[test]
fn post_doc_plan_urls() {
    let client = EsClient::new("http://127.0.0.1", 1234);
    let plan = client.post_doc("test", None);
    assert_eq!(plan.method, Method::Post);
    assert_eq!(plan.url, "http://127.0.0.1:1234/test/_doc");
}

#[test]
fn delete_doc_by_id_plan_urls() {
    let client = EsClient::new("http://127.0.0.1", 1234);
    let plan = client.delete_doc_by_id("test", None, "19393");
    assert_eq!(plan.method, Method::Delete);
    assert_eq!(plan.url, "http://127.0.0.1:1234/test/_doc/19393");
}
