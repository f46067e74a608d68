use es_client::errors::EsError;
use es_client::info::classify_info;
use es_client::info::EsInfo;
use es_client::info::Version;

#[test]
fn test_get_version_string() {
    let info = EsInfo {
        name: "test".to_owned(),
        cluster_name: "test".to_owned(),
        cluster_uuid: "test".to_owned(),
        version: Version {
            number: "test".to_owned(),
            build_flavor: "test".to_owned(),
            build_type: "test".to_owned(),
            build_hash: "test".to_owned(),
            build_date: "test".to_owned(),
            build_snapshot: false,
            lucene_version: "test".to_owned(),
            minimum_wire_compatibility_version: "test".to_owned(),
            minimum_index_compatibility_version: "test".to_owned(),
        },
        tagline: "test".to_owned(),
    };
    let version_string = info.get_version_string();
    assert_eq!(version_string, "test".to_owned());
}

#[test]
fn info_body_decodes() {
    let res = classify_info(
        r#"{
            "name": "DbU-kT2",
            "cluster_name": "docker-cluster",
            "cluster_uuid": "HjwlCaVKQo2766zcX_l7DQ",
            "version": {
                "number": "6.8.6",
                "build_flavor": "default",
                "build_type": "docker",
                "build_hash": "3d9f765",
                "build_date": "2019-12-13T17:11:52.013738Z",
                "build_snapshot": false,
                "lucene_version": "7.7.2",
                "minimum_wire_compatibility_version": "5.6.0",
                "minimum_index_compatibility_version": "5.0.0"
            },
            "tagline": "You Know, for Search"
        }"#,
    ).unwrap();
    assert_eq!(res.name, "DbU-kT2");
    assert_eq!(res.cluster_name, "docker-cluster");
    assert_eq!(res.cluster_uuid, "HjwlCaVKQo2766zcX_l7DQ");
    assert_eq!(res.version.number, "6.8.6");
    assert_eq!(res.version.build_snapshot, false);
    assert_eq!(res.tagline, "You Know, for Search");
}

#[test]
fn info_malformed_body_is_decode_error() {
    let res = classify_info("not json at all");
    assert!(matches!(res, Err(EsError::Decode)));
}

#[test]
fn info_missing_version_field_is_decode_error() {
    let res = classify_info(r#"{"name": "a", "cluster_name": "b", "cluster_uuid": "c", "tagline": "d"}"#);
    assert!(matches!(res, Err(EsError::Decode)));
}
