//! The cluster-info operation: the `GET /` request shape and the decoding of
//! its response body.

use vstd::prelude::*;

use crate::client::EsClient;
use crate::client::Method;
use crate::client::RequestPlan;
use crate::errors::EsError;
use crate::errors::EsErrorV;
use crate::json::json_bool_at_of;
use crate::json::json_bool_at;
use crate::json::json_str_at_of;
use crate::json::json_str_at;
use crate::result_view;

verus! {

/// The version object inside the store's info response.
#[derive(Debug, PartialEq)]
pub struct Version {
    pub number: String,
    pub build_flavor: String,
    pub build_type: String,
    pub build_hash: String,
    pub build_date: String,
    pub build_snapshot: bool,
    pub lucene_version: String,
    pub minimum_wire_compatibility_version: String,
    pub minimum_index_compatibility_version: String,
}

pub ghost struct InfoVersionV {
    pub number: Seq<char>,
    pub build_flavor: Seq<char>,
    pub build_type: Seq<char>,
    pub build_hash: Seq<char>,
    pub build_date: Seq<char>,
    pub build_snapshot: bool,
    pub lucene_version: Seq<char>,
    pub minimum_wire_compatibility_version: Seq<char>,
    pub minimum_index_compatibility_version: Seq<char>,
}

impl View for Version {
    type V = InfoVersionV;

    open spec fn view(&self) -> InfoVersionV {
        InfoVersionV {
            number: self.number@,
            build_flavor: self.build_flavor@,
            build_type: self.build_type@,
            build_hash: self.build_hash@,
            build_date: self.build_date@,
            build_snapshot: self.build_snapshot,
            lucene_version: self.lucene_version@,
            minimum_wire_compatibility_version: self.minimum_wire_compatibility_version@,
            minimum_index_compatibility_version: self.minimum_index_compatibility_version@,
        }
    }
}

/// The store's info payload: cluster identity and version.
#[derive(Debug, PartialEq)]
pub struct EsInfo {
    pub name: String,
    pub cluster_name: String,
    pub cluster_uuid: String,
    pub version: Version,
    pub tagline: String,
}

pub ghost struct EsInfoV {
    pub name: Seq<char>,
    pub cluster_name: Seq<char>,
    pub cluster_uuid: Seq<char>,
    pub version: InfoVersionV,
    pub tagline: Seq<char>,
}

impl View for EsInfo {
    type V = EsInfoV;

    open spec fn view(&self) -> EsInfoV {
        EsInfoV {
            name: self.name@,
            cluster_name: self.cluster_name@,
            cluster_uuid: self.cluster_uuid@,
            version: self.version@,
            tagline: self.tagline@,
        }
    }
}

impl EsInfo {
    /// The store's version string, e.g. `"6.8.6"`.
    pub fn get_version_string(&self) -> (r: String)
        ensures
            r@ == self.version.number@,
    {
        self.version.number.clone()
    }
}

/// An info body: every field of the payload present with its type.
pub open spec fn spec_info_of(t: Seq<char>) -> Option<EsInfoV> {
    let name = json_str_at_of(t, "/name"@);
    let cluster_name = json_str_at_of(t, "/cluster_name"@);
    let cluster_uuid = json_str_at_of(t, "/cluster_uuid"@);
    let tagline = json_str_at_of(t, "/tagline"@);
    let number = json_str_at_of(t, "/version/number"@);
    let build_flavor = json_str_at_of(t, "/version/build_flavor"@);
    let build_type = json_str_at_of(t, "/version/build_type"@);
    let build_hash = json_str_at_of(t, "/version/build_hash"@);
    let build_date = json_str_at_of(t, "/version/build_date"@);
    let build_snapshot = json_bool_at_of(t, "/version/build_snapshot"@);
    let lucene_version = json_str_at_of(t, "/version/lucene_version"@);
    let min_wire = json_str_at_of(t, "/version/minimum_wire_compatibility_version"@);
    let min_index = json_str_at_of(t, "/version/minimum_index_compatibility_version"@);
    if name is Some && cluster_name is Some && cluster_uuid is Some && tagline is Some && number
        is Some && build_flavor is Some && build_type is Some && build_hash is Some && build_date
        is Some && build_snapshot is Some && lucene_version is Some && min_wire is Some
        && min_index is Some {
        Some(
            EsInfoV {
                name: name->0,
                cluster_name: cluster_name->0,
                cluster_uuid: cluster_uuid->0,
                version: InfoVersionV {
                    number: number->0,
                    build_flavor: build_flavor->0,
                    build_type: build_type->0,
                    build_hash: build_hash->0,
                    build_date: build_date->0,
                    build_snapshot: build_snapshot->0,
                    lucene_version: lucene_version->0,
                    minimum_wire_compatibility_version: min_wire->0,
                    minimum_index_compatibility_version: min_index->0,
                },
                tagline: tagline->0,
            },
        )
    } else {
        None
    }
}

/// The info operation decodes its body regardless of the status code.
pub open spec fn spec_classify_info(t: Seq<char>) -> Result<EsInfoV, EsErrorV> {
    match spec_info_of(t) {
        Some(v) => Ok(v),
        None => Err(EsErrorV::Decode),
    }
}

/// The `GET /` request that resolves the store's identity and version.
pub fn info_plan(client: &EsClient) -> (r: RequestPlan)
    ensures
        r.method == Method::Get,
        r.url@ == client.base_url(),
{
    client.get(None)
}

/// Decodes an info response body into the typed payload.
pub fn classify_info(text: &str) -> (r: Result<EsInfo, EsError>)
    ensures
        result_view(r) == spec_classify_info(text@),
{
    let name = json_str_at(text, "/name");
    let cluster_name = json_str_at(text, "/cluster_name");
    let cluster_uuid = json_str_at(text, "/cluster_uuid");
    let tagline = json_str_at(text, "/tagline");
    let number = json_str_at(text, "/version/number");
    let build_flavor = json_str_at(text, "/version/build_flavor");
    let build_type = json_str_at(text, "/version/build_type");
    let build_hash = json_str_at(text, "/version/build_hash");
    let build_date = json_str_at(text, "/version/build_date");
    let build_snapshot = json_bool_at(text, "/version/build_snapshot");
    let lucene_version = json_str_at(text, "/version/lucene_version");
    let min_wire = json_str_at(text, "/version/minimum_wire_compatibility_version");
    let min_index = json_str_at(text, "/version/minimum_index_compatibility_version");
    match (
        name,
        cluster_name,
        cluster_uuid,
        tagline,
        number,
        build_flavor,
        build_type,
        build_hash,
        build_date,
        build_snapshot,
        lucene_version,
        min_wire,
        min_index,
    ) {
        (
            Some(name),
            Some(cluster_name),
            Some(cluster_uuid),
            Some(tagline),
            Some(number),
            Some(build_flavor),
            Some(build_type),
            Some(build_hash),
            Some(build_date),
            Some(build_snapshot),
            Some(lucene_version),
            Some(min_wire),
            Some(min_index),
        ) => Ok(
            EsInfo {
                name,
                cluster_name,
                cluster_uuid,
                version: Version {
                    number,
                    build_flavor,
                    build_type,
                    build_hash,
                    build_date,
                    build_snapshot,
                    lucene_version,
                    minimum_wire_compatibility_version: min_wire,
                    minimum_index_compatibility_version: min_index,
                },
                tagline,
            },
        ),
        _ => Err(EsError::Decode),
    }
}

} // verus!
