//! The document write and delete operations: PUT-versus-POST dispatch on the
//! document id, the request shapes, and the classification of responses.

use vstd::prelude::*;

use crate::client::doc_type_segment;
use crate::client::join_segment;
use crate::client::EsClient;
use crate::client::IndexPattern;
use crate::client::Method;
use crate::client::RequestPlan;
use crate::client::RequestPlanV;
use crate::errors::spec_generic_fail_of;
use crate::errors::decode_generic_fail;
use crate::errors::EsError;
use crate::errors::EsErrorV;
use crate::errors::ESMissingId;
use crate::errors::MissingIdV;
use crate::json::json_str_at_of;
use crate::json::json_str_at;
use crate::json::json_u64_at_of;
use crate::json::json_u64_at;
use crate::result_view;
use crate::text::contains_seq;
use crate::text::lemma_concat_contains;

verus! {

/// Whether the caller assigns the document's id or the store chooses one.
pub enum DocId<'a> {
    Unassigned,
    Assigned(&'a str),
}

impl DocId<'_> {
    /// The assigned id as text, if any.
    pub open spec fn id_seq(&self) -> Option<Seq<char>> {
        match self {
            DocId::Assigned(id) => Some(id@),
            DocId::Unassigned => None,
        }
    }
}

impl IndexPattern<'_> {
    /// The index the pattern addresses.
    pub open spec fn index_seq(&self) -> Seq<char> {
        match self {
            IndexPattern::Index(index) => index@,
            IndexPattern::IndexType(index, _) => index@,
        }
    }

    /// The legacy document type, if the pattern carries one.
    pub open spec fn doc_type_seq(&self) -> Option<Seq<char>> {
        match self {
            IndexPattern::Index(_) => None,
            IndexPattern::IndexType(_, doc_type) => Some(doc_type@),
        }
    }
}

/// The shard bookkeeping of a document write or delete.
#[derive(Debug, PartialEq)]
pub struct ShardResults {
    pub total: u16,
    pub successful: u16,
    pub failed: u16,
}

pub ghost struct ShardResultsV {
    pub total: int,
    pub successful: int,
    pub failed: int,
}

impl View for ShardResults {
    type V = ShardResultsV;

    open spec fn view(&self) -> ShardResultsV {
        ShardResultsV {
            total: self.total as int,
            successful: self.successful as int,
            failed: self.failed as int,
        }
    }
}

/// The store's acknowledgement of a document write.
#[derive(Debug, PartialEq)]
pub struct EsIndexDocResponse {
    pub shards: ShardResults,
    pub index: String,
    pub doc_type: String,
    pub id: String,
    pub version: u32,
    pub seq_no: u32,
    pub primary_term: u32,
    pub result: String,
}

/// The store's acknowledgement of a document delete; the same shape as a
/// write acknowledgement.
#[derive(Debug, PartialEq)]
pub struct EsDeleteDocResponse {
    pub shards: ShardResults,
    pub index: String,
    pub doc_type: String,
    pub id: String,
    pub version: u32,
    pub seq_no: u32,
    pub primary_term: u32,
    pub result: String,
}

pub ghost struct DocWriteV {
    pub shards: ShardResultsV,
    pub index: Seq<char>,
    pub doc_type: Seq<char>,
    pub id: Seq<char>,
    pub version: int,
    pub seq_no: int,
    pub primary_term: int,
    pub result: Seq<char>,
}

impl View for EsIndexDocResponse {
    type V = DocWriteV;

    open spec fn view(&self) -> DocWriteV {
        DocWriteV {
            shards: self.shards@,
            index: self.index@,
            doc_type: self.doc_type@,
            id: self.id@,
            version: self.version as int,
            seq_no: self.seq_no as int,
            primary_term: self.primary_term as int,
            result: self.result@,
        }
    }
}

impl View for EsDeleteDocResponse {
    type V = DocWriteV;

    open spec fn view(&self) -> DocWriteV {
        DocWriteV {
            shards: self.shards@,
            index: self.index@,
            doc_type: self.doc_type@,
            id: self.id@,
            version: self.version as int,
            seq_no: self.seq_no as int,
            primary_term: self.primary_term as int,
            result: self.result@,
        }
    }
}

/// A write or delete acknowledgement body: every field present, every number
/// within its range.
pub open spec fn spec_doc_write_of(t: Seq<char>) -> Option<DocWriteV> {
    let total = json_u64_at_of(t, "/_shards/total"@);
    let successful = json_u64_at_of(t, "/_shards/successful"@);
    let failed = json_u64_at_of(t, "/_shards/failed"@);
    let index = json_str_at_of(t, "/_index"@);
    let doc_type = json_str_at_of(t, "/_type"@);
    let id = json_str_at_of(t, "/_id"@);
    let version = json_u64_at_of(t, "/_version"@);
    let seq_no = json_u64_at_of(t, "/_seq_no"@);
    let primary_term = json_u64_at_of(t, "/_primary_term"@);
    let result = json_str_at_of(t, "/result"@);
    if total is Some && total->0 <= u16::MAX && successful is Some && successful->0 <= u16::MAX
        && failed is Some && failed->0 <= u16::MAX && index is Some && doc_type is Some && id
        is Some && version is Some && version->0 <= u32::MAX && seq_no is Some && seq_no->0
        <= u32::MAX && primary_term is Some && primary_term->0 <= u32::MAX && result is Some {
        Some(
            DocWriteV {
                shards: ShardResultsV {
                    total: total->0 as int,
                    successful: successful->0 as int,
                    failed: failed->0 as int,
                },
                index: index->0,
                doc_type: doc_type->0,
                id: id->0,
                version: version->0 as int,
                seq_no: seq_no->0 as int,
                primary_term: primary_term->0 as int,
                result: result->0,
            },
        )
    } else {
        None
    }
}

/// Reads the ten fields of a write or delete acknowledgement body, range
/// checks included; `None` when any is missing, ill-typed or out of range.
fn decode_doc_write_fields(text: &str) -> (r: Option<
    (ShardResults, String, String, String, u32, u32, u32, String),
>)
    ensures
        r is Some <==> spec_doc_write_of(text@) is Some,
        r matches Some((shards, index, doc_type, id, version, seq_no, primary_term, result))
            ==> spec_doc_write_of(text@) == Some(
            DocWriteV {
                shards: shards@,
                index: index@,
                doc_type: doc_type@,
                id: id@,
                version: version as int,
                seq_no: seq_no as int,
                primary_term: primary_term as int,
                result: result@,
            },
        ),
{
    let total = match json_u64_at(text, "/_shards/total") {
        Some(v) => v,
        None => {
            return None;
        },
    };
    let successful = match json_u64_at(text, "/_shards/successful") {
        Some(v) => v,
        None => {
            return None;
        },
    };
    let failed = match json_u64_at(text, "/_shards/failed") {
        Some(v) => v,
        None => {
            return None;
        },
    };
    if total > u16::MAX as u64 || successful > u16::MAX as u64 || failed > u16::MAX as u64 {
        return None;
    }
    let index = match json_str_at(text, "/_index") {
        Some(v) => v,
        None => {
            return None;
        },
    };
    let doc_type = match json_str_at(text, "/_type") {
        Some(v) => v,
        None => {
            return None;
        },
    };
    let id = match json_str_at(text, "/_id") {
        Some(v) => v,
        None => {
            return None;
        },
    };
    let version = match json_u64_at(text, "/_version") {
        Some(v) => v,
        None => {
            return None;
        },
    };
    let seq_no = match json_u64_at(text, "/_seq_no") {
        Some(v) => v,
        None => {
            return None;
        },
    };
    let primary_term = match json_u64_at(text, "/_primary_term") {
        Some(v) => v,
        None => {
            return None;
        },
    };
    if version > u32::MAX as u64 || seq_no > u32::MAX as u64 || primary_term > u32::MAX as u64 {
        return None;
    }
    let result = match json_str_at(text, "/result") {
        Some(v) => v,
        None => {
            return None;
        },
    };
    let shards = ShardResults {
        total: total as u16,
        successful: successful as u16,
        failed: failed as u16,
    };
    Some((shards, index, doc_type, id, version as u32, seq_no as u32, primary_term as u32, result))
}

/// How a document-write response is read: 200 and 201 both carry the write
/// acknowledgement, 400 carries the generic failure payload, and any other
/// status is unexpected.
pub open spec fn spec_classify_index_doc(status: int, t: Seq<char>) -> Result<DocWriteV, EsErrorV> {
    if status == 200 || status == 201 {
        match spec_doc_write_of(t) {
            Some(v) => Ok(v),
            None => Err(EsErrorV::Decode),
        }
    } else if status == 400 {
        match spec_generic_fail_of(t) {
            Some(f) => Err(EsErrorV::Generic(f)),
            None => Err(EsErrorV::Decode),
        }
    } else {
        Err(EsErrorV::UnexpectedStatus(status))
    }
}

/// How a document-delete response is read: 200 and 404 both carry the delete
/// acknowledgement — deleting a missing document is not an error here — and
/// any other status is unexpected.
pub open spec fn spec_classify_delete_doc(status: int, t: Seq<char>) -> Result<
    DocWriteV,
    EsErrorV,
> {
    if status == 200 || status == 404 {
        match spec_doc_write_of(t) {
            Some(v) => Ok(v),
            None => Err(EsErrorV::Decode),
        }
    } else {
        Err(EsErrorV::UnexpectedStatus(status))
    }
}

/// The request a document write issues: a PUT addressing the id when the
/// caller assigned one, a POST letting the store choose otherwise.
pub open spec fn spec_index_doc_plan(
    base: Seq<char>,
    index: Seq<char>,
    doc_type: Option<Seq<char>>,
    id: Option<Seq<char>>,
    operation: Option<Seq<char>>,
) -> RequestPlanV {
    match id {
        Some(did) => RequestPlanV {
            method: Method::Put,
            url: join_segment(
                base + "/"@ + index + "/"@ + doc_type_segment(doc_type) + "/"@ + did,
                operation,
            ),
        },
        None => RequestPlanV {
            method: Method::Post,
            url: base + "/"@ + index + "/"@ + doc_type_segment(doc_type),
        },
    }
}

/// Shapes the one request a document write issues.
pub fn index_doc_plan<'a>(
    client: &EsClient,
    write_on: IndexPattern<'a>,
    id: DocId<'a>,
    operation: Option<&str>,
) -> (r: RequestPlan)
    ensures
        r@ == spec_index_doc_plan(
            client.base_url(),
            write_on.index_seq(),
            write_on.doc_type_seq(),
            id.id_seq(),
            operation.deep_view(),
        ),
{
    let (index, doc_type) = match write_on {
        IndexPattern::Index(index) => (index, None),
        IndexPattern::IndexType(index, doc_type) => (index, Some(doc_type)),
    };
    match id {
        DocId::Assigned(id) => client.put_doc(index, doc_type, id, operation),
        DocId::Unassigned => client.post_doc(index, doc_type),
    }
}

/// The request a document delete issues, or the locally raised failure when
/// no id was assigned.
pub open spec fn spec_delete_doc_plan(
    base: Seq<char>,
    index: Seq<char>,
    doc_type: Option<Seq<char>>,
    id: Option<Seq<char>>,
) -> Result<RequestPlanV, MissingIdV> {
    match id {
        Some(did) => Ok(
            RequestPlanV {
                method: Method::Delete,
                url: base + "/"@ + index + "/"@ + doc_type_segment(doc_type) + "/"@ + did,
            },
        ),
        None => Err(
            MissingIdV {
                status: 400,
                reason: "Document id is required for this method! Please use DocId::Assigned(&str)"@,
            },
        ),
    }
}

/// Shapes the one request a document delete issues; with no assigned id it
/// short-circuits to the missing-identifier failure before any request
/// exists.
pub fn delete_doc_plan<'a>(client: &EsClient, delete_on: IndexPattern<'a>, id: DocId<'a>) -> (r:
    Result<RequestPlan, ESMissingId>)
    ensures
        result_view(r) == spec_delete_doc_plan(
            client.base_url(),
            delete_on.index_seq(),
            delete_on.doc_type_seq(),
            id.id_seq(),
        ),
{
    let (index, doc_type) = match delete_on {
        IndexPattern::Index(index) => (index, None),
        IndexPattern::IndexType(index, doc_type) => (index, Some(doc_type)),
    };
    match id {
        DocId::Assigned(id) => Ok(client.delete_doc_by_id(index, doc_type, id)),
        DocId::Unassigned => Err(ESMissingId::new()),
    }
}

/// Classifies a document-write response by its status code and body.
pub fn classify_index_doc(status: u16, text: &str) -> (r: Result<EsIndexDocResponse, EsError>)
    ensures
        result_view(r) == spec_classify_index_doc(status as int, text@),
{
    if status == 200 || status == 201 {
        match decode_doc_write_fields(text) {
            Some((shards, index, doc_type, id, version, seq_no, primary_term, result)) => Ok(
                EsIndexDocResponse {
                    shards,
                    index,
                    doc_type,
                    id,
                    version,
                    seq_no,
                    primary_term,
                    result,
                },
            ),
            None => Err(EsError::Decode),
        }
    } else if status == 400 {
        match decode_generic_fail(text) {
            Some(fail) => Err(EsError::Generic(fail)),
            None => Err(EsError::Decode),
        }
    } else {
        Err(EsError::UnexpectedStatus(status))
    }
}

/// Classifies a document-delete response by its status code and body.
pub fn classify_delete_doc(status: u16, text: &str) -> (r: Result<EsDeleteDocResponse, EsError>)
    ensures
        result_view(r) == spec_classify_delete_doc(status as int, text@),
{
    if status == 200 || status == 404 {
        match decode_doc_write_fields(text) {
            Some((shards, index, doc_type, id, version, seq_no, primary_term, result)) => Ok(
                EsDeleteDocResponse {
                    shards,
                    index,
                    doc_type,
                    id,
                    version,
                    seq_no,
                    primary_term,
                    result,
                },
            ),
            None => Err(EsError::Decode),
        }
    } else {
        Err(EsError::UnexpectedStatus(status))
    }
}

/// A write with an assigned id is a PUT whose path contains the id; a write
/// without one is a POST whose path stops at the type segment, with no id
/// segment after it.
pub proof fn lemma_write_verb_and_path(
    base: Seq<char>,
    index: Seq<char>,
    doc_type: Option<Seq<char>>,
    id: Seq<char>,
    operation: Option<Seq<char>>,
)
    ensures
        spec_index_doc_plan(base, index, doc_type, Some(id), operation).method == Method::Put,
        contains_seq(spec_index_doc_plan(base, index, doc_type, Some(id), operation).url, id),
        spec_index_doc_plan(base, index, doc_type, None, operation).method == Method::Post,
        spec_index_doc_plan(base, index, doc_type, None, operation).url == base + "/"@ + index
            + "/"@ + doc_type_segment(doc_type),
{
    let prefix = base + "/"@ + index + "/"@ + doc_type_segment(doc_type) + "/"@;
    let url = spec_index_doc_plan(base, index, doc_type, Some(id), operation).url;
    match operation {
        Some(op) => {
            assert(url =~= prefix + id + ("/"@ + op));
            lemma_concat_contains(prefix, id, "/"@ + op);
        },
        None => {
            assert(url =~= prefix + id + Seq::<char>::empty());
            lemma_concat_contains(prefix, id, Seq::<char>::empty());
        },
    }
}

/// A delete with no assigned id never yields a request: it always yields the
/// missing-identifier failure, whatever the client and pattern.
pub proof fn lemma_unassigned_delete_is_local_error(
    base: Seq<char>,
    index: Seq<char>,
    doc_type: Option<Seq<char>>,
)
    ensures
        spec_delete_doc_plan(base, index, doc_type, None) == Err::<RequestPlanV, MissingIdV>(
            MissingIdV {
                status: 400,
                reason: "Document id is required for this method! Please use DocId::Assigned(&str)"@,
            },
        ),
{
}

/// A 404 on delete is read exactly as a 200 is: the acknowledgement payload,
/// never a store-reported error.
pub proof fn lemma_delete_not_found_is_success(t: Seq<char>)
    ensures
        spec_classify_delete_doc(404, t) == spec_classify_delete_doc(200, t),
        spec_doc_write_of(t) matches Some(v) ==> spec_classify_delete_doc(404, t) == Ok::<
            DocWriteV,
            EsErrorV,
        >(v),
{
}

/// A 200 and a 201 on a document write are read identically: the same
/// payload shape, so only what the body carries — the `result` field — can
/// differ between an update and a first-time creation.
pub proof fn lemma_created_and_updated_agree(t: Seq<char>)
    ensures
        spec_classify_index_doc(200, t) == spec_classify_index_doc(201, t),
{
}

} // verus!
