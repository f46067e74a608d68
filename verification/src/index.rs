//! The create-index operation: the `PUT /{index}` request shape and the
//! classification of its response.

use vstd::prelude::*;

use crate::client::EsClient;
use crate::client::Method;
use crate::client::RequestPlan;
use crate::errors::spec_create_index_fail_of;
use crate::errors::spec_create_index_meta_of;
use crate::errors::spec_create_index_metas_of;
use crate::errors::spec_rc_ptr;
use crate::errors::decode_create_index_fail;
use crate::errors::EsError;
use crate::errors::EsErrorV;
use crate::json::json_arr_len_of;
use crate::json::json_bool_at_of;
use crate::json::json_bool_at;
use crate::json::json_str_at_of;
use crate::json::json_str_at;
use crate::json::json_u64_at_of;
use crate::result_view;

verus! {

/// The store's acknowledgement of a created index.
#[derive(Debug, PartialEq)]
pub struct EsIndexCreateSuccess {
    pub acknowledged: bool,
    pub shards_acknowledged: bool,
    pub index: String,
}

pub ghost struct IndexCreateSuccessV {
    pub acknowledged: bool,
    pub shards_acknowledged: bool,
    pub index: Seq<char>,
}

impl View for EsIndexCreateSuccess {
    type V = IndexCreateSuccessV;

    open spec fn view(&self) -> IndexCreateSuccessV {
        IndexCreateSuccessV {
            acknowledged: self.acknowledged,
            shards_acknowledged: self.shards_acknowledged,
            index: self.index@,
        }
    }
}

/// A create-index success body: both acknowledgement flags and the index
/// name.
pub open spec fn spec_index_create_of(t: Seq<char>) -> Option<IndexCreateSuccessV> {
    let acknowledged = json_bool_at_of(t, "/acknowledged"@);
    let shards_acknowledged = json_bool_at_of(t, "/shards_acknowledged"@);
    let index = json_str_at_of(t, "/index"@);
    if acknowledged is Some && shards_acknowledged is Some && index is Some {
        Some(
            IndexCreateSuccessV {
                acknowledged: acknowledged->0,
                shards_acknowledged: shards_acknowledged->0,
                index: index->0,
            },
        )
    } else {
        None
    }
}

/// How a create-index response is read: 200 and 201 both carry the success
/// payload, 400 carries the index-creation failure payload, and any other
/// status is unexpected.
pub open spec fn spec_classify_create_index(status: int, t: Seq<char>) -> Result<
    IndexCreateSuccessV,
    EsErrorV,
> {
    if status == 200 || status == 201 {
        match spec_index_create_of(t) {
            Some(v) => Ok(v),
            None => Err(EsErrorV::Decode),
        }
    } else if status == 400 {
        match spec_create_index_fail_of(t) {
            Some(f) => Err(EsErrorV::CreateIndex(f)),
            None => Err(EsErrorV::Decode),
        }
    } else {
        Err(EsErrorV::UnexpectedStatus(status))
    }
}

/// The `PUT /{index}` request that creates an index.
pub fn create_index_plan(client: &EsClient, index: &str) -> (r: RequestPlan)
    ensures
        r.method == Method::Put,
        r.url@ == client.base_url() + "/"@ + index@,
{
    client.put(Some(index), None)
}

/// Classifies a create-index response by its status code and body.
pub fn classify_create_index(status: u16, text: &str) -> (r: Result<EsIndexCreateSuccess, EsError>)
    ensures
        result_view(r) == spec_classify_create_index(status as int, text@),
{
    if status == 200 || status == 201 {
        let acknowledged = json_bool_at(text, "/acknowledged");
        let shards_acknowledged = json_bool_at(text, "/shards_acknowledged");
        let index = json_str_at(text, "/index");
        match (acknowledged, shards_acknowledged, index) {
            (Some(acknowledged), Some(shards_acknowledged), Some(index)) => Ok(
                EsIndexCreateSuccess { acknowledged, shards_acknowledged, index },
            ),
            _ => Err(EsError::Decode),
        }
    } else if status == 400 {
        match decode_create_index_fail(text) {
            Some(fail) => Err(EsError::CreateIndex(fail)),
            None => Err(EsError::Decode),
        }
    } else {
        Err(EsError::UnexpectedStatus(status))
    }
}

proof fn lemma_create_index_metas_len(t: Seq<char>, n: nat)
    requires
        spec_create_index_metas_of(t, n) is Some,
    ensures
        spec_create_index_metas_of(t, n)->0.len() == n,
    decreases n,
{
    if n > 0 {
        lemma_create_index_metas_len(t, (n - 1) as nat);
    }
}

proof fn lemma_create_index_metas_index(t: Seq<char>, n: nat, i: nat)
    requires
        spec_create_index_metas_of(t, n) is Some,
        i < n,
    ensures
        spec_create_index_meta_of(t, i) is Some,
        spec_create_index_metas_of(t, n)->0[i as int] == spec_create_index_meta_of(t, i)->0,
    decreases n,
{
    lemma_create_index_metas_len(t, (n - 1) as nat);
    if i < n - 1 {
        lemma_create_index_metas_index(t, (n - 1) as nat, i);
    }
}

/// A 400 on create-index yields the index-creation failure payload, carrying
/// the status the body reports and, entry for entry, the root causes it
/// reports — in particular the first root-cause's reason text.
pub proof fn lemma_create_index_bad_request(t: Seq<char>)
    requires
        spec_create_index_fail_of(t) is Some,
    ensures
        spec_classify_create_index(400, t) == Err::<IndexCreateSuccessV, EsErrorV>(
            EsErrorV::CreateIndex(spec_create_index_fail_of(t)->0),
        ),
        spec_create_index_fail_of(t)->0.status == json_u64_at_of(t, "/status"@)->0 as int,
        json_arr_len_of(t, "/error/root_cause"@)->0 > 0 ==> spec_create_index_fail_of(
            t,
        )->0.root_cause[0].reason == json_str_at_of(t, spec_rc_ptr(0, "reason"@))->0,
{
    let n = json_arr_len_of(t, "/error/root_cause"@)->0;
    if n > 0 {
        lemma_create_index_metas_index(t, n, 0);
    }
}

} // verus!
