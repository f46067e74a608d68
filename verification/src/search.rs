//! The search operation: the `POST .../_search` request shape and the
//! classification of its response. A hit's source document is kept as the
//! raw JSON text it arrived as; the caller decodes it into its own type.

use vstd::prelude::*;
use vstd::string::StringExecFns;

use crate::client::EsClient;
use crate::client::IndexPattern;
use crate::client::join_segment;
use crate::client::Method;
use crate::client::RequestPlan;
use crate::client::RequestPlanV;
use crate::errors::spec_generic_fail_of;
use crate::errors::decode_generic_fail;
use crate::errors::EsError;
use crate::errors::EsErrorV;
use crate::json::json_arr_len_of;
use crate::json::json_arr_len_at;
use crate::json::json_bool_at_of;
use crate::json::json_bool_at;
use crate::json::json_num_at_of;
use crate::json::json_num_at;
use crate::json::json_raw_at_of;
use crate::json::json_raw_at;
use crate::json::json_str_at_of;
use crate::json::json_str_at;
use crate::json::json_u64_at_of;
use crate::json::json_u64_at;
use crate::result_view;
use crate::text::dec_rep;
use crate::text::dec_str;

verus! {

/// The shard bookkeeping of a search.
#[derive(Debug, PartialEq)]
pub struct ShardResults {
    pub total: u16,
    pub successful: u16,
    pub skipped: u16,
    pub failed: u16,
}

pub ghost struct SearchShardsV {
    pub total: int,
    pub successful: int,
    pub skipped: int,
    pub failed: int,
}

impl View for ShardResults {
    type V = SearchShardsV;

    open spec fn view(&self) -> SearchShardsV {
        SearchShardsV {
            total: self.total as int,
            successful: self.successful as int,
            skipped: self.skipped as int,
            failed: self.failed as int,
        }
    }
}

/// One search hit; `source` is the hit's document as raw JSON text and
/// `score` is the hit's score as number text.
#[derive(Debug, PartialEq)]
pub struct Data {
    pub source: String,
    pub index: String,
    pub doc_type: String,
    pub id: String,
    pub score: String,
}

pub ghost struct DataV {
    pub source: Seq<char>,
    pub index: Seq<char>,
    pub doc_type: Seq<char>,
    pub id: Seq<char>,
    pub score: Seq<char>,
}

impl View for Data {
    type V = DataV;

    open spec fn view(&self) -> DataV {
        DataV {
            source: self.source@,
            index: self.index@,
            doc_type: self.doc_type@,
            id: self.id@,
            score: self.score@,
        }
    }
}

/// The hits block of a search response; `max_score` is number text, absent
/// when the store reports none.
#[derive(Debug, PartialEq)]
pub struct HitResults {
    pub hits: Vec<Data>,
    pub total: u16,
    pub max_score: Option<String>,
}

pub ghost struct HitResultsV {
    pub hits: Seq<DataV>,
    pub total: int,
    pub max_score: Option<Seq<char>>,
}

impl View for HitResults {
    type V = HitResultsV;

    open spec fn view(&self) -> HitResultsV {
        HitResultsV {
            hits: self.hits@.map_values(|d: Data| d@),
            total: self.total as int,
            max_score: self.max_score.deep_view(),
        }
    }
}

/// A search response: timing, shard bookkeeping and the hits block.
#[derive(Debug, PartialEq)]
pub struct EsSearchResponse {
    pub took: u16,
    pub timed_out: bool,
    pub shards: ShardResults,
    pub hits: HitResults,
}

pub ghost struct SearchResponseV {
    pub took: int,
    pub timed_out: bool,
    pub shards: SearchShardsV,
    pub hits: HitResultsV,
}

impl View for EsSearchResponse {
    type V = SearchResponseV;

    open spec fn view(&self) -> SearchResponseV {
        SearchResponseV {
            took: self.took as int,
            timed_out: self.timed_out,
            shards: self.shards@,
            hits: self.hits@,
        }
    }
}

/// The JSON-pointer path of one field of the `i`th hit.
pub open spec fn spec_hit_ptr(i: nat, field: Seq<char>) -> Seq<char> {
    "/hits/hits/"@ + dec_rep(i) + "/"@ + field
}

fn hit_ptr(i: usize, field: &str) -> (r: String)
    ensures
        r@ == spec_hit_ptr(i as nat, field@),
{
    let mut p = String::from_str("/hits/hits/");
    p.append(dec_str(i as u64).as_str());
    p.append("/");
    p.append(field);
    proof {
        assert(p@ =~= spec_hit_ptr(i as nat, field@));
    }
    p
}

/// The `i`th hit of a search body, if it carries all five fields.
pub open spec fn spec_hit_of(t: Seq<char>, i: nat) -> Option<DataV> {
    let source = json_raw_at_of(t, spec_hit_ptr(i, "_source"@));
    let index = json_str_at_of(t, spec_hit_ptr(i, "_index"@));
    let doc_type = json_str_at_of(t, spec_hit_ptr(i, "_type"@));
    let id = json_str_at_of(t, spec_hit_ptr(i, "_id"@));
    let score = json_num_at_of(t, spec_hit_ptr(i, "_score"@));
    if source is Some && index is Some && doc_type is Some && id is Some && score is Some {
        Some(
            DataV {
                source: source->0,
                index: index->0,
                doc_type: doc_type->0,
                id: id->0,
                score: score->0,
            },
        )
    } else {
        None
    }
}

/// The first `n` hits of a search body, if each decodes.
pub open spec fn spec_hits_of(t: Seq<char>, n: nat) -> Option<Seq<DataV>>
    decreases n,
{
    if n == 0 {
        Some(Seq::<DataV>::empty())
    } else {
        match (spec_hits_of(t, (n - 1) as nat), spec_hit_of(t, (n - 1) as nat)) {
            (Some(s), Some(h)) => Some(s.push(h)),
            _ => None,
        }
    }
}

/// A search success body: timing, shard counts and hit totals within range,
/// and a hits array whose entries all decode.
pub open spec fn spec_search_of(t: Seq<char>) -> Option<SearchResponseV> {
    let took = json_u64_at_of(t, "/took"@);
    let timed_out = json_bool_at_of(t, "/timed_out"@);
    let total = json_u64_at_of(t, "/_shards/total"@);
    let successful = json_u64_at_of(t, "/_shards/successful"@);
    let skipped = json_u64_at_of(t, "/_shards/skipped"@);
    let failed = json_u64_at_of(t, "/_shards/failed"@);
    let hits_total = json_u64_at_of(t, "/hits/total"@);
    let max_score = json_num_at_of(t, "/hits/max_score"@);
    let n = json_arr_len_of(t, "/hits/hits"@);
    if took is Some && took->0 <= u16::MAX && timed_out is Some && total is Some && total->0
        <= u16::MAX && successful is Some && successful->0 <= u16::MAX && skipped is Some
        && skipped->0 <= u16::MAX && failed is Some && failed->0 <= u16::MAX && hits_total is Some
        && hits_total->0 <= u16::MAX && n is Some && spec_hits_of(t, n->0) is Some {
        Some(
            SearchResponseV {
                took: took->0 as int,
                timed_out: timed_out->0,
                shards: SearchShardsV {
                    total: total->0 as int,
                    successful: successful->0 as int,
                    skipped: skipped->0 as int,
                    failed: failed->0 as int,
                },
                hits: HitResultsV {
                    hits: spec_hits_of(t, n->0)->0,
                    total: hits_total->0 as int,
                    max_score,
                },
            },
        )
    } else {
        None
    }
}

/// How a search response is read: 200 and 201 both carry the search payload,
/// 400 and 404 carry the generic failure payload, and any other status is
/// unexpected.
pub open spec fn spec_classify_search(status: int, t: Seq<char>) -> Result<
    SearchResponseV,
    EsErrorV,
> {
    if status == 200 || status == 201 {
        match spec_search_of(t) {
            Some(v) => Ok(v),
            None => Err(EsErrorV::Decode),
        }
    } else if status == 400 || status == 404 {
        match spec_generic_fail_of(t) {
            Some(f) => Err(EsErrorV::Generic(f)),
            None => Err(EsErrorV::Decode),
        }
    } else {
        Err(EsErrorV::UnexpectedStatus(status))
    }
}

/// The `POST .../_search` request that carries a query.
pub fn search_plan<'a>(client: &EsClient, search_on: IndexPattern<'a>) -> (r: RequestPlan)
    ensures
        r@ == (RequestPlanV {
            method: Method::Post,
            url: join_segment(
                join_segment(
                    client.base_url() + "/"@ + search_on.index_seq(),
                    search_on.doc_type_seq(),
                ),
                Some("_search"@),
            ),
        }),
{
    let (index, doc_type) = match search_on {
        IndexPattern::Index(index) => (index, None),
        IndexPattern::IndexType(index, doc_type) => (index, Some(doc_type)),
    };
    client.post(index, doc_type, Some("_search"))
}

proof fn lemma_hits_none(t: Seq<char>, i: nat, n: nat)
    requires
        i < n,
        spec_hit_of(t, i) is None,
    ensures
        spec_hits_of(t, n) is None,
    decreases n,
{
    if i < n - 1 {
        lemma_hits_none(t, i, (n - 1) as nat);
    }
}

proof fn lemma_hits_len(t: Seq<char>, n: nat)
    requires
        spec_hits_of(t, n) is Some,
    ensures
        spec_hits_of(t, n)->0.len() == n,
    decreases n,
{
    if n > 0 {
        lemma_hits_len(t, (n - 1) as nat);
    }
}

fn decode_hits(text: &str, n: usize) -> (r: Option<Vec<Data>>)
    requires
        json_arr_len_of(text@, "/hits/hits"@) == Some(n as nat),
    ensures
        r is Some <==> spec_hits_of(text@, n as nat) is Some,
        r matches Some(hits) ==> spec_hits_of(text@, n as nat) == Some(
            hits@.map_values(|d: Data| d@),
        ),
{
    let mut hits: Vec<Data> = Vec::new();
    let mut i: usize = 0;
    while i < n
        invariant
            0 <= i <= n,
            spec_hits_of(text@, i as nat) == Some(hits@.map_values(|d: Data| d@)),
        decreases n - i,
    {
        let source = match json_raw_at(text, hit_ptr(i, "_source").as_str()) {
            Some(v) => v,
            None => {
                proof {
                    lemma_hits_none(text@, i as nat, n as nat);
                }
                return None;
            },
        };
        let index = match json_str_at(text, hit_ptr(i, "_index").as_str()) {
            Some(v) => v,
            None => {
                proof {
                    lemma_hits_none(text@, i as nat, n as nat);
                }
                return None;
            },
        };
        let doc_type = match json_str_at(text, hit_ptr(i, "_type").as_str()) {
            Some(v) => v,
            None => {
                proof {
                    lemma_hits_none(text@, i as nat, n as nat);
                }
                return None;
            },
        };
        let id = match json_str_at(text, hit_ptr(i, "_id").as_str()) {
            Some(v) => v,
            None => {
                proof {
                    lemma_hits_none(text@, i as nat, n as nat);
                }
                return None;
            },
        };
        let score = match json_num_at(text, hit_ptr(i, "_score").as_str()) {
            Some(v) => v,
            None => {
                proof {
                    lemma_hits_none(text@, i as nat, n as nat);
                }
                return None;
            },
        };
        let ghost old_views = hits@.map_values(|d: Data| d@);
        hits.push(Data { source, index, doc_type, id, score });
        proof {
            assert(hits@.map_values(|d: Data| d@) =~= old_views.push(
                spec_hit_of(text@, i as nat)->0,
            ));
        }
        i += 1;
    }
    Some(hits)
}

/// Classifies a search response by its status code and body.
pub fn classify_search(status: u16, text: &str) -> (r: Result<EsSearchResponse, EsError>)
    ensures
        result_view(r) == spec_classify_search(status as int, text@),
{
    if status == 200 || status == 201 {
        let took = match json_u64_at(text, "/took") {
            Some(v) => v,
            None => {
                return Err(EsError::Decode);
            },
        };
        let timed_out = match json_bool_at(text, "/timed_out") {
            Some(v) => v,
            None => {
                return Err(EsError::Decode);
            },
        };
        let total = match json_u64_at(text, "/_shards/total") {
            Some(v) => v,
            None => {
                return Err(EsError::Decode);
            },
        };
        let successful = match json_u64_at(text, "/_shards/successful") {
            Some(v) => v,
            None => {
                return Err(EsError::Decode);
            },
        };
        let skipped = match json_u64_at(text, "/_shards/skipped") {
            Some(v) => v,
            None => {
                return Err(EsError::Decode);
            },
        };
        let failed = match json_u64_at(text, "/_shards/failed") {
            Some(v) => v,
            None => {
                return Err(EsError::Decode);
            },
        };
        let hits_total = match json_u64_at(text, "/hits/total") {
            Some(v) => v,
            None => {
                return Err(EsError::Decode);
            },
        };
        if took > u16::MAX as u64 || total > u16::MAX as u64 || successful > u16::MAX as u64
            || skipped > u16::MAX as u64 || failed > u16::MAX as u64 || hits_total > u16::MAX
            as u64 {
            return Err(EsError::Decode);
        }
        let max_score = json_num_at(text, "/hits/max_score");
        let n = match json_arr_len_at(text, "/hits/hits") {
            Some(v) => v,
            None => {
                return Err(EsError::Decode);
            },
        };
        let hits = match decode_hits(text, n) {
            Some(v) => v,
            None => {
                return Err(EsError::Decode);
            },
        };
        Ok(
            EsSearchResponse {
                took: took as u16,
                timed_out,
                shards: ShardResults {
                    total: total as u16,
                    successful: successful as u16,
                    skipped: skipped as u16,
                    failed: failed as u16,
                },
                hits: HitResults { hits, total: hits_total as u16, max_score },
            },
        )
    } else if status == 400 || status == 404 {
        match decode_generic_fail(text) {
            Some(fail) => Err(EsError::Generic(fail)),
            None => Err(EsError::Decode),
        }
    } else {
        Err(EsError::UnexpectedStatus(status))
    }
}

/// A search body whose hits array has length `n` decodes to a result with
/// exactly `n` hits, whose reported total is the body's declared total.
pub proof fn lemma_search_hits_round_trip(t: Seq<char>)
    requires
        spec_search_of(t) is Some,
    ensures
        spec_search_of(t)->0.hits.hits.len() == json_arr_len_of(t, "/hits/hits"@)->0,
        spec_search_of(t)->0.hits.total == json_u64_at_of(t, "/hits/total"@)->0 as int,
        spec_classify_search(200, t) == Ok::<SearchResponseV, EsErrorV>(spec_search_of(t)->0),
{
    lemma_hits_len(t, json_arr_len_of(t, "/hits/hits"@)->0);
}

} // verus!
