//! The error payloads an operation can surface: store-reported failures
//! decoded from a response body, the locally raised missing-identifier
//! failure, decode failures, and unrecognised status codes.

use vstd::prelude::*;
use vstd::string::StringExecFns;

use crate::json::json_arr_len_of;
use crate::json::json_arr_len_at;
use crate::json::json_str_at_of;
use crate::json::json_str_at;
use crate::json::json_u64_at_of;
use crate::json::json_u64_at;
use crate::text::dec_rep;
use crate::text::dec_str;

verus! {

/// One root cause reported with an index-creation failure.
#[derive(Debug, PartialEq)]
pub struct ESClientCreateIndexFailMetadata {
    pub error_type: String,
    pub reason: String,
    pub index_uuid: String,
    pub index: String,
}

pub ghost struct CreateIndexMetaV {
    pub error_type: Seq<char>,
    pub reason: Seq<char>,
    pub index_uuid: Seq<char>,
    pub index: Seq<char>,
}

impl View for ESClientCreateIndexFailMetadata {
    type V = CreateIndexMetaV;

    open spec fn view(&self) -> CreateIndexMetaV {
        CreateIndexMetaV {
            error_type: self.error_type@,
            reason: self.reason@,
            index_uuid: self.index_uuid@,
            index: self.index@,
        }
    }
}

/// The error object of an index-creation failure body.
#[derive(Debug, PartialEq)]
pub struct ESClientCreateIndexError {
    pub root_cause: Vec<ESClientCreateIndexFailMetadata>,
}

/// An index-creation failure reported by the store; carries index-identity
/// metadata that the generic failure shape lacks.
#[derive(Debug, PartialEq)]
pub struct ESClientCreateIndexFail {
    pub error: ESClientCreateIndexError,
    pub status: u16,
}

pub ghost struct CreateIndexFailV {
    pub root_cause: Seq<CreateIndexMetaV>,
    pub status: int,
}

impl View for ESClientCreateIndexFail {
    type V = CreateIndexFailV;

    open spec fn view(&self) -> CreateIndexFailV {
        CreateIndexFailV {
            root_cause: self.error.root_cause@.map_values(|m: ESClientCreateIndexFailMetadata| m@),
            status: self.status as int,
        }
    }
}

/// One root cause reported with a generic failure.
#[derive(Debug, PartialEq)]
pub struct ESGenericFailMetadata {
    pub error_type: String,
    pub reason: String,
}

pub ghost struct GenericMetaV {
    pub error_type: Seq<char>,
    pub reason: Seq<char>,
}

impl View for ESGenericFailMetadata {
    type V = GenericMetaV;

    open spec fn view(&self) -> GenericMetaV {
        GenericMetaV { error_type: self.error_type@, reason: self.reason@ }
    }
}

/// The error object of a generic failure body.
#[derive(Debug, PartialEq)]
pub struct ESGenericError {
    pub root_cause: Vec<ESGenericFailMetadata>,
}

/// A generic failure reported by the store; search and document writes use
/// this shape.
#[derive(Debug, PartialEq)]
pub struct ESGenericFail {
    pub error: ESGenericError,
    pub status: u16,
}

pub ghost struct GenericFailV {
    pub root_cause: Seq<GenericMetaV>,
    pub status: int,
}

impl View for ESGenericFail {
    type V = GenericFailV;

    open spec fn view(&self) -> GenericFailV {
        GenericFailV {
            root_cause: self.error.root_cause@.map_values(|m: ESGenericFailMetadata| m@),
            status: self.status as int,
        }
    }
}

/// The failure raised locally when an operation that needs a document id is
/// invoked without one; never parsed from a response.
#[derive(Debug, PartialEq)]
pub struct ESMissingId {
    pub status: u16,
    pub reason: String,
}

pub ghost struct MissingIdV {
    pub status: int,
    pub reason: Seq<char>,
}

impl View for ESMissingId {
    type V = MissingIdV;

    open spec fn view(&self) -> MissingIdV {
        MissingIdV { status: self.status as int, reason: self.reason@ }
    }
}

impl ESMissingId {
    pub fn new() -> (r: ESMissingId)
        ensures
            r.status == 400,
            r.reason@ == "Document id is required for this method! Please use DocId::Assigned(&str)"@,
    {
        ESMissingId {
            reason: String::from_str(
                "Document id is required for this method! Please use DocId::Assigned(&str)",
            ),
            status: 400,
        }
    }

    /// The failure rendered as one line of text.
    pub fn message(&self) -> (r: String)
        ensures
            r@ == "reason: "@ + self.reason@ + ", status: "@ + dec_rep(self.status as nat),
    {
        let mut m = String::from_str("reason: ");
        m.append(self.reason.as_str());
        m.append(", status: ");
        m.append(dec_str(self.status as u64).as_str());
        proof {
            assert(m@ =~= "reason: "@ + self.reason@ + ", status: "@ + dec_rep(
                self.status as nat,
            ));
        }
        m
    }
}

impl ESGenericFail {
    /// The reason of the first reported root cause, or nothing.
    pub open spec fn first_reason(&self) -> Seq<char> {
        if self.error.root_cause@.len() > 0 {
            self.error.root_cause@[0].reason@
        } else {
            Seq::<char>::empty()
        }
    }

    /// The failure rendered as one line of text.
    pub fn message(&self) -> (r: String)
        ensures
            r@ == "error: "@ + self.first_reason() + ", status: "@ + dec_rep(self.status as nat),
    {
        let mut m = String::from_str("error: ");
        if self.error.root_cause.len() > 0 {
            m.append(self.error.root_cause[0].reason.as_str());
        }
        m.append(", status: ");
        m.append(dec_str(self.status as u64).as_str());
        proof {
            assert(m@ =~= "error: "@ + self.first_reason() + ", status: "@ + dec_rep(
                self.status as nat,
            ));
        }
        m
    }
}

impl ESClientCreateIndexFail {
    /// The reason of the first reported root cause, or nothing.
    pub open spec fn first_reason(&self) -> Seq<char> {
        if self.error.root_cause@.len() > 0 {
            self.error.root_cause@[0].reason@
        } else {
            Seq::<char>::empty()
        }
    }

    /// The failure rendered as one line of text.
    pub fn message(&self) -> (r: String)
        ensures
            r@ == "error: "@ + self.first_reason() + ", status: "@ + dec_rep(self.status as nat),
    {
        let mut m = String::from_str("error: ");
        if self.error.root_cause.len() > 0 {
            m.append(self.error.root_cause[0].reason.as_str());
        }
        m.append(", status: ");
        m.append(dec_str(self.status as u64).as_str());
        proof {
            assert(m@ =~= "error: "@ + self.first_reason() + ", status: "@ + dec_rep(
                self.status as nat,
            ));
        }
        m
    }
}

/// Everything an operation can fail with.
#[derive(Debug, PartialEq)]
pub enum EsError {
    /// A store-reported failure in the generic shape.
    Generic(ESGenericFail),
    /// A store-reported index-creation failure.
    CreateIndex(ESClientCreateIndexFail),
    /// A locally raised missing-identifier failure.
    MissingId(ESMissingId),
    /// The body did not match the shape the status code called for.
    Decode,
    /// A status code outside the classified set.
    UnexpectedStatus(u16),
}

pub ghost enum EsErrorV {
    Generic(GenericFailV),
    CreateIndex(CreateIndexFailV),
    MissingId(MissingIdV),
    Decode,
    UnexpectedStatus(int),
}

impl View for EsError {
    type V = EsErrorV;

    open spec fn view(&self) -> EsErrorV {
        match self {
            EsError::Generic(f) => EsErrorV::Generic(f@),
            EsError::CreateIndex(f) => EsErrorV::CreateIndex(f@),
            EsError::MissingId(f) => EsErrorV::MissingId(f@),
            EsError::Decode => EsErrorV::Decode,
            EsError::UnexpectedStatus(s) => EsErrorV::UnexpectedStatus(*s as int),
        }
    }
}

/// The JSON-pointer path of one field of the `i`th reported root cause.
pub open spec fn spec_rc_ptr(i: nat, field: Seq<char>) -> Seq<char> {
    "/error/root_cause/"@ + dec_rep(i) + "/"@ + field
}

fn rc_ptr(i: usize, field: &str) -> (r: String)
    ensures
        r@ == spec_rc_ptr(i as nat, field@),
{
    let mut p = String::from_str("/error/root_cause/");
    p.append(dec_str(i as u64).as_str());
    p.append("/");
    p.append(field);
    proof {
        assert(p@ =~= spec_rc_ptr(i as nat, field@));
    }
    p
}

/// The `i`th root cause of a generic failure body, if it carries both
/// required fields.
pub open spec fn spec_generic_meta_of(t: Seq<char>, i: nat) -> Option<GenericMetaV> {
    let ty = json_str_at_of(t, spec_rc_ptr(i, "type"@));
    let reason = json_str_at_of(t, spec_rc_ptr(i, "reason"@));
    if ty is Some && reason is Some {
        Some(GenericMetaV { error_type: ty->0, reason: reason->0 })
    } else {
        None
    }
}

/// The first `n` root causes of a generic failure body, if each decodes.
pub open spec fn spec_generic_metas_of(t: Seq<char>, n: nat) -> Option<Seq<GenericMetaV>>
    decreases n,
{
    if n == 0 {
        Some(Seq::<GenericMetaV>::empty())
    } else {
        match (spec_generic_metas_of(t, (n - 1) as nat), spec_generic_meta_of(t, (n - 1) as nat)) {
            (Some(s), Some(m)) => Some(s.push(m)),
            _ => None,
        }
    }
}

proof fn lemma_generic_metas_none(t: Seq<char>, i: nat, n: nat)
    requires
        i < n,
        spec_generic_meta_of(t, i) is None,
    ensures
        spec_generic_metas_of(t, n) is None,
    decreases n,
{
    if i < n - 1 {
        lemma_generic_metas_none(t, i, (n - 1) as nat);
    }
}

/// A generic failure body: a `status` within range and a root-cause array
/// whose entries all decode.
pub open spec fn spec_generic_fail_of(t: Seq<char>) -> Option<GenericFailV> {
    let status = json_u64_at_of(t, "/status"@);
    let n = json_arr_len_of(t, "/error/root_cause"@);
    if status is Some && status->0 <= u16::MAX && n is Some && spec_generic_metas_of(t, n->0)
        is Some {
        Some(GenericFailV { root_cause: spec_generic_metas_of(t, n->0)->0, status: status->0 as int })
    } else {
        None
    }
}

/// Decodes a generic failure body.
pub fn decode_generic_fail(text: &str) -> (r: Option<ESGenericFail>)
    ensures
        r is Some <==> spec_generic_fail_of(text@) is Some,
        r is Some ==> r->0@ == spec_generic_fail_of(text@)->0,
{
    let status = match json_u64_at(text, "/status") {
        Some(s) => s,
        None => {
            return None;
        },
    };
    if status > u16::MAX as u64 {
        return None;
    }
    let n = match json_arr_len_at(text, "/error/root_cause") {
        Some(n) => n,
        None => {
            return None;
        },
    };
    let mut root_cause: Vec<ESGenericFailMetadata> = Vec::new();
    let mut i: usize = 0;
    while i < n
        invariant
            0 <= i <= n,
            json_arr_len_of(text@, "/error/root_cause"@) == Some(n as nat),
            spec_generic_metas_of(text@, i as nat) == Some(
                root_cause@.map_values(|m: ESGenericFailMetadata| m@),
            ),
        decreases n - i,
    {
        let ty = match json_str_at(text, rc_ptr(i, "type").as_str()) {
            Some(s) => s,
            None => {
                proof {
                    lemma_generic_metas_none(text@, i as nat, n as nat);
                }
                return None;
            },
        };
        let reason = match json_str_at(text, rc_ptr(i, "reason").as_str()) {
            Some(s) => s,
            None => {
                proof {
                    lemma_generic_metas_none(text@, i as nat, n as nat);
                }
                return None;
            },
        };
        let ghost old_views = root_cause@.map_values(|m: ESGenericFailMetadata| m@);
        root_cause.push(ESGenericFailMetadata { error_type: ty, reason });
        proof {
            assert(root_cause@.map_values(|m: ESGenericFailMetadata| m@) =~= old_views.push(
                spec_generic_meta_of(text@, i as nat)->0,
            ));
        }
        i += 1;
    }
    let fail = ESGenericFail { error: ESGenericError { root_cause }, status: status as u16 };
    Some(fail)
}

/// The `i`th root cause of an index-creation failure body, if it carries all
/// four required fields.
pub open spec fn spec_create_index_meta_of(t: Seq<char>, i: nat) -> Option<CreateIndexMetaV> {
    let ty = json_str_at_of(t, spec_rc_ptr(i, "type"@));
    let reason = json_str_at_of(t, spec_rc_ptr(i, "reason"@));
    let index_uuid = json_str_at_of(t, spec_rc_ptr(i, "index_uuid"@));
    let index = json_str_at_of(t, spec_rc_ptr(i, "index"@));
    if ty is Some && reason is Some && index_uuid is Some && index is Some {
        Some(
            CreateIndexMetaV {
                error_type: ty->0,
                reason: reason->0,
                index_uuid: index_uuid->0,
                index: index->0,
            },
        )
    } else {
        None
    }
}

/// The first `n` root causes of an index-creation failure body, if each
/// decodes.
pub open spec fn spec_create_index_metas_of(t: Seq<char>, n: nat) -> Option<Seq<CreateIndexMetaV>>
    decreases n,
{
    if n == 0 {
        Some(Seq::<CreateIndexMetaV>::empty())
    } else {
        match (
            spec_create_index_metas_of(t, (n - 1) as nat),
            spec_create_index_meta_of(t, (n - 1) as nat),
        ) {
            (Some(s), Some(m)) => Some(s.push(m)),
            _ => None,
        }
    }
}

proof fn lemma_create_index_metas_none(t: Seq<char>, i: nat, n: nat)
    requires
        i < n,
        spec_create_index_meta_of(t, i) is None,
    ensures
        spec_create_index_metas_of(t, n) is None,
    decreases n,
{
    if i < n - 1 {
        lemma_create_index_metas_none(t, i, (n - 1) as nat);
    }
}

/// An index-creation failure body: a `status` within range and a root-cause
/// array whose entries all decode.
pub open spec fn spec_create_index_fail_of(t: Seq<char>) -> Option<CreateIndexFailV> {
    let status = json_u64_at_of(t, "/status"@);
    let n = json_arr_len_of(t, "/error/root_cause"@);
    if status is Some && status->0 <= u16::MAX && n is Some && spec_create_index_metas_of(t, n->0)
        is Some {
        Some(
            CreateIndexFailV {
                root_cause: spec_create_index_metas_of(t, n->0)->0,
                status: status->0 as int,
            },
        )
    } else {
        None
    }
}

/// Decodes an index-creation failure body.
pub fn decode_create_index_fail(text: &str) -> (r: Option<ESClientCreateIndexFail>)
    ensures
        r is Some <==> spec_create_index_fail_of(text@) is Some,
        r is Some ==> r->0@ == spec_create_index_fail_of(text@)->0,
{
    let status = match json_u64_at(text, "/status") {
        Some(s) => s,
        None => {
            return None;
        },
    };
    if status > u16::MAX as u64 {
        return None;
    }
    let n = match json_arr_len_at(text, "/error/root_cause") {
        Some(n) => n,
        None => {
            return None;
        },
    };
    let mut root_cause: Vec<ESClientCreateIndexFailMetadata> = Vec::new();
    let mut i: usize = 0;
    while i < n
        invariant
            0 <= i <= n,
            json_arr_len_of(text@, "/error/root_cause"@) == Some(n as nat),
            spec_create_index_metas_of(text@, i as nat) == Some(
                root_cause@.map_values(|m: ESClientCreateIndexFailMetadata| m@),
            ),
        decreases n - i,
    {
        let ty = match json_str_at(text, rc_ptr(i, "type").as_str()) {
            Some(s) => s,
            None => {
                proof {
                    lemma_create_index_metas_none(text@, i as nat, n as nat);
                }
                return None;
            },
        };
        let reason = match json_str_at(text, rc_ptr(i, "reason").as_str()) {
            Some(s) => s,
            None => {
                proof {
                    lemma_create_index_metas_none(text@, i as nat, n as nat);
                }
                return None;
            },
        };
        let index_uuid = match json_str_at(text, rc_ptr(i, "index_uuid").as_str()) {
            Some(s) => s,
            None => {
                proof {
                    lemma_create_index_metas_none(text@, i as nat, n as nat);
                }
                return None;
            },
        };
        let index = match json_str_at(text, rc_ptr(i, "index").as_str()) {
            Some(s) => s,
            None => {
                proof {
                    lemma_create_index_metas_none(text@, i as nat, n as nat);
                }
                return None;
            },
        };
        let ghost old_views = root_cause@.map_values(|m: ESClientCreateIndexFailMetadata| m@);
        root_cause.push(
            ESClientCreateIndexFailMetadata { error_type: ty, reason, index_uuid, index },
        );
        proof {
            assert(root_cause@.map_values(|m: ESClientCreateIndexFailMetadata| m@)
                =~= old_views.push(spec_create_index_meta_of(text@, i as nat)->0));
        }
        i += 1;
    }
    let fail = ESClientCreateIndexFail {
        error: ESClientCreateIndexError { root_cause },
        status: status as u16,
    };
    Some(fail)
}

} // verus!
