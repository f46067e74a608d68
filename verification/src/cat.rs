//! The list-aliases operation: the `GET /_cat/aliases` request shape and the
//! parsing of its plain-text response. The body is not JSON: each non-blank
//! line carries five space-separated fields, and an empty body means no
//! aliases.

use vstd::prelude::*;

use crate::client::EsClient;
use crate::client::Method;
use crate::client::RequestPlan;
use crate::errors::EsError;
use crate::errors::EsErrorV;
use crate::result_view;
use crate::text::split_chars;
use crate::text::split_on;

verus! {

/// One alias record: the five positional fields of a line.
#[derive(Debug, PartialEq)]
pub struct AliasResults {
    pub alias: String,
    pub index: String,
    pub filter: String,
    pub routing_index: String,
    pub routing_search: String,
}

pub ghost struct AliasResultsV {
    pub alias: Seq<char>,
    pub index: Seq<char>,
    pub filter: Seq<char>,
    pub routing_index: Seq<char>,
    pub routing_search: Seq<char>,
}

impl View for AliasResults {
    type V = AliasResultsV;

    open spec fn view(&self) -> AliasResultsV {
        AliasResultsV {
            alias: self.alias@,
            index: self.index@,
            filter: self.filter@,
            routing_index: self.routing_index@,
            routing_search: self.routing_search@,
        }
    }
}

/// The alias records of a cat-aliases response.
#[derive(Debug, PartialEq)]
pub struct AliasResponse {
    pub aliases: Vec<AliasResults>,
}

pub ghost struct AliasResponseV {
    pub aliases: Seq<AliasResultsV>,
}

impl View for AliasResponse {
    type V = AliasResponseV;

    open spec fn view(&self) -> AliasResponseV {
        AliasResponseV { aliases: self.aliases@.map_values(|a: AliasResults| a@) }
    }
}

/// The record read from one line's fields; the first five count, extras are
/// ignored.
pub open spec fn spec_alias_of_fields(f: Seq<Seq<char>>) -> AliasResultsV {
    AliasResultsV {
        alias: f[0],
        index: f[1],
        filter: f[2],
        routing_index: f[3],
        routing_search: f[4],
    }
}

/// The alias records of a sequence of lines: blank lines are skipped, and a
/// non-blank line with fewer than five fields fails the parse.
pub open spec fn spec_aliases_of_lines(lines: Seq<Seq<char>>) -> Option<Seq<AliasResultsV>>
    decreases lines.len(),
{
    if lines.len() == 0 {
        Some(Seq::<AliasResultsV>::empty())
    } else {
        let line = lines[0];
        let rest = spec_aliases_of_lines(lines.drop_first());
        if line.len() == 0 {
            rest
        } else {
            let fields = split_chars(line, ' ');
            if fields.len() < 5 {
                None
            } else {
                match rest {
                    Some(r) => Some(seq![spec_alias_of_fields(fields)] + r),
                    None => None,
                }
            }
        }
    }
}

/// The alias records of a whole body: its newline-separated lines, parsed.
pub open spec fn spec_aliases_of(t: Seq<char>) -> Option<Seq<AliasResultsV>> {
    spec_aliases_of_lines(split_chars(t, '\n'))
}

/// How a cat-aliases response is read: 200 and 201 both carry the plain-text
/// alias list, and any other status is unexpected.
pub open spec fn spec_classify_aliases(status: int, t: Seq<char>) -> Result<
    AliasResponseV,
    EsErrorV,
> {
    if status == 200 || status == 201 {
        match spec_aliases_of(t) {
            Some(a) => Ok(AliasResponseV { aliases: a }),
            None => Err(EsErrorV::Decode),
        }
    } else {
        Err(EsErrorV::UnexpectedStatus(status))
    }
}

/// The `GET /_cat/aliases` request that lists aliases.
pub fn aliases_plan(client: &EsClient) -> (r: RequestPlan)
    ensures
        r.method == Method::Get,
        r.url@ == client.base_url() + "/"@ + "_cat/aliases"@,
{
    client.get(Some("_cat/aliases"))
}

/// Classifies a cat-aliases response by its status code and body.
pub fn classify_aliases(status: u16, text: &str) -> (r: Result<AliasResponse, EsError>)
    ensures
        result_view(r) == spec_classify_aliases(status as int, text@),
{
    if status != 200 && status != 201 {
        return Err(EsError::UnexpectedStatus(status));
    }
    let lines = split_on(text, '\n');
    let ghost lv = lines.deep_view();
    let n = lines.len();
    let mut aliases: Vec<AliasResults> = Vec::new();
    let mut k: usize = 0;
    proof {
        assert(lv.subrange(0, n as int) =~~= lv);
    }
    while k < n
        invariant
            status == 200 || status == 201,
            0 <= k <= n,
            n == lv.len(),
            lv == lines.deep_view(),
            n == lines@.len(),
            spec_aliases_of(text@) == (match spec_aliases_of_lines(
                lv.subrange(k as int, n as int),
            ) {
                Some(rest) => Some(aliases@.map_values(|a: AliasResults| a@) + rest),
                None => None::<Seq<AliasResultsV>>,
            }),
        decreases n - k,
    {
        proof {
            assert(lv.subrange(k as int, n as int)[0] == lv[k as int]);
            assert(lv.subrange(k as int, n as int).drop_first() =~~= lv.subrange(
                k + 1 as int,
                n as int,
            ));
            assert(lines@[k as int]@ == lv[k as int]);
        }
        let line = &lines[k];
        if !line.as_str().is_empty() {
            let fields = split_on(line.as_str(), ' ');
            if fields.len() < 5 {
                proof {
                    let suffix = lv.subrange(k as int, n as int);
                    assert(fields.deep_view().len() == fields@.len());
                    assert(split_chars(lv[k as int], ' ').len() < 5);
                    assert(spec_aliases_of_lines(suffix) is None);
                }
                return Err(EsError::Decode);
            }
            let record = AliasResults {
                alias: fields[0].clone(),
                index: fields[1].clone(),
                filter: fields[2].clone(),
                routing_index: fields[3].clone(),
                routing_search: fields[4].clone(),
            };
            proof {
                let f = split_chars(lv[k as int], ' ');
                assert(fields.deep_view()[0] == f[0]);
                assert(fields.deep_view()[1] == f[1]);
                assert(fields.deep_view()[2] == f[2]);
                assert(fields.deep_view()[3] == f[3]);
                assert(fields.deep_view()[4] == f[4]);
                assert(record@ == spec_alias_of_fields(f));
            }
            let ghost old_views = aliases@.map_values(|a: AliasResults| a@);
            aliases.push(record);
            proof {
                assert(aliases@.map_values(|a: AliasResults| a@) =~= old_views.push(
                    spec_alias_of_fields(split_chars(lv[k as int], ' ')),
                ));
                if let Some(rest) = spec_aliases_of_lines(lv.subrange(k + 1 as int, n as int)) {
                    assert(old_views + (seq![
                        spec_alias_of_fields(split_chars(lv[k as int], ' ')),
                    ] + rest) =~= aliases@.map_values(|a: AliasResults| a@) + rest);
                }
            }
        }
        k += 1;
    }
    proof {
        assert(lv.subrange(n as int, n as int) =~~= Seq::<Seq<char>>::empty());
        assert(spec_aliases_of(text@) == Some(aliases@.map_values(|a: AliasResults| a@)));
    }
    Ok(AliasResponse { aliases })
}

/// An empty response body yields an alias list of length zero.
pub proof fn lemma_empty_body_no_aliases()
    ensures
        spec_classify_aliases(200, Seq::<char>::empty()) == Ok::<AliasResponseV, EsErrorV>(
            AliasResponseV { aliases: Seq::<AliasResultsV>::empty() },
        ),
{
    let lines = split_chars(Seq::<char>::empty(), '\n');
    assert(lines =~~= seq![Seq::<char>::empty()]);
    assert(lines.drop_first() =~~= Seq::<Seq<char>>::empty());
    assert(spec_aliases_of_lines(lines.drop_first()) == Some(Seq::<AliasResultsV>::empty()));
    assert(spec_aliases_of_lines(lines) == Some(Seq::<AliasResultsV>::empty()));
}

} // verus!
