//! Fetching a URL (`fetch`): which headers and query parameters the
//! request carries, from the options a script passes.

use vstd::prelude::*;
use crate::registry::Builtin;
use crate::text::str_eq;
use vstd::string::*;

verus! {

/// The value of one option passed to `fetch`: a table of string pairs, or
/// anything else.
#[derive(Debug)]
pub enum FetchOption {
    Table(Vec<(String, String)>),
    Other,
}

/// What the request is built from: the headers in the order they are set,
/// and each list of query parameters that is added.
#[derive(Debug)]
pub struct RequestPlan {
    pub headers: Vec<(String, String)>,
    pub queries: Vec<Vec<(String, String)>>,
}

/// The headers set by the options: the pairs of every `headers` table.
pub open spec fn planned_headers(options: Seq<(Seq<char>, Option<Seq<(Seq<char>, Seq<char>)>>)>) -> Seq<
    (Seq<char>, Seq<char>),
>
    decreases options.len(),
{
    if options.len() == 0 {
        seq![]
    } else {
        let rest = planned_headers(options.drop_last());
        let (key, value) = options.last();
        if key == "headers"@ && value is Some {
            rest + value->0
        } else {
            rest
        }
    }
}

/// The query lists added by the options: one per `query` table.
pub open spec fn planned_queries(options: Seq<(Seq<char>, Option<Seq<(Seq<char>, Seq<char>)>>)>) -> Seq<
    Seq<(Seq<char>, Seq<char>)>,
>
    decreases options.len(),
{
    if options.len() == 0 {
        seq![]
    } else {
        let rest = planned_queries(options.drop_last());
        let (key, value) = options.last();
        if key == "query"@ && value is Some {
            rest.push(value->0)
        } else {
            rest
        }
    }
}

/// Every pair of every `headers` table becomes a header, in order, and
/// every `query` table becomes one list of query parameters: an option
/// added last adds all its pairs after those already planned, and other
/// options add nothing. Planning options one after the other is planning
/// them together.
pub proof fn lemma_every_pair_is_planned(
    options: Seq<(Seq<char>, Option<Seq<(Seq<char>, Seq<char>)>>)>,
    more: Seq<(Seq<char>, Option<Seq<(Seq<char>, Seq<char>)>>)>,
    table: Seq<(Seq<char>, Seq<char>)>,
    key: Seq<char>,
)
    ensures
        planned_headers(options.push(("headers"@, Some(table)))) == planned_headers(options) + table,
        planned_headers(options.push(("headers"@, Some(table)))).len() == planned_headers(options).len()
            + table.len(),
        planned_queries(options.push(("query"@, Some(table)))) == planned_queries(options).push(table),
        key != "headers"@ ==> planned_headers(options.push((key, Some(table)))) == planned_headers(options),
        key != "query"@ ==> planned_queries(options.push((key, Some(table)))) == planned_queries(options),
        planned_headers(options.push((key, None))) == planned_headers(options),
        planned_queries(options.push((key, None))) == planned_queries(options),
        planned_headers(options + more) == planned_headers(options) + planned_headers(more),
        planned_queries(options + more) == planned_queries(options) + planned_queries(more),
    decreases more.len(),
{
    reveal_strlit("headers");
    reveal_strlit("query");
    assert("headers"@.len() != "query"@.len());
    assert(options.push(("headers"@, Some(table))).drop_last() =~= options);
    assert(options.push(("query"@, Some(table))).drop_last() =~= options);
    assert(options.push((key, Some(table))).drop_last() =~= options);
    assert(options.push((key, None)).drop_last() =~= options);
    if more.len() == 0 {
        assert(options + more =~= options);
        assert(planned_headers(more) =~= Seq::<(Seq<char>, Seq<char>)>::empty());
        assert(planned_headers(options) + planned_headers(more) =~= planned_headers(options));
        assert(planned_queries(options) + planned_queries(more) =~= planned_queries(options));
    } else {
        lemma_every_pair_is_planned(options, more.drop_last(), table, key);
        assert((options + more).drop_last() =~= options + more.drop_last());
        assert((options + more).last() == more.last());
        let h = planned_headers(options);
        let hm = planned_headers(more.drop_last());
        let q = planned_queries(options);
        let qm = planned_queries(more.drop_last());
        let (k, v) = more.last();
        if k == "headers"@ && v is Some {
            assert(h + hm + v->0 =~= h + (hm + v->0));
        }
        if k == "query"@ && v is Some {
            assert((q + qm).push(v->0) =~= q + qm.push(v->0));
        }
    }
}

/// An option as a name and, for a table, its pairs.
pub open spec fn option_model(o: (String, FetchOption)) -> (Seq<char>, Option<Seq<(Seq<char>, Seq<char>)>>) {
    (
        o.0@,
        match o.1 {
            FetchOption::Table(pairs) => Some(pairs.deep_view()),
            FetchOption::Other => None,
        },
    )
}

/// Reads the options of `fetch`: each `headers` table adds its pairs as
/// headers, each `query` table adds its pairs as query parameters, other
/// options are ignored.
pub fn plan_request(options: &Vec<(String, FetchOption)>) -> (res: RequestPlan)
    ensures
        res.headers.deep_view() == planned_headers(options@.map_values(|o| option_model(o))),
        res.queries.deep_view() == planned_queries(options@.map_values(|o| option_model(o))),
{
    let ghost model = options@.map_values(|o| option_model(o));
    let mut headers: Vec<(String, String)> = Vec::new();
    let mut queries: Vec<Vec<(String, String)>> = Vec::new();
    let mut i: usize = 0;
    while i < options.len()
        invariant
            i <= options.len(),
            model == options@.map_values(|o| option_model(o)),
            headers.deep_view() == planned_headers(model.subrange(0, i as int)),
            queries.deep_view() == planned_queries(model.subrange(0, i as int)),
        decreases options.len() - i,
    {
        let ghost pre = model.subrange(0, i as int);
        let ghost next = model.subrange(0, i + 1);
        assert(next.drop_last() =~= pre);
        assert(next.last() == option_model(options[i as int]));
        let (key, value) = &options[i];
        match value {
            FetchOption::Table(pairs) => {
                if str_eq(key.as_str(), "headers") {
                    proof {
                        reveal_strlit("headers");
                        reveal_strlit("query");
                        assert("headers"@.len() != "query"@.len());
                    }
                    let ghost before = headers.deep_view();
                    let mut j: usize = 0;
                    while j < pairs.len()
                        invariant
                            j <= pairs.len(),
                            headers.deep_view() == before + pairs.deep_view().subrange(0, j as int),
                        decreases pairs.len() - j,
                    {
                        let pair = (pairs[j].0.clone(), pairs[j].1.clone());
                        let ghost h = headers.deep_view();
                        headers.push(pair);
                        assert(headers.deep_view() =~= h.push(pairs[j as int].deep_view()));
                        assert(pairs.deep_view().subrange(0, j + 1) =~= pairs.deep_view().subrange(
                            0,
                            j as int,
                        ).push(pairs.deep_view()[j as int]));
                        j = j + 1;
                    }
                    assert(pairs.deep_view().subrange(0, pairs.len() as int) =~= pairs.deep_view());
                } else if str_eq(key.as_str(), "query") {
                    let ghost before = queries.deep_view();
                    let mut copy: Vec<(String, String)> = Vec::new();
                    let mut j: usize = 0;
                    while j < pairs.len()
                        invariant
                            j <= pairs.len(),
                            copy.deep_view() == pairs.deep_view().subrange(0, j as int),
                        decreases pairs.len() - j,
                    {
                        let pair = (pairs[j].0.clone(), pairs[j].1.clone());
                        let ghost c = copy.deep_view();
                        copy.push(pair);
                        assert(copy.deep_view() =~= c.push(pairs[j as int].deep_view()));
                        assert(pairs.deep_view().subrange(0, j + 1) =~= pairs.deep_view().subrange(
                            0,
                            j as int,
                        ).push(pairs.deep_view()[j as int]));
                        j = j + 1;
                    }
                    assert(pairs.deep_view().subrange(0, pairs.len() as int) =~= pairs.deep_view());
                    queries.push(copy);
                    assert(queries.deep_view() =~= before.push(pairs.deep_view()));
                }
            },
            FetchOption::Other => {},
        }
        i = i + 1;
    }
    assert(model.subrange(0, options.len() as int) =~= model);
    RequestPlan { headers, queries }
}

/// The builtins of this module, in the order they are bound.
pub fn register() -> (res: Vec<Builtin>)
    ensures
        res@ == seq![Builtin::Fetch],
{
    vec![Builtin::Fetch]
}

} // verus!
