//! The router: given the query's embedding and the embedding of each tool's
//! description, selects the tools whose description is semantically close
//! enough to the query.
//!
//! A tool is relevant when its cosine similarity to the query strictly
//! exceeds the threshold. Scanning is in registration order and stops
//! adding matches once `max_matches` are found — an explicit policy trading
//! completeness for latency; pass the registry size as `max_matches` for a
//! complete scan.

use vstd::prelude::*;

verus! {

use crate::errors::AgentError;
use crate::similarity::{
    cosine_similarity, exceeds_threshold, norm_sq, spec_exceeds, spec_sim_dot, spec_sim_nsp,
    Embedding, Threshold,
};
use crate::similarity::{lemma_exceeds_with_integer_norm, lemma_self_similarity_is_one};

/// The views of a sequence of embeddings.
pub open spec fn embedding_views(ts: Seq<Embedding>) -> Seq<Seq<int>> {
    ts.map_values(|e: Embedding| e@)
}

/// The indices among the first `n` tool embeddings whose similarity to the
/// query strictly exceeds the threshold `num / den`, in order.
pub open spec fn selected_upto(
    q: Seq<int>,
    ts: Seq<Seq<int>>,
    num: int,
    den: int,
    n: int,
) -> Seq<usize>
    decreases n,
{
    if n <= 0 {
        Seq::<usize>::empty()
    } else {
        let pre = selected_upto(q, ts, num, den, n - 1);
        if spec_exceeds(spec_sim_dot(q, ts[n - 1]), spec_sim_nsp(q, ts[n - 1]), num, den) {
            pre.push((n - 1) as usize)
        } else {
            pre
        }
    }
}

/// What the router returns: the full match list, cut to the first
/// `max_matches` entries.
pub open spec fn spec_route_result(
    q: Seq<int>,
    ts: Seq<Seq<int>>,
    num: int,
    den: int,
    max: int,
) -> Seq<usize> {
    let full = selected_upto(q, ts, num, den, ts.len() as int);
    if full.len() <= max {
        full
    } else {
        full.take(max)
    }
}

/// Selects the relevant tools for one query.
///
/// Returns the indices, in registration order, of the first `max_matches`
/// tool embeddings whose similarity to the query strictly exceeds the
/// threshold. Fails with `DimensionMismatch` if and only if some tool
/// embedding's length differs from the query embedding's.
pub fn route(
    query: &Embedding,
    tool_embeddings: &Vec<Embedding>,
    threshold: &Threshold,
    max_matches: usize,
) -> (r: Result<Vec<usize>, AgentError>)
    requires
        query.wf(),
        forall|i: int| 0 <= i < tool_embeddings@.len() ==> (#[trigger] tool_embeddings@[i]).wf(),
        threshold.wf(),
    ensures
        r is Ok <==> (forall|i: int| 0 <= i < tool_embeddings@.len()
            ==> (#[trigger] tool_embeddings@[i])@.len() == query@.len()),
        r is Err ==> (r matches Err(AgentError::DimensionMismatch)),
        r matches Ok(sel) ==> sel@ == spec_route_result(
            query@,
            embedding_views(tool_embeddings@),
            threshold.num as int,
            threshold.den as int,
            max_matches as int,
        ),
        r matches Ok(sel) ==> sel@.len() <= max_matches,
{
    let n = tool_embeddings.len();
    let ghost q = query@;
    let ghost tv = embedding_views(tool_embeddings@);
    let ghost num = threshold.num as int;
    let ghost den = threshold.den as int;
    let mut out: Vec<usize> = Vec::new();
    let mut i: usize = 0;
    while i < n
        invariant
            i <= n,
            n == tool_embeddings@.len(),
            query.wf(),
            threshold.wf(),
            forall|j: int| 0 <= j < n ==> (#[trigger] tool_embeddings@[j]).wf(),
            q == query@,
            tv == embedding_views(tool_embeddings@),
            num == threshold.num as int,
            den == threshold.den as int,
            forall|j: int| 0 <= j < i ==> (#[trigger] tool_embeddings@[j])@.len() == query@.len(),
            ({
                let full = selected_upto(q, tv, num, den, i as int);
                out@ == if full.len() <= max_matches {
                    full
                } else {
                    full.take(max_matches as int)
                }
            }),
            out@.len() <= max_matches,
        decreases n - i,
    {
        let e = &tool_embeddings[i];
        let s = match cosine_similarity(query, e) {
            Ok(s) => s,
            Err(err) => {
                return Err(err);
            },
        };
        let ex = exceeds_threshold(&s, threshold);
        let ghost full_pre = selected_upto(q, tv, num, den, i as int);
        let ghost full_post = selected_upto(q, tv, num, den, i + 1);
        proof {
            assert(tv[i as int] == tool_embeddings@[i as int]@);
            assert(ex == spec_exceeds(
                spec_sim_dot(q, tv[i as int]),
                spec_sim_nsp(q, tv[i as int]),
                num,
                den,
            ));
            if ex {
                assert(full_post == full_pre.push(i));
                if full_pre.len() >= max_matches {
                    assert(full_pre.push(i).take(max_matches as int) =~= if full_pre.len()
                        <= max_matches {
                        full_pre
                    } else {
                        full_pre.take(max_matches as int)
                    });
                }
            } else {
                assert(full_post == full_pre);
            }
        }
        if ex && out.len() < max_matches {
            out.push(i);
        }
        i += 1;
    }
    Ok(out)
}

/// Every selected index refers to one of the first `n` tools.
pub proof fn lemma_selected_bounds(q: Seq<int>, ts: Seq<Seq<int>>, num: int, den: int, n: int)
    requires
        n <= usize::MAX,
    ensures
        forall|i: int| 0 <= i < selected_upto(q, ts, num, den, n).len()
            ==> (#[trigger] selected_upto(q, ts, num, den, n)[i] as int) < n,
    decreases n,
{
    if n > 0 {
        lemma_selected_bounds(q, ts, num, den, n - 1);
        let pre = selected_upto(q, ts, num, den, n - 1);
        let s = selected_upto(q, ts, num, den, n);
        if spec_exceeds(spec_sim_dot(q, ts[n - 1]), spec_sim_nsp(q, ts[n - 1]), num, den) {
            assert(forall|i: int| 0 <= i < pre.len() ==> s[i] == pre[i]);
            assert(s[s.len() - 1] == (n - 1) as usize);
        }
    }
}

/// Which indices the full scan selects: exactly those whose similarity
/// strictly exceeds the threshold.
pub proof fn lemma_selected_characterization(
    q: Seq<int>,
    ts: Seq<Seq<int>>,
    num: int,
    den: int,
    n: int,
    j: usize,
)
    requires
        n <= usize::MAX,
    ensures
        selected_upto(q, ts, num, den, n).contains(j) <==> ((j as int) < n && spec_exceeds(
            spec_sim_dot(q, ts[j as int]),
            spec_sim_nsp(q, ts[j as int]),
            num,
            den,
        )),
    decreases n,
{
    if n <= 0 {
        assert(!selected_upto(q, ts, num, den, n).contains(j));
    } else {
        lemma_selected_characterization(q, ts, num, den, n - 1, j);
        let pre = selected_upto(q, ts, num, den, n - 1);
        let s = selected_upto(q, ts, num, den, n);
        if spec_exceeds(spec_sim_dot(q, ts[n - 1]), spec_sim_nsp(q, ts[n - 1]), num, den) {
            assert(s == pre.push((n - 1) as usize));
            if pre.contains(j) {
                let k = choose|k: int| 0 <= k < pre.len() && pre[k] == j;
                assert(s[k] == j);
            }
            if j == (n - 1) as usize {
                assert(s[s.len() - 1] == j);
            }
            if s.contains(j) {
                let k = choose|k: int| 0 <= k < s.len() && s[k] == j;
                if k < pre.len() {
                    assert(pre[k] == j);
                } else {
                    assert(j == (n - 1) as usize);
                }
            }
        }
    }
}

/// A query whose embedding is identical to a tool's description embedding
/// selects that tool, for any threshold below one: the self-similarity of a
/// nonzero vector is exactly one.
pub proof fn lemma_identical_embedding_routed(
    q: Seq<int>,
    ts: Seq<Seq<int>>,
    num: int,
    den: int,
    k: usize,
)
    requires
        (k as int) < ts.len(),
        ts.len() <= usize::MAX,
        ts[k as int] == q,
        norm_sq(q) != 0,
        1 <= den,
        num < den,
    ensures
        selected_upto(q, ts, num, den, ts.len() as int).contains(k),
{
    lemma_self_similarity_is_one(q);
    let d = spec_sim_dot(q, q);
    lemma_exceeds_with_integer_norm(d, d, num, den);
    assert(d * den > num * d) by (nonlinear_arith)
        requires
            d >= 1,
            num < den,
    ;
    assert(spec_sim_nsp(q, q) == d * d);
    lemma_selected_characterization(q, ts, num, den, ts.len() as int, k);
}

/// With a threshold of zero, a tool is selected exactly when its similarity
/// to the query is strictly positive.
pub proof fn lemma_zero_threshold_membership(q: Seq<int>, ts: Seq<Seq<int>>, den: int, k: usize)
    requires
        (k as int) < ts.len(),
        ts.len() <= usize::MAX,
        1 <= den,
    ensures
        selected_upto(q, ts, 0, den, ts.len() as int).contains(k) <==> spec_sim_dot(
            q,
            ts[k as int],
        ) > 0,
{
    let d = spec_sim_dot(q, ts[k as int]);
    let nsp = spec_sim_nsp(q, ts[k as int]);
    assert((d * den > 0) <==> d > 0) by (nonlinear_arith)
        requires
            den >= 1,
    ;
    if d * den > 0 {
        assert((d * den) * (d * den) > 0) by (nonlinear_arith)
            requires
                d * den > 0,
        ;
    }
    assert((0 * 0) * nsp == 0) by (nonlinear_arith);
    lemma_selected_characterization(q, ts, 0, den, ts.len() as int, k);
}

/// With a threshold of zero, the selection is non-empty as soon as any tool
/// has strictly positive similarity to the query and at least one match is
/// allowed.
pub proof fn lemma_zero_threshold_nonempty(
    q: Seq<int>,
    ts: Seq<Seq<int>>,
    den: int,
    max: int,
    k: usize,
)
    requires
        (k as int) < ts.len(),
        ts.len() <= usize::MAX,
        1 <= den,
        1 <= max,
        spec_sim_dot(q, ts[k as int]) > 0,
    ensures
        spec_route_result(q, ts, 0, den, max).len() >= 1,
{
    lemma_zero_threshold_membership(q, ts, den, k);
    let full = selected_upto(q, ts, 0, den, ts.len() as int);
    assert(full.contains(k));
    assert(full.len() >= 1);
}

} // verus!
