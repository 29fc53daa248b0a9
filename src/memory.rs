use vstd::prelude::*;

verus! {

/// One term of the L1 memory sum at a node: the value of column `column`
/// scaled by `b[newer] - b[older]`, or by `b[newer]` alone when `older` is
/// `None`.
#[derive(Debug, Clone, Copy, PartialEq, Eq, Structural)]
pub struct HistoryTerm {
    pub column: usize,
    pub newer: usize,
    pub older: Option<usize>,
}

/// Term `p` of the memory sum for step `step`.
///
/// For `p < step - 1` it is `(b[p] - b[p + 1]) * V[step - 1 - p]`; the last
/// term is `b[step - 1] * V[0]`, the weight of the terminal column.
pub open spec fn history_term(step: nat, p: nat) -> HistoryTerm {
    if p + 1 < step {
        HistoryTerm { column: (step - 1 - p) as usize, newer: p as usize, older: Some((p + 1) as usize) }
    } else {
        HistoryTerm { column: 0, newer: (step - 1) as usize, older: None }
    }
}

/// The factor that a term puts on its column, for weights `b`.
pub open spec fn term_weight(b: Seq<int>, t: HistoryTerm) -> int {
    match t.older {
        Some(o) => b[t.newer as int] - b[o as int],
        None => b[t.newer as int],
    }
}

/// Sum of the factors of the first `k` terms of the memory sum at `step`.
pub open spec fn weight_total(b: Seq<int>, step: nat, k: nat) -> int
    decreases k,
{
    if k == 0 {
        0
    } else {
        weight_total(b, step, (k - 1) as nat) + term_weight(b, history_term(step, (k - 1) as nat))
    }
}

/// The terms of the memory sum for step `step`, in the order in which they
/// are added up.
pub fn history_terms(step: usize) -> (r: Vec<HistoryTerm>)
    requires
        step >= 1,
    ensures
        r@.len() == step,
        forall|p: int| 0 <= p < step ==> r@[p] == history_term(step as nat, p as nat),
{
    let mut terms: Vec<HistoryTerm> = Vec::with_capacity(step);
    let mut k: usize = 1;
    while k < step
        invariant
            1 <= k <= step,
            terms@.len() == k - 1,
            forall|p: int| 0 <= p < k - 1 ==> terms@[p] == history_term(step as nat, p as nat),
        decreases step - k,
    {
        terms.push(HistoryTerm { column: step - k, newer: k - 1, older: Some(k) });
        k = k + 1;
    }
    terms.push(HistoryTerm { column: 0, newer: step - 1, older: None });
    terms
}

/// The position of the term that reads column `c` at step `step`.
pub open spec fn term_of_column(step: nat, c: nat) -> nat {
    if c == 0 {
        (step - 1) as nat
    } else {
        (step - 1 - c) as nat
    }
}

/// Every term reads a column written before step `step` and a weight of
/// index below `step`, and every such column is read by exactly one term:
/// the whole history enters each step.
pub proof fn lemma_history_covers_all_columns(step: nat)
    requires
        1 <= step <= usize::MAX,
    ensures
        forall|p: nat|
            p < step ==> {
                let t = #[trigger] history_term(step, p);
                &&& t.column < step
                &&& t.newer < step
                &&& (t.older matches Some(o) ==> o < step)
            },
        forall|c: nat|
            c < step ==> {
                let p = #[trigger] term_of_column(step, c);
                p < step && history_term(step, p).column == c
            },
        forall|p1: nat, p2: nat|
            p1 < step && p2 < step && p1 != p2 ==> #[trigger] history_term(step, p1).column
                != #[trigger] history_term(step, p2).column,
{
}

/// The first `k < step` factors telescope to `b[0] - b[k]`.
proof fn lemma_partial_telescope(b: Seq<int>, step: nat, k: nat)
    requires
        k < step,
        step <= b.len(),
        step <= usize::MAX,
    ensures
        weight_total(b, step, k) == b[0] - b[k as int],
    decreases k,
{
    if k > 0 {
        lemma_partial_telescope(b, step, (k - 1) as nat);
    }
}

/// The factors of all terms of a step add up to the first weight `b[0]`:
/// the memory sum is a weighted combination of the earlier columns with
/// total weight `b[0]`, whatever the step.
pub proof fn lemma_history_weights_telescope(b: Seq<int>, step: nat)
    requires
        1 <= step <= b.len(),
        step <= usize::MAX,
    ensures
        weight_total(b, step, step) == b[0],
{
    lemma_partial_telescope(b, step, (step - 1) as nat);
}

} // verus!
