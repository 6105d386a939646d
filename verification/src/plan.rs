use vstd::prelude::*;
use crate::params::{BatchParams, BindCall};

verus! {

/// A bind that the client is to perform: the recorded `call`, and for a
/// bind into the caller's storage, which of the caller's arrays it binds
/// (the arrays counted in the order their binds were recorded).
#[derive(Clone, Copy, Debug, PartialEq, Eq)]
pub struct PlannedBind {
    pub call: BindCall,
    pub caller_array: Option<usize>,
}

/// The number of binds into the caller's storage among the first `j`
/// recorded calls.
pub open spec fn caller_rank(calls: Seq<BindCall>, j: int) -> nat
    decreases j,
{
    if j <= 0 {
        0
    } else {
        caller_rank(calls, j - 1) + if calls[j - 1].caller_storage { 1nat } else { 0nat }
    }
}

/// Call `j` is the last one recorded for its placeholder: a later bind of
/// the same placeholder replaces an earlier one.
pub open spec fn is_last_call(calls: Seq<BindCall>, j: int) -> bool {
    forall|k: int| j < k < calls.len() ==> #[trigger] calls[k].idx != calls[j].idx
}

/// The bind to perform for call `j`.
pub open spec fn planned_at(calls: Seq<BindCall>, j: int) -> PlannedBind {
    PlannedBind {
        call: calls[j],
        caller_array: if calls[j].caller_storage { Some(caller_rank(calls, j) as usize) } else { None },
    }
}

/// The binds to perform for the calls from `j` on, in the order they were
/// recorded, each call only where it is the last of its placeholder.
pub open spec fn planned_from(calls: Seq<BindCall>, j: int) -> Seq<PlannedBind>
    decreases calls.len() - j,
{
    if j >= calls.len() || j < 0 {
        Seq::empty()
    } else if is_last_call(calls, j) {
        seq![planned_at(calls, j)] + planned_from(calls, j + 1)
    } else {
        planned_from(calls, j + 1)
    }
}

proof fn lemma_caller_rank_bound(calls: Seq<BindCall>, j: int)
    requires
        0 <= j,
    ensures
        caller_rank(calls, j) <= j,
    decreases j,
{
    if j > 0 {
        lemma_caller_rank_bound(calls, j - 1);
    }
}

/// Whether call `j` is the last one recorded for its placeholder.
fn last_of_its_placeholder(calls: &Vec<BindCall>, j: usize) -> (r: bool)
    requires
        j < calls@.len(),
    ensures
        r == is_last_call(calls@, j as int),
{
    let idx = calls[j].idx;
    let n = calls.len();
    let mut k = j + 1;
    while k < n
        invariant
            j < k <= calls@.len(),
            n == calls@.len(),
            idx == calls@[j as int].idx,
            forall|m: int| j < m < k ==> #[trigger] calls@[m].idx != idx,
        decreases calls@.len() - k,
    {
        if calls[k].idx == idx {
            return false;
        }
        k += 1;
    }
    true
}

/// The number of binds into the caller's storage among the first `j` calls.
fn caller_rank_at(calls: &Vec<BindCall>, j: usize) -> (r: usize)
    requires
        j <= calls@.len(),
    ensures
        r == caller_rank(calls@, j as int),
{
    let mut n: usize = 0;
    let mut k: usize = 0;
    while k < j
        invariant
            k <= j <= calls@.len(),
            n == caller_rank(calls@, k as int),
            n <= k,
        decreases j - k,
    {
        if calls[k].caller_storage {
            n += 1;
        }
        k += 1;
    }
    n
}

impl BatchParams {
    /// The binds the client is to perform, in the order they were recorded:
    /// for each placeholder only its last bind, since a later bind of a
    /// placeholder replaces an earlier one.
    pub fn planned_binds(&self) -> (r: Vec<PlannedBind>)
        ensures
            r@ == planned_from(self@.calls, 0),
    {
        let calls = self.bind_calls();
        let mut out: Vec<PlannedBind> = Vec::new();
        let mut j = calls.len();
        while j > 0
            invariant
                j <= calls@.len(),
                calls@ == self@.calls,
                out@ == planned_from(calls@, j as int),
            decreases j,
        {
            j -= 1;
            if last_of_its_placeholder(calls, j) {
                let call = calls[j];
                let caller_array = if call.caller_storage {
                    Some(caller_rank_at(calls, j))
                } else {
                    None
                };
                proof {
                    lemma_caller_rank_bound(calls@, j as int);
                }
                out.insert(0, PlannedBind { call, caller_array });
                proof {
                    assert(out@ =~= seq![planned_at(calls@, j as int)] + planned_from(calls@, j + 1));
                }
            }
        }
        out
    }
}

} // verus!
