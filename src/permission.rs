//! Choosing the option that answers a permission request.
use vstd::prelude::*;
use crate::messages::{PermissionOption, PermissionOptionKind, PermissionOutcomeValue, RequestPermissionResponse};
use crate::process::PermissionUserResponse;
use crate::json::text_view;

verus! {

/// An allow-kind option when `allow`, a reject-kind one otherwise.
pub open spec fn kind_fits(kind: PermissionOptionKind, allow: bool) -> bool {
    if allow {
        kind.is_allow()
    } else {
        kind.is_reject()
    }
}

/// `k` is the first option of the wanted kind.
pub open spec fn is_first_of_kind(opts: Seq<PermissionOption>, k: int, allow: bool) -> bool {
    0 <= k < opts.len() && kind_fits(opts[k].kind, allow) && forall|j: int| 0 <= j < k ==> !kind_fits(#[trigger] opts[j].kind, allow)
}

pub open spec fn first_of_kind(opts: Seq<PermissionOption>, allow: bool) -> Option<int> {
    if exists|k: int| is_first_of_kind(opts, k, allow) {
        Some(choose|k: int| is_first_of_kind(opts, k, allow))
    } else {
        None
    }
}

/// `id` is the id of one of the options.
pub open spec fn offered(opts: Seq<PermissionOption>, id: Seq<char>) -> bool {
    exists|j: int| 0 <= j < opts.len() && (#[trigger] opts[j]).option_id@ == id
}

/// The option id sent back, `None` for a cancellation. An approval takes the
/// option the host named when it is one of those offered, else the first
/// allow-kind option, else the first option; a denial takes the first
/// reject-kind option. With nothing fitting to select, the request is
/// cancelled.
pub open spec fn chosen_outcome(opts: Seq<PermissionOption>, approved: bool, wanted: Option<Seq<char>>) -> Option<Seq<char>> {
    if approved {
        if wanted is Some && offered(opts, wanted.unwrap()) {
            wanted
        } else {
            match first_of_kind(opts, true) {
                Some(k) => Some(opts[k].option_id@),
                None => if opts.len() > 0 {
                    Some(opts[0].option_id@)
                } else {
                    None
                },
            }
        }
    } else {
        match first_of_kind(opts, false) {
            Some(k) => Some(opts[k].option_id@),
            None => None,
        }
    }
}

pub open spec fn outcome_view(r: RequestPermissionResponse) -> Option<Seq<char>> {
    match r.outcome {
        PermissionOutcomeValue::Selected { option_id } => Some(option_id@),
        PermissionOutcomeValue::Cancelled => None,
    }
}

proof fn lemma_first_unique(opts: Seq<PermissionOption>, k: int, allow: bool)
    requires
        is_first_of_kind(opts, k, allow),
    ensures
        first_of_kind(opts, allow) == Some(k),
{
    let c = choose|c: int| is_first_of_kind(opts, c, allow);
    assert(is_first_of_kind(opts, c, allow));
    if c < k {
        assert(!kind_fits(opts[c].kind, allow));
    }
    if k < c {
        assert(!kind_fits(opts[k].kind, allow));
    }
}

fn fits(kind: PermissionOptionKind, allow: bool) -> (r: bool)
    ensures
        r == kind_fits(kind, allow),
{
    match kind {
        PermissionOptionKind::AllowOnce | PermissionOptionKind::AllowAlways => allow,
        PermissionOptionKind::RejectOnce | PermissionOptionKind::RejectAlways => !allow,
    }
}

/// The index of the first option of the wanted kind.
pub fn find_first_of_kind(opts: &Vec<PermissionOption>, allow: bool) -> (r: Option<usize>)
    ensures
        match r {
            Some(i) => first_of_kind(opts@, allow) == Some(i as int) && is_first_of_kind(opts@, i as int, allow),
            None => first_of_kind(opts@, allow) is None,
        },
{
    let mut i: usize = 0;
    while i < opts.len()
        invariant
            i <= opts@.len(),
            forall|j: int| 0 <= j < i ==> !kind_fits(#[trigger] opts@[j].kind, allow),
        decreases opts@.len() - i,
    {
        if fits(opts[i].kind, allow) {
            proof {
                lemma_first_unique(opts@, i as int, allow);
            }
            return Some(i);
        }
        i = i + 1;
    }
    assert(!exists|k: int| is_first_of_kind(opts@, k, allow));
    None
}

/// Whether `id` is the id of one of the options.
pub fn is_offered(opts: &Vec<PermissionOption>, id: &String) -> (r: bool)
    ensures
        r == offered(opts@, id@),
{
    let mut i: usize = 0;
    while i < opts.len()
        invariant
            i <= opts@.len(),
            forall|j: int| 0 <= j < i ==> (#[trigger] opts@[j]).option_id@ != id@,
        decreases opts@.len() - i,
    {
        if opts[i].option_id == *id {
            return true;
        }
        i = i + 1;
    }
    false
}

/// Builds the answer to a permission request from the host's decision (see
/// `chosen_outcome`).
pub fn choose_permission_response(opts: &Vec<PermissionOption>, decision: &PermissionUserResponse) -> (r: RequestPermissionResponse)
    ensures
        outcome_view(r) == chosen_outcome(opts@, decision.approved, text_view(decision.option_id)),
{
    if decision.approved {
        match &decision.option_id {
            Some(id) => {
                if is_offered(opts, id) {
                    return RequestPermissionResponse::selected(id.clone());
                }
            },
            None => {},
        }
        match find_first_of_kind(opts, true) {
            Some(k) => RequestPermissionResponse::selected(opts[k].option_id.clone()),
            None => {
                if opts.len() > 0 {
                    RequestPermissionResponse::selected(opts[0].option_id.clone())
                } else {
                    RequestPermissionResponse::cancelled()
                }
            },
        }
    } else {
        match find_first_of_kind(opts, false) {
            Some(k) => RequestPermissionResponse::selected(opts[k].option_id.clone()),
            None => RequestPermissionResponse::cancelled(),
        }
    }
}

/// The selected option is always one of those offered; a cancellation comes
/// only from a denial with no reject-kind option, or from an empty list.
pub proof fn lemma_selection_is_offered(opts: Seq<PermissionOption>, approved: bool, wanted: Option<Seq<char>>)
    ensures
        chosen_outcome(opts, approved, wanted) matches Some(id) ==> offered(opts, id),
        chosen_outcome(opts, approved, wanted) is None ==> (opts.len() == 0 || (!approved && forall|j: int|
            0 <= j < opts.len() ==> !(#[trigger] opts[j].kind).is_reject())),
{
    if approved {
        if wanted is Some && offered(opts, wanted.unwrap()) {
        } else {
            match first_of_kind(opts, true) {
                Some(k) => {
                    assert(is_first_of_kind(opts, k, true));
                    assert(opts[k].option_id@ == opts[k].option_id@);
                },
                None => {
                    if opts.len() > 0 {
                        assert(opts[0].option_id@ == opts[0].option_id@);
                    }
                },
            }
        }
    } else {
        match first_of_kind(opts, false) {
            Some(k) => {
                assert(is_first_of_kind(opts, k, false));
                assert(opts[k].option_id@ == opts[k].option_id@);
            },
            None => {
                assert forall|j: int| 0 <= j < opts.len() implies !(#[trigger] opts[j].kind).is_reject() by {
                    if opts[j].kind.is_reject() {
                        assert(kind_fits(opts[j].kind, false));
                        lemma_some_first(opts, j, false);
                    }
                }
            },
        }
    }
}

/// Where some option fits, a first one does.
proof fn lemma_some_first(opts: Seq<PermissionOption>, j: int, allow: bool)
    requires
        0 <= j < opts.len(),
        kind_fits(opts[j].kind, allow),
    ensures
        exists|k: int| is_first_of_kind(opts, k, allow),
    decreases j,
{
    if forall|i: int| 0 <= i < j ==> !kind_fits(#[trigger] opts[i].kind, allow) {
        assert(is_first_of_kind(opts, j, allow));
    } else {
        let i = choose|i: int| 0 <= i < j && kind_fits(#[trigger] opts[i].kind, allow);
        lemma_some_first(opts, i, allow);
    }
}

/// The key of an awaited decision: the agent's id and the input's id,
/// joined by a colon.
pub open spec fn decision_key(agent_id: Seq<char>, input_id: Seq<char>) -> Seq<char> {
    agent_id + seq![':'] + input_id
}

pub fn permission_key(agent_id: &str, input_id: &str) -> (r: String)
    ensures
        r@ == decision_key(agent_id@, input_id@),
{
    let mut key = String::from_str(agent_id);
    key.append(":");
    key.append(input_id);
    proof {
        reveal_strlit(":");
    }
    key
}

} // verus!
