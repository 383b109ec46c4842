//! The store's dispatch loop over plain values, and its guarantees.
//!
//! The surrounding process feeds the store a queue of actions and performs
//! the remote calls it asks for.  [`StateManager::run`] is that
//! loop with the remote collaborator abstracted to a script of outcomes:
//! it processes the actions strictly in order, performs every remote
//! exchange through [`StateManager::resume`], and collects the snapshot
//! broadcast after every step.  Its functional model ([`spec_run`])
//! carries the delivery guarantee (at least one broadcast per action) and
//! the ordering and containment guarantees ([`lemma_run_ordering`]).

use vstd::prelude::*;
use vstd::string::StringExecFns;

use crate::actions::{Action, ActionView};
use crate::appstate::{AppState, AppStateView};
use crate::manager::{
    spec_begin_action, spec_result_matches, spec_resume, PendingWork, PendingWorkView,
    StateManager, StoreView,
};
use crate::remote::{RemoteError, RemoteErrorView, RemoteResult, RemoteResultView};

verus! {

/// How many remote exchanges the in-flight action can still need: the
/// profile pipeline needs at most three, the log listing one.
pub open spec fn pending_rank(p: Option<PendingWorkView>) -> nat {
    match p {
        None => 0,
        Some(PendingWorkView::ResolvingSession { .. }) => 3,
        Some(PendingWorkView::FetchingIdentity { .. }) => 2,
        Some(PendingWorkView::ListingRegions { .. }) => 1,
        Some(PendingWorkView::FetchingLogGroups) => 1,
    }
}

/// The message recorded when the script answers the wrong call.
pub open spec fn spec_unexpected_response_message() -> Seq<char> {
    "unexpected remote response"@
}

/// The failure fed to the in-flight action when the script answers the
/// wrong call.
pub open spec fn spec_mismatch_result(p: PendingWorkView) -> RemoteResultView {
    let e = RemoteErrorView {
        message: spec_unexpected_response_message(),
        backtrace: spec_unexpected_response_message(),
    };
    match p {
        PendingWorkView::ResolvingSession { .. } => RemoteResultView::Session(Err(e)),
        PendingWorkView::FetchingIdentity { .. } => RemoteResultView::Identity(Err(e)),
        PendingWorkView::ListingRegions { .. } => RemoteResultView::Regions(Err(e)),
        PendingWorkView::FetchingLogGroups => RemoteResultView::LogGroups(Err(e)),
    }
}

/// The outcome fed to the in-flight action: the next scripted outcome when
/// it answers the expected call, otherwise a synthesized failure.
pub open spec fn spec_next_result(p: PendingWorkView, script: Seq<RemoteResultView>) -> (
    RemoteResultView,
    Seq<RemoteResultView>,
) {
    if script.len() > 0 && spec_result_matches(p, script[0]) {
        (script[0], script.drop_first())
    } else {
        (spec_mismatch_result(p), script)
    }
}

/// The fed outcome always answers the expected call.
pub proof fn lemma_next_result_matches(p: PendingWorkView, script: Seq<RemoteResultView>)
    ensures
        spec_result_matches(p, spec_next_result(p, script).0),
{
}

/// Each exchange strictly lowers the number of exchanges still needed.
pub proof fn lemma_resume_rank(v: StoreView, r: RemoteResultView)
    requires
        v.pending is Some,
        spec_result_matches(v.pending.unwrap(), r),
    ensures
        pending_rank(spec_resume(v, r).0.pending) < pending_rank(v.pending),
{
}

/// Drive the in-flight action to completion: feed it scripted outcomes (or
/// synthesized failures) until its handling completes, recording the state
/// after every exchange.
pub open spec fn spec_drain(v: StoreView, script: Seq<RemoteResultView>) -> (
    StoreView,
    Seq<AppStateView>,
    Seq<RemoteResultView>,
)
    decreases pending_rank(v.pending),
{
    match v.pending {
        None => (v, Seq::empty(), script),
        Some(p) => {
            let (res, rest) = spec_next_result(p, script);
            let v2 = spec_resume(v, res).0;
            if pending_rank(v2.pending) < pending_rank(v.pending) {
                let (v3, bs, rest2) = spec_drain(v2, rest);
                (v3, seq![v2.state] + bs, rest2)
            } else {
                (v2, seq![v2.state], rest)
            }
        },
    }
}

/// Draining completes the in-flight action, ends on the state it reports,
/// and broadcasts once per exchange.
pub proof fn lemma_drain_completes(v: StoreView, script: Seq<RemoteResultView>)
    ensures
        spec_drain(v, script).0.pending is None,
        spec_drain(v, script).1.len() > 0 ==> spec_drain(v, script).1.last() == spec_drain(
            v,
            script,
        ).0.state,
        v.pending is None ==> spec_drain(v, script) == (v, Seq::<AppStateView>::empty(), script),
        v.pending is Some ==> spec_drain(v, script).1.len() > 0,
    decreases pending_rank(v.pending),
{
    match v.pending {
        None => {},
        Some(p) => {
            let (res, rest) = spec_next_result(p, script);
            lemma_next_result_matches(p, script);
            lemma_resume_rank(v, res);
            let v2 = spec_resume(v, res).0;
            lemma_drain_completes(v2, rest);
        },
    }
}

/// Process one action completely: begin it, drive any remote exchanges to
/// completion, and record the state after every step.
pub open spec fn spec_process_action(v: StoreView, a: ActionView, script: Seq<RemoteResultView>)
    -> (StoreView, Seq<AppStateView>, Seq<RemoteResultView>) {
    let v1 = spec_begin_action(v, a).0;
    let (v2, bs, rest) = spec_drain(v1, script);
    (v2, seq![v1.state] + bs, rest)
}

/// Process a queue of actions strictly in order, collecting every
/// broadcast state.
pub open spec fn spec_run(v: StoreView, actions: Seq<ActionView>, script: Seq<RemoteResultView>)
    -> (StoreView, Seq<AppStateView>, Seq<RemoteResultView>)
    decreases actions.len(),
{
    if actions.len() == 0 {
        (v, Seq::empty(), script)
    } else {
        let (v1, bs1, rest1) = spec_process_action(v, actions[0], script);
        let (v2, bs2, rest2) = spec_run(v1, actions.drop_first(), rest1);
        (v2, bs1 + bs2, rest2)
    }
}

/// Two states that agree on everything but the status line (the pending
/// indicator, its message, the error fields and the breadcrumbs).
pub open spec fn same_except_status(a: AppStateView, b: AppStateView) -> bool {
    AppStateView { status_state: b.status_state, ..a } == b
}

/// While the in-flight action still needs further exchanges, the state
/// itself does not move: only the final exchange applies the effect.
pub proof fn lemma_drain_intermediate(v: StoreView, script: Seq<RemoteResultView>)
    ensures
        ({
            let (vf, bs, rest) = spec_drain(v, script);
            forall|k: int| 0 <= k < bs.len() - 1 ==> bs[k] == v.state
        }),
    decreases pending_rank(v.pending),
{
    match v.pending {
        None => {},
        Some(p) => {
            let (res, rest) = spec_next_result(p, script);
            lemma_next_result_matches(p, script);
            lemma_resume_rank(v, res);
            let v2 = spec_resume(v, res).0;
            lemma_drain_intermediate(v2, rest);
            lemma_drain_completes(v2, rest);
            assert(v2.pending is Some ==> v2.state == v.state);
        },
    }
}

/// No broadcast of one action's handling mixes partial effects: every
/// broadcast but the last shows the pre-action state with at most the
/// status line changed (the pending indicator going up), and the last one
/// shows the action's full effect.
pub proof fn lemma_no_partial_effects(v: StoreView, a: ActionView, script: Seq<RemoteResultView>)
    requires
        v.pending is None,
    ensures
        ({
            let (vf, bs, rest) = spec_process_action(v, a, script);
            &&& bs.len() >= 1
            &&& bs.last() == vf.state
            &&& forall|k: int| 0 <= k < bs.len() - 1 ==> same_except_status(v.state, bs[k])
        }),
{
    let v1 = spec_begin_action(v, a).0;
    lemma_drain_completes(v1, script);
    lemma_drain_intermediate(v1, script);
    let (vf, dbs, rest) = spec_drain(v1, script);
    if dbs.len() > 0 {
        assert(v1.pending is Some);
        assert(v1.state == crate::action_handler::spec_initiate_action_pending(v.state));
        assert(same_except_status(v.state, v1.state)) by {
            assert(AppStateView { status_state: v1.state.status_state, ..v.state } =~= v1.state);
        }
        assert forall|k: int|
            0 <= k < (seq![v1.state] + dbs).len() - 1 implies same_except_status(
            v.state,
            (seq![v1.state] + dbs)[k],
        ) by {
            if k > 0 {
                assert(dbs[k - 1] == v1.state);
            }
        }
    }
}

/// The index, within the broadcast log, of the final broadcast of each
/// action: the one that shows the action's full effect.
pub open spec fn spec_end_indices(
    v: StoreView,
    actions: Seq<ActionView>,
    script: Seq<RemoteResultView>,
) -> Seq<int>
    decreases actions.len(),
{
    if actions.len() == 0 {
        Seq::empty()
    } else {
        let (v1, bs1, rest1) = spec_process_action(v, actions[0], script);
        let tail = spec_end_indices(v1, actions.drop_first(), rest1);
        seq![bs1.len() - 1] + tail.map_values(|e: int| e + bs1.len() as int)
    }
}

/// Ordering and containment of the dispatch loop, for every queue and
/// every script — handler failures included.
///
/// Every queued action gets a designated final broadcast (nothing stops
/// the loop), those broadcasts appear strictly in enqueue order, and the
/// one for action `i` shows exactly the state reached by processing the
/// first `i + 1` actions in full: an earlier action's complete effect is
/// visible before any broadcast carries a later action's effect, and no
/// broadcast mixes partial effects.
pub proof fn lemma_run_ordering(
    v: StoreView,
    actions: Seq<ActionView>,
    script: Seq<RemoteResultView>,
)
    ensures
        ({
            let ends = spec_end_indices(v, actions, script);
            let bs = spec_run(v, actions, script).1;
            &&& ends.len() == actions.len()
            &&& forall|i: int| 0 <= i < ends.len() ==> 0 <= #[trigger] ends[i] < bs.len()
            &&& forall|i: int, j: int| 0 <= i < j < ends.len() ==> ends[i] < ends[j]
            &&& forall|i: int|
                0 <= i < ends.len() ==> bs[#[trigger] ends[i]] == spec_run(
                    v,
                    actions.take(i + 1),
                    script,
                ).0.state
        }),
    decreases actions.len(),
{
    if actions.len() > 0 {
        let vb = spec_begin_action(v, actions[0]).0;
        let (v1, bs1, rest1) = spec_process_action(v, actions[0], script);
        lemma_drain_completes(vb, script);
        assert(bs1.len() >= 1);
        assert(bs1.last() == v1.state);
        lemma_run_ordering(v1, actions.drop_first(), rest1);
        let ends_t = spec_end_indices(v1, actions.drop_first(), rest1);
        let bs_t = spec_run(v1, actions.drop_first(), rest1).1;
        let ends = spec_end_indices(v, actions, script);
        let bs = spec_run(v, actions, script).1;
        assert(ends.len() == actions.len());
        assert(ends[0] == bs1.len() - 1);
        assert(bs[ends[0]] == bs1[bs1.len() - 1]);
        assert(actions.take(1)[0] == actions[0]);
        assert(actions.take(1).drop_first().len() == 0);
        assert(spec_run(v1, actions.take(1).drop_first(), rest1).0 == v1);
        assert(spec_run(v, actions.take(1), script).0 == v1);
        assert(bs[ends[0]] == spec_run(v, actions.take(1), script).0.state);
        assert forall|i: int| 1 <= i < ends.len() implies 0 <= #[trigger] ends[i] < bs.len()
            && bs[ends[i]] == spec_run(v, actions.take(i + 1), script).0.state by {
            assert(ends[i] == ends_t[i - 1] + bs1.len());
            assert(0 <= ends_t[i - 1] < bs_t.len());
            assert(bs[ends[i]] == bs_t[ends_t[i - 1]]);
            assert(bs_t[ends_t[i - 1]] == spec_run(
                v1,
                actions.drop_first().take(i),
                rest1,
            ).0.state);
            assert(actions.take(i + 1)[0] == actions[0]);
            assert(actions.take(i + 1).drop_first() =~= actions.drop_first().take(i));
            assert(spec_run(v, actions.take(i + 1), script).0 == spec_run(
                v1,
                actions.drop_first().take(i),
                rest1,
            ).0);
        }
        assert forall|i: int, j: int| 0 <= i < j < ends.len() implies ends[i] < ends[j] by {
            if i == 0 {
                assert(ends[j] == ends_t[j - 1] + bs1.len());
                assert(0 <= ends_t[j - 1]);
            } else {
                assert(ends[i] == ends_t[i - 1] + bs1.len());
                assert(ends[j] == ends_t[j - 1] + bs1.len());
                assert(ends_t[i - 1] < ends_t[j - 1]);
            }
        }
    }
}

/// The failure handed to the in-flight action when the script answers the
/// wrong call.
fn unexpected_response_error() -> (e: RemoteError)
    ensures
        e@ == (RemoteErrorView {
            message: spec_unexpected_response_message(),
            backtrace: spec_unexpected_response_message(),
        }),
{
    RemoteError {
        message: "unexpected remote response".to_owned(),
        backtrace: "unexpected remote response".to_owned(),
    }
}

impl StateManager {
    /// Build the failure fed when the script answers the wrong call.
    fn mismatch_result(&self) -> (r: RemoteResult)
        requires
            self.in_flight(),
        ensures
            r@ == spec_mismatch_result(self@.pending.unwrap()),
    {
        let e = unexpected_response_error();
        match &self.pending {
            Some(PendingWork::ResolvingSession { .. }) => RemoteResult::Session(Err(e)),
            Some(PendingWork::FetchingIdentity { .. }) => RemoteResult::Identity(Err(e)),
            Some(PendingWork::ListingRegions { .. }) => RemoteResult::Regions(Err(e)),
            Some(PendingWork::FetchingLogGroups) => RemoteResult::LogGroups(Err(e)),
            None => vstd::pervasive::unreached(),
        }
    }

    /// Drive the in-flight action (if any) to completion against the
    /// script, broadcasting after every exchange.
    fn drain_in_flight(&mut self, script: &mut Vec<RemoteResult>, broadcasts: &mut Vec<AppState>)
        requires
            old(self).wf(),
        ensures
            final(self).wf(),
            !final(self).in_flight(),
            final(self)@ == spec_drain(old(self)@, old(script).deep_view()).0,
            final(broadcasts).deep_view() == old(broadcasts).deep_view() + spec_drain(
                old(self)@,
                old(script).deep_view(),
            ).1,
            final(script).deep_view() == spec_drain(old(self)@, old(script).deep_view()).2,
        decreases pending_rank(old(self)@.pending),
    {
        let ghost v0 = self@;
        let ghost s0 = script.deep_view();
        let ghost b0 = broadcasts.deep_view();
        if self.pending.is_some() {
            let ghost p = v0.pending.unwrap();
            let use_scripted = script.len() > 0 && self.result_matches(&script[0]);
            let result = if use_scripted {
                script.remove(0)
            } else {
                self.mismatch_result()
            };
            proof {
                if use_scripted {
                    assert(script.deep_view() =~= s0.drop_first());
                }
                assert(result@ == spec_next_result(p, s0).0);
                assert(script.deep_view() == spec_next_result(p, s0).1);
                lemma_resume_rank(v0, result@);
            }
            let _next = self.resume(result);
            broadcasts.push(self.state.snapshot());
            let ghost v2 = self@;
            proof {
                assert(broadcasts.deep_view() =~= b0 + seq![v2.state]);
            }
            self.drain_in_flight(script, broadcasts);
            proof {
                assert(broadcasts.deep_view() =~= b0 + (seq![v2.state] + spec_drain(
                    v2,
                    spec_next_result(p, s0).1,
                ).1));
            }
        }
    }

    /// The dispatch loop over plain values: process the queued actions
    /// strictly in order, performing each requested remote exchange
    /// against the script, and return the broadcast snapshots — at least
    /// one per action, in order, none coalesced.
    pub fn run(&mut self, actions: Vec<Action>, script: Vec<RemoteResult>) -> (broadcasts:
        Vec<AppState>)
        requires
            old(self).wf(),
            !old(self).in_flight(),
        ensures
            final(self).wf(),
            !final(self).in_flight(),
            final(self)@ == spec_run(old(self)@, actions.deep_view(), script.deep_view()).0,
            broadcasts.deep_view() == spec_run(
                old(self)@,
                actions.deep_view(),
                script.deep_view(),
            ).1,
            broadcasts@.len() >= actions@.len(),
        decreases actions@.len(),
    {
        let ghost v0 = self@;
        let ghost a0 = actions.deep_view();
        let ghost s0 = script.deep_view();
        let mut actions = actions;
        let mut script = script;
        let mut broadcasts: Vec<AppState> = Vec::new();
        if actions.len() == 0 {
            proof {
                assert(broadcasts.deep_view() =~= spec_run(v0, a0, s0).1);
            }
            return broadcasts;
        }
        let action = actions.remove(0);
        proof {
            assert(actions.deep_view() =~= a0.drop_first());
        }
        let _call = self.begin_action(action);
        broadcasts.push(self.state.snapshot());
        let ghost v1 = self@;
        proof {
            assert(v1 == spec_begin_action(v0, a0[0]).0);
            assert(broadcasts.deep_view() =~= seq![v1.state]);
        }
        self.drain_in_flight(&mut script, &mut broadcasts);
        proof {
            assert(broadcasts.deep_view() =~= seq![v1.state] + spec_drain(v1, s0).1);
            assert(broadcasts.deep_view() == spec_process_action(v0, a0[0], s0).1);
        }
        let ghost b1 = broadcasts.deep_view();
        let mut tail = self.run(actions, script);
        let ghost bt = tail.deep_view();
        broadcasts.append(&mut tail);
        proof {
            assert(broadcasts.deep_view() =~= b1 + bt);
            assert(broadcasts.deep_view() =~= spec_run(v0, a0, s0).1);
        }
        broadcasts
    }
}

} // verus!
