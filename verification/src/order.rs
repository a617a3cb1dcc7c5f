//! The order in which the events of one pair are told.
//!
//! Of each pair of a game and a selected category a run tells, in this
//! order: that the game is being searched; that the asset is being
//! downloaded, unless the pair ends before anything is fetched for it; and
//! how the pair ended. Where two games share a key their events cannot be
//! told apart, so the law is stated for games with distinct keys.

use crate::api::models::{ProgressView, StatusView};
use crate::laws::{pair_of, trace_of, Pair};
use crate::pipeline::{
    lemma_decision_is_admitted, lemma_step_keeps_wf, spec_step, Decision, PlanView, Response,
    RunView,
};
use vstd::prelude::*;

verus! {

// ---------------------------------------------------------------------------
// Filters
// ---------------------------------------------------------------------------

/// A sequence none of whose elements has a property has no elements with
/// that property.
pub proof fn lemma_filter_none<A>(s: Seq<A>, pred: spec_fn(A) -> bool)
    requires
        forall|i: int| 0 <= i < s.len() ==> !pred(#[trigger] s[i]),
    ensures
        s.filter(pred) == Seq::<A>::empty(),
    decreases s.len(),
{
    reveal(Seq::filter);
    if s.len() > 0 {
        lemma_filter_none(s.drop_last(), pred);
    }
}

/// A sequence exactly one of whose elements has a property has that
/// element as its only element with the property.
pub proof fn lemma_filter_single<A>(s: Seq<A>, pred: spec_fn(A) -> bool, k: int)
    requires
        0 <= k < s.len(),
        pred(s[k]),
        forall|i: int| 0 <= i < s.len() && i != k ==> !pred(#[trigger] s[i]),
    ensures
        s.filter(pred) == seq![s[k]],
    decreases s.len(),
{
    reveal(Seq::filter);
    let rest = s.drop_last();
    if k == s.len() - 1 {
        lemma_filter_none(rest, pred);
        assert(Seq::<A>::empty().push(s[k]) =~= seq![s[k]]);
    } else {
        lemma_filter_single(rest, pred, k);
    }
}

// ---------------------------------------------------------------------------
// The statuses of one pair
// ---------------------------------------------------------------------------

/// The property of an event of speaking of `pair`.
pub open spec fn speaks_of(pair: Pair) -> spec_fn(ProgressView) -> bool {
    |event: ProgressView| pair_of(event) == pair
}

/// The statuses that a log tells of `pair`, in the order of the log.
pub open spec fn statuses_of(log: Seq<ProgressView>, pair: Pair) -> Seq<StatusView> {
    log.filter(speaks_of(pair)).map_values(|event: ProgressView| event.status)
}

/// The pair of game `g` and the category at position `a` of the selection.
pub open spec fn pair_at(plan: PlanView, g: int, a: int) -> Pair {
    (plan.slug(g), plan.assets[a])
}

/// No two games have the same key.
pub open spec fn distinct_keys(plan: PlanView) -> bool {
    forall|i: int, j: int|
        0 <= i < plan.games.len() && 0 <= j < plan.games.len() && i != j ==> plan.slug(i)
            != plan.slug(j)
}

/// How far a run has come with a pair.
pub enum Stage {
    /// The run has not turned to the game yet.
    Untouched,
    /// The game is being searched, or the pair waits for its turn.
    Announced,
    /// The asset is being listed, fetched or written.
    Fetching,
    /// The pair has ended.
    Ended,
}

/// How far `run` has come with the pair of game `g` and category `a`.
pub open spec fn stage(run: RunView, g: int, a: int) -> Stage {
    let at_game = run.cursor.game_index;
    let at_asset = run.cursor.asset_index;
    if run.cursor.phase is Stalled || g > at_game {
        Stage::Untouched
    } else if g < at_game || a < at_asset {
        Stage::Ended
    } else if a == at_asset && (run.cursor.phase is Listing || run.cursor.phase is Fetching
        || run.cursor.phase is Persisting) {
        Stage::Fetching
    } else {
        Stage::Announced
    }
}

/// Whether the statuses told of a pair are those of a pair at `stage`, in
/// their order: first `Searching`, then `Downloading` unless the pair ended
/// before anything was fetched for it, then one terminal status. A pair
/// that was skipped was never told to be downloading.
pub open spec fn in_order(statuses: Seq<StatusView>, stage: Stage) -> bool {
    match stage {
        Stage::Untouched => statuses.len() == 0,
        Stage::Announced => statuses == seq![StatusView::Searching],
        Stage::Fetching => statuses == seq![StatusView::Searching, StatusView::Downloading],
        Stage::Ended => {
            ||| {
                &&& statuses.len() == 2
                &&& statuses[0] == StatusView::Searching
                &&& statuses[1].is_terminal()
                &&& !(statuses[1] is Done)
            }
            ||| {
                &&& statuses.len() == 3
                &&& statuses[0] == StatusView::Searching
                &&& statuses[1] == StatusView::Downloading
                &&& statuses[2].is_terminal()
                &&& !(statuses[2] is Skipped)
            }
        },
    }
}

/// The statuses told of a pair by two logs put together are those told by
/// the first followed by those told by the second.
pub proof fn lemma_statuses_add(first: Seq<ProgressView>, second: Seq<ProgressView>, pair: Pair)
    ensures
        statuses_of(first + second, pair) == statuses_of(first, pair) + statuses_of(second, pair),
{
    Seq::filter_distributes_over_add(first, second, speaks_of(pair));
    assert(statuses_of(first + second, pair) =~= statuses_of(first, pair) + statuses_of(
        second,
        pair,
    ));
}

/// The empty log tells nothing of any pair.
pub proof fn lemma_statuses_of_nothing(pair: Pair)
    ensures
        statuses_of(Seq::empty(), pair) == Seq::<StatusView>::empty(),
{
    lemma_filter_none(Seq::<ProgressView>::empty(), speaks_of(pair));
    assert(statuses_of(Seq::empty(), pair) =~= Seq::<StatusView>::empty());
}

/// One event tells its status of its pair and nothing of any other.
pub proof fn lemma_statuses_of_one(plan: PlanView, g: int, a: int, status: StatusView, h: int, b: int)
    requires
        plan.wf(),
        distinct_keys(plan),
        0 <= g < plan.games.len(),
        0 <= a < plan.assets.len(),
        0 <= h < plan.games.len(),
        0 <= b < plan.assets.len(),
    ensures
        statuses_of(seq![plan.event(g, a, status)], pair_at(plan, h, b)) == if g == h && a == b {
            seq![status]
        } else {
            Seq::empty()
        },
{
    let log = seq![plan.event(g, a, status)];
    let pair = pair_at(plan, h, b);
    if g == h && a == b {
        lemma_filter_single(log, speaks_of(pair), 0);
        assert(statuses_of(log, pair) =~= seq![status]);
    } else {
        lemma_filter_none(log, speaks_of(pair));
        assert(statuses_of(log, pair) =~= Seq::<StatusView>::empty());
    }
}

/// The events that tell one status of every category of game `g` tell it
/// once of each pair of that game and nothing of any other pair.
pub proof fn lemma_statuses_of_all(plan: PlanView, g: int, status: StatusView, h: int, b: int)
    requires
        plan.wf(),
        distinct_keys(plan),
        0 <= g < plan.games.len(),
        0 <= h < plan.games.len(),
        0 <= b < plan.assets.len(),
    ensures
        statuses_of(plan.events_for_all(g, status), pair_at(plan, h, b)) == if g == h {
            seq![status]
        } else {
            Seq::empty()
        },
{
    let log = plan.events_for_all(g, status);
    let pair = pair_at(plan, h, b);
    if g == h {
        lemma_filter_single(log, speaks_of(pair), b);
        assert(statuses_of(log, pair) =~= seq![status]);
    } else {
        lemma_filter_none(log, speaks_of(pair));
        assert(statuses_of(log, pair) =~= Seq::<StatusView>::empty());
    }
}

/// Turning to a game tells `Searching` of each of its pairs and nothing of
/// any other pair.
pub proof fn lemma_statuses_on_entering_game(plan: PlanView, g: int, h: int, b: int)
    requires
        plan.wf(),
        distinct_keys(plan),
        0 <= g <= plan.games.len(),
        0 <= h < plan.games.len(),
        0 <= b < plan.assets.len(),
    ensures
        statuses_of(plan.enter_game(g).events, pair_at(plan, h, b)) == if g == h {
            seq![StatusView::Searching]
        } else {
            Seq::empty()
        },
{
    if g < plan.games.len() {
        lemma_statuses_of_all(plan, g, StatusView::Searching, h, b);
    } else {
        lemma_statuses_of_nothing(pair_at(plan, h, b));
    }
}

/// Turning to a category tells `Downloading` of its pair where the fetch
/// starts at once, `Searching` of the pairs of the next game where the
/// game is finished, and nothing else.
pub proof fn lemma_statuses_on_entering_asset(
    plan: PlanView,
    g: int,
    a: int,
    remote_id: u64,
    h: int,
    b: int,
)
    requires
        plan.wf(),
        distinct_keys(plan),
        0 <= g < plan.games.len(),
        0 <= a <= plan.assets.len(),
        0 <= h < plan.games.len(),
        0 <= b < plan.assets.len(),
    ensures
        ({
            let next = plan.enter_asset(g, a, remote_id);
            statuses_of(next.events, pair_at(plan, h, b)) == if a >= plan.assets.len() {
                if h == g + 1 {
                    seq![StatusView::Searching]
                } else {
                    Seq::empty()
                }
            } else if next.cursor.phase is Listing && h == g && b == a {
                seq![StatusView::Downloading]
            } else {
                Seq::empty()
            }
        }),
{
    let next = plan.enter_asset(g, a, remote_id);
    if a >= plan.assets.len() {
        lemma_statuses_on_entering_game(plan, g + 1, h, b);
    } else if next.cursor.phase is Listing {
        lemma_statuses_of_one(plan, g, a, StatusView::Downloading, h, b);
    } else {
        lemma_statuses_of_nothing(pair_at(plan, h, b));
    }
}

/// Ending a category tells the ending of its pair, and then what turning
/// to the next category tells.
pub proof fn lemma_statuses_on_finishing_asset(
    plan: PlanView,
    g: int,
    a: int,
    remote_id: u64,
    status: StatusView,
    h: int,
    b: int,
)
    requires
        plan.wf(),
        distinct_keys(plan),
        0 <= g < plan.games.len(),
        0 <= a < plan.assets.len(),
        0 <= h < plan.games.len(),
        0 <= b < plan.assets.len(),
    ensures
        statuses_of(plan.finish_asset(g, a, remote_id, status).events, pair_at(plan, h, b)) == (
        if g == h && a == b {
            seq![status]
        } else {
            Seq::empty()
        }) + statuses_of(plan.enter_asset(g, a + 1, remote_id).events, pair_at(plan, h, b)),
{
    lemma_statuses_of_one(plan, g, a, status, h, b);
    lemma_statuses_add(
        seq![plan.event(g, a, status)],
        plan.enter_asset(g, a + 1, remote_id).events,
        pair_at(plan, h, b),
    );
}

/// Giving up a game tells the failure of each of its pairs, and then what
/// turning to the next game tells.
pub proof fn lemma_statuses_on_failing_game(plan: PlanView, g: int, message: Seq<char>, h: int, b: int)
    requires
        plan.wf(),
        distinct_keys(plan),
        0 <= g < plan.games.len(),
        0 <= h < plan.games.len(),
        0 <= b < plan.assets.len(),
    ensures
        statuses_of(plan.fail_game(g, message).events, pair_at(plan, h, b)) == if h == g {
            seq![StatusView::Failed(message)]
        } else if h == g + 1 {
            seq![StatusView::Searching]
        } else {
            Seq::empty()
        },
{
    let pair = pair_at(plan, h, b);
    let failed = plan.events_for_all(g, StatusView::Failed(message));
    let next = plan.enter_game(g + 1).events;
    lemma_statuses_of_all(plan, g, StatusView::Failed(message), h, b);
    lemma_statuses_on_entering_game(plan, g + 1, h, b);
    lemma_statuses_add(failed, next, pair);
    assert(statuses_of(failed, pair) + statuses_of(next, pair) =~= if h == g {
        seq![StatusView::Failed(message)]
    } else if h == g + 1 {
        seq![StatusView::Searching]
    } else {
        Seq::empty()
    });
}

/// Ending the current asset keeps the statuses of every pair in their
/// order: an asset that was only asked about does not end as stored, and
/// an asset for which something was fetched does not end as skipped.
proof fn lemma_ending_keeps_order(
    run: RunView,
    status: StatusView,
    told: Seq<StatusView>,
    h: int,
    b: int,
)
    requires
        run.wf(),
        distinct_keys(run.plan),
        run.admits(Decision::EndAsset { status }),
        0 <= h < run.plan.games.len(),
        0 <= b < run.plan.assets.len(),
        in_order(told, stage(run, h, b)),
    ensures
        ({
            let plan = run.plan;
            let g = run.cursor.game_index;
            let a = run.cursor.asset_index;
            let outcome = plan.finish_asset(g, a, run.remote_id(), status);
            in_order(
                told + statuses_of(outcome.events, pair_at(plan, h, b)),
                stage(run.after(outcome), h, b),
            )
        }),
{
    let plan = run.plan;
    let g = run.cursor.game_index;
    let a = run.cursor.asset_index;
    let remote_id = run.remote_id();
    let outcome = plan.finish_asset(g, a, remote_id, status);
    let more = statuses_of(outcome.events, pair_at(plan, h, b));
    lemma_statuses_on_finishing_asset(plan, g, a, remote_id, status, h, b);
    lemma_statuses_on_entering_asset(plan, g, a + 1, remote_id, h, b);
    let ending: Seq<StatusView> = if g == h && a == b {
        seq![status]
    } else {
        Seq::empty()
    };
    let entering = statuses_of(plan.enter_asset(g, a + 1, remote_id).events, pair_at(plan, h, b));
    assert(more == ending + entering);
    assert(told + more =~= (told + ending) + entering);
    if g == h && a == b {
        assert(entering =~= Seq::<StatusView>::empty());
        assert(told + more =~= told.push(status));
    } else {
        assert(told + more =~= told + entering);
        if entering.len() == 0 {
            assert(told + more =~= told);
        } else if told.len() == 0 {
            assert(told + more =~= entering);
        } else {
            assert(told + more =~= seq![StatusView::Searching, StatusView::Downloading]);
        }
    }
}

/// What the empty log tells of a pair adds nothing to what was told.
proof fn lemma_silence_keeps_order(told: Seq<StatusView>, pair: Pair)
    ensures
        told + statuses_of(Seq::empty(), pair) == told,
{
    lemma_statuses_of_nothing(pair);
    assert(told + Seq::<StatusView>::empty() =~= told);
}

/// Carrying out a decision keeps the statuses of every pair in their order.
pub proof fn lemma_carry_out_keeps_order(
    run: RunView,
    decision: Decision,
    told: Seq<StatusView>,
    h: int,
    b: int,
)
    requires
        run.wf(),
        distinct_keys(run.plan),
        run.admits(decision),
        0 <= h < run.plan.games.len(),
        0 <= b < run.plan.assets.len(),
        in_order(told, stage(run, h, b)),
    ensures
        in_order(
            told + statuses_of(run.carry_out(decision).events, pair_at(run.plan, h, b)),
            stage(run.after(run.carry_out(decision)), h, b),
        ),
{
    let plan = run.plan;
    let g = run.cursor.game_index;
    let a = run.cursor.asset_index;
    let outcome = run.carry_out(decision);
    let pair = pair_at(plan, h, b);
    let more = statuses_of(outcome.events, pair);
    let searching = StatusView::Searching;
    let downloading = StatusView::Downloading;
    match decision {
        Decision::Resolved { remote_id } => {
            lemma_statuses_on_entering_asset(plan, g, 0, remote_id, h, b);
            if more.len() == 0 {
                assert(told + more =~= told);
            } else {
                assert(told + more =~= seq![searching, downloading]);
            }
        },
        Decision::FailGame { message } => {
            lemma_fail_keeps_order(run, message, told, h, b);
        },
        Decision::EndAsset { status } => {
            lemma_ending_keeps_order(run, status, told, h, b);
        },
        Decision::StartListing => {
            lemma_statuses_of_one(plan, g, a, downloading, h, b);
            if more.len() == 0 {
                assert(told + more =~= told);
            } else {
                assert(told + more =~= seq![searching, downloading]);
            }
        },
        Decision::SearchBySlug | Decision::ListById | Decision::Fetch { .. }
        | Decision::Write { .. } => {
            lemma_silence_keeps_order(told, pair);
        },
    }
}

/// Each step keeps the statuses of every pair in their order.
pub proof fn lemma_step_keeps_order(
    run: RunView,
    response: Response,
    told: Seq<StatusView>,
    h: int,
    b: int,
)
    requires
        run.wf(),
        distinct_keys(run.plan),
        spec_step(run, response) is Some,
        0 <= h < run.plan.games.len(),
        0 <= b < run.plan.assets.len(),
        in_order(told, stage(run, h, b)),
    ensures
        in_order(
            told + statuses_of(spec_step(run, response)->0.events, pair_at(run.plan, h, b)),
            stage(run.after(spec_step(run, response)->0), h, b),
        ),
{
    lemma_decision_is_admitted(run, response);
    lemma_carry_out_keeps_order(run, run.decide(response)->0, told, h, b);
}

/// Giving up a game keeps the statuses of every pair in their order.
proof fn lemma_fail_keeps_order(run: RunView, message: Seq<char>, told: Seq<StatusView>, h: int, b: int)
    requires
        run.wf(),
        distinct_keys(run.plan),
        run.cursor.phase is Resolving,
        0 <= h < run.plan.games.len(),
        0 <= b < run.plan.assets.len(),
        in_order(told, stage(run, h, b)),
    ensures
        ({
            let outcome = run.plan.fail_game(run.cursor.game_index, message);
            in_order(
                told + statuses_of(outcome.events, pair_at(run.plan, h, b)),
                stage(run.after(outcome), h, b),
            )
        }),
{
    let plan = run.plan;
    let g = run.cursor.game_index;
    let outcome = plan.fail_game(g, message);
    let more = statuses_of(outcome.events, pair_at(plan, h, b));
    lemma_statuses_on_failing_game(plan, g, message, h, b);
    if h == g {
        assert(told + more =~= told.push(StatusView::Failed(message)));
    } else if h == g + 1 {
        assert(told + more =~= seq![StatusView::Searching]);
    } else {
        assert(told + more =~= told);
    }
}

/// The events of one pair come in order. In every run over games with
/// distinct keys, at every point, the statuses told so far of each pair
/// are those of the stage that the run has reached with the pair: nothing
/// before the run turns to the game; then `Searching`; then `Downloading`
/// while something is fetched for the pair; and at last one terminal
/// status, which is `Skipped` only where `Downloading` was never told and
/// `Done` only where it was.
pub proof fn lemma_events_in_order(plan: PlanView, responses: Seq<Response>, h: int, b: int)
    requires
        plan.wf(),
        distinct_keys(plan),
        0 <= h < plan.games.len(),
        0 <= b < plan.assets.len(),
    ensures
        in_order(
            statuses_of(trace_of(plan, responses).events, pair_at(plan, h, b)),
            stage(trace_of(plan, responses).run, h, b),
        ),
        trace_of(plan, responses).run.cursor.phase is Complete ==> stage(
            trace_of(plan, responses).run,
            h,
            b,
        ) == Stage::Ended,
    decreases responses.len(),
{
    crate::laws::lemma_run_settles(plan, responses);
    let pair = pair_at(plan, h, b);
    if responses.len() == 0 {
        if plan.width > 0 {
            lemma_statuses_on_entering_game(plan, 0, h, b);
        } else {
            lemma_statuses_of_nothing(pair);
        }
    } else {
        let before = trace_of(plan, responses.drop_last());
        crate::laws::lemma_run_settles(plan, responses.drop_last());
        lemma_events_in_order(plan, responses.drop_last(), h, b);
        if let Some(outcome) = spec_step(before.run, responses.last()) {
            lemma_step_keeps_wf(before.run, responses.last());
            lemma_step_keeps_order(
                before.run,
                responses.last(),
                statuses_of(before.events, pair),
                h,
                b,
            );
            lemma_statuses_add(before.events, outcome.events, pair);
        }
    }
}

} // verus!
