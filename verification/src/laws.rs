//! What holds of every run of the pipeline, whatever the answers to its
//! requests.

use crate::api::client::ClientError;
use crate::api::models::{AssetType, ProgressView, StatusView};
use crate::pipeline::{
    lemma_decision_is_admitted, lemma_step_keeps_wf, spec_step,
    Decision, Outcome, PhaseView, PlanView, RequestView, Response, RunView,
};
use vstd::prelude::*;

verus! {

// ---------------------------------------------------------------------------
// Logs and pairs
// ---------------------------------------------------------------------------

/// A pair of a game, named by its key, and a category.
pub type Pair = (Seq<char>, AssetType);

/// The property of an event of telling a terminal outcome.
pub open spec fn tells_terminal() -> spec_fn(ProgressView) -> bool {
    |event: ProgressView| event.status.is_terminal()
}

/// The events of a log that tell a terminal outcome, in the order of the
/// log.
pub open spec fn terminal_events(log: Seq<ProgressView>) -> Seq<ProgressView> {
    log.filter(tells_terminal())
}

/// The pair that an event speaks of.
pub open spec fn pair_of(event: ProgressView) -> Pair {
    (event.game_slug, event.asset_type)
}

/// The pairs that the events of a log speak of, in the order of the log.
pub open spec fn pairs_of(log: Seq<ProgressView>) -> Seq<Pair> {
    log.map_values(|event: ProgressView| pair_of(event))
}

/// The first `count` pairs of game `g`, in the order of the selection.
pub open spec fn pairs_of_game(plan: PlanView, g: int, count: int) -> Seq<Pair> {
    Seq::new(count as nat, |a: int| (plan.slug(g), plan.assets[a]))
}

/// The pairs of the first `g` games: game by game, and within a game in
/// the order of the selection.
pub open spec fn pairs_before(plan: PlanView, g: int) -> Seq<Pair>
    decreases g,
{
    if g <= 0 {
        Seq::empty()
    } else {
        pairs_before(plan, g - 1) + pairs_of_game(plan, g - 1, plan.assets.len() as int)
    }
}

/// Every pair of a game and a selected category, once.
pub open spec fn all_pairs(plan: PlanView) -> Seq<Pair> {
    pairs_before(plan, plan.games.len() as int)
}

/// The pairs that a run has behind it: those of the games before the
/// current one, and of the current game those before the current category.
pub open spec fn settled_pairs(run: RunView) -> Seq<Pair> {
    pairs_before(run.plan, run.cursor.game_index) + if run.cursor.game_index
        < run.plan.games.len() {
        pairs_of_game(run.plan, run.cursor.game_index, run.cursor.asset_index)
    } else {
        Seq::empty()
    }
}

/// The terminal events of two logs put together are the terminal events of
/// the first followed by those of the second.
pub proof fn lemma_terminal_events_add(first: Seq<ProgressView>, second: Seq<ProgressView>)
    ensures
        terminal_events(first + second) == terminal_events(first) + terminal_events(second),
{
    Seq::filter_distributes_over_add(first, second, tells_terminal());
}

/// A log without a terminal event has no terminal events.
pub proof fn lemma_terminal_events_none(log: Seq<ProgressView>)
    requires
        forall|i: int| 0 <= i < log.len() ==> !(#[trigger] log[i]).status.is_terminal(),
    ensures
        terminal_events(log) == Seq::<ProgressView>::empty(),
    decreases log.len(),
{
    reveal(Seq::filter);
    if log.len() > 0 {
        lemma_terminal_events_none(log.drop_last());
    }
}

/// A log of terminal events only is its own log of terminal events.
pub proof fn lemma_terminal_events_all(log: Seq<ProgressView>)
    requires
        forall|i: int| 0 <= i < log.len() ==> (#[trigger] log[i]).status.is_terminal(),
    ensures
        terminal_events(log) == log,
    decreases log.len(),
{
    reveal(Seq::filter);
    if log.len() > 0 {
        lemma_terminal_events_all(log.drop_last());
        assert(log.drop_last().push(log.last()) =~= log);
    }
}

/// The number of all pairs is the number of games times the number of
/// selected categories.
pub proof fn lemma_pairs_before_len(plan: PlanView, g: int)
    requires
        0 <= g,
    ensures
        pairs_before(plan, g).len() == g * plan.assets.len(),
    decreases g,
{
    if g > 0 {
        lemma_pairs_before_len(plan, g - 1);
        assert((g - 1) * plan.assets.len() + plan.assets.len() == g * plan.assets.len())
            by (nonlinear_arith);
    } else {
        assert(0 * plan.assets.len() == 0) by (nonlinear_arith);
    }
}

/// The pair of game `g` and the category at position `a` of the selection
/// stands at position `g * c + a` among the pairs of the first `upto`
/// games, where `c` is the number of selected categories.
pub proof fn lemma_pair_at(plan: PlanView, upto: int, g: int, a: int)
    requires
        0 <= g < upto,
        0 <= a < plan.assets.len(),
    ensures
        0 <= g * plan.assets.len() + a < pairs_before(plan, upto).len(),
        pairs_before(plan, upto)[g * plan.assets.len() + a] == (plan.slug(g), plan.assets[a]),
    decreases upto,
{
    let c = plan.assets.len() as int;
    lemma_pairs_before_len(plan, upto);
    lemma_pairs_before_len(plan, upto - 1);
    assert(0 <= g * c && (g + 1) * c <= upto * c && (g + 1) * c == g * c + c)
        by (nonlinear_arith)
        requires
            0 <= g < upto,
            0 <= c,
    ;
    if g < upto - 1 {
        lemma_pair_at(plan, upto - 1, g, a);
    } else {
        assert(pairs_of_game(plan, g, c)[a] == (plan.slug(g), plan.assets[a]));
    }
}

/// Where no two games have the same key, no pair occurs twice among all
/// pairs: a complete run has then told exactly one terminal outcome of
/// each pair.
pub proof fn lemma_all_pairs_distinct(plan: PlanView)
    requires
        plan.wf(),
        forall|i: int, j: int|
            0 <= i < j < plan.games.len() ==> plan.games[i].slug@ != plan.games[j].slug@,
    ensures
        all_pairs(plan).no_duplicates(),
{
    let c = plan.assets.len() as int;
    let games = plan.games.len() as int;
    let all = all_pairs(plan);
    lemma_pairs_before_len(plan, games);
    assert forall|k1: int, k2: int| 0 <= k1 < all.len() && 0 <= k2 < all.len() && k1 != k2
        implies all[k1] != all[k2] by {
        let g1 = k1 / c;
        let a1 = k1 % c;
        let g2 = k2 / c;
        let a2 = k2 % c;
        vstd::arithmetic::div_mod::lemma_fundamental_div_mod(k1, c);
        vstd::arithmetic::div_mod::lemma_fundamental_div_mod(k2, c);
        vstd::arithmetic::div_mod::lemma_mod_pos_bound(k1, c);
        vstd::arithmetic::div_mod::lemma_mod_pos_bound(k2, c);
        vstd::arithmetic::div_mod::lemma_div_pos_is_pos(k1, c);
        vstd::arithmetic::div_mod::lemma_div_pos_is_pos(k2, c);
        assert(games * c == c * games) by (nonlinear_arith);
        vstd::arithmetic::div_mod::lemma_multiply_divide_lt(k1, c, games);
        vstd::arithmetic::div_mod::lemma_multiply_divide_lt(k2, c, games);
        assert(c * g1 == g1 * c && c * g2 == g2 * c) by (nonlinear_arith);
        lemma_pair_at(plan, games, g1, a1);
        lemma_pair_at(plan, games, g2, a2);
        if g1 == g2 {
            assert(a1 != a2);
        } else if g1 < g2 {
            assert(plan.games[g1].slug@ != plan.games[g2].slug@);
        } else {
            assert(plan.games[g2].slug@ != plan.games[g1].slug@);
        }
    }
}

// ---------------------------------------------------------------------------
// One step
// ---------------------------------------------------------------------------

/// Turning to a game tells no terminal outcome, and leaves behind the run
/// exactly the pairs of the games before it.
pub proof fn lemma_enter_game_settles(plan: PlanView, g: int)
    requires
        0 <= g <= plan.games.len(),
    ensures
        terminal_events(plan.enter_game(g).events) == Seq::<ProgressView>::empty(),
        settled_pairs(RunView { plan, cursor: plan.enter_game(g).cursor }) == pairs_before(
            plan,
            g,
        ),
{
    lemma_terminal_events_none(plan.enter_game(g).events);
    let after = RunView { plan, cursor: plan.enter_game(g).cursor };
    assert(settled_pairs(after) =~= pairs_before(plan, g));
}

/// Turning to a category tells no terminal outcome, and leaves behind the
/// run the pairs of the games before the current one and of the categories
/// before this one.
pub proof fn lemma_enter_asset_settles(plan: PlanView, g: int, a: int, remote_id: u64)
    requires
        0 <= g < plan.games.len(),
        0 <= a <= plan.assets.len(),
    ensures
        terminal_events(plan.enter_asset(g, a, remote_id).events) == Seq::<
            ProgressView,
        >::empty(),
        settled_pairs(RunView { plan, cursor: plan.enter_asset(g, a, remote_id).cursor })
            == pairs_before(plan, g) + pairs_of_game(plan, g, a),
{
    if a >= plan.assets.len() {
        lemma_enter_game_settles(plan, g + 1);
    } else {
        lemma_terminal_events_none(plan.enter_asset(g, a, remote_id).events);
    }
}

/// Ending a category with a terminal outcome tells that outcome, of that
/// pair, and no other terminal outcome.
pub proof fn lemma_finish_asset_settles(
    plan: PlanView,
    g: int,
    a: int,
    remote_id: u64,
    status: StatusView,
)
    requires
        0 <= g < plan.games.len(),
        0 <= a < plan.assets.len(),
        status.is_terminal(),
    ensures
        terminal_events(plan.finish_asset(g, a, remote_id, status).events) == seq![
            plan.event(g, a, status),
        ],
        settled_pairs(RunView { plan, cursor: plan.finish_asset(g, a, remote_id, status).cursor })
            == pairs_before(plan, g) + pairs_of_game(plan, g, a + 1),
{
    let told = seq![plan.event(g, a, status)];
    let next = plan.enter_asset(g, a + 1, remote_id);
    lemma_enter_asset_settles(plan, g, a + 1, remote_id);
    lemma_terminal_events_add(told, next.events);
    lemma_terminal_events_all(told);
    assert(told + Seq::<ProgressView>::empty() =~= told);
}

/// Giving up a game tells one failure for each of its pairs, in order, and
/// no other terminal outcome.
pub proof fn lemma_fail_game_settles(plan: PlanView, g: int, message: Seq<char>)
    requires
        0 <= g < plan.games.len(),
    ensures
        terminal_events(plan.fail_game(g, message).events) == plan.events_for_all(
            g,
            StatusView::Failed(message),
        ),
        settled_pairs(RunView { plan, cursor: plan.fail_game(g, message).cursor })
            == pairs_before(plan, g + 1),
{
    let told = plan.events_for_all(g, StatusView::Failed(message));
    let next = plan.enter_game(g + 1);
    lemma_enter_game_settles(plan, g + 1);
    lemma_terminal_events_add(told, next.events);
    lemma_terminal_events_all(told);
    assert(told + Seq::<ProgressView>::empty() =~= told);
}

/// The pairs of the events that announce one status for every category of
/// a game are the pairs of that game.
pub proof fn lemma_pairs_of_events_for_all(plan: PlanView, g: int, status: StatusView)
    ensures
        pairs_of(plan.events_for_all(g, status)) == pairs_of_game(
            plan,
            g,
            plan.assets.len() as int,
        ),
{
    assert(pairs_of(plan.events_for_all(g, status)) =~= pairs_of_game(
        plan,
        g,
        plan.assets.len() as int,
    ));
}

/// Carrying out a decision adds to the pairs that the run has behind it
/// exactly the pairs whose terminal outcome is told, in the order in which
/// they are told.
pub proof fn lemma_carry_out_settles(run: RunView, decision: Decision)
    requires
        run.wf(),
        run.admits(decision),
    ensures
        settled_pairs(run.after(run.carry_out(decision))) == settled_pairs(run) + pairs_of(
            terminal_events(run.carry_out(decision).events),
        ),
{
    let plan = run.plan;
    let g = run.cursor.game_index;
    let a = run.cursor.asset_index;
    let c = plan.assets.len() as int;
    let outcome = run.carry_out(decision);
    let none = Seq::<Pair>::empty();
    let behind = settled_pairs(run);
    assert(pairs_of(Seq::<ProgressView>::empty()) =~= none);
    assert(behind + none =~= behind);
    match decision {
        Decision::Resolved { remote_id } => {
            lemma_enter_asset_settles(plan, g, 0, remote_id);
        },
        Decision::FailGame { message } => {
            lemma_fail_game_settles(plan, g, message);
            lemma_pairs_of_events_for_all(plan, g, StatusView::Failed(message));
            assert(pairs_of_game(plan, g, 0) =~= none);
            assert(behind =~= pairs_before(plan, g));
            assert(pairs_before(plan, g + 1) == pairs_before(plan, g) + pairs_of_game(plan, g, c));
        },
        Decision::EndAsset { status } => {
            let pair = (plan.slug(g), plan.assets[a]);
            lemma_finish_asset_settles(plan, g, a, run.remote_id(), status);
            assert(pairs_of(seq![plan.event(g, a, status)]) =~= seq![pair]);
            assert(pairs_of_game(plan, g, a + 1) =~= pairs_of_game(plan, g, a) + seq![pair]);
            assert(behind + seq![pair] =~= pairs_before(plan, g) + pairs_of_game(plan, g, a + 1));
        },
        Decision::StartListing => {
            lemma_terminal_events_none(outcome.events);
        },
        Decision::SearchBySlug | Decision::ListById | Decision::Fetch { .. }
        | Decision::Write { .. } => {
            lemma_terminal_events_none(outcome.events);
        },
    }
}

/// Each step adds to the pairs that the run has behind it exactly the pairs
/// whose terminal outcome it tells, in the order in which it tells them.
pub proof fn lemma_step_settles(run: RunView, response: Response)
    requires
        run.wf(),
        spec_step(run, response) is Some,
    ensures
        settled_pairs(run.after(spec_step(run, response)->0)) == settled_pairs(run) + pairs_of(
            terminal_events(spec_step(run, response)->0.events),
        ),
{
    lemma_decision_is_admitted(run, response);
    lemma_carry_out_settles(run, run.decide(response)->0);
}

// ---------------------------------------------------------------------------
// Whole runs
// ---------------------------------------------------------------------------

/// What has happened in a run so far: where it stands, the events it has
/// handed out and the requests it has made, each in order.
pub struct Trace {
    pub run: RunView,
    pub events: Seq<ProgressView>,
    pub requests: Seq<RequestView>,
}

/// The request of a step, as a sequence of at most one request.
pub open spec fn request_seq(request: Option<RequestView>) -> Seq<RequestView> {
    match request {
        Some(r) => seq![r],
        None => Seq::empty(),
    }
}

/// A trace continued by one step.
pub open spec fn extend(trace: Trace, outcome: Outcome) -> Trace {
    Trace {
        run: trace.run.after(outcome),
        events: trace.events + outcome.events,
        requests: trace.requests + request_seq(outcome.request),
    }
}

/// The trace of a run at its start.
pub open spec fn initial_trace(plan: PlanView) -> Trace {
    Trace {
        run: RunView { plan, cursor: plan.start().cursor },
        events: plan.start().events,
        requests: request_seq(plan.start().request),
    }
}

/// The trace of a run that started from `plan` and was given `responses`
/// one after the other. A response that does not answer the request that
/// the run is waiting for changes nothing.
pub open spec fn trace_of(plan: PlanView, responses: Seq<Response>) -> Trace
    decreases responses.len(),
{
    if responses.len() == 0 {
        initial_trace(plan)
    } else {
        let before = trace_of(plan, responses.drop_last());
        match spec_step(before.run, responses.last()) {
            Some(outcome) => extend(before, outcome),
            None => before,
        }
    }
}

/// At every point of every run, the terminal events handed out so far
/// speak, in order and once each, of exactly the pairs that the run has
/// behind it.
pub proof fn lemma_run_settles(plan: PlanView, responses: Seq<Response>)
    requires
        plan.wf(),
    ensures
        trace_of(plan, responses).run.wf(),
        trace_of(plan, responses).run.plan == plan,
        pairs_of(terminal_events(trace_of(plan, responses).events)) == settled_pairs(
            trace_of(plan, responses).run,
        ),
    decreases responses.len(),
{
    let none = Seq::<Pair>::empty();
    if responses.len() == 0 {
        let start = initial_trace(plan);
        if plan.width > 0 || plan.games.len() == 0 {
            crate::pipeline::lemma_enter_game_wf(plan, 0);
        }
        lemma_terminal_events_none(start.events);
        assert(pairs_of(Seq::<ProgressView>::empty()) =~= none);
        assert(pairs_of_game(plan, 0, 0) =~= none);
        assert(settled_pairs(start.run) =~= none);
    } else {
        let before = trace_of(plan, responses.drop_last());
        lemma_run_settles(plan, responses.drop_last());
        if let Some(outcome) = spec_step(before.run, responses.last()) {
            lemma_step_keeps_wf(before.run, responses.last());
            lemma_step_settles(before.run, responses.last());
            lemma_terminal_events_add(before.events, outcome.events);
            assert(pairs_of(terminal_events(before.events) + terminal_events(outcome.events))
                =~= pairs_of(terminal_events(before.events)) + pairs_of(
                terminal_events(outcome.events),
            ));
        }
    }
}

/// Every run that completes has told exactly one terminal outcome for each
/// pair of a game and a selected category: its terminal events speak of
/// the pairs game by game, within a game in the order of the selection, and
/// their number is the number of games times the number of selected
/// categories.
pub proof fn lemma_complete_run_settles_every_pair(plan: PlanView, responses: Seq<Response>)
    requires
        plan.wf(),
        trace_of(plan, responses).run.cursor.phase is Complete,
    ensures
        pairs_of(terminal_events(trace_of(plan, responses).events)) == all_pairs(plan),
        terminal_events(trace_of(plan, responses).events).len() == plan.games.len()
            * plan.assets.len(),
{
    lemma_run_settles(plan, responses);
    let trace = trace_of(plan, responses);
    assert(settled_pairs(trace.run) =~= all_pairs(plan));
    lemma_pairs_before_len(plan, plan.games.len() as int);
}

/// A run without games does nothing: it is complete from its start,
/// whatever its width, hands out no event and makes no request, and no
/// answer changes that.
pub proof fn lemma_run_without_games(plan: PlanView, responses: Seq<Response>)
    requires
        plan.games.len() == 0,
    ensures
        trace_of(plan, responses).run.cursor.phase is Complete,
        trace_of(plan, responses).events == Seq::<ProgressView>::empty(),
        trace_of(plan, responses).requests == Seq::<RequestView>::empty(),
    decreases responses.len(),
{
    if responses.len() > 0 {
        lemma_run_without_games(plan, responses.drop_last());
    }
}

/// A run of width zero over at least one game stalls: it never hands out
/// an event, never makes a request and never completes.
pub proof fn lemma_run_of_width_zero(plan: PlanView, responses: Seq<Response>)
    requires
        plan.games.len() > 0,
        plan.width == 0,
    ensures
        trace_of(plan, responses).run.cursor.phase is Stalled,
        trace_of(plan, responses).events == Seq::<ProgressView>::empty(),
        trace_of(plan, responses).requests == Seq::<RequestView>::empty(),
    decreases responses.len(),
{
    if responses.len() > 0 {
        lemma_run_of_width_zero(plan, responses.drop_last());
    }
}

/// A run of a width of at least one never stalls, and has a game in
/// flight exactly while it is not complete.
pub proof fn lemma_run_of_positive_width(plan: PlanView, responses: Seq<Response>)
    requires
        plan.wf(),
        plan.width > 0,
    ensures
        !(trace_of(plan, responses).run.cursor.phase is Stalled),
        trace_of(plan, responses).run.games_in_flight() <= 1 <= plan.width,
{
    lemma_run_settles(plan, responses);
}

// ---------------------------------------------------------------------------
// Progress
// ---------------------------------------------------------------------------

/// An upper bound of the number of answers that a game takes: two searches
/// and five answers for each selected category (whether the asset exists,
/// two listings, the image, and the writing).
pub open spec fn answers_per_game(plan: PlanView) -> int {
    2 + 5 * (plan.assets.len() as int)
}

/// An upper bound of the number of answers that a run still takes before it
/// is complete.
pub open spec fn remaining(run: RunView) -> int {
    let plan = run.plan;
    let later_games = (plan.games.len() - run.cursor.game_index - 1) * answers_per_game(plan);
    let later_assets = 5 * (plan.assets.len() - run.cursor.asset_index - 1);
    match run.cursor.phase {
        PhaseView::Complete | PhaseView::Stalled => 0,
        PhaseView::Resolving { by_name } => later_games + 5 * plan.assets.len() + if by_name {
            2int
        } else {
            1int
        },
        PhaseView::CheckingExisting { .. } => later_games + later_assets + 5,
        PhaseView::Listing { by_platform, .. } => later_games + later_assets + if by_platform {
            4int
        } else {
            3int
        },
        PhaseView::Fetching { .. } => later_games + later_assets + 2,
        PhaseView::Persisting { .. } => later_games + later_assets + 1,
    }
}

/// The bound of a run that turns to game `g` or to a category of game `g`
/// is at most that of game `g` and the games after it.
proof fn lemma_remaining_after_entering(plan: PlanView, g: int, a: int, remote_id: u64)
    requires
        plan.wf(),
        0 <= g <= plan.games.len(),
        0 <= a <= plan.assets.len(),
    ensures
        0 <= remaining(RunView { plan, cursor: plan.enter_game(g).cursor }) <= (
        plan.games.len() - g) * answers_per_game(plan),
        g < plan.games.len() ==> 0 <= remaining(
            RunView { plan, cursor: plan.enter_asset(g, a, remote_id).cursor },
        ) <= (plan.games.len() - g - 1) * answers_per_game(plan) + 5 * (plan.assets.len() - a),
        g < plan.games.len() && a < plan.assets.len() ==> 0 <= remaining(
            RunView { plan, cursor: plan.start_listing(g, a, remote_id).cursor },
        ) <= (plan.games.len() - g - 1) * answers_per_game(plan) + 5 * (plan.assets.len() - a)
            - 1,
{
    let per_game = answers_per_game(plan);
    let games = plan.games.len() as int;
    assert((games - g) * per_game == (games - g - 1) * per_game + per_game)
        by (nonlinear_arith);
    assert((games - g - 1) * per_game == (games - g - 2) * per_game + per_game)
        by (nonlinear_arith);
    assert(g < games ==> (games - g - 1) * per_game >= 0) by (nonlinear_arith)
        requires
            per_game >= 0,
    ;
    assert(g + 1 < games ==> (games - g - 2) * per_game >= 0) by (nonlinear_arith)
        requires
            per_game >= 0,
    ;
    assert((games - games) * per_game == 0) by (nonlinear_arith);
}

/// Carrying out a decision brings the run nearer to its end.
pub proof fn lemma_carry_out_progress(run: RunView, decision: Decision)
    requires
        run.wf(),
        run.admits(decision),
    ensures
        0 <= remaining(run.after(run.carry_out(decision))) < remaining(run),
{
    let plan = run.plan;
    let g = run.cursor.game_index;
    let a = run.cursor.asset_index;
    let per_game = answers_per_game(plan);
    let games = plan.games.len() as int;
    assert((games - g - 1) * per_game >= 0) by (nonlinear_arith)
        requires
            per_game >= 0,
            g < games,
    ;
    assert((games - g - 1) * per_game == (games - (g + 1)) * per_game);
    match decision {
        Decision::Resolved { remote_id } => {
            lemma_remaining_after_entering(plan, g, 0, remote_id);
        },
        Decision::FailGame { .. } => {
            lemma_remaining_after_entering(plan, g + 1, 0, 0);
        },
        Decision::EndAsset { .. } => {
            lemma_remaining_after_entering(plan, g, a + 1, run.remote_id());
        },
        _ => {},
    }
}

/// Every answer that a run takes brings it nearer to its end: the bound of
/// the answers that it still takes goes down. A run therefore takes at most
/// `remaining` answers, and is complete once the bound is zero.
pub proof fn lemma_step_progress(run: RunView, response: Response)
    requires
        run.wf(),
        spec_step(run, response) is Some,
    ensures
        0 <= remaining(run.after(spec_step(run, response)->0)) < remaining(run),
{
    lemma_decision_is_admitted(run, response);
    lemma_carry_out_progress(run, run.decide(response)->0);
}

/// A run that is neither complete nor stalled waits for an answer, and
/// some answer is taken; a run that is complete or stalled takes none. The
/// bound of a run is zero exactly when it is complete or stalled.
pub proof fn lemma_unfinished_run_takes_an_answer(run: RunView)
    requires
        run.wf(),
    ensures
        run.games_in_flight() == 1 <==> exists|response: Response| #[trigger]
            spec_step(run, response) is Some,
        run.games_in_flight() == 0 <==> remaining(run) == 0,
        run.games_in_flight() <= run.plan.width,
{
    let plan = run.plan;
    let g = run.cursor.game_index;
    let per_game = answers_per_game(plan);
    let games = plan.games.len() as int;
    if run.games_in_flight() == 1 {
        assert((games - g - 1) * per_game >= 0) by (nonlinear_arith)
            requires
                per_game >= 0,
                g < games,
        ;
        let response = match run.cursor.phase {
            PhaseView::Resolving { .. } => Response::SearchHits(Err(ClientError::InvalidApiKey)),
            PhaseView::CheckingExisting { .. } => Response::Exists(true),
            PhaseView::Listing { .. } => Response::Assets(Err(ClientError::InvalidApiKey)),
            PhaseView::Fetching { .. } => Response::Image(Err(ClientError::InvalidApiKey)),
            _ => Response::Persisted(Ok(())),
        };
        assert(spec_step(run, response) is Some);
    }
}

/// The number of the responses of a sequence that the run takes.
pub open spec fn answers_taken(plan: PlanView, responses: Seq<Response>) -> nat
    decreases responses.len(),
{
    if responses.len() == 0 {
        0
    } else {
        let before = trace_of(plan, responses.drop_last());
        answers_taken(plan, responses.drop_last()) + if spec_step(before.run, responses.last())
            is Some {
            1nat
        } else {
            0nat
        }
    }
}

/// No run goes on for ever: the answers that it has taken and the bound of
/// those that it still takes never exceed the bound at its start.
pub proof fn lemma_run_is_bounded(plan: PlanView, responses: Seq<Response>)
    requires
        plan.wf(),
    ensures
        answers_taken(plan, responses) + remaining(trace_of(plan, responses).run) <= remaining(
            initial_trace(plan).run,
        ),
        0 <= remaining(trace_of(plan, responses).run),
        remaining(initial_trace(plan).run) <= plan.games.len() * answers_per_game(plan),
    decreases responses.len(),
{
    lemma_run_settles(plan, responses);
    lemma_remaining_after_entering(plan, 0, 0, 0);
    if responses.len() > 0 {
        let before = trace_of(plan, responses.drop_last());
        lemma_run_settles(plan, responses.drop_last());
        lemma_run_is_bounded(plan, responses.drop_last());
        if spec_step(before.run, responses.last()) is Some {
            lemma_step_progress(before.run, responses.last());
        }
    }
}

// ---------------------------------------------------------------------------
// Particular answers
// ---------------------------------------------------------------------------

/// Whether a request lists candidates, fetches an image or writes a file.
pub open spec fn fetches_or_writes(request: RequestView) -> bool {
    request is ListById || request is ListByPlatform || request is Download || request is Persist
}

/// Turning to a game or to a category tells nothing to be stored, skipped
/// or failed, and asks for no image and for no writing.
pub proof fn lemma_entering_is_quiet(plan: PlanView, g: int, a: int, remote_id: u64)
    requires
        0 <= g < plan.games.len(),
        0 <= a <= plan.assets.len(),
    ensures
        forall|i: int|
            0 <= i < plan.enter_asset(g, a, remote_id).events.len() ==> !(
            #[trigger] plan.enter_asset(g, a, remote_id).events[i]).status.is_terminal(),
        plan.enter_asset(g, a, remote_id).request matches Some(request) ==> !(request
            is Download) && !(request is Persist),
        forall|i: int|
            0 <= i < plan.enter_game(g + 1).events.len() ==> (#[trigger] plan.enter_game(
                g + 1,
            ).events[i]).status is Searching,
        plan.enter_game(g + 1).request matches Some(request) ==> request is Search,
{
}

/// A game that the catalogue does not know is given up. When the search by
/// slug has no hit, the game is given up with the message that it was not
/// found. A search by name without a hit is followed by the search by slug.
pub proof fn lemma_unknown_game_is_given_up(run: RunView, response: Response)
    requires
        run.wf(),
        run.cursor.phase is Resolving,
        response matches Response::SearchHits(Ok(hits)) && hits@.len() == 0,
    ensures
        run.decide(response) == Some(
            if run.cursor.phase->by_name {
                Decision::SearchBySlug
            } else {
                Decision::FailGame { message: crate::pipeline::spec_not_found() }
            },
        ),
        spec_step(run, response) == Some(run.carry_out(run.decide(response)->0)),
{
}

/// A game that is given up fails as a whole, and the run goes on. Every
/// selected category of the game is told to have failed with the same
/// message, in the order of the selection, and nothing else is told of the
/// game; the events that follow announce the next game, and the request
/// that follows searches for it. After the last game the run is complete.
pub proof fn lemma_given_up_game_fails(run: RunView, message: Seq<char>)
    requires
        run.wf(),
        run.cursor.phase is Resolving,
    ensures
        ({
            let plan = run.plan;
            let g = run.cursor.game_index;
            let outcome = run.carry_out(Decision::FailGame { message });
            let failed = plan.events_for_all(g, StatusView::Failed(message));
            &&& outcome.events == failed + plan.enter_game(g + 1).events
            &&& terminal_events(outcome.events) == failed
            &&& failed.len() == plan.assets.len()
            &&& outcome.cursor == plan.enter_game(g + 1).cursor
            &&& outcome.request == plan.enter_game(g + 1).request
            &&& outcome.request matches Some(request) ==> request is Search
            &&& outcome.cursor.phase is Complete <==> g + 1 == plan.games.len()
            &&& !(outcome.cursor.phase is Complete) ==> outcome.cursor.game_index == g + 1
        }),
{
    let plan = run.plan;
    let g = run.cursor.game_index;
    let outcome = run.carry_out(Decision::FailGame { message });
    assert(outcome == plan.fail_game(g, message));
    lemma_fail_game_settles(plan, g, message);
}

/// A miss of the platform is no failure. When the platform's listing comes
/// back without a single candidate, nothing is told, the run stays with
/// the pair, and the request that follows asks the catalogue for the same
/// category, in the same size, under the identifier to which the game was
/// resolved. The answer to that request is not followed by another
/// listing.
pub proof fn lemma_platform_miss_falls_back(run: RunView, response: Response)
    requires
        run.wf(),
        run.cursor.phase matches PhaseView::Listing { by_platform: true, .. },
        response matches Response::Assets(Ok(candidates)) && candidates@.len() == 0,
    ensures
        ({
            let plan = run.plan;
            let a = run.cursor.asset_index;
            let outcome = spec_step(run, response)->0;
            &&& run.decide(response) == Some(Decision::ListById)
            &&& spec_step(run, response) is Some
            &&& outcome.events.len() == 0
            &&& outcome.cursor.game_index == run.cursor.game_index
            &&& outcome.cursor.asset_index == a
            &&& outcome.cursor.phase == (PhaseView::Listing {
                remote_id: run.remote_id(),
                by_platform: false,
            })
            &&& outcome.request == Some(
                RequestView::ListById {
                    asset_type: plan.assets[a],
                    game_id: run.remote_id(),
                    dimensions: plan.dimensions(a),
                },
            )
        }),
{
}

/// What a listing without a choice leads to. A listing none of whose
/// candidates passes the filters ends the pair with the message that no
/// art was found, with one exception: the platform's listing without any
/// candidate at all, after which the catalogue is asked. So the message is
/// told only after the catalogue's own listing, or after a listing that
/// had candidates.
pub proof fn lemma_listing_without_choice(run: RunView, response: Response)
    requires
        run.wf(),
        run.cursor.phase is Listing,
        response matches Response::Assets(Ok(candidates)) && crate::download::first_passing(
            candidates@,
            run.plan.nsfw_filter,
            run.plan.humor_filter,
        ) is None,
    ensures
        run.decide(response) == Some(
            if run.cursor.phase->by_platform && response->Assets_0->Ok_0@.len() == 0 {
                Decision::ListById
            } else {
                Decision::EndAsset { status: StatusView::Failed(crate::pipeline::spec_no_art()) }
            },
        ),
{
}

/// The platform is asked first, and only for games that it knows: the
/// first listing of a pair goes to the platform exactly where the game has
/// a platform identifier, and to the catalogue otherwise.
pub proof fn lemma_platform_is_asked_first(plan: PlanView, g: int, a: int, remote_id: u64)
    requires
        0 <= g < plan.games.len(),
        0 <= a < plan.assets.len(),
    ensures
        ({
            let outcome = plan.start_listing(g, a, remote_id);
            let by_platform = plan.games[g].spec_has_platform_id();
            &&& outcome.cursor.phase == (PhaseView::Listing { remote_id, by_platform })
            &&& outcome.request == Some(
                if by_platform {
                    RequestView::ListByPlatform {
                        asset_type: plan.assets[a],
                        platform: crate::db::spec_primary_service(),
                        platform_id: plan.games[g].service_id->0@,
                        dimensions: plan.dimensions(a),
                    }
                } else {
                    plan.by_id_request(a, remote_id)
                },
            )
        }),
{
}

/// An image without a single byte is never written. When the fetch of an
/// image gives zero bytes, the pair is told to have failed with the message
/// of the empty payload, no other terminal outcome is told, and the request
/// that follows belongs to the next pair: it writes nothing.
pub proof fn lemma_empty_payload_fails(run: RunView, response: Response)
    requires
        run.wf(),
        run.cursor.phase is Fetching,
        response matches Response::Image(Ok(bytes)) && bytes@.len() == 0,
    ensures
        ({
            let plan = run.plan;
            let g = run.cursor.game_index;
            let a = run.cursor.asset_index;
            let outcome = spec_step(run, response)->0;
            let failed = StatusView::Failed(crate::pipeline::spec_empty_payload());
            &&& spec_step(run, response) is Some
            &&& outcome.events.len() > 0
            &&& outcome.events[0] == plan.event(g, a, failed)
            &&& terminal_events(outcome.events) == seq![plan.event(g, a, failed)]
            &&& outcome.request matches Some(request) ==> !(request is Persist) && !(request
                is Download)
        }),
{
    let plan = run.plan;
    let g = run.cursor.game_index;
    let a = run.cursor.asset_index;
    let failed = StatusView::Failed(crate::pipeline::spec_empty_payload());
    assert(run.decide(response) == Some(Decision::EndAsset { status: failed }));
    lemma_finish_asset_settles(plan, g, a, run.remote_id(), failed);
    lemma_entering_is_quiet(plan, g, a + 1, run.remote_id());
}

/// An asset is told to be stored only after it was written: a step tells
/// `Done` only when it takes the answer that the bytes were written, and
/// the path that it tells is the path of the asset, to which the request
/// before was to write.
pub proof fn lemma_done_means_written(run: RunView, response: Response, i: int)
    requires
        run.wf(),
        spec_step(run, response) is Some,
        0 <= i < spec_step(run, response)->0.events.len(),
        spec_step(run, response)->0.events[i].status is Done,
    ensures
        i == 0,
        run.cursor.phase is Persisting,
        response matches Response::Persisted(Ok(_)),
        spec_step(run, response)->0.events[0] == run.plan.event(
            run.cursor.game_index,
            run.cursor.asset_index,
            StatusView::Done(run.cursor.phase->Persisting_target),
        ),
        run.plan.asset_path(run.cursor.game_index, run.cursor.asset_index) == Ok::<
            Seq<char>,
            crate::config::PathError,
        >(run.cursor.phase->Persisting_target),
{
    let plan = run.plan;
    let g = run.cursor.game_index;
    let a = run.cursor.asset_index;
    lemma_decision_is_admitted(run, response);
    match run.decide(response)->0 {
        Decision::Resolved { remote_id } => {
            lemma_entering_is_quiet(plan, g, 0, remote_id);
        },
        Decision::FailGame { .. } => {
            lemma_entering_is_quiet(plan, g, 0, 0);
        },
        Decision::EndAsset { .. } => {
            lemma_entering_is_quiet(plan, g, a + 1, run.remote_id());
        },
        _ => {},
    }
}

/// What a run writes is what it fetched: when the fetch of an image gives
/// bytes and the asset's path is known, the next request is to write
/// exactly these bytes, by the plan for the asset's path, and nothing is
/// told yet.
pub proof fn lemma_payload_is_written_whole(run: RunView, response: Response)
    requires
        run.wf(),
        run.cursor.phase is Fetching,
        response matches Response::Image(Ok(bytes)) && bytes@.len() > 0,
        run.plan.asset_path(run.cursor.game_index, run.cursor.asset_index) is Ok,
    ensures
        ({
            let target = run.plan.asset_path(run.cursor.game_index, run.cursor.asset_index)->Ok_0;
            let outcome = spec_step(run, response)->0;
            &&& spec_step(run, response) is Some
            &&& outcome.events.len() == 0
            &&& outcome.request == Some(
                RequestView::Persist {
                    plan: crate::download::spec_persist_plan(target),
                    bytes: response->Image_0->Ok_0@,
                },
            )
            &&& outcome.cursor.phase is Persisting
            &&& outcome.cursor.phase->Persisting_target == target
        }),
{
}

// ---------------------------------------------------------------------------
// A second run
// ---------------------------------------------------------------------------

/// Whether the answers describe a catalogue that knows every game and a
/// disk on which every asset is already stored.
pub open spec fn everything_present(responses: Seq<Response>) -> bool {
    forall|i: int|
        0 <= i < responses.len() ==> match #[trigger] responses[i] {
            Response::SearchHits(found) => found matches Ok(hits) && hits@.len() > 0,
            Response::Exists(present) => present,
            _ => true,
        }
}

/// Whether every terminal event of a log tells that the asset was skipped
/// because it exists already.
pub open spec fn all_skipped(log: Seq<ProgressView>) -> bool {
    forall|i: int|
        0 <= i < log.len() && (#[trigger] log[i]).status.is_terminal() ==> log[i].status
            == StatusView::Skipped(crate::pipeline::spec_already_exists())
}

/// Whether no request of a sequence lists candidates, fetches an image or
/// writes a file.
pub open spec fn nothing_fetched(requests: Seq<RequestView>) -> bool {
    forall|i: int| 0 <= i < requests.len() ==> !fetches_or_writes(#[trigger] requests[i])
}

/// Whether a run asks about assets before it fetches them and knows where
/// they are stored.
pub open spec fn asks_first(plan: PlanView) -> bool {
    !plan.force && plan.data_dir is Some
}

/// In a run that asks first, turning to a game or to a category tells no
/// terminal outcome, fetches nothing, and leaves the run searching, asking
/// or complete.
proof fn lemma_entering_asks_first(plan: PlanView, g: int, a: int, remote_id: u64)
    requires
        plan.wf(),
        asks_first(plan),
        0 <= g < plan.games.len(),
        0 <= a <= plan.assets.len(),
    ensures
        ({
            let next = plan.enter_asset(g, a, remote_id);
            &&& all_skipped(next.events)
            &&& nothing_fetched(request_seq(next.request))
            &&& next.cursor.phase is Resolving || next.cursor.phase is CheckingExisting
                || next.cursor.phase is Complete
        }),
{
}

/// In a run that asks first, an asset that exists is skipped and a game
/// that is known is resolved without anything being fetched.
proof fn lemma_present_is_skipped(run: RunView, response: Response)
    requires
        run.wf(),
        asks_first(run.plan),
        run.cursor.phase is Resolving || run.cursor.phase is CheckingExisting,
        match response {
            Response::SearchHits(found) => found matches Ok(hits) && hits@.len() > 0,
            Response::Exists(present) => present,
            _ => true,
        },
        spec_step(run, response) is Some,
    ensures
        ({
            let outcome = spec_step(run, response)->0;
            &&& all_skipped(outcome.events)
            &&& nothing_fetched(request_seq(outcome.request))
            &&& outcome.cursor.phase is Resolving || outcome.cursor.phase is CheckingExisting
                || outcome.cursor.phase is Complete
        }),
{
    let plan = run.plan;
    let g = run.cursor.game_index;
    let a = run.cursor.asset_index;
    match run.decide(response)->0 {
        Decision::Resolved { remote_id } => {
            lemma_entering_asks_first(plan, g, 0, remote_id);
        },
        Decision::EndAsset { status } => {
            lemma_entering_asks_first(plan, g, a + 1, run.remote_id());
        },
        _ => {},
    }
}

/// Running again changes nothing. In a run that does not fetch again what
/// is stored, that knows the data directory, in which the catalogue knows
/// every game and every asset is found on disk, every terminal outcome is
/// `Skipped` with the reason that the asset exists already, and no request
/// lists candidates, fetches an image or writes a file: the requests are
/// searches, one or two for each game, and questions whether a file exists.
pub proof fn lemma_second_run_skips_everything(plan: PlanView, responses: Seq<Response>)
    requires
        plan.wf(),
        !plan.force,
        plan.data_dir is Some,
        everything_present(responses),
    ensures
        all_skipped(trace_of(plan, responses).events),
        nothing_fetched(trace_of(plan, responses).requests),
        !(trace_of(plan, responses).run.cursor.phase is Listing),
        !(trace_of(plan, responses).run.cursor.phase is Fetching),
        !(trace_of(plan, responses).run.cursor.phase is Persisting),
    decreases responses.len(),
{
    lemma_run_settles(plan, responses);
    if responses.len() > 0 {
        let before = trace_of(plan, responses.drop_last());
        let response = responses.last();
        assert(everything_present(responses.drop_last())) by {
            assert forall|i: int| 0 <= i < responses.drop_last().len() implies match #[trigger]
                responses.drop_last()[i] {
                Response::SearchHits(found) => found matches Ok(hits) && hits@.len() > 0,
                Response::Exists(present) => present,
                _ => true,
            } by {
                assert(responses.drop_last()[i] == responses[i]);
            }
        }
        lemma_second_run_skips_everything(plan, responses.drop_last());
        lemma_run_settles(plan, responses.drop_last());
        if let Some(outcome) = spec_step(before.run, response) {
            assert(responses[responses.len() - 1] == response);
            lemma_decision_is_admitted(before.run, response);
            lemma_present_is_skipped(before.run, response);
        }
    }
}

// ---------------------------------------------------------------------------
// One request at a time
// ---------------------------------------------------------------------------

/// A step makes a request exactly where it does not complete the run.
pub proof fn lemma_request_unless_complete(run: RunView, response: Response)
    requires
        run.wf(),
        spec_step(run, response) is Some,
    ensures
        spec_step(run, response)->0.request is Some <==> !(spec_step(
            run,
            response,
        )->0.cursor.phase is Complete),
        !(spec_step(run, response)->0.cursor.phase is Stalled),
{
    lemma_decision_is_admitted(run, response);
}

/// At most one request is in flight at any time, and with it at most one
/// fetch for any pair: the run has made exactly one request more than it
/// has taken answers while a game is in flight, and exactly as many once
/// it is complete.
pub proof fn lemma_one_request_in_flight(plan: PlanView, responses: Seq<Response>)
    requires
        plan.wf(),
    ensures
        trace_of(plan, responses).requests.len() == answers_taken(plan, responses) + trace_of(
            plan,
            responses,
        ).run.games_in_flight(),
    decreases responses.len(),
{
    if responses.len() > 0 {
        let before = trace_of(plan, responses.drop_last());
        lemma_run_settles(plan, responses.drop_last());
        lemma_one_request_in_flight(plan, responses.drop_last());
        if spec_step(before.run, responses.last()) is Some {
            lemma_request_unless_complete(before.run, responses.last());
        }
    }
}

// ---------------------------------------------------------------------------
// How much a run tells
// ---------------------------------------------------------------------------

/// An upper bound of the number of events that a run has handed out when
/// it stands where `run` stands: three for each pair that it has behind
/// it, one for each pair of the current game that is still to come, and
/// one more while something is fetched for the current pair.
pub open spec fn told_bound(run: RunView) -> int {
    let c = run.plan.assets.len() as int;
    let g = run.cursor.game_index;
    let a = run.cursor.asset_index;
    match run.cursor.phase {
        PhaseView::Stalled => 0,
        PhaseView::Complete => 3 * (g * c),
        PhaseView::Resolving { .. } | PhaseView::CheckingExisting { .. } => 3 * (g * c + a) + (c
            - a),
        _ => 3 * (g * c + a) + (c - a) + 1,
    }
}

/// Turning to a game or to a category hands out no more events than the
/// bound grows.
proof fn lemma_told_on_entering(plan: PlanView, g: int, a: int, remote_id: u64)
    requires
        plan.wf(),
        0 <= g <= plan.games.len(),
        0 <= a <= plan.assets.len(),
    ensures
        plan.enter_game(g).events.len() + 3 * (g * plan.assets.len()) <= told_bound(
            RunView { plan, cursor: plan.enter_game(g).cursor },
        ),
        g < plan.games.len() ==> plan.enter_asset(g, a, remote_id).events.len() + 3 * (g
            * plan.assets.len() + a) + (plan.assets.len() - a) <= told_bound(
            RunView { plan, cursor: plan.enter_asset(g, a, remote_id).cursor },
        ),
{
    let c = plan.assets.len() as int;
    assert((g + 1) * c == g * c + c) by (nonlinear_arith);
}

/// Carrying out a decision hands out no more events than the bound grows.
pub proof fn lemma_carry_out_tells_within_bound(run: RunView, decision: Decision)
    requires
        run.wf(),
        run.admits(decision),
    ensures
        told_bound(run) + run.carry_out(decision).events.len() <= told_bound(
            run.after(run.carry_out(decision)),
        ),
{
    let plan = run.plan;
    let g = run.cursor.game_index;
    let a = run.cursor.asset_index;
    let c = plan.assets.len() as int;
    assert((g + 1) * c == g * c + c) by (nonlinear_arith);
    match decision {
        Decision::Resolved { remote_id } => {
            lemma_told_on_entering(plan, g, 0, remote_id);
        },
        Decision::FailGame { .. } => {
            lemma_told_on_entering(plan, g + 1, 0, 0);
        },
        Decision::EndAsset { .. } => {
            lemma_told_on_entering(plan, g, a + 1, run.remote_id());
        },
        _ => {},
    }
}

/// What a run tells is bounded before it starts: it never hands out more
/// than three events for each pair of a game and a selected category. An
/// observer that has room for that many events never has to make the run
/// wait.
pub proof fn lemma_events_are_bounded(plan: PlanView, responses: Seq<Response>)
    requires
        plan.wf(),
    ensures
        trace_of(plan, responses).events.len() <= told_bound(trace_of(plan, responses).run),
        told_bound(trace_of(plan, responses).run) <= 3 * (plan.games.len() * plan.assets.len()),
    decreases responses.len(),
{
    let c = plan.assets.len() as int;
    let games = plan.games.len() as int;
    lemma_run_settles(plan, responses);
    let run = trace_of(plan, responses).run;
    let g = run.cursor.game_index;
    assert(g < games ==> (g + 1) * c <= games * c && (g + 1) * c == g * c + c)
        by (nonlinear_arith)
        requires
            0 <= c,
    ;
    if responses.len() == 0 {
        lemma_told_on_entering(plan, 0, 0, 0);
        assert(0 * c == 0) by (nonlinear_arith);
    } else {
        let before = trace_of(plan, responses.drop_last());
        lemma_run_settles(plan, responses.drop_last());
        lemma_events_are_bounded(plan, responses.drop_last());
        if let Some(decision) = before.run.decide(responses.last()) {
            lemma_decision_is_admitted(before.run, responses.last());
            lemma_carry_out_tells_within_bound(before.run, decision);
        }
    }
}

} // verus!
