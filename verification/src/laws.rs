//! What holds of the list whatever is done to it.
use crate::effect::EffectView;
use crate::model::{next_ticket, Event, PhaseView, StateView, LOADING_LINGER_MILLIS};
use crate::state::InputEvent;
use crate::text::{lemma_trimmed_is_trimmed, trimmed};
use vstd::arithmetic::div_mod::{
    lemma_fundamental_div_mod, lemma_fundamental_div_mod_converse, lemma_mod_pos_bound,
    lemma_small_mod,
};
use vstd::prelude::*;

verus! {

/// The state after `times` "select next" actions on a list of `items_count`
/// rows.
pub open spec fn after_select_next<H>(
    state: StateView<H>,
    items_count: usize,
    times: nat,
) -> StateView<H>
    decreases times,
{
    if times == 0 {
        state
    } else {
        after_select_next(state, items_count, (times - 1) as nat).select_next(items_count).state
    }
}

/// The state after `times` "select previous" actions on a list of
/// `items_count` rows.
pub open spec fn after_select_previous<H>(
    state: StateView<H>,
    items_count: usize,
    times: nat,
) -> StateView<H>
    decreases times,
{
    if times == 0 {
        state
    } else {
        after_select_previous(state, items_count, (times - 1) as nat).select_previous(
            items_count,
        ).state
    }
}

/// The state after `events`, in order.
pub open spec fn after_events<H>(state: StateView<H>, events: Seq<Event<H>>) -> StateView<H>
    decreases events.len(),
{
    if events.len() == 0 {
        state
    } else {
        after_events(state, events.drop_last()).step(events.last()).state
    }
}

/// Whether `event` starts a search in `state`.
pub open spec fn starts_search<H>(state: StateView<H>, event: Event<H>) -> bool {
    event matches Event::Input { event: InputEvent::Change(text), .. } && state.searches_for(
        text@,
    )
}

/// The number of searches that `events` start, from `state` on.
pub open spec fn searches_started<H>(state: StateView<H>, events: Seq<Event<H>>) -> nat
    decreases events.len(),
{
    if events.len() == 0 {
        0
    } else {
        let earlier = searches_started(state, events.drop_last());
        if starts_search(after_events(state, events.drop_last()), events.last()) {
            earlier + 1
        } else {
            earlier
        }
    }
}

/// The searches that `effects` ask the delegate for.
pub open spec fn searches(effects: Seq<EffectView>) -> Seq<EffectView> {
    effects.filter(|effect: EffectView| effect is Search)
}

/// Whether the queries that `state` holds are trimmed.
pub open spec fn queries_are_trimmed<H>(state: StateView<H>) -> bool {
    &&& state.last_query matches Some(query) ==> trimmed(query) == query
    &&& state.phase matches PhaseView::Searching { query } ==> trimmed(query) == query
}

/// Whether the loading flag is set exactly while a search is watched.
pub open spec fn loading_follows_search<H>(state: StateView<H>) -> bool {
    state.loading <==> !(state.phase is Idle)
}

proof fn lemma_mod_successor(a: int, n: int)
    requires
        0 <= a,
        0 < n,
    ensures
        0 <= a % n < n,
        (a + 1) % n == if a % n + 1 < n {
            a % n + 1
        } else {
            0
        },
{
    lemma_fundamental_div_mod(a, n);
    lemma_mod_pos_bound(a, n);
    let q = a / n;
    let r = a % n;
    if r + 1 < n {
        assert(a + 1 == q * n + (r + 1)) by (nonlinear_arith)
            requires
                a == n * q + r,
        ;
        lemma_fundamental_div_mod_converse(a + 1, n, q, r + 1);
    } else {
        assert(a + 1 == (q + 1) * n + 0) by (nonlinear_arith)
            requires
                a == n * q + r,
                r + 1 == n,
        ;
        lemma_fundamental_div_mod_converse(a + 1, n, q + 1, 0);
    }
}

/// Starting with nothing selected, on a list with items, the k-th "select
/// next" in a row selects row `(k - 1) mod items_count`: the rows in order,
/// and after the last the first again.
pub proof fn law_select_next_cycles<H>(state: StateView<H>, items_count: usize, times: nat)
    requires
        state.selected_index is None,
        items_count > 0,
        times > 0,
    ensures
        after_select_next(state, items_count, times).selected_index == Some(
            ((times - 1) % (items_count as int)) as usize,
        ),
    decreases times,
{
    if times == 1 {
        lemma_small_mod(0, items_count as nat);
    } else {
        law_select_next_cycles(state, items_count, (times - 1) as nat);
        lemma_mod_successor(times - 2, items_count as int);
    }
}

/// Starting with nothing selected, on a list with items, the first "select
/// previous" selects the last row, and each one after it the row before,
/// from the first row to the last again: the k-th selects row
/// `items_count - 1 - (k - 1) mod items_count`.
pub proof fn law_select_previous_cycles<H>(state: StateView<H>, items_count: usize, times: nat)
    requires
        state.selected_index is None,
        items_count > 0,
        times > 0,
    ensures
        after_select_previous(state, items_count, times).selected_index == Some(
            (items_count - 1 - (times - 1) % (items_count as int)) as usize,
        ),
    decreases times,
{
    if times == 1 {
        lemma_small_mod(0, items_count as nat);
    } else {
        law_select_previous_cycles(state, items_count, (times - 1) as nat);
        lemma_mod_successor(times - 2, items_count as int);
    }
}

/// After "select next" on a list with items, the selection is one of the
/// items, and the list asks to scroll to it. The same holds after "select
/// previous", where the selection was one of the items before or there was
/// none.
pub proof fn law_navigation_selects_an_item<H>(state: StateView<H>, items_count: usize)
    requires
        items_count > 0,
    ensures
        ({
            let next = state.select_next(items_count);
            &&& next.state.selected_index matches Some(ix)
            &&& ix < items_count
            &&& next.effects.contains(EffectView::ScrollTo(ix))
        }),
        ({
            let previous = state.select_previous(items_count);
            &&& previous.state.selected_index matches Some(ix)
            &&& previous.effects.contains(EffectView::ScrollTo(ix))
            &&& (state.selected_index matches Some(before) ==> before < items_count) ==> ix
                < items_count
        }),
{
    let next = state.select_next(items_count);
    assert(next.effects[1] == EffectView::ScrollTo(next.state.selected_index->0));
    let previous = state.select_previous(items_count);
    assert(previous.effects[1] == EffectView::ScrollTo(previous.state.selected_index->0));
}

/// A change of the query input to the query of the last search that
/// completed is ignored, whatever white space surrounds it.
pub proof fn law_committed_query_is_ignored<H>(state: StateView<H>, text: Seq<char>)
    requires
        state.last_query == Some(trimmed(text)),
    ensures
        state.query_changed(text) == state.stay(),
{
}

/// Of two changes of the query input to the same query, white space aside,
/// between which the first one's search completes, only the first asks the
/// delegate to search, and it asks once.
pub proof fn law_same_query_searches_once<H>(
    state: StateView<H>,
    first: Seq<char>,
    second: Seq<char>,
)
    requires
        trimmed(first) == trimmed(second),
        state.searches_for(first),
    ensures
        ({
            let started = state.query_changed(first);
            let completed = started.state.search_finished(started.state.ticket);
            let settled = completed.state.delay_elapsed(completed.state.ticket);
            &&& searches(started.effects) == seq![EffectView::Search(trimmed(first))]
            &&& completed.state.last_query == Some(trimmed(first))
            &&& completed.state.query_changed(second) == completed.state.stay()
            &&& settled.state.query_changed(second) == settled.state.stay()
        }),
{
    let started = state.query_changed(first);
    let query = trimmed(first);
    let ticket = next_ticket(state.ticket);
    reveal_with_fuel(Seq::filter, 5);
    let is_search = |effect: EffectView| effect is Search;
    if state.query_input {
        assert(started.effects =~= seq![
            EffectView::InputLoading(true),
            EffectView::Notify,
            EffectView::Search(query),
            EffectView::Supervise { ticket },
        ]);
    } else {
        assert(started.effects =~= seq![
            EffectView::Notify,
            EffectView::Search(query),
            EffectView::Supervise { ticket },
        ]);
    }
    assert(started.effects.filter(is_search) =~= seq![EffectView::Search(query)]);
}

/// The queries that a list holds are trimmed: whatever happens to a list of
/// which this holds, it holds afterwards.
pub proof fn law_queries_stay_trimmed<H>(state: StateView<H>, event: Event<H>)
    requires
        queries_are_trimmed(state),
    ensures
        queries_are_trimmed(state.step(event).state),
{
    if let Event::Input { event: InputEvent::Change(text), .. } = event {
        lemma_trimmed_is_trimmed(text@);
    }
}

/// Whatever has happened to a list since it was new, its last query, put
/// into the query input as it is, starts no search.
pub proof fn law_last_query_is_ignored<H>(events: Seq<Event<H>>)
    ensures
        queries_are_trimmed(after_events(StateView::<H>::initial(), events)),
        ({
            let now = after_events(StateView::<H>::initial(), events);
            now.last_query matches Some(query) ==> now.query_changed(query) == now.stay()
        }),
    decreases events.len(),
{
    if events.len() > 0 {
        law_last_query_is_ignored(events.drop_last());
        law_queries_stay_trimmed(
            after_events(StateView::<H>::initial(), events.drop_last()),
            events.last(),
        );
    }
}

proof fn lemma_ticket_after_events<H>(state: StateView<H>, events: Seq<Event<H>>)
    ensures
        after_events(state, events).ticket as int == (state.ticket + searches_started(
            state,
            events,
        )) % 0x1_0000_0000_0000_0000,
    decreases events.len(),
{
    let cycle = 0x1_0000_0000_0000_0000int;
    if events.len() == 0 {
        lemma_small_mod(state.ticket as nat, cycle as nat);
    } else {
        let earlier = events.drop_last();
        lemma_ticket_after_events(state, earlier);
        if starts_search(after_events(state, earlier), events.last()) {
            lemma_mod_successor(state.ticket + searches_started(state, earlier), cycle);
        }
    }
}

/// A search stays superseded: once later searches have started, fewer than
/// 2^64 of them, whatever else has happened, what its task still reports
/// under its ticket changes nothing and asks for nothing.
pub proof fn law_superseded_search_stays_inert<H>(state: StateView<H>, events: Seq<Event<H>>)
    requires
        0 < searches_started(state, events) < 0x1_0000_0000_0000_0000,
    ensures
        ({
            let now = after_events(state, events);
            &&& now.ticket != state.ticket
            &&& now.search_finished(state.ticket) == now.stay()
            &&& now.delay_elapsed(state.ticket) == now.stay()
        }),
{
    let cycle = 0x1_0000_0000_0000_0000int;
    let started = searches_started(state, events) as int;
    lemma_ticket_after_events(state, events);
    if state.ticket + started < cycle {
        lemma_small_mod((state.ticket + started) as nat, cycle as nat);
    } else {
        lemma_fundamental_div_mod_converse(
            state.ticket + started,
            cycle,
            1,
            state.ticket + started - cycle,
        );
    }
}

/// The loading flag is set exactly while a search is watched: whatever
/// happens to a list of which this holds, it holds afterwards.
pub proof fn law_loading_follows_search<H>(state: StateView<H>, event: Event<H>)
    requires
        loading_follows_search(state),
    ensures
        loading_follows_search(state.step(event).state),
{
}

/// Whatever has happened to a list since it was new, its loading flag is
/// set exactly while it watches a search.
pub proof fn law_loading_always_follows_search<H>(events: Seq<Event<H>>)
    ensures
        loading_follows_search(after_events(StateView::<H>::initial(), events)),
    decreases events.len(),
{
    if events.len() > 0 {
        law_loading_always_follows_search(events.drop_last());
        law_loading_follows_search(
            after_events(StateView::<H>::initial(), events.drop_last()),
            events.last(),
        );
    }
}

/// Loading ends in one way only: the delay that the list waits for has
/// passed, under the ticket of the last search started.
pub proof fn law_loading_ends_after_delay<H>(state: StateView<H>, event: Event<H>)
    requires
        state.loading,
        !state.step(event).state.loading,
    ensures
        event is DelayElapsed,
        state.awaits_delay(event->DelayElapsed_ticket),
{
}

/// The list comes to wait for that delay in one way only: the search that
/// it waits for has completed, under the ticket of the last search started.
/// It then asks for a delay of `LOADING_LINGER_MILLIS` under that ticket,
/// and is still loading.
pub proof fn law_delay_follows_search<H>(state: StateView<H>, event: Event<H>)
    requires
        !(state.phase is Settling),
        state.step(event).state.phase is Settling,
    ensures
        event is SearchFinished,
        state.awaits_search(event->SearchFinished_ticket),
        state.step(event).effects == seq![
            EffectView::ScrollTo(0),
            EffectView::Delay { ticket: state.ticket, millis: LOADING_LINGER_MILLIS },
        ],
        state.step(event).state.loading == state.loading,
{
}

/// A report under a ticket other than that of the last search started
/// changes nothing and asks for nothing.
pub proof fn law_stale_ticket_is_ignored<H>(state: StateView<H>, ticket: u64)
    requires
        ticket != state.ticket,
    ensures
        state.search_finished(ticket) == state.stay(),
        state.delay_elapsed(ticket) == state.stay(),
{
}

/// A search that starts takes the place of the one watched before: the list
/// is loading, and what the earlier search's task still reports, under the
/// earlier ticket, neither ends the loading nor changes anything else.
pub proof fn law_superseded_search_is_inert<H>(state: StateView<H>, text: Seq<char>)
    requires
        state.searches_for(text),
    ensures
        ({
            let restarted = state.query_changed(text).state;
            &&& restarted.loading
            &&& restarted.ticket != state.ticket
            &&& restarted.search_finished(state.ticket) == restarted.stay()
            &&& restarted.delay_elapsed(state.ticket) == restarted.stay()
        }),
{
}

} // verus!
