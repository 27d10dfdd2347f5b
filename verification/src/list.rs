use crate::delegate::ListDelegate;
use crate::effect::{for_host, left_for_host, Effect, EffectView};
use crate::keymap::Action;
use crate::model::{StateView, Step};
use crate::render::{Highlight, Layout};
use crate::size::Size;
use crate::state::{InputEvent, ListState};
use crate::text::trimmed;
use core::ops::Range;
use vstd::prelude::*;

verus! {

/// A list: a delegate and the state of the list over it. `H` is the host's
/// measure of height.
///
/// Every handler asks the delegate for what it needs, lets [`ListState`]
/// decide, tells the delegate what is meant for it, and returns the effects
/// that are left for the host to carry out. Its contract says which of the
/// delegate's methods were called, in order, and with what.
pub struct List<D, H> {
    delegate: D,
    state: ListState<H>,
}

/// What a handler of [`List`] returns.
#[derive(Debug)]
pub struct Handled {
    /// The number of items that the delegate answered, where the handler
    /// asked for it.
    pub items_count: Option<usize>,
    /// What is left for the host to carry out, in order.
    pub effects: Vec<Effect>,
}

/// One frame of a list, with what the delegate drew for it.
pub struct Frame<V, H> {
    /// The number of items that the delegate answered.
    pub items_count: usize,
    pub layout: Layout<H>,
    /// The delegate's initial view or empty view, where the layout shows
    /// one of them.
    pub view: Option<V>,
}

/// One row of a list.
pub struct Row<I> {
    pub ix: usize,
    /// What the delegate drew, or `None` for a blank row.
    pub item: Option<I>,
    pub highlight: Highlight,
}

impl<D, H> View for List<D, H> {
    type V = StateView<H>;

    closed spec fn view(&self) -> StateView<H> {
        self.state@
    }
}

impl<D, H: Copy> List<D, H> {
    /// The delegate, as contracts see it.
    pub closed spec fn spec_delegate(&self) -> D {
        self.delegate
    }

    /// Whether `delegate` may answer `items_count` when it is asked, with
    /// `cx`, for the number of its items.
    pub open spec fn answers<C>(delegate: D, cx: C, items_count: usize) -> bool where
        D: ListDelegate<C>,
    {
        call_ensures(<D as ListDelegate<C>>::items_count, (&delegate, &cx), items_count)
    }

    /// Whether a handler has taken `step`: it has left the step's state, and
    /// returned those of the step's effects that are for the host. What it
    /// has told the delegate, the handler says itself.
    pub open spec fn took(step: Step<H>, handled: Handled, after: StateView<H>) -> bool {
        &&& after == step.state
        &&& handled.effects.deep_view() == for_host(step.effects)
        &&& handled.effects@.len() <= step.effects.len()
    }

    /// Whether a handler has asked `delegate`, with `cx`, for the number of
    /// items and taken the step that `step` gives for the answer.
    pub open spec fn asked_and_took<C>(
        delegate: D,
        cx: C,
        step: spec_fn(usize) -> Step<H>,
        handled: Handled,
        after: StateView<H>,
    ) -> bool where D: ListDelegate<C> {
        &&& handled.items_count matches Some(items_count)
        &&& Self::answers(delegate, cx, items_count)
        &&& Self::took(step(items_count), handled, after)
    }

    /// Whether a handler has left the list, its delegate and the context as
    /// they were.
    pub open spec fn left_alone<C>(
        before: List<D, H>,
        cx_before: C,
        after: List<D, H>,
        cx_after: C,
    ) -> bool {
        &&& after@ == before@
        &&& after.spec_delegate() == before.spec_delegate()
        &&& cx_after == cx_before
    }

    /// A list over `delegate`, in the state of [`ListState::new`].
    pub fn new(delegate: D) -> (list: List<D, H>)
        ensures
            list@ == StateView::<H>::initial(),
            list.spec_delegate() == delegate,
    {
        List { delegate, state: ListState::new() }
    }

    /// Bounds the height of the list's body.
    pub fn max_h(self, height: H) -> (list: List<D, H>)
        ensures
            list@ == (StateView { max_height: Some(height), ..self@ }),
            list.spec_delegate() == self.spec_delegate(),
    {
        List { delegate: self.delegate, state: self.state.max_h(height) }
    }

    /// Switches the scrollbar off.
    pub fn no_scrollbar(self) -> (list: List<D, H>)
        ensures
            list@ == (StateView { scrollbar: false, ..self@ }),
            list.spec_delegate() == self.spec_delegate(),
    {
        List { delegate: self.delegate, state: self.state.no_scrollbar() }
    }

    /// Takes the query input away.
    pub fn no_query(self) -> (list: List<D, H>)
        ensures
            list@ == (StateView { query_input: false, ..self@ }),
            list.spec_delegate() == self.spec_delegate(),
    {
        List { delegate: self.delegate, state: self.state.no_query() }
    }

    /// Gives the list a query input: the one that the host has at hand.
    pub fn set_query_input(&mut self)
        ensures
            final(self)@ == (StateView { query_input: true, ..old(self)@ }),
            final(self).spec_delegate() == old(self).spec_delegate(),
    {
        self.state.set_query_input();
    }

    /// The delegate.
    pub fn delegate(&self) -> (delegate: &D)
        ensures
            *delegate == self.spec_delegate(),
    {
        &self.delegate
    }

    /// The delegate, to change in place. The list's state stays as it is,
    /// whatever becomes of the items.
    pub fn delegate_mut(&mut self) -> (delegate: &mut D)
        ensures
            *delegate == old(self).spec_delegate(),
            final(self).spec_delegate() == *final(delegate),
            final(self)@ == old(self)@,
    {
        &mut self.delegate
    }

    /// The state of the list, for what it can tell without the delegate.
    pub fn state(&self) -> (state: &ListState<H>)
        ensures
            state@ == self@,
    {
        &self.state
    }

    /// The selected index, as it was last set.
    pub fn selected_index(&self) -> (ix: Option<usize>)
        ensures
            ix == self@.selected_index,
    {
        self.state.selected_index()
    }

    /// Stores the size and returns what passes it on to the query input.
    pub fn set_size(&mut self, size: Size) -> (effects: Vec<Effect>)
        ensures
            final(self)@ == old(self)@.set_size(size).state,
            final(self).spec_delegate() == old(self).spec_delegate(),
            effects.deep_view() == old(self)@.set_size(size).effects,
    {
        self.state.set_size(size)
    }

    /// Returns what puts `query` into the query input, where there is one.
    pub fn set_query(&self, query: &str) -> (effects: Vec<Effect>)
        ensures
            effects.deep_view() == self@.set_query(query@).effects,
    {
        self.state.set_query(query)
    }

    /// The query as the list reports it: the query input's text, which the
    /// host reads, or nothing where the list has no query input.
    pub fn query(&self, input_text: &str) -> (query: Option<String>)
        ensures
            query is Some <==> self@.query_input,
            query matches Some(q) ==> q@ == input_text@,
    {
        self.state.query(input_text)
    }

    /// Returns what focuses the list: its query input, or the list itself
    /// where it has none.
    pub fn focus(&self) -> (effects: Vec<Effect>)
        ensures
            effects.deep_view() == seq![EffectView::Focus(self@.focus_target())],
    {
        self.state.focus()
    }

    /// Stores `ix` as the selected index and tells the delegate. The index
    /// is not held against the number of items.
    pub fn set_selected_index<C>(&mut self, ix: Option<usize>, cx: &mut C) where
        D: ListDelegate<C>,

        ensures
            final(self)@ == old(self)@.set_selected_index(ix).state,
            exists|d: &mut D, c: &mut C|
                *d == old(self).spec_delegate() && *final(d) == final(self).spec_delegate() && *c
                    == *old(cx) && *final(c) == *final(cx) && #[trigger] call_ensures(
                    <D as ListDelegate<C>>::set_selected_index,
                    (d, ix, c),
                    (),
                ),
    {
        let _ = self.state.set_selected_index(ix);
        self.delegate.set_selected_index(ix, cx);
    }

    /// Cancel: the selection is cleared, and the delegate hears of that and
    /// then of the cancellation.
    pub fn on_action_cancel<C>(&mut self, cx: &mut C) -> (handled: Handled) where
        D: ListDelegate<C>,

        ensures
            handled.items_count is None,
            Self::took(old(self)@.cancel(), handled, final(self)@),
            exists|d: &mut D, c: &mut C, d2: &mut D, c2: &mut C|
                *d == old(self).spec_delegate() && *c == *old(cx) && #[trigger] call_ensures(
                    <D as ListDelegate<C>>::set_selected_index,
                    (d, None::<usize>, c),
                    (),
                ) && *d2 == *final(d) && *c2 == *final(c) && #[trigger] call_ensures(
                    <D as ListDelegate<C>>::cancel,
                    (d2, c2),
                    (),
                ) && *final(d2) == final(self).spec_delegate() && *final(c2) == *final(cx),
    {
        let effects = self.state.cancel();
        self.delegate.set_selected_index(None, cx);
        self.delegate.cancel(cx);
        Handled { items_count: None, effects: left_for_host(effects) }
    }

    /// Confirm: the delegate hears of the selected index as confirmed. On a
    /// list without items nothing happens, and the delegate hears nothing.
    pub fn on_action_confirm<C>(&mut self, cx: &mut C) -> (handled: Handled) where
        D: ListDelegate<C>,

        ensures
            Self::asked_and_took(
                old(self).spec_delegate(),
                *old(cx),
                |items_count: usize| old(self)@.confirm(items_count),
                handled,
                final(self)@,
            ),
            handled.items_count == Some(0usize) ==> handled.effects@.len() == 0 && Self::left_alone(
                *old(self),
                *old(cx),
                *final(self),
                *final(cx),
            ),
            handled.items_count != Some(0usize) ==> exists|d: &mut D, c: &mut C|
                *d == old(self).spec_delegate() && *final(d) == final(self).spec_delegate() && *c
                    == *old(cx) && *final(c) == *final(cx) && #[trigger] call_ensures(
                    <D as ListDelegate<C>>::confirm,
                    (d, old(self)@.selected_index, c),
                    (),
                ),
    {
        let items_count: usize = self.delegate.items_count(cx);
        let effects = self.state.confirm(items_count);
        if items_count > 0 {
            self.delegate.confirm(self.state.selected_index(), cx);
        }
        Handled { items_count: Some(items_count), effects: left_for_host(effects) }
    }

    /// Select previous: the selection moves one row up, or to the last row
    /// from the first and from no selection, and the delegate hears of the
    /// new selection. On a list without items nothing happens, and the
    /// delegate hears nothing.
    pub fn on_action_select_prev<C>(&mut self, cx: &mut C) -> (handled: Handled) where
        D: ListDelegate<C>,

        ensures
            Self::asked_and_took(
                old(self).spec_delegate(),
                *old(cx),
                |items_count: usize| old(self)@.select_previous(items_count),
                handled,
                final(self)@,
            ),
            handled.items_count == Some(0usize) ==> handled.effects@.len() == 0 && Self::left_alone(
                *old(self),
                *old(cx),
                *final(self),
                *final(cx),
            ),
            handled.items_count != Some(0usize) ==> exists|d: &mut D, c: &mut C|
                *d == old(self).spec_delegate() && *final(d) == final(self).spec_delegate() && *c
                    == *old(cx) && *final(c) == *final(cx) && #[trigger] call_ensures(
                    <D as ListDelegate<C>>::set_selected_index,
                    (d, final(self)@.selected_index, c),
                    (),
                ),
    {
        let items_count: usize = self.delegate.items_count(cx);
        let effects = self.state.select_previous(items_count);
        if items_count > 0 {
            self.delegate.set_selected_index(self.state.selected_index(), cx);
        }
        Handled { items_count: Some(items_count), effects: left_for_host(effects) }
    }

    /// Select next: the selection moves one row down, or to the first row
    /// from the last and from no selection, and the delegate hears of the
    /// new selection. On a list without items nothing happens, and the
    /// delegate hears nothing.
    pub fn on_action_select_next<C>(&mut self, cx: &mut C) -> (handled: Handled) where
        D: ListDelegate<C>,

        ensures
            Self::asked_and_took(
                old(self).spec_delegate(),
                *old(cx),
                |items_count: usize| old(self)@.select_next(items_count),
                handled,
                final(self)@,
            ),
            handled.items_count == Some(0usize) ==> handled.effects@.len() == 0 && Self::left_alone(
                *old(self),
                *old(cx),
                *final(self),
                *final(cx),
            ),
            handled.items_count != Some(0usize) ==> exists|d: &mut D, c: &mut C|
                *d == old(self).spec_delegate() && *final(d) == final(self).spec_delegate() && *c
                    == *old(cx) && *final(c) == *final(cx) && #[trigger] call_ensures(
                    <D as ListDelegate<C>>::set_selected_index,
                    (d, final(self)@.selected_index, c),
                    (),
                ),
    {
        let items_count: usize = self.delegate.items_count(cx);
        let effects = self.state.select_next(items_count);
        if items_count > 0 {
            self.delegate.set_selected_index(self.state.selected_index(), cx);
        }
        Handled { items_count: Some(items_count), effects: left_for_host(effects) }
    }

    /// A key's action, at the handler that is bound to it: what is said of
    /// that handler holds of this one.
    pub fn on_action<C>(&mut self, action: Action, cx: &mut C) -> (handled: Handled) where
        D: ListDelegate<C>,

        ensures
            action == Action::Cancel ==> {
                &&& handled.items_count is None
                &&& Self::took(old(self)@.cancel(), handled, final(self)@)
                &&& exists|d: &mut D, c: &mut C, d2: &mut D, c2: &mut C|
                    *d == old(self).spec_delegate() && *c == *old(cx) && #[trigger] call_ensures(
                        <D as ListDelegate<C>>::set_selected_index,
                        (d, None::<usize>, c),
                        (),
                    ) && *d2 == *final(d) && *c2 == *final(c) && #[trigger] call_ensures(
                        <D as ListDelegate<C>>::cancel,
                        (d2, c2),
                        (),
                    ) && *final(d2) == final(self).spec_delegate() && *final(c2) == *final(cx)
            },
            action != Action::Cancel ==> Self::asked_and_took(
                old(self).spec_delegate(),
                *old(cx),
                |items_count: usize|
                    match action {
                        Action::Confirm => old(self)@.confirm(items_count),
                        Action::SelectPrev => old(self)@.select_previous(items_count),
                        _ => old(self)@.select_next(items_count),
                    },
                handled,
                final(self)@,
            ),
            handled.items_count == Some(0usize) ==> handled.effects@.len() == 0 && Self::left_alone(
                *old(self),
                *old(cx),
                *final(self),
                *final(cx),
            ),
            action == Action::Confirm && handled.items_count != Some(0usize) ==> exists|
                d: &mut D,
                c: &mut C,
            |
                *d == old(self).spec_delegate() && *final(d) == final(self).spec_delegate() && *c
                    == *old(cx) && *final(c) == *final(cx) && #[trigger] call_ensures(
                    <D as ListDelegate<C>>::confirm,
                    (d, old(self)@.selected_index, c),
                    (),
                ),
            (action == Action::SelectPrev || action == Action::SelectNext) && handled.items_count
                != Some(0usize) ==> exists|d: &mut D, c: &mut C|
                *d == old(self).spec_delegate() && *final(d) == final(self).spec_delegate() && *c
                    == *old(cx) && *final(c) == *final(cx) && #[trigger] call_ensures(
                    <D as ListDelegate<C>>::set_selected_index,
                    (d, final(self)@.selected_index, c),
                    (),
                ),
    {
        match action {
            Action::Cancel => self.on_action_cancel(cx),
            Action::Confirm => self.on_action_confirm(cx),
            Action::SelectPrev => self.on_action_select_prev(cx),
            Action::SelectNext => self.on_action_select_next(cx),
        }
    }

    /// An event of the query input.
    ///
    /// A change of the text to a query other than the last one starts a
    /// search, which the delegate is asked for at once, with the trimmed
    /// query. Enter confirms the selection, as
    /// [`on_action_confirm`](Self::on_action_confirm) does. On anything
    /// else the delegate hears nothing.
    pub fn on_query_input_event<C>(&mut self, event: &InputEvent, cx: &mut C) -> (handled:
        Handled) where D: ListDelegate<C>,

        ensures
            *event is PressEnter ==> Self::asked_and_took(
                old(self).spec_delegate(),
                *old(cx),
                |items_count: usize| old(self)@.input_event(*event, items_count),
                handled,
                final(self)@,
            ),
            !(*event is PressEnter) ==> handled.items_count is None && Self::took(
                old(self)@.input_event(*event, 0),
                handled,
                final(self)@,
            ),
            *event is PressEnter && handled.items_count != Some(0usize) ==> exists|
                d: &mut D,
                c: &mut C,
            |
                *d == old(self).spec_delegate() && *final(d) == final(self).spec_delegate() && *c
                    == *old(cx) && *final(c) == *final(cx) && #[trigger] call_ensures(
                    <D as ListDelegate<C>>::confirm,
                    (d, old(self)@.selected_index, c),
                    (),
                ),
            old(self)@.starts_search(*event) ==> exists|d: &mut D, query: &str, c: &mut C|
                *d == old(self).spec_delegate() && *final(d) == final(self).spec_delegate() && *c
                    == *old(cx) && *final(c) == *final(cx) && query@ == trimmed(
                    event->Change_0@,
                ) && #[trigger] call_ensures(
                    <D as ListDelegate<C>>::perform_search,
                    (d, query, c),
                    (),
                ),
            !(*event is PressEnter) && !old(self)@.starts_search(*event) ==> Self::left_alone(
                *old(self),
                *old(cx),
                *final(self),
                *final(cx),
            ),
            handled.items_count == Some(0usize) ==> handled.effects@.len() == 0 && Self::left_alone(
                *old(self),
                *old(cx),
                *final(self),
                *final(cx),
            ),
    {
        match event {
            InputEvent::PressEnter => self.on_action_confirm(cx),
            InputEvent::Change(text) => {
                let ticket: u64 = self.state.ticket();
                let effects = self.state.query_changed(text.as_str());
                if self.state.ticket() != ticket {
                    if let Some(query) = self.state.searching_for() {
                        self.delegate.perform_search(query, cx);
                    }
                }
                Handled { items_count: None, effects: left_for_host(effects) }
            },
            _ => {
                let effects = self.state.on_query_input_event(event, 0);
                Handled { items_count: None, effects: left_for_host(effects) }
            },
        }
    }

    /// A press of the left mouse button on row `ix`: the right-click mark
    /// goes, the row is selected, and the selection is confirmed at once,
    /// which the delegate hears of where the list has items.
    pub fn on_mouse_down_left<C>(&mut self, ix: usize, cx: &mut C) -> (handled: Handled) where
        D: ListDelegate<C>,

        ensures
            Self::asked_and_took(
                old(self).spec_delegate(),
                *old(cx),
                |items_count: usize| old(self)@.left_click(ix, items_count),
                handled,
                final(self)@,
            ),
            final(self)@.right_clicked_index is None,
            final(self)@.selected_index == Some(ix),
            handled.items_count == Some(0usize) ==> {
                &&& handled.effects@.len() == 0
                &&& final(self).spec_delegate() == old(self).spec_delegate()
                &&& *final(cx) == *old(cx)
            },
            handled.items_count != Some(0usize) ==> exists|d: &mut D, c: &mut C|
                *d == old(self).spec_delegate() && *final(d) == final(self).spec_delegate() && *c
                    == *old(cx) && *final(c) == *final(cx) && #[trigger] call_ensures(
                    <D as ListDelegate<C>>::confirm,
                    (d, Some(ix), c),
                    (),
                ),
    {
        let items_count: usize = self.delegate.items_count(cx);
        let effects = self.state.left_click(ix, items_count);
        if items_count > 0 {
            self.delegate.confirm(Some(ix), cx);
        }
        Handled { items_count: Some(items_count), effects: left_for_host(effects) }
    }

    /// A press of the right mouse button on row `ix`: the row is marked, in
    /// place of any row marked before. The selection stays.
    pub fn on_mouse_down_right(&mut self, ix: usize) -> (handled: Handled)
        ensures
            handled.items_count is None,
            final(self)@ == old(self)@.right_click(ix).state,
            final(self).spec_delegate() == old(self).spec_delegate(),
            handled.effects.deep_view() == old(self)@.right_click(ix).effects,
    {
        Handled { items_count: None, effects: self.state.right_click(ix) }
    }

    /// A mouse press outside the list: a right-click mark goes. The
    /// selection stays.
    pub fn on_mouse_down_out(&mut self) -> (handled: Handled)
        ensures
            handled.items_count is None,
            final(self)@ == old(self)@.click_outside().state,
            final(self).spec_delegate() == old(self).spec_delegate(),
            handled.effects.deep_view() == old(self)@.click_outside().effects,
    {
        Handled { items_count: None, effects: self.state.click_outside() }
    }

    /// The search watched under `ticket` has completed.
    pub fn search_finished(&mut self, ticket: u64) -> (handled: Handled)
        ensures
            handled.items_count is None,
            final(self)@ == old(self)@.search_finished(ticket).state,
            final(self).spec_delegate() == old(self).spec_delegate(),
            handled.effects.deep_view() == old(self)@.search_finished(ticket).effects,
    {
        Handled { items_count: None, effects: self.state.search_finished(ticket) }
    }

    /// The delay asked for under `ticket` has passed.
    pub fn delay_elapsed(&mut self, ticket: u64) -> (handled: Handled)
        ensures
            handled.items_count is None,
            final(self)@ == old(self)@.delay_elapsed(ticket).state,
            final(self).spec_delegate() == old(self).spec_delegate(),
            handled.effects.deep_view() == old(self)@.delay_elapsed(ticket).effects,
    {
        Handled { items_count: None, effects: self.state.delay_elapsed(ticket) }
    }

    /// One frame of the list.
    ///
    /// The delegate is asked for the number of items; for an initial view
    /// where the list has a query input and `query_is_empty` says that it
    /// is empty; and for its empty view where there is no initial view and
    /// there are no items. An initial view is shown alone. The delegate is
    /// asked for no view that is not shown.
    pub fn render<C>(&self, query_is_empty: bool, cx: &mut C) -> (frame: Frame<
        <D as ListDelegate<C>>::View,
        H,
    >) where D: ListDelegate<C>
        ensures
            Self::answers(self.spec_delegate(), *old(cx), frame.items_count),
            frame.layout == self@.layout(frame.items_count, frame.layout.body is Initial),
            frame.layout.body is Rows ==> frame.view is None,
            self@.asks_initial(query_is_empty) ==> exists|
                d: &D,
                c: &mut C,
                initial: Option<<D as ListDelegate<C>>::View>,
            |
                *d == self.spec_delegate() && *c == *old(cx) && #[trigger] call_ensures(
                    <D as ListDelegate<C>>::render_initial,
                    (d, c),
                    initial,
                ) && (frame.layout.body is Initial <==> initial is Some) && (initial is Some
                    ==> frame.view == initial && *final(c) == *final(cx)) && (initial is None
                    && frame.items_count > 0 ==> *final(c) == *final(cx)) && (initial is None
                    && frame.items_count == 0 ==> exists|d2: &D, c2: &mut C|
                    *d2 == self.spec_delegate() && *c2 == *final(c) && *final(c2) == *final(cx)
                        && #[trigger] call_ensures(
                        <D as ListDelegate<C>>::render_empty,
                        (d2, c2),
                        frame.view,
                    )),
            !self@.asks_initial(query_is_empty) ==> !(frame.layout.body is Initial),
            !self@.asks_initial(query_is_empty) && frame.items_count > 0 ==> *final(cx) == *old(
                cx,
            ),
            !self@.asks_initial(query_is_empty) && frame.items_count == 0 ==> exists|
                d: &D,
                c: &mut C,
            |
                *d == self.spec_delegate() && *c == *old(cx) && *final(c) == *final(cx)
                    && #[trigger] call_ensures(
                    <D as ListDelegate<C>>::render_empty,
                    (d, c),
                    frame.view,
                ),
    {
        let items_count: usize = self.delegate.items_count(cx);
        let initial = if self.state.asks_initial(query_is_empty) {
            self.delegate.render_initial(cx)
        } else {
            None
        };
        let layout = self.state.layout(items_count, initial.is_some());
        let view = if initial.is_some() {
            initial
        } else if items_count == 0 {
            self.delegate.render_empty(cx)
        } else {
            None
        };
        Frame { items_count, layout, view }
    }

    /// Row `ix`, as the delegate draws it, with its highlight.
    pub fn render_list_item<C>(&self, ix: usize, cx: &mut C) -> (row: Row<
        <D as ListDelegate<C>>::Item,
    >) where D: ListDelegate<C>
        ensures
            row.ix == ix,
            row.highlight == self@.highlight(ix),
            exists|d: &D, c: &mut C|
                *d == self.spec_delegate() && *c == *old(cx) && *final(c) == *final(cx)
                    && #[trigger] call_ensures(
                    <D as ListDelegate<C>>::render_item,
                    (d, ix, c),
                    row.item,
                ),
    {
        let item = self.delegate.render_item(ix, cx);
        Row { ix, item, highlight: self.state.highlight(ix) }
    }

    /// The rows in `visible`, in order, each as
    /// [`render_list_item`](Self::render_list_item) gives it: `contexts`
    /// are the context before the first row, between each two, and after
    /// the last. No other row is asked of the delegate.
    pub fn render_rows<C>(&self, visible: Range<usize>, cx: &mut C) -> (rows: Vec<
        Row<<D as ListDelegate<C>>::Item>,
    >) where D: ListDelegate<C>
        ensures
            rows@.len() == if visible.start <= visible.end {
                visible.end - visible.start
            } else {
                0
            },
            forall|i: int|
                0 <= i < rows@.len() ==> {
                    &&& (#[trigger] rows@[i]).ix == visible.start + i
                    &&& rows@[i].highlight == self@.highlight(rows@[i].ix)
                },
            exists|contexts: Seq<C>|
                {
                    &&& contexts.len() == rows@.len() + 1
                    &&& contexts.first() == *old(cx)
                    &&& contexts.last() == *final(cx)
                    &&& forall|i: int|
                        0 <= i < rows@.len() ==> exists|d: &D, c: &mut C|
                            *d == self.spec_delegate() && *c == contexts[i] && *final(c)
                                == contexts[i + 1] && #[trigger] call_ensures(
                                <D as ListDelegate<C>>::render_item,
                                (d, (#[trigger] rows@[i]).ix, c),
                                rows@[i].item,
                            )
                },
    {
        let mut rows: Vec<Row<<D as ListDelegate<C>>::Item>> = Vec::new();
        let mut ix: usize = visible.start;
        let ghost mut contexts: Seq<C> = seq![*cx];
        while ix < visible.end
            invariant
                visible.start <= ix,
                ix <= visible.end || rows@.len() == 0,
                rows@.len() == ix - visible.start,
                forall|i: int|
                    0 <= i < rows@.len() ==> {
                        &&& (#[trigger] rows@[i]).ix == visible.start + i
                        &&& rows@[i].highlight == self@.highlight(rows@[i].ix)
                    },
                contexts.len() == rows@.len() + 1,
                contexts.first() == *old(cx),
                contexts.last() == *cx,
                forall|i: int|
                    0 <= i < rows@.len() ==> exists|d: &D, c: &mut C|
                        *d == self.spec_delegate() && *c == contexts[i] && *final(c) == contexts[i
                            + 1] && #[trigger] call_ensures(
                            <D as ListDelegate<C>>::render_item,
                            (d, (#[trigger] rows@[i]).ix, c),
                            rows@[i].item,
                        ),
            decreases visible.end - ix,
        {
            let row = self.render_list_item(ix, cx);
            rows.push(row);
            proof {
                contexts = contexts.push(*cx);
            }
            ix = ix + 1;
        }
        rows
    }
}

} // verus!
