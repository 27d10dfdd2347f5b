use crate::effect::{EffectView, FocusTarget};
use crate::render::{Body, HeaderPadding, Highlight, Layout, Sizing};
use crate::size::Size;
use crate::state::InputEvent;
use crate::text::trimmed;
use vstd::prelude::*;

verus! {

/// How long the loading indicator stays on after a search has completed, in
/// milliseconds, so that a fast search does not make it flicker.
pub const LOADING_LINGER_MILLIS: u64 = 100;

/// The ticket of the search that follows the search with ticket `ticket`.
pub open spec fn next_ticket(ticket: u64) -> u64 {
    if ticket == u64::MAX {
        0
    } else {
        (ticket + 1) as u64
    }
}

/// Where the search that the list watches stands.
#[verifier::ext_equal]
pub enum PhaseView {
    /// No search is watched.
    Idle,
    /// The delegate searches for `query`.
    Searching { query: Seq<char> },
    /// The search has completed and the loading indicator lingers.
    Settling,
}

/// A list's state as contracts see it.
#[verifier::ext_equal]
pub struct StateView<H> {
    pub selected_index: Option<usize>,
    pub right_clicked_index: Option<usize>,
    pub loading: bool,
    /// The query of the last search that completed.
    pub last_query: Option<Seq<char>>,
    pub size: Size,
    /// The bound on the height of the list's body, in the host's measure.
    pub max_height: Option<H>,
    pub scrollbar: bool,
    pub query_input: bool,
    /// The ticket of the last search that was started.
    pub ticket: u64,
    pub phase: PhaseView,
}

/// What a handler does: the state it leaves and the effects it returns.
#[verifier::ext_equal]
pub struct Step<H> {
    pub state: StateView<H>,
    pub effects: Seq<EffectView>,
}

/// Anything that happens to a list.
pub enum Event<H> {
    SetSelectedIndex(Option<usize>),
    SelectPrevious { items_count: usize },
    SelectNext { items_count: usize },
    Confirm { items_count: usize },
    Cancel,
    LeftClick { ix: usize, items_count: usize },
    RightClick { ix: usize },
    ClickOutside,
    Input { event: InputEvent, items_count: usize },
    SearchFinished { ticket: u64 },
    DelayElapsed { ticket: u64 },
    SetSize(Size),
    SetQueryInput,
    MaxHeight(H),
    NoScrollbar,
    NoQuery,
}

/// The row selected after "select next" on a list of `items_count > 0` rows.
pub open spec fn next_index(selected: Option<usize>, items_count: usize) -> usize {
    match selected {
        Some(ix) if ix + 1 < items_count => (ix + 1) as usize,
        _ => 0,
    }
}

/// The row selected after "select previous" on a list of `items_count > 0`
/// rows.
pub open spec fn previous_index(selected: Option<usize>, items_count: usize) -> usize {
    match selected {
        Some(ix) if ix > 0 => (ix - 1) as usize,
        _ => (items_count - 1) as usize,
    }
}

/// The effects of switching the loading flag: the query input's indicator
/// follows where there is a query input, and the list is drawn again.
pub open spec fn loading_effects(query_input: bool, loading: bool) -> Seq<EffectView> {
    if query_input {
        seq![EffectView::InputLoading(loading), EffectView::Notify]
    } else {
        seq![EffectView::Notify]
    }
}

impl<H> StateView<H> {
    /// A new list: a query input, a scrollbar, nothing selected, no search.
    pub open spec fn initial() -> StateView<H> {
        StateView {
            selected_index: None,
            right_clicked_index: None,
            loading: false,
            last_query: None,
            size: Size::Medium,
            max_height: None,
            scrollbar: true,
            query_input: true,
            ticket: 0,
            phase: PhaseView::Idle,
        }
    }

    /// The step that changes nothing and asks for nothing.
    pub open spec fn stay(self) -> Step<H> {
        Step { state: self, effects: Seq::empty() }
    }

    /// The selection is set to `ix`, whatever it is, and the delegate hears
    /// of it.
    pub open spec fn set_selected_index(self, ix: Option<usize>) -> Step<H> {
        Step {
            state: StateView { selected_index: ix, ..self },
            effects: seq![EffectView::Select(ix)],
        }
    }

    /// The selection moves to `ix`, the delegate hears of it, and the row is
    /// scrolled into view.
    pub open spec fn move_to(self, ix: usize) -> Step<H> {
        Step {
            state: StateView { selected_index: Some(ix), ..self },
            effects: seq![
                EffectView::Select(Some(ix)),
                EffectView::ScrollTo(ix),
                EffectView::Notify,
            ],
        }
    }

    /// "Select previous" on a list of `items_count` rows: nothing without
    /// rows, else the row before the selected one, or the last row from the
    /// first and from no selection.
    pub open spec fn select_previous(self, items_count: usize) -> Step<H> {
        if items_count == 0 {
            self.stay()
        } else {
            self.move_to(previous_index(self.selected_index, items_count))
        }
    }

    /// "Select next" on a list of `items_count` rows: nothing without rows,
    /// else the row after the selected one, or the first row where there is
    /// no such row or no selection.
    pub open spec fn select_next(self, items_count: usize) -> Step<H> {
        if items_count == 0 {
            self.stay()
        } else {
            self.move_to(next_index(self.selected_index, items_count))
        }
    }

    /// "Confirm" on a list of `items_count` rows: nothing without rows, else
    /// the delegate hears of the selected index. The selection stays.
    pub open spec fn confirm(self, items_count: usize) -> Step<H> {
        if items_count == 0 {
            self.stay()
        } else {
            Step {
                state: self,
                effects: seq![EffectView::Confirm(self.selected_index), EffectView::Notify],
            }
        }
    }

    /// "Cancel": the selection is cleared, and the delegate hears of that
    /// and of the cancellation.
    pub open spec fn cancel(self) -> Step<H> {
        Step {
            state: StateView { selected_index: None, ..self },
            effects: seq![EffectView::Select(None), EffectView::Cancel, EffectView::Notify],
        }
    }

    /// A press of the left mouse button on row `ix`.
    pub open spec fn left_click(self, ix: usize, items_count: usize) -> Step<H> {
        let clicked = StateView { right_clicked_index: None, selected_index: Some(ix), ..self };
        clicked.confirm(items_count)
    }

    /// A press of the right mouse button on row `ix`.
    pub open spec fn right_click(self, ix: usize) -> Step<H> {
        Step {
            state: StateView { right_clicked_index: Some(ix), ..self },
            effects: seq![EffectView::Notify],
        }
    }

    /// A mouse press outside the list.
    pub open spec fn click_outside(self) -> Step<H> {
        if self.right_clicked_index is Some {
            Step {
                state: StateView { right_clicked_index: None, ..self },
                effects: seq![EffectView::Notify],
            }
        } else {
            self.stay()
        }
    }

    /// The loading flag is switched.
    pub open spec fn set_loading(self, loading: bool) -> Step<H> {
        Step {
            state: StateView { loading, ..self },
            effects: loading_effects(self.query_input, loading),
        }
    }

    /// Whether a change of the query input's text to `text` starts a search.
    pub open spec fn searches_for(self, text: Seq<char>) -> bool {
        self.last_query != Some(trimmed(text))
    }

    /// The query input's text changed to `text`.
    pub open spec fn query_changed(self, text: Seq<char>) -> Step<H> {
        if self.searches_for(text) {
            let query = trimmed(text);
            let ticket = next_ticket(self.ticket);
            Step {
                state: StateView {
                    loading: true,
                    ticket,
                    phase: PhaseView::Searching { query },
                    ..self
                },
                effects: loading_effects(self.query_input, true) + seq![
                    EffectView::Search(query),
                    EffectView::Supervise { ticket },
                ],
            }
        } else {
            self.stay()
        }
    }

    /// Whether `event` is a change of the query input's text that starts a
    /// search.
    pub open spec fn starts_search(self, event: InputEvent) -> bool {
        event matches InputEvent::Change(text) && self.searches_for(text@)
    }

    /// An event of the query input.
    pub open spec fn input_event(self, event: InputEvent, items_count: usize) -> Step<H> {
        match event {
            InputEvent::Change(text) => self.query_changed(text@),
            InputEvent::PressEnter => self.confirm(items_count),
            _ => self.stay(),
        }
    }

    /// Whether `ticket` is that of a search that the delegate still runs.
    pub open spec fn awaits_search(self, ticket: u64) -> bool {
        self.phase is Searching && ticket == self.ticket
    }

    /// Whether `ticket` is that of a search whose loading indicator lingers.
    pub open spec fn awaits_delay(self, ticket: u64) -> bool {
        self.phase is Settling && ticket == self.ticket
    }

    /// The search with ticket `ticket` has completed.
    pub open spec fn search_finished(self, ticket: u64) -> Step<H> {
        if self.awaits_search(ticket) {
            Step {
                state: StateView {
                    last_query: Some(self.phase->query),
                    phase: PhaseView::Settling,
                    ..self
                },
                effects: seq![
                    EffectView::ScrollTo(0),
                    EffectView::Delay { ticket, millis: LOADING_LINGER_MILLIS },
                ],
            }
        } else {
            self.stay()
        }
    }

    /// The delay asked for under `ticket` has passed.
    pub open spec fn delay_elapsed(self, ticket: u64) -> Step<H> {
        if self.awaits_delay(ticket) {
            StateView { phase: PhaseView::Idle, ..self }.set_loading(false)
        } else {
            self.stay()
        }
    }

    /// The size is set and passed on to the query input.
    pub open spec fn set_size(self, size: Size) -> Step<H> {
        Step {
            state: StateView { size, ..self },
            effects: if self.query_input {
                seq![EffectView::InputSize(size)]
            } else {
                Seq::empty()
            },
        }
    }

    /// `query` is put into the query input, where there is one.
    pub open spec fn set_query(self, query: Seq<char>) -> Step<H> {
        Step {
            state: self,
            effects: if self.query_input {
                seq![EffectView::InputText(query)]
            } else {
                Seq::empty()
            },
        }
    }

    /// The state that `event` leaves and the effects that it asks for.
    pub open spec fn step(self, event: Event<H>) -> Step<H> {
        match event {
            Event::SetSelectedIndex(ix) => self.set_selected_index(ix),
            Event::SelectPrevious { items_count } => self.select_previous(items_count),
            Event::SelectNext { items_count } => self.select_next(items_count),
            Event::Confirm { items_count } => self.confirm(items_count),
            Event::Cancel => self.cancel(),
            Event::LeftClick { ix, items_count } => self.left_click(ix, items_count),
            Event::RightClick { ix } => self.right_click(ix),
            Event::ClickOutside => self.click_outside(),
            Event::Input { event, items_count } => self.input_event(event, items_count),
            Event::SearchFinished { ticket } => self.search_finished(ticket),
            Event::DelayElapsed { ticket } => self.delay_elapsed(ticket),
            Event::SetSize(size) => self.set_size(size),
            Event::SetQueryInput => StateView { query_input: true, ..self }.stay(),
            Event::MaxHeight(height) => StateView { max_height: Some(height), ..self }.stay(),
            Event::NoScrollbar => StateView { scrollbar: false, ..self }.stay(),
            Event::NoQuery => StateView { query_input: false, ..self }.stay(),
        }
    }

    /// What receives focus when the list is focused.
    pub open spec fn focus_target(self) -> FocusTarget {
        if self.query_input {
            FocusTarget::QueryInput
        } else {
            FocusTarget::List
        }
    }

    /// How the rows' container finds its height: from the space it is given
    /// where the list has a maximum height, else from its rows.
    pub open spec fn sizing(self) -> Sizing {
        if self.max_height is Some {
            Sizing::Infer
        } else {
            Sizing::Auto
        }
    }

    /// The padding around the query input, where there is one.
    pub open spec fn header(self) -> Option<HeaderPadding> {
        if !self.query_input {
            None
        } else if self.size == Size::Small {
            Some(HeaderPadding::Compact)
        } else {
            Some(HeaderPadding::Regular)
        }
    }

    /// Whether the delegate is asked for an initial view: the list has a
    /// query input and the input is empty.
    pub open spec fn asks_initial(self, query_is_empty: bool) -> bool {
        self.query_input && query_is_empty
    }

    /// What fills the list below the query input: the initial view alone
    /// where the delegate gave one, else the empty view or the rows.
    pub open spec fn body(self, items_count: usize, initial: bool) -> Body<H> {
        if initial {
            Body::Initial
        } else if items_count == 0 {
            Body::Empty { max_height: self.max_height, scrollbar: self.scrollbar }
        } else {
            Body::Rows {
                items_count,
                sizing: self.sizing(),
                max_height: self.max_height,
                scrollbar: self.scrollbar,
            }
        }
    }

    /// The frame of a list of `items_count` rows; `initial` says whether the
    /// delegate gave an initial view.
    pub open spec fn layout(self, items_count: usize, initial: bool) -> Layout<H> {
        Layout {
            header: self.header(),
            body: self.body(items_count, initial),
            watches_outside_press: self.right_clicked_index is Some,
        }
    }

    /// What is drawn over row `ix`: the selected row is filled, and the
    /// right-clicked row outlined unless it is the selected one.
    pub open spec fn highlight(self, ix: usize) -> Highlight {
        if self.selected_index == Some(ix) {
            Highlight::Filled
        } else if self.right_clicked_index == Some(ix) {
            Highlight::Outlined
        } else {
            Highlight::Plain
        }
    }
}

} // verus!
