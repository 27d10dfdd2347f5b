use crate::effect::{emit, emit_all, nothing, Effect, EffectView, FocusTarget};
use crate::model::{PhaseView, StateView, LOADING_LINGER_MILLIS};
use crate::render::{Body, HeaderPadding, Highlight, Layout, Sizing};
use crate::size::Size;
use crate::text::trim;
use vstd::prelude::*;

verus! {

/// What the query input reports to the list.
#[derive(Debug, PartialEq, Eq)]
pub enum InputEvent {
    /// The text changed to this.
    Change(String),
    /// Enter was pressed in the input.
    PressEnter,
    /// The input gained focus.
    Focus,
    /// The input lost focus.
    Blur,
}

/// Where the search that the list watches stands.
#[derive(Debug)]
enum Phase {
    Idle,
    Searching { query: String },
    Settling,
}

impl View for Phase {
    type V = PhaseView;

    closed spec fn view(&self) -> PhaseView {
        match *self {
            Phase::Idle => PhaseView::Idle,
            Phase::Searching { query } => PhaseView::Searching { query: query@ },
            Phase::Settling => PhaseView::Settling,
        }
    }
}

/// The state of a list: everything but its delegate.
///
/// `H` is the host's measure of height. The list reads of a maximum height
/// only whether there is one, and hands it through as it was given.
///
/// The state changes only through the handlers below. Each returns the
/// effects that it asks for, in order, and says in its contract exactly what
/// it leaves and returns, as a function of [`StateView`].
///
/// A selected index is whatever was last set: it is not held against the
/// number of items, which the delegate may change at any time.
#[derive(Debug)]
pub struct ListState<H> {
    selected_index: Option<usize>,
    right_clicked_index: Option<usize>,
    loading: bool,
    last_query: Option<String>,
    size: Size,
    max_height: Option<H>,
    enable_scrollbar: bool,
    query_input: bool,
    ticket: u64,
    phase: Phase,
}

impl<H> View for ListState<H> {
    type V = StateView<H>;

    closed spec fn view(&self) -> StateView<H> {
        StateView {
            selected_index: self.selected_index,
            right_clicked_index: self.right_clicked_index,
            loading: self.loading,
            last_query: match self.last_query {
                Some(query) => Some(query@),
                None => None,
            },
            size: self.size,
            max_height: self.max_height,
            scrollbar: self.enable_scrollbar,
            query_input: self.query_input,
            ticket: self.ticket,
            phase: self.phase@,
        }
    }
}

impl<H: Copy> ListState<H> {
    /// A list with a query input and a scrollbar, of medium size and
    /// unbounded height, with nothing selected and no search under way.
    pub fn new() -> (state: ListState<H>)
        ensures
            state@ == StateView::<H>::initial(),
    {
        ListState {
            selected_index: None,
            right_clicked_index: None,
            loading: false,
            last_query: None,
            size: Size::default(),
            max_height: None,
            enable_scrollbar: true,
            query_input: true,
            ticket: 0,
            phase: Phase::Idle,
        }
    }

    /// Bounds the height of the list's body.
    pub fn max_h(self, height: H) -> (state: ListState<H>)
        ensures
            state@ == (StateView { max_height: Some(height), ..self@ }),
    {
        let mut state = self;
        state.max_height = Some(height);
        state
    }

    /// Switches the scrollbar off.
    pub fn no_scrollbar(self) -> (state: ListState<H>)
        ensures
            state@ == (StateView { scrollbar: false, ..self@ }),
    {
        let mut state = self;
        state.enable_scrollbar = false;
        state
    }

    /// Takes the query input away.
    pub fn no_query(self) -> (state: ListState<H>)
        ensures
            state@ == (StateView { query_input: false, ..self@ }),
    {
        let mut state = self;
        state.query_input = false;
        state
    }

    /// Gives the list a query input: the one that the host has at hand.
    pub fn set_query_input(&mut self)
        ensures
            final(self)@ == (StateView { query_input: true, ..old(self)@ }),
    {
        self.query_input = true;
    }

    /// The selected index, as it was last set.
    pub fn selected_index(&self) -> (ix: Option<usize>)
        ensures
            ix == self@.selected_index,
    {
        self.selected_index
    }

    /// The row that carries the right-click mark.
    pub fn right_clicked_index(&self) -> (ix: Option<usize>)
        ensures
            ix == self@.right_clicked_index,
    {
        self.right_clicked_index
    }

    /// Whether a search is under way or its loading indicator lingers.
    pub fn loading(&self) -> (loading: bool)
        ensures
            loading == self@.loading,
    {
        self.loading
    }

    /// The query of the last search that completed.
    pub fn last_query(&self) -> (query: Option<&str>)
        ensures
            query is Some <==> self@.last_query is Some,
            query matches Some(q) ==> self@.last_query == Some(q@),
    {
        match &self.last_query {
            Some(query) => Some(query.as_str()),
            None => None,
        }
    }

    /// The size that the list is drawn in.
    pub fn size(&self) -> (size: Size)
        ensures
            size == self@.size,
    {
        self.size
    }

    /// The bound on the height of the list's body.
    pub fn max_height(&self) -> (height: Option<H>)
        ensures
            height == self@.max_height,
    {
        self.max_height
    }

    /// Whether the list is drawn with a scrollbar.
    pub fn has_scrollbar(&self) -> (scrollbar: bool)
        ensures
            scrollbar == self@.scrollbar,
    {
        self.enable_scrollbar
    }

    /// Whether the list has a query input.
    pub fn has_query_input(&self) -> (query_input: bool)
        ensures
            query_input == self@.query_input,
    {
        self.query_input
    }

    /// The query that the delegate searches for, while it does.
    pub fn searching_for(&self) -> (query: Option<&str>)
        ensures
            query is Some <==> self@.phase is Searching,
            query matches Some(q) ==> self@.phase == (PhaseView::Searching { query: q@ }),
    {
        match &self.phase {
            Phase::Searching { query } => Some(query.as_str()),
            _ => None,
        }
    }

    /// The ticket of the last search that was started.
    pub fn ticket(&self) -> (ticket: u64)
        ensures
            ticket == self@.ticket,
    {
        self.ticket
    }

    /// The frame to draw for `items_count` items. `initial` says whether the
    /// delegate has given an initial view; it is asked for one only where
    /// [`asks_initial`](Self::asks_initial) says so.
    ///
    /// An initial view is drawn alone. Without one, an empty list shows the
    /// delegate's empty view and any other list its rows; both are bounded
    /// by the maximum height and carry the scrollbar unless it is switched
    /// off.
    pub fn layout(&self, items_count: usize, initial: bool) -> (layout: Layout<H>)
        ensures
            layout == self@.layout(items_count, initial),
    {
        let header = if !self.query_input {
            None
        } else {
            match self.size {
                Size::Small => Some(HeaderPadding::Compact),
                _ => Some(HeaderPadding::Regular),
            }
        };
        let body = if initial {
            Body::Initial
        } else if items_count == 0 {
            Body::Empty { max_height: self.max_height, scrollbar: self.enable_scrollbar }
        } else {
            Body::Rows {
                items_count,
                sizing: self.sizing(),
                max_height: self.max_height,
                scrollbar: self.enable_scrollbar,
            }
        };
        Layout { header, body, watches_outside_press: self.right_clicked_index.is_some() }
    }

    /// How the rows' container finds its height.
    pub fn sizing(&self) -> (sizing: Sizing)
        ensures
            sizing == self@.sizing(),
    {
        if self.max_height.is_some() {
            Sizing::Infer
        } else {
            Sizing::Auto
        }
    }

    /// Whether to ask the delegate for an initial view, given whether the
    /// query input is empty.
    pub fn asks_initial(&self, query_is_empty: bool) -> (asks: bool)
        ensures
            asks == self@.asks_initial(query_is_empty),
    {
        self.query_input && query_is_empty
    }

    /// What is drawn over row `ix`.
    pub fn highlight(&self, ix: usize) -> (highlight: Highlight)
        ensures
            highlight == self@.highlight(ix),
    {
        let selected = match self.selected_index {
            Some(selected) => selected == ix,
            None => false,
        };
        let right_clicked = match self.right_clicked_index {
            Some(clicked) => clicked == ix,
            None => false,
        };
        if selected {
            Highlight::Filled
        } else if right_clicked {
            Highlight::Outlined
        } else {
            Highlight::Plain
        }
    }

    /// Stores `ix` as the selected index and tells the delegate. The index
    /// is not held against the number of items: that is the caller's part.
    pub fn set_selected_index(&mut self, ix: Option<usize>) -> (effects: Vec<Effect>)
        ensures
            final(self)@ == old(self)@.set_selected_index(ix).state,
            effects.deep_view() == old(self)@.set_selected_index(ix).effects,
    {
        self.selected_index = ix;
        let mut effects = nothing();
        emit(&mut effects, Effect::Select(ix));
        effects
    }

    /// Asks to scroll the selected row to the top, if a row is selected.
    pub fn scroll_to_selected_item(&self) -> (effects: Vec<Effect>)
        ensures
            effects.deep_view() == match self@.selected_index {
                Some(ix) => seq![EffectView::ScrollTo(ix)],
                None => Seq::empty(),
            },
    {
        let mut effects = nothing();
        if let Some(ix) = self.selected_index {
            emit(&mut effects, Effect::ScrollTo(ix));
        }
        effects
    }

    /// Selects `ix`, tells the delegate, scrolls to the row and draws.
    fn move_to(&mut self, ix: usize) -> (effects: Vec<Effect>)
        ensures
            final(self)@ == old(self)@.move_to(ix).state,
            effects.deep_view() == old(self)@.move_to(ix).effects,
    {
        self.selected_index = Some(ix);
        let mut effects = nothing();
        emit(&mut effects, Effect::Select(Some(ix)));
        emit_all(&mut effects, self.scroll_to_selected_item());
        emit(&mut effects, Effect::Notify);
        effects
    }

    /// Moves the selection one row up; from the first row, or from no
    /// selection, to the last row. Does nothing on a list without items.
    pub fn select_previous(&mut self, items_count: usize) -> (effects: Vec<Effect>)
        ensures
            final(self)@ == old(self)@.select_previous(items_count).state,
            effects.deep_view() == old(self)@.select_previous(items_count).effects,
            items_count == 0 ==> final(self)@ == old(self)@ && effects@.len() == 0,
    {
        if items_count == 0 {
            return nothing();
        }
        let selected: usize = match self.selected_index {
            Some(ix) => ix,
            None => 0,
        };
        if selected > 0 {
            self.move_to(selected - 1)
        } else {
            self.move_to(items_count - 1)
        }
    }

    /// Moves the selection one row down; from the last row to the first,
    /// and from no selection to the first. Does nothing on a list without
    /// items.
    pub fn select_next(&mut self, items_count: usize) -> (effects: Vec<Effect>)
        ensures
            final(self)@ == old(self)@.select_next(items_count).state,
            effects.deep_view() == old(self)@.select_next(items_count).effects,
            items_count == 0 ==> final(self)@ == old(self)@ && effects@.len() == 0,
    {
        if items_count == 0 {
            return nothing();
        }
        match self.selected_index {
            Some(ix) if ix < items_count - 1 => self.move_to(ix + 1),
            _ => self.move_to(0),
        }
    }

    /// Hands the selected index to the delegate as confirmed and draws. The
    /// selection stays. Does nothing on a list without items.
    pub fn confirm(&self, items_count: usize) -> (effects: Vec<Effect>)
        ensures
            effects.deep_view() == self@.confirm(items_count).effects,
            items_count == 0 ==> effects@.len() == 0,
    {
        let mut effects = nothing();
        if items_count == 0 {
            return effects;
        }
        emit(&mut effects, Effect::Confirm(self.selected_index));
        emit(&mut effects, Effect::Notify);
        effects
    }

    /// Clears the selection, tells the delegate of both, and draws.
    pub fn cancel(&mut self) -> (effects: Vec<Effect>)
        ensures
            final(self)@ == old(self)@.cancel().state,
            effects.deep_view() == old(self)@.cancel().effects,
    {
        let mut effects = self.set_selected_index(None);
        emit(&mut effects, Effect::Cancel);
        emit(&mut effects, Effect::Notify);
        effects
    }

    /// A press of the left mouse button on row `ix`: the right-click mark
    /// goes, the row is selected, and the selection is confirmed at once.
    /// The delegate hears of the row through the confirmation alone.
    pub fn left_click(&mut self, ix: usize, items_count: usize) -> (effects: Vec<Effect>)
        ensures
            final(self)@ == old(self)@.left_click(ix, items_count).state,
            effects.deep_view() == old(self)@.left_click(ix, items_count).effects,
            final(self)@.right_clicked_index is None,
            final(self)@.selected_index == Some(ix),
    {
        self.right_clicked_index = None;
        self.selected_index = Some(ix);
        self.confirm(items_count)
    }

    /// A press of the right mouse button on row `ix`: the row is marked, in
    /// place of any row marked before. The selection stays.
    pub fn right_click(&mut self, ix: usize) -> (effects: Vec<Effect>)
        ensures
            final(self)@ == old(self)@.right_click(ix).state,
            effects.deep_view() == old(self)@.right_click(ix).effects,
            final(self)@.right_clicked_index == Some(ix),
            final(self)@.selected_index == old(self)@.selected_index,
    {
        self.right_clicked_index = Some(ix);
        let mut effects = nothing();
        emit(&mut effects, Effect::Notify);
        effects
    }

    /// A mouse press outside the list: a right-click mark goes. The
    /// selection stays. Without a mark nothing happens.
    pub fn click_outside(&mut self) -> (effects: Vec<Effect>)
        ensures
            final(self)@ == old(self)@.click_outside().state,
            effects.deep_view() == old(self)@.click_outside().effects,
            final(self)@.right_clicked_index is None,
            final(self)@.selected_index == old(self)@.selected_index,
    {
        let mut effects = nothing();
        if self.right_clicked_index.is_some() {
            self.right_clicked_index = None;
            emit(&mut effects, Effect::Notify);
        }
        effects
    }

    /// Switches the loading flag, and the query input's indicator with it,
    /// and draws.
    fn set_loading(&mut self, loading: bool) -> (effects: Vec<Effect>)
        ensures
            final(self)@ == old(self)@.set_loading(loading).state,
            effects.deep_view() == old(self)@.set_loading(loading).effects,
    {
        self.loading = loading;
        let mut effects = nothing();
        if self.query_input {
            emit(&mut effects, Effect::InputLoading(loading));
        }
        emit(&mut effects, Effect::Notify);
        effects
    }

    /// The query input's text changed to `text`.
    ///
    /// The query is `text` without the white space around it. Where it is
    /// the query of the last search that completed, nothing happens.
    /// Otherwise the list starts loading, asks the delegate to search, and
    /// asks the host to watch that search under a new ticket, which takes
    /// the place of any search watched before.
    pub fn query_changed(&mut self, text: &str) -> (effects: Vec<Effect>)
        ensures
            final(self)@ == old(self)@.query_changed(text@).state,
            effects.deep_view() == old(self)@.query_changed(text@).effects,
    {
        let query = trim(text).to_owned();
        let committed = match &self.last_query {
            Some(last) => *last == query,
            None => false,
        };
        if committed {
            return nothing();
        }
        let mut effects = self.set_loading(true);
        let ticket: u64 = if self.ticket == u64::MAX {
            0
        } else {
            self.ticket + 1
        };
        emit(&mut effects, Effect::Search(query.clone()));
        emit(&mut effects, Effect::Supervise { ticket });
        self.ticket = ticket;
        self.phase = Phase::Searching { query };
        effects
    }

    /// An event of the query input: a change of its text may start a
    /// search, Enter confirms the selection, anything else is ignored.
    pub fn on_query_input_event(&mut self, event: &InputEvent, items_count: usize) -> (effects:
        Vec<Effect>)
        ensures
            final(self)@ == old(self)@.input_event(*event, items_count).state,
            effects.deep_view() == old(self)@.input_event(*event, items_count).effects,
    {
        match event {
            InputEvent::Change(text) => self.query_changed(text.as_str()),
            InputEvent::PressEnter => self.confirm(items_count),
            _ => nothing(),
        }
    }

    /// The search watched under `ticket` has completed.
    ///
    /// Where that search is still the one the list waits for, its query
    /// becomes the last query, the list scrolls to the top, and the host is
    /// asked to report back after the time that the loading indicator
    /// lingers. Under any other ticket, or in any other phase, nothing
    /// happens.
    pub fn search_finished(&mut self, ticket: u64) -> (effects: Vec<Effect>)
        ensures
            final(self)@ == old(self)@.search_finished(ticket).state,
            effects.deep_view() == old(self)@.search_finished(ticket).effects,
    {
        let mut effects = nothing();
        if ticket != self.ticket {
            return effects;
        }
        match &self.phase {
            Phase::Searching { query } => {
                self.last_query = Some(query.clone());
            },
            _ => {
                return effects;
            },
        }
        self.phase = Phase::Settling;
        emit(&mut effects, Effect::ScrollTo(0));
        emit(&mut effects, Effect::Delay { ticket, millis: LOADING_LINGER_MILLIS });
        effects
    }

    /// The delay asked for under `ticket` has passed.
    ///
    /// Where the list still waits for it, loading ends. Under any other
    /// ticket, or in any other phase, nothing happens: a search that was
    /// superseded cannot end the loading of the one that took its place.
    pub fn delay_elapsed(&mut self, ticket: u64) -> (effects: Vec<Effect>)
        ensures
            final(self)@ == old(self)@.delay_elapsed(ticket).state,
            effects.deep_view() == old(self)@.delay_elapsed(ticket).effects,
    {
        let settling = match &self.phase {
            Phase::Settling => true,
            _ => false,
        };
        if !settling || ticket != self.ticket {
            return nothing();
        }
        self.phase = Phase::Idle;
        self.set_loading(false)
    }

    /// Stores the size and passes it on to the query input.
    pub fn set_size(&mut self, size: Size) -> (effects: Vec<Effect>)
        ensures
            final(self)@ == old(self)@.set_size(size).state,
            effects.deep_view() == old(self)@.set_size(size).effects,
    {
        let mut effects = nothing();
        if self.query_input {
            emit(&mut effects, Effect::InputSize(size));
        }
        self.size = size;
        effects
    }

    /// Asks to put `query` into the query input, where there is one. The
    /// input answers with a change event of its own.
    pub fn set_query(&self, query: &str) -> (effects: Vec<Effect>)
        ensures
            effects.deep_view() == self@.set_query(query@).effects,
    {
        let mut effects = nothing();
        if self.query_input {
            emit(&mut effects, Effect::InputText(query.to_owned()));
        }
        effects
    }

    /// The query as the list reports it: the query input's text, which the
    /// host reads, or nothing where the list has no query input.
    pub fn query(&self, input_text: &str) -> (query: Option<String>)
        ensures
            query is Some <==> self@.query_input,
            query matches Some(q) ==> q@ == input_text@,
    {
        if self.query_input {
            Some(input_text.to_owned())
        } else {
            None
        }
    }

    /// What receives focus when the list is focused: the query input, or
    /// the list itself where it has none.
    pub fn focus_handle(&self) -> (target: FocusTarget)
        ensures
            target == self@.focus_target(),
    {
        if self.query_input {
            FocusTarget::QueryInput
        } else {
            FocusTarget::List
        }
    }

    /// Asks to focus the list.
    pub fn focus(&self) -> (effects: Vec<Effect>)
        ensures
            effects.deep_view() == seq![EffectView::Focus(self@.focus_target())],
    {
        let mut effects = nothing();
        emit(&mut effects, Effect::Focus(self.focus_handle()));
        effects
    }
}

} // verus!
