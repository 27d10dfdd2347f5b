use crate::size::Size;
use vstd::prelude::*;

verus! {

/// What receives keyboard focus when the list is focused.
#[derive(Clone, Copy, Debug, PartialEq, Eq, Structural)]
pub enum FocusTarget {
    /// The query input, where the list has one.
    QueryInput,
    /// The list's own surface.
    List,
}

/// One thing that a handler asks of the world around the list.
///
/// A handler returns its effects in the order in which they are to be
/// carried out. The first four are addressed to the delegate, the others to
/// the host toolkit.
#[derive(Debug, PartialEq, Eq)]
pub enum Effect {
    /// Tell the delegate which row is selected now.
    Select(Option<usize>),
    /// Tell the delegate that the user confirmed, with the selected row.
    Confirm(Option<usize>),
    /// Tell the delegate that the user cancelled.
    Cancel,
    /// Ask the delegate to search for this query.
    Search(String),
    /// Scroll so that this row is at the top of the viewport.
    ScrollTo(usize),
    /// Switch the query input's loading indicator.
    InputLoading(bool),
    /// Give the query input this size.
    InputSize(Size),
    /// Put this text into the query input.
    InputText(String),
    /// Move keyboard focus.
    Focus(FocusTarget),
    /// Draw the list again.
    Notify,
    /// Watch the search that was just asked for, in place of any search
    /// watched before, and report its completion under this ticket.
    Supervise { ticket: u64 },
    /// Wait this many milliseconds, then report under this ticket.
    Delay { ticket: u64, millis: u64 },
}

/// An [`Effect`] as contracts see it: strings are sequences of characters.
pub enum EffectView {
    Select(Option<usize>),
    Confirm(Option<usize>),
    Cancel,
    Search(Seq<char>),
    ScrollTo(usize),
    InputLoading(bool),
    InputSize(Size),
    InputText(Seq<char>),
    Focus(FocusTarget),
    Notify,
    Supervise { ticket: u64 },
    Delay { ticket: u64, millis: u64 },
}

impl EffectView {
    /// Whether the host toolkit carries this effect out, not the delegate.
    pub open spec fn for_host(self) -> bool {
        !(self is Select || self is Confirm || self is Cancel || self is Search)
    }
}

/// The effects among `effects` that the host toolkit carries out, in order.
pub open spec fn for_host(effects: Seq<EffectView>) -> Seq<EffectView> {
    effects.filter(|effect: EffectView| effect.for_host())
}

impl DeepView for Effect {
    type V = EffectView;

    open spec fn deep_view(&self) -> EffectView {
        match *self {
            Effect::Select(ix) => EffectView::Select(ix),
            Effect::Confirm(ix) => EffectView::Confirm(ix),
            Effect::Cancel => EffectView::Cancel,
            Effect::Search(query) => EffectView::Search(query@),
            Effect::ScrollTo(ix) => EffectView::ScrollTo(ix),
            Effect::InputLoading(loading) => EffectView::InputLoading(loading),
            Effect::InputSize(size) => EffectView::InputSize(size),
            Effect::InputText(text) => EffectView::InputText(text@),
            Effect::Focus(target) => EffectView::Focus(target),
            Effect::Notify => EffectView::Notify,
            Effect::Supervise { ticket } => EffectView::Supervise { ticket },
            Effect::Delay { ticket, millis } => EffectView::Delay { ticket, millis },
        }
    }
}

impl Effect {
    /// Whether the host toolkit carries this effect out, not the delegate.
    pub fn for_host(&self) -> (host: bool)
        ensures
            host == self.deep_view().for_host(),
    {
        match self {
            Effect::Select(_) | Effect::Confirm(_) | Effect::Cancel | Effect::Search(_) => false,
            _ => true,
        }
    }
}

proof fn lemma_for_host_push(effects: Seq<EffectView>, effect: EffectView)
    ensures
        for_host(effects.push(effect)) == if effect.for_host() {
            for_host(effects).push(effect)
        } else {
            for_host(effects)
        },
{
    reveal(Seq::filter);
    assert(effects.push(effect).drop_last() =~= effects);
}

/// Those of `effects` that the host toolkit carries out, in order.
pub(crate) fn left_for_host(effects: Vec<Effect>) -> (left: Vec<Effect>)
    ensures
        left.deep_view() == for_host(effects.deep_view()),
        left@.len() <= effects@.len(),
{
    let ghost all = effects.deep_view();
    let mut left = nothing();
    proof {
        reveal(Seq::filter);
    }
    for effect in it: effects
        invariant
            it.seq().len() == all.len(),
            forall|i: int| 0 <= i < all.len() ==> (#[trigger] it.seq()[i]).deep_view() == all[i],
            left.deep_view() == for_host(all.take(it.index() as int)),
            left@.len() <= it.index(),
    {
        proof {
            let done = it.index() as int;
            assert(all.take(done + 1) =~= all.take(done).push(all[done]));
            lemma_for_host_push(all.take(done), all[done]);
        }
        if effect.for_host() {
            emit(&mut left, effect);
        }
    }
    proof {
        assert(all.take(all.len() as int) =~= all);
    }
    left
}

/// The empty list of effects.
pub(crate) fn nothing() -> (effects: Vec<Effect>)
    ensures
        effects@.len() == 0,
        effects.deep_view() == Seq::<EffectView>::empty(),
{
    let effects = Vec::new();
    assert(effects.deep_view() =~= Seq::<EffectView>::empty());
    effects
}

/// Adds `effect` at the end of `effects`.
pub(crate) fn emit(effects: &mut Vec<Effect>, effect: Effect)
    ensures
        final(effects)@.len() == old(effects)@.len() + 1,
        final(effects).deep_view() == old(effects).deep_view().push(effect.deep_view()),
{
    effects.push(effect);
    assert(effects.deep_view() =~= old(effects).deep_view().push(effect.deep_view()));
}

/// Adds `more` at the end of `effects`.
pub(crate) fn emit_all(effects: &mut Vec<Effect>, more: Vec<Effect>)
    ensures
        final(effects).deep_view() == old(effects).deep_view() + more.deep_view(),
{
    let mut more = more;
    let ghost added = more.deep_view();
    effects.append(&mut more);
    assert(effects.deep_view() =~= old(effects).deep_view() + added);
}

} // verus!
