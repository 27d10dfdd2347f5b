use vstd::prelude::*;

verus! {

/// What a list shows and whom it tells: the source of its items.
///
/// `C` is the host toolkit's context, which the list hands through to every
/// call untouched.
///
/// The list asks for [`items_count`](Self::items_count) whenever it needs
/// it and keeps no copy, so the answer should be cheap. It promises nothing
/// of what an implementation answers: each handler of the list states what
/// it does for every answer.
#[allow(unused_variables)]
pub trait ListDelegate<C>: Sized {
    /// What a row is drawn from.
    type Item;

    /// What is drawn in place of the rows.
    type View;

    /// Starts a search for `query`. The host watches the search and reports
    /// its completion to the list. Without an implementation there is
    /// nothing to wait for: the search is complete at once.
    fn perform_search(&mut self, query: &str, cx: &mut C) {
    }

    /// The number of items.
    fn items_count(&self, cx: &C) -> usize;

    /// Row `ix`, or `None` to leave the row blank. A blank row still counts
    /// as an item.
    fn render_item(&self, ix: usize, cx: &mut C) -> Option<Self::Item>;

    /// What to show when there are no items: by default, nothing.
    fn render_empty(&self, cx: &mut C) -> Option<Self::View> {
        None
    }

    /// What to show while the query input is empty, such as the last
    /// results, in place of the rows. By default there is no such view.
    fn render_initial(&self, cx: &mut C) -> Option<Self::View> {
        None
    }

    /// The item that was confirmed last, where the delegate keeps track.
    fn confirmed_index(&self, cx: &C) -> Option<usize> {
        None
    }

    /// The selection is now `ix`. This is a notification: the list has
    /// already stored the index.
    fn set_selected_index(&mut self, ix: Option<usize>, cx: &mut C);

    /// The user confirmed, on row `ix`: by Enter, by a click on the row, or
    /// by Enter in the query input.
    fn confirm(&mut self, ix: Option<usize>, cx: &mut C) {
    }

    /// The user cancelled.
    fn cancel(&mut self, cx: &mut C) {
    }
}

} // verus!
