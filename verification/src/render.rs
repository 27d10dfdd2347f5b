use vstd::prelude::*;

verus! {

/// How the rows' container finds its height.
#[derive(Clone, Copy, Debug, PartialEq, Eq, Structural)]
pub enum Sizing {
    /// From the space it is given: used when the list has a maximum height.
    Infer,
    /// From its rows.
    Auto,
}

/// The padding around the query input.
#[derive(Clone, Copy, Debug, PartialEq, Eq, Structural)]
pub enum HeaderPadding {
    /// For a list of size [`Small`](crate::Size::Small).
    Compact,
    /// For every other size.
    Regular,
}

/// What is drawn over a row.
#[derive(Clone, Copy, Debug, PartialEq, Eq, Structural)]
pub enum Highlight {
    /// Nothing: the row is neither selected nor right-clicked.
    Plain,
    /// A border: the row is right-clicked and not selected.
    Outlined,
    /// A border and the active background: the row is selected.
    Filled,
}

/// What fills the list below the query input. `H` is the host's measure of
/// height, which the list hands through as it was given.
#[derive(Clone, Copy, Debug, PartialEq, Eq)]
pub enum Body<H> {
    /// The delegate's initial view, alone.
    Initial,
    /// The delegate's empty view.
    Empty { max_height: Option<H>, scrollbar: bool },
    /// The rows, of which only the visible ones are drawn.
    Rows { items_count: usize, sizing: Sizing, max_height: Option<H>, scrollbar: bool },
}

/// One frame of the list, before anything is drawn.
#[derive(Clone, Copy, Debug, PartialEq, Eq)]
pub struct Layout<H> {
    /// The query input's row, if the list has a query input.
    pub header: Option<HeaderPadding>,
    pub body: Body<H>,
    /// Whether a mouse press outside the list is listened for.
    pub watches_outside_press: bool,
}

} // verus!
