//! A searchable selection list, as a state machine.
//!
//! The list keeps one selected row and one right-clicked row, filters its
//! items through a text query, and shows a loading indicator while a search
//! is under way. It draws nothing and waits for nothing itself: every
//! handler takes an event, updates the state, and returns the [`Effect`]s
//! that the delegate and the host toolkit are to carry out.
//!
//! [`ListState`] holds the decisions, with exact contracts over
//! [`StateView`](model::StateView). [`List`] owns a [`ListDelegate`] beside
//! that state, asks it for the number of items, tells it what is meant for
//! it, and says in its contracts which of the delegate's methods it has
//! called and with what. [`laws`] holds what follows for every list.
pub mod delegate;
pub mod effect;
pub mod keymap;
pub mod laws;
pub mod list;
pub mod model;
pub mod render;
pub mod size;
pub mod state;
pub mod text;

pub use delegate::ListDelegate;
pub use effect::{Effect, FocusTarget};
pub use keymap::{init, Action, KeyBinding, KEY_CONTEXT};
pub use list::{Frame, Handled, List, Row};
pub use model::LOADING_LINGER_MILLIS;
pub use render::{Body, HeaderPadding, Highlight, Layout, Sizing};
pub use size::Size;
pub use state::{InputEvent, ListState};
