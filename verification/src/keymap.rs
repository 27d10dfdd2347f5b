use vstd::prelude::*;

verus! {

/// The key context of a list: its bindings hold while a list has the focus.
pub const KEY_CONTEXT: &'static str = "List";

/// What a key asks of the list.
#[derive(Clone, Copy, Debug, PartialEq, Eq, Structural)]
pub enum Action {
    Cancel,
    Confirm,
    SelectPrev,
    SelectNext,
}

/// A key and what it asks of whichever list has the focus.
#[derive(Clone, Copy, Debug, PartialEq, Eq)]
pub struct KeyBinding {
    /// The key, by the name under which toolkits know it.
    pub keystroke: &'static str,
    pub action: Action,
    /// The key context in which the binding holds.
    pub context: &'static str,
}

impl KeyBinding {
    /// Whether this binds the key named `keystroke` to `action` within
    /// lists.
    pub open spec fn binds(self, keystroke: &str, action: Action) -> bool {
        &&& self.keystroke@ == keystroke@
        &&& self.action == action
        &&& self.context@ == KEY_CONTEXT@
    }
}

/// The key bindings of a list, for the host to register: Escape cancels,
/// Enter confirms, Up and Down move the selection.
pub fn init() -> (bindings: Vec<KeyBinding>)
    ensures
        bindings@.len() == 4,
        bindings@[0].binds("escape", Action::Cancel),
        bindings@[1].binds("enter", Action::Confirm),
        bindings@[2].binds("up", Action::SelectPrev),
        bindings@[3].binds("down", Action::SelectNext),
{
    let context = KEY_CONTEXT;
    let mut bindings = Vec::new();
    bindings.push(KeyBinding { keystroke: "escape", action: Action::Cancel, context });
    bindings.push(KeyBinding { keystroke: "enter", action: Action::Confirm, context });
    bindings.push(KeyBinding { keystroke: "up", action: Action::SelectPrev, context });
    bindings.push(KeyBinding { keystroke: "down", action: Action::SelectNext, context });
    bindings
}

} // verus!
