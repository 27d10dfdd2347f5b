use ui_list::{init, Action, KeyBinding};

#[test]
fn default_keys_are_bound_within_lists() {
    assert_eq!(
        init(),
        vec![
            KeyBinding {
                keystroke: "escape",
                action: Action::Cancel,
                context: "List"
            },
            KeyBinding {
                keystroke: "enter",
                action: Action::Confirm,
                context: "List"
            },
            KeyBinding {
                keystroke: "up",
                action: Action::SelectPrev,
                context: "List"
            },
            KeyBinding {
                keystroke: "down",
                action: Action::SelectNext,
                context: "List"
            },
        ]
    );
}
