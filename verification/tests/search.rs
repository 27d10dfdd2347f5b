use ui_list::{Effect, InputEvent, ListState, LOADING_LINGER_MILLIS};

fn started(query: &str, ticket: u64) -> Vec<Effect> {
    vec![
        Effect::InputLoading(true),
        Effect::Notify,
        Effect::Search(query.to_string()),
        Effect::Supervise { ticket },
    ]
}

/// The characters that Unicode marks `White_Space`.
fn is_white_space(c: char) -> bool {
    matches!(
        c as u32,
        0x09..=0x0D
            | 0x20
            | 0x85
            | 0xA0
            | 0x1680
            | 0x2000..=0x200A
            | 0x2028
            | 0x2029
            | 0x202F
            | 0x205F
            | 0x3000
    )
}

fn searched_for(text: &str) -> String {
    let mut state = ListState::<u32>::new();
    let effects = state.query_changed(text);
    match &effects[2] {
        Effect::Search(query) => query.clone(),
        other => panic!("no search: {:?}", other),
    }
}

#[test]
fn new_list_is_not_loading() {
    let state = ListState::<u32>::new();
    assert!(!state.loading());
    assert_eq!(state.last_query(), None);
    assert_eq!(state.ticket(), 0);
}

#[test]
fn loading_lingers_a_tenth_of_a_second() {
    assert_eq!(LOADING_LINGER_MILLIS, 100);
}

#[test]
fn query_change_starts_loading_and_search() {
    let mut state = ListState::<u32>::new();
    assert_eq!(state.query_changed("ab"), started("ab", 1));
    assert!(state.loading());
    assert_eq!(state.ticket(), 1);
    // the query is the last query only once its search has completed
    assert_eq!(state.last_query(), None);
}

#[test]
fn query_is_trimmed_at_both_ends() {
    assert_eq!(searched_for("  ab"), "ab");
    assert_eq!(searched_for("ab  "), "ab");
    assert_eq!(searched_for(" \t\n ab \r\n"), "ab");
    assert_eq!(searched_for("\u{3000}ab\u{a0}"), "ab");
    assert_eq!(searched_for("ab"), "ab");
}

#[test]
fn white_space_inside_query_stays() {
    assert_eq!(searched_for(" a  b "), "a  b");
    assert_eq!(searched_for("a\tb"), "a\tb");
}

#[test]
fn blank_query_is_searched_as_empty() {
    assert_eq!(searched_for(""), "");
    assert_eq!(searched_for("   "), "");
    assert_eq!(searched_for("\n\t"), "");
}

#[test]
fn every_white_space_character_is_trimmed_and_no_other() {
    for c in (0..=0x10FFFFu32).filter_map(char::from_u32) {
        let padded = format!("{c}x{c}");
        let alone = c.to_string();
        if is_white_space(c) {
            assert_eq!(searched_for(&padded), "x", "U+{:04X}", c as u32);
            assert_eq!(searched_for(&alone), "", "U+{:04X}", c as u32);
        } else {
            assert_eq!(searched_for(&padded), padded, "U+{:04X}", c as u32);
            assert_eq!(searched_for(&alone), alone, "U+{:04X}", c as u32);
        }
    }
}

#[test]
fn blank_query_equal_to_last_query_is_ignored() {
    let mut state = ListState::<u32>::new();
    state.query_changed("  ");
    state.search_finished(1);
    assert_eq!(state.last_query(), Some(""));
    assert_eq!(state.query_changed(""), vec![]);
    assert_eq!(state.query_changed(" \t "), vec![]);
}

#[test]
fn query_searched_for_is_known_while_the_search_runs() {
    let mut state = ListState::<u32>::new();
    assert_eq!(state.searching_for(), None);
    state.query_changed(" ab ");
    assert_eq!(state.searching_for(), Some("ab"));
    state.query_changed("abc");
    assert_eq!(state.searching_for(), Some("abc"));
    state.search_finished(2);
    assert_eq!(state.searching_for(), None);
    state.delay_elapsed(2);
    assert_eq!(state.searching_for(), None);
}

#[test]
fn search_completion_commits_query_and_asks_for_delay() {
    let mut state = ListState::<u32>::new();
    state.query_changed("ab");
    assert_eq!(
        state.search_finished(1),
        vec![
            Effect::ScrollTo(0),
            Effect::Delay { ticket: 1, millis: 100 }
        ]
    );
    assert_eq!(state.last_query(), Some("ab"));
    assert!(state.loading());
}

#[test]
fn loading_ends_when_delay_has_passed() {
    let mut state = ListState::<u32>::new();
    state.query_changed("ab");
    state.search_finished(1);
    assert_eq!(
        state.delay_elapsed(1),
        vec![Effect::InputLoading(false), Effect::Notify]
    );
    assert!(!state.loading());
    assert_eq!(state.last_query(), Some("ab"));
}

#[test]
fn delay_before_search_completion_is_ignored() {
    let mut state = ListState::<u32>::new();
    state.query_changed("ab");
    assert_eq!(state.delay_elapsed(1), vec![]);
    assert!(state.loading());
    assert_eq!(state.last_query(), None);
}

#[test]
fn search_completion_is_taken_once() {
    let mut state = ListState::<u32>::new();
    state.query_changed("ab");
    state.search_finished(1);
    assert_eq!(state.search_finished(1), vec![]);
    state.delay_elapsed(1);
    assert_eq!(state.search_finished(1), vec![]);
    assert_eq!(state.delay_elapsed(1), vec![]);
    assert!(!state.loading());
}

#[test]
fn reports_without_a_search_are_ignored() {
    let mut state = ListState::<u32>::new();
    assert_eq!(state.search_finished(0), vec![]);
    assert_eq!(state.delay_elapsed(0), vec![]);
    assert_eq!(state.search_finished(1), vec![]);
    assert!(!state.loading());
    assert_eq!(state.last_query(), None);
}

#[test]
fn same_query_after_completion_is_not_searched_again() {
    let mut state = ListState::<u32>::new();
    assert_eq!(state.query_changed("ab"), started("ab", 1));
    state.search_finished(1);
    assert_eq!(state.query_changed("ab"), vec![]);
    state.delay_elapsed(1);
    assert_eq!(state.query_changed("ab"), vec![]);
    assert_eq!(state.query_changed("  ab\n"), vec![]);
    assert_eq!(state.ticket(), 1);
    assert!(!state.loading());
}

#[test]
fn last_query_put_back_as_it_is_starts_no_search() {
    for text in ["ab", "  a b\t", "", "\u{2003}x y\u{2003}"] {
        let mut state = ListState::<u32>::new();
        state.query_changed(text);
        state.search_finished(1);
        state.delay_elapsed(1);
        let last = state.last_query().map(str::to_string);
        assert!(last.is_some());
        assert_eq!(state.query_changed(&last.unwrap_or_default()), vec![]);
        assert_eq!(state.ticket(), 1);
    }
}

#[test]
fn same_query_before_completion_is_searched_again() {
    let mut state = ListState::<u32>::new();
    assert_eq!(state.query_changed("ab"), started("ab", 1));
    assert_eq!(state.query_changed("ab"), started("ab", 2));
}

#[test]
fn other_query_is_searched() {
    let mut state = ListState::<u32>::new();
    state.query_changed("ab");
    state.search_finished(1);
    state.delay_elapsed(1);
    assert_eq!(state.query_changed("abc"), started("abc", 2));
    assert!(state.loading());
    // the last query stays until the new search completes
    assert_eq!(state.last_query(), Some("ab"));
}

#[test]
fn superseded_search_cannot_end_loading() {
    let mut state = ListState::<u32>::new();
    state.query_changed("a");
    state.search_finished(1);
    // a second search starts while the first one's delay runs
    assert_eq!(state.query_changed("ab"), started("ab", 2));
    assert!(state.loading());
    // the first one's delay passes
    assert_eq!(state.delay_elapsed(1), vec![]);
    assert!(state.loading());
    assert_eq!(state.last_query(), Some("a"));
    // the second search runs its course
    state.search_finished(2);
    assert!(state.loading());
    state.delay_elapsed(2);
    assert!(!state.loading());
    assert_eq!(state.last_query(), Some("ab"));
}

#[test]
fn superseded_search_cannot_commit_its_query() {
    let mut state = ListState::<u32>::new();
    state.query_changed("a");
    state.query_changed("ab");
    assert_eq!(state.search_finished(1), vec![]);
    assert_eq!(state.last_query(), None);
    state.search_finished(2);
    assert_eq!(state.last_query(), Some("ab"));
}

#[test]
fn hung_search_keeps_loading() {
    let mut state = ListState::<u32>::new();
    state.query_changed("ab");
    state.select_next(3);
    state.right_click(1);
    state.click_outside();
    state.cancel();
    assert!(state.loading());
}

#[test]
fn list_without_query_input_has_no_indicator_to_switch() {
    let mut state = ListState::<u32>::new().no_query();
    assert_eq!(
        state.query_changed("ab"),
        vec![
            Effect::Notify,
            Effect::Search("ab".to_string()),
            Effect::Supervise { ticket: 1 }
        ]
    );
    state.search_finished(1);
    assert_eq!(state.delay_elapsed(1), vec![Effect::Notify]);
}

#[test]
fn input_change_event_is_a_query_change() {
    let mut state = ListState::<u32>::new();
    let event = InputEvent::Change(" ab ".to_string());
    assert_eq!(state.on_query_input_event(&event, 3), started("ab", 1));
}

#[test]
fn input_enter_event_confirms_selection() {
    let mut state = ListState::<u32>::new();
    state.set_selected_index(Some(2));
    assert_eq!(
        state.on_query_input_event(&InputEvent::PressEnter, 3),
        vec![Effect::Confirm(Some(2)), Effect::Notify]
    );
    assert_eq!(
        state.on_query_input_event(&InputEvent::PressEnter, 0),
        vec![]
    );
    assert!(!state.loading());
}

#[test]
fn other_input_events_are_ignored() {
    let mut state = ListState::<u32>::new();
    assert_eq!(state.on_query_input_event(&InputEvent::Focus, 3), vec![]);
    assert_eq!(state.on_query_input_event(&InputEvent::Blur, 3), vec![]);
    assert!(!state.loading());
}

#[test]
fn query_end_to_end() {
    let mut state = ListState::<u32>::new();
    let effects = state.on_query_input_event(&InputEvent::Change("ab".to_string()), 0);
    assert_eq!(effects, started("ab", 1));
    // the search completes at once
    let effects = state.search_finished(1);
    assert_eq!(
        effects,
        vec![
            Effect::ScrollTo(0),
            Effect::Delay { ticket: 1, millis: 100 }
        ]
    );
    // 100 ms later
    state.delay_elapsed(1);
    assert!(!state.loading());
    assert_eq!(state.last_query(), Some("ab"));
    let effects = state.on_query_input_event(&InputEvent::Change("ab ".to_string()), 0);
    assert_eq!(effects, vec![]);
    assert!(!state.loading());
}
