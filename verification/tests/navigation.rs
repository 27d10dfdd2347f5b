use ui_list::{Effect, ListState};

fn moved_to(ix: usize) -> Vec<Effect> {
    vec![Effect::Select(Some(ix)), Effect::ScrollTo(ix), Effect::Notify]
}

#[test]
fn new_list_has_no_selection() {
    let state = ListState::<u32>::new();
    assert_eq!(state.selected_index(), None);
    assert_eq!(state.right_clicked_index(), None);
}

#[test]
fn select_next_visits_rows_in_order_and_wraps() {
    let mut state = ListState::<u32>::new();
    let mut seen = Vec::new();
    for _ in 0..6 {
        state.select_next(3);
        seen.push(state.selected_index());
    }
    assert_eq!(seen, vec![Some(0), Some(1), Some(2), Some(0), Some(1), Some(2)]);
}

#[test]
fn kth_select_next_selects_k_minus_one_mod_count() {
    for count in 1..8usize {
        let mut state = ListState::<u32>::new();
        for k in 1..40usize {
            state.select_next(count);
            assert_eq!(state.selected_index(), Some((k - 1) % count));
        }
    }
}

#[test]
fn select_previous_starts_at_last_row_and_wraps() {
    let mut state = ListState::<u32>::new();
    let mut seen = Vec::new();
    for _ in 0..7 {
        state.select_previous(3);
        seen.push(state.selected_index());
    }
    assert_eq!(
        seen,
        vec![Some(2), Some(1), Some(0), Some(2), Some(1), Some(0), Some(2)]
    );
}

#[test]
fn kth_select_previous_counts_down_from_last_row() {
    for count in 1..8usize {
        let mut state = ListState::<u32>::new();
        for k in 1..40usize {
            state.select_previous(count);
            assert_eq!(state.selected_index(), Some(count - 1 - (k - 1) % count));
        }
    }
}

#[test]
fn select_next_asks_to_tell_scroll_and_draw() {
    let mut state = ListState::<u32>::new();
    assert_eq!(state.select_next(5), moved_to(0));
    assert_eq!(state.select_next(5), moved_to(1));
}

#[test]
fn select_previous_asks_to_tell_scroll_and_draw() {
    let mut state = ListState::<u32>::new();
    assert_eq!(state.select_previous(5), moved_to(4));
    assert_eq!(state.select_previous(5), moved_to(3));
}

#[test]
fn select_next_on_single_row_stays_on_it() {
    let mut state = ListState::<u32>::new();
    assert_eq!(state.select_next(1), moved_to(0));
    assert_eq!(state.select_next(1), moved_to(0));
    assert_eq!(state.selected_index(), Some(0));
}

#[test]
fn select_previous_from_first_row_wraps_to_last() {
    let mut state = ListState::<u32>::new();
    state.set_selected_index(Some(0));
    assert_eq!(state.select_previous(4), moved_to(3));
}

#[test]
fn select_next_from_last_row_wraps_to_first() {
    let mut state = ListState::<u32>::new();
    state.set_selected_index(Some(3));
    assert_eq!(state.select_next(4), moved_to(0));
}

#[test]
fn navigation_on_empty_list_does_nothing() {
    let mut state = ListState::<u32>::new();
    assert_eq!(state.select_next(0), vec![]);
    assert_eq!(state.selected_index(), None);
    assert_eq!(state.select_previous(0), vec![]);
    assert_eq!(state.selected_index(), None);

    state.set_selected_index(Some(2));
    assert_eq!(state.select_next(0), vec![]);
    assert_eq!(state.select_previous(0), vec![]);
    assert_eq!(state.selected_index(), Some(2));
}

#[test]
fn five_rows_end_to_end() {
    let mut state = ListState::<u32>::new();
    assert_eq!(state.selected_index(), None);
    state.select_next(5);
    assert_eq!(state.selected_index(), Some(0));
    for _ in 0..4 {
        state.select_next(5);
    }
    assert_eq!(state.selected_index(), Some(4));
    state.select_next(5);
    assert_eq!(state.selected_index(), Some(0));
}

#[test]
fn stale_selection_past_the_end_moves_by_the_rules() {
    let mut state = ListState::<u32>::new();
    state.set_selected_index(Some(10));
    // "select next" finds no row after it and wraps to the first
    assert_eq!(state.select_next(3), moved_to(0));
    state.set_selected_index(Some(10));
    // "select previous" only counts down
    assert_eq!(state.select_previous(3), moved_to(9));
}

#[test]
fn largest_index_does_not_overflow() {
    let mut state = ListState::<u32>::new();
    state.set_selected_index(Some(usize::MAX));
    assert_eq!(state.select_next(usize::MAX), moved_to(0));
    state.set_selected_index(Some(usize::MAX - 1));
    assert_eq!(state.select_next(usize::MAX), moved_to(0));
    state.set_selected_index(Some(usize::MAX - 2));
    assert_eq!(state.select_next(usize::MAX), moved_to(usize::MAX - 1));
}

#[test]
fn set_selected_index_stores_and_tells() {
    let mut state = ListState::<u32>::new();
    assert_eq!(
        state.set_selected_index(Some(7)),
        vec![Effect::Select(Some(7))]
    );
    assert_eq!(state.selected_index(), Some(7));
    assert_eq!(state.set_selected_index(None), vec![Effect::Select(None)]);
    assert_eq!(state.selected_index(), None);
}

#[test]
fn scroll_to_selected_item_follows_selection() {
    let mut state = ListState::<u32>::new();
    assert_eq!(state.scroll_to_selected_item(), vec![]);
    state.set_selected_index(Some(3));
    assert_eq!(state.scroll_to_selected_item(), vec![Effect::ScrollTo(3)]);
}

#[test]
fn confirm_hands_over_selection_and_keeps_it() {
    let mut state = ListState::<u32>::new();
    assert_eq!(
        state.confirm(3),
        vec![Effect::Confirm(None), Effect::Notify]
    );
    state.set_selected_index(Some(1));
    assert_eq!(
        state.confirm(3),
        vec![Effect::Confirm(Some(1)), Effect::Notify]
    );
    assert_eq!(state.selected_index(), Some(1));
}

#[test]
fn confirm_on_empty_list_does_nothing() {
    let mut state = ListState::<u32>::new();
    state.set_selected_index(Some(1));
    assert_eq!(state.confirm(0), vec![]);
    assert_eq!(state.selected_index(), Some(1));
}

#[test]
fn cancel_clears_selection_and_tells() {
    let mut state = ListState::<u32>::new();
    state.set_selected_index(Some(1));
    assert_eq!(
        state.cancel(),
        vec![Effect::Select(None), Effect::Cancel, Effect::Notify]
    );
    assert_eq!(state.selected_index(), None);
}

#[test]
fn effects_know_their_receiver() {
    assert!(!Effect::Select(None).for_host());
    assert!(!Effect::Confirm(Some(1)).for_host());
    assert!(!Effect::Cancel.for_host());
    assert!(!Effect::Search("a".to_string()).for_host());
    assert!(Effect::ScrollTo(1).for_host());
    assert!(Effect::InputLoading(true).for_host());
    assert!(Effect::Notify.for_host());
    assert!(Effect::Supervise { ticket: 1 }.for_host());
    assert!(Effect::Delay { ticket: 1, millis: 100 }.for_host());
}
