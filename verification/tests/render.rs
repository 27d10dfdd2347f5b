use ui_list::{Body, Effect, FocusTarget, HeaderPadding, Highlight, Layout, ListState, Size, Sizing};

/// A height in rems, which the list cannot read and need not.
#[derive(Clone, Copy, Debug, PartialEq)]
struct Rems(f32);

#[test]
fn new_list_has_input_scrollbar_and_medium_size() {
    let state = ListState::<u32>::new();
    assert!(state.has_query_input());
    assert!(state.has_scrollbar());
    assert_eq!(state.size(), Size::Medium);
    assert_eq!(state.max_height(), None);
}

#[test]
fn default_size_is_medium() {
    assert_eq!(Size::default(), Size::Medium);
}

#[test]
fn rows_are_laid_out_when_there_are_items() {
    let state = ListState::<u32>::new();
    assert_eq!(
        state.layout(7, false),
        Layout {
            header: Some(HeaderPadding::Regular),
            body: Body::Rows {
                items_count: 7,
                sizing: Sizing::Auto,
                max_height: None,
                scrollbar: true
            },
            watches_outside_press: false,
        }
    );
}

#[test]
fn empty_view_is_laid_out_when_there_are_no_items() {
    let state = ListState::<u32>::new();
    assert_eq!(
        state.layout(0, false).body,
        Body::Empty {
            max_height: None,
            scrollbar: true
        }
    );
}

#[test]
fn initial_view_is_laid_out_alone() {
    let state = ListState::<u32>::new().max_h(200);
    assert_eq!(state.layout(7, true).body, Body::Initial);
    assert_eq!(state.layout(0, true).body, Body::Initial);
    assert_eq!(
        state.layout(0, true).header,
        Some(HeaderPadding::Regular)
    );
}

#[test]
fn initial_view_is_asked_for_while_query_is_empty() {
    let state = ListState::<u32>::new();
    assert!(state.asks_initial(true));
    assert!(!state.asks_initial(false));
}

#[test]
fn initial_view_is_not_asked_for_without_query_input() {
    let state = ListState::<u32>::new().no_query();
    assert!(!state.asks_initial(true));
    assert!(!state.asks_initial(false));
}

#[test]
fn maximum_height_bounds_body_and_infers_sizing() {
    let state = ListState::<u32>::new().max_h(320);
    assert_eq!(state.max_height(), Some(320));
    assert_eq!(state.sizing(), Sizing::Infer);
    assert_eq!(
        state.layout(3, false).body,
        Body::Rows {
            items_count: 3,
            sizing: Sizing::Infer,
            max_height: Some(320),
            scrollbar: true
        }
    );
    assert_eq!(
        state.layout(0, false).body,
        Body::Empty {
            max_height: Some(320),
            scrollbar: true
        }
    );
}

#[test]
fn maximum_height_is_handed_through_in_any_measure() {
    let state = ListState::new().max_h(Rems(12.5));
    assert_eq!(state.max_height(), Some(Rems(12.5)));
    assert_eq!(state.sizing(), Sizing::Infer);
    assert_eq!(
        state.layout(3, false).body,
        Body::Rows {
            items_count: 3,
            sizing: Sizing::Infer,
            max_height: Some(Rems(12.5)),
            scrollbar: true
        }
    );
}

#[test]
fn sizing_is_auto_without_maximum_height() {
    assert_eq!(ListState::<u32>::new().sizing(), Sizing::Auto);
}

#[test]
fn scrollbar_can_be_switched_off() {
    let state = ListState::<u32>::new().no_scrollbar();
    assert!(!state.has_scrollbar());
    assert_eq!(
        state.layout(3, false).body,
        Body::Rows {
            items_count: 3,
            sizing: Sizing::Auto,
            max_height: None,
            scrollbar: false
        }
    );
    assert_eq!(
        state.layout(0, false).body,
        Body::Empty {
            max_height: None,
            scrollbar: false
        }
    );
}

#[test]
fn header_follows_query_input_and_size() {
    let mut state = ListState::<u32>::new();
    assert_eq!(state.layout(1, false).header, Some(HeaderPadding::Regular));
    state.set_size(Size::Small);
    assert_eq!(state.layout(1, false).header, Some(HeaderPadding::Compact));
    state.set_size(Size::Large);
    assert_eq!(state.layout(1, false).header, Some(HeaderPadding::Regular));
    let state = state.no_query();
    assert_eq!(state.layout(1, false).header, None);
}

#[test]
fn outside_press_is_watched_while_a_row_is_marked() {
    let mut state = ListState::<u32>::new();
    assert!(!state.layout(3, false).watches_outside_press);
    state.right_click(1);
    assert!(state.layout(3, false).watches_outside_press);
    state.click_outside();
    assert!(!state.layout(3, false).watches_outside_press);
}

#[test]
fn highlight_marks_selected_and_right_clicked_rows() {
    let mut state = ListState::<u32>::new();
    assert_eq!(state.highlight(0), Highlight::Plain);
    state.set_selected_index(Some(1));
    state.right_click(2);
    assert_eq!(state.highlight(0), Highlight::Plain);
    assert_eq!(state.highlight(1), Highlight::Filled);
    assert_eq!(state.highlight(2), Highlight::Outlined);
}

#[test]
fn selected_row_is_filled_even_when_right_clicked() {
    let mut state = ListState::<u32>::new();
    state.set_selected_index(Some(1));
    state.right_click(1);
    assert_eq!(state.highlight(1), Highlight::Filled);
}

#[test]
fn set_size_stores_size_and_passes_it_to_input() {
    let mut state = ListState::<u32>::new();
    assert_eq!(
        state.set_size(Size::Large),
        vec![Effect::InputSize(Size::Large)]
    );
    assert_eq!(state.size(), Size::Large);
    let mut state = ListState::<u32>::new().no_query();
    assert_eq!(state.set_size(Size::Small), vec![]);
    assert_eq!(state.size(), Size::Small);
}

#[test]
fn set_query_input_brings_input_back() {
    let mut state = ListState::<u32>::new().no_query();
    assert!(!state.has_query_input());
    state.set_query_input();
    assert!(state.has_query_input());
    assert_eq!(state.focus_handle(), FocusTarget::QueryInput);
}

#[test]
fn set_query_goes_to_input() {
    let state = ListState::<u32>::new();
    assert_eq!(
        state.set_query("ab "),
        vec![Effect::InputText("ab ".to_string())]
    );
    assert!(!state.loading());
    assert_eq!(ListState::<u32>::new().no_query().set_query("ab"), vec![]);
}

#[test]
fn query_is_input_text() {
    let state = ListState::<u32>::new();
    assert_eq!(state.query(" ab"), Some(" ab".to_string()));
    assert_eq!(state.query(""), Some(String::new()));
    assert_eq!(ListState::<u32>::new().no_query().query("ab"), None);
}

#[test]
fn focus_goes_to_input_or_list() {
    let state = ListState::<u32>::new();
    assert_eq!(state.focus_handle(), FocusTarget::QueryInput);
    assert_eq!(
        state.focus(),
        vec![Effect::Focus(FocusTarget::QueryInput)]
    );
    let state = state.no_query();
    assert_eq!(state.focus_handle(), FocusTarget::List);
    assert_eq!(state.focus(), vec![Effect::Focus(FocusTarget::List)]);
}

#[test]
fn builders_leave_the_rest_alone() {
    let mut state = ListState::<u32>::new();
    state.set_selected_index(Some(4));
    state.right_click(2);
    let state = state.max_h(10).no_scrollbar().no_query();
    assert_eq!(state.selected_index(), Some(4));
    assert_eq!(state.right_clicked_index(), Some(2));
    assert_eq!(state.max_height(), Some(10));
    assert!(!state.has_scrollbar());
    assert!(!state.has_query_input());
    assert!(!state.loading());
}
