use ckad_wiki::ckad_data::{Category, Concept};
use ckad_wiki::selection::FilterState;

fn two_categories() -> Vec<Category> {
    vec![
        Category {
            name: "Net".to_string(),
            concepts: vec![Concept {
                title: "Ping".to_string(),
                command: "ping host".to_string(),
                description: None,
            }],
        },
        Category {
            name: "Storage".to_string(),
            concepts: vec![Concept {
                title: "Mount".to_string(),
                command: "mount /dev".to_string(),
                description: None,
            }],
        },
    ]
}

#[test]
fn state_starts_unfiltered() {
    let state = FilterState::new();
    assert_eq!(state.search_query(), "");
    assert_eq!(state.selected_category(), &None);
    assert!(!state.has_active_filters());
}

#[test]
fn click_twice_on_one_category_deselects() {
    let mut state = FilterState::new();
    state.on_category_clicked("Net");
    assert_eq!(state.selected_category(), &Some("Net".to_string()));
    state.on_category_clicked("Net");
    assert_eq!(state.selected_category(), &None);
}

#[test]
fn click_twice_restores_a_selected_category() {
    let mut state = FilterState::new();
    state.on_category_clicked("Net");
    state.on_category_clicked("Net");
    state.on_category_clicked("Net");
    assert_eq!(state.selected_category(), &Some("Net".to_string()));
}

#[test]
fn click_on_another_category_replaces_the_selection() {
    let mut state = FilterState::new();
    state.on_category_clicked("Net");
    state.on_category_clicked("Storage");
    assert_eq!(state.selected_category(), &Some("Storage".to_string()));
    assert!(state.is_selected("Storage"));
    assert!(!state.is_selected("Net"));
    state.on_category_clicked("Storage");
    assert_eq!(state.selected_category(), &None);
    assert!(!state.is_selected("Storage"));
}

#[test]
fn clicks_leave_the_search_text() {
    let mut state = FilterState::new();
    state.set_search_query("ping".to_string());
    state.on_category_clicked("Net");
    assert_eq!(state.search_query(), "ping");
    state.on_category_clicked("Net");
    assert_eq!(state.search_query(), "ping");
}

#[test]
fn search_text_is_replaced_and_selection_stays() {
    let mut state = FilterState::new();
    state.on_category_clicked("Net");
    state.set_search_query("pi".to_string());
    state.set_search_query(" Pin ".to_string());
    assert_eq!(state.search_query(), " Pin ");
    assert_eq!(state.selected_category(), &Some("Net".to_string()));
    state.clear_search();
    assert_eq!(state.search_query(), "");
    assert_eq!(state.selected_category(), &Some("Net".to_string()));
}

#[test]
fn reset_clears_both_filters() {
    let mut state = FilterState::new();
    state.set_search_query("ping".to_string());
    state.on_category_clicked("Storage");
    state.reset();
    assert_eq!(state.search_query(), "");
    assert_eq!(state.selected_category(), &None);
    assert!(!state.has_active_filters());
    state.reset();
    assert_eq!(state.search_query(), "");
    assert_eq!(state.selected_category(), &None);
}

#[test]
fn either_filter_counts_as_active() {
    let mut state = FilterState::new();
    state.set_search_query(" ".to_string());
    assert!(state.has_active_filters());
    state.clear_search();
    assert!(!state.has_active_filters());
    state.on_category_clicked("Net");
    assert!(state.has_active_filters());
    state.set_search_query("x".to_string());
    assert!(state.has_active_filters());
}

#[test]
fn state_filters_the_catalog() {
    let catalog = two_categories();
    let mut state = FilterState::new();
    assert_eq!(state.filtered_view(&catalog), catalog);
    state.set_search_query("ping".to_string());
    assert_eq!(state.filtered_view(&catalog), vec![two_categories().remove(0)]);
    state.on_category_clicked("Storage");
    assert!(state.filtered_view(&catalog).is_empty());
    state.clear_search();
    assert_eq!(state.filtered_view(&catalog), vec![two_categories().remove(1)]);
    state.reset();
    assert_eq!(state.filtered_view(&catalog), catalog);
}
