use ckad_wiki::ckad_data::{Category, Concept};
use ckad_wiki::filter::{
    compute_filtered_view, concept_matches, filter_concepts, is_admitted, matches_folded,
};

fn concept(title: &str, command: &str) -> Concept {
    Concept { title: title.to_string(), command: command.to_string(), description: None }
}

fn described(title: &str, command: &str, description: &str) -> Concept {
    Concept {
        title: title.to_string(),
        command: command.to_string(),
        description: Some(description.to_string()),
    }
}

fn category(name: &str, concepts: Vec<Concept>) -> Category {
    Category { name: name.to_string(), concepts }
}

fn two_categories() -> Vec<Category> {
    vec![
        category("Net", vec![concept("Ping", "ping host")]),
        category("Storage", vec![concept("Mount", "mount /dev")]),
    ]
}

#[test]
fn query_alone_keeps_the_matching_category() {
    let view = compute_filtered_view(&two_categories(), "ping", &None);
    assert_eq!(view, vec![category("Net", vec![concept("Ping", "ping host")])]);
}

#[test]
fn selection_alone_keeps_the_selected_category_whole() {
    let view = compute_filtered_view(&two_categories(), "", &Some("Storage".to_string()));
    assert_eq!(view, vec![category("Storage", vec![concept("Mount", "mount /dev")])]);
}

#[test]
fn selection_excludes_the_only_match() {
    let view = compute_filtered_view(&two_categories(), "ping", &Some("Storage".to_string()));
    assert_eq!(view, Vec::<Category>::new());
}

#[test]
fn no_filter_gives_the_catalog() {
    let catalog = two_categories();
    assert_eq!(compute_filtered_view(&catalog, "", &None), catalog);
}

#[test]
fn repeated_calls_give_equal_views() {
    let catalog = two_categories();
    let selected = Some("Net".to_string());
    let first = compute_filtered_view(&catalog, "PING", &selected);
    let second = compute_filtered_view(&catalog, "PING", &selected);
    assert_eq!(first, second);
    assert_eq!(catalog, two_categories());
}

#[test]
fn upper_case_query_matches_lower_case_text() {
    let catalog = vec![category("Net", vec![concept("trace route", "tr host")])];
    let view = compute_filtered_view(&catalog, "TRACE", &None);
    assert_eq!(view, catalog);
}

#[test]
fn lower_case_query_matches_upper_case_text() {
    let catalog = vec![category("Net", vec![concept("PING", "P HOST")])];
    let view = compute_filtered_view(&catalog, "ping", &None);
    assert_eq!(view, catalog);
}

#[test]
fn case_is_folded_beyond_ascii() {
    let catalog = vec![category("Text", vec![concept("ÜBERSICHT", "ls")])];
    assert_eq!(compute_filtered_view(&catalog, "übersicht", &None), catalog);
    assert_eq!(compute_filtered_view(&catalog, "Übers", &None), catalog);
}

#[test]
fn query_matches_in_the_description() {
    let catalog = vec![
        category(
            "Pods",
            vec![
                described("Run", "k run", "Starts a single pod"),
                concept("Delete", "k delete"),
                described("Logs", "k logs", "Prints output"),
            ],
        ),
    ];
    let view = compute_filtered_view(&catalog, "single", &None);
    assert_eq!(
        view,
        vec![category("Pods", vec![described("Run", "k run", "Starts a single pod")])]
    );
}

#[test]
fn entries_and_categories_keep_their_order() {
    let catalog = vec![
        category("C", vec![concept("x1", "a"), concept("y", "b"), concept("x2", "c")]),
        category("A", vec![concept("y", "b")]),
        category("B", vec![concept("x3", "d")]),
    ];
    let view = compute_filtered_view(&catalog, "x", &None);
    assert_eq!(
        view,
        vec![
            category("C", vec![concept("x1", "a"), concept("x2", "c")]),
            category("B", vec![concept("x3", "d")]),
        ]
    );
}

#[test]
fn category_without_a_match_is_dropped() {
    let view = compute_filtered_view(&two_categories(), "zzz", &None);
    assert!(view.is_empty());
}

#[test]
fn whitespace_query_is_ordinary_text() {
    let view = compute_filtered_view(&two_categories(), " ", &None);
    assert_eq!(view, two_categories());
    let view = compute_filtered_view(&two_categories(), "  ", &None);
    assert!(view.is_empty());
    let view = compute_filtered_view(&two_categories(), "ping ", &None);
    assert_eq!(view, vec![category("Net", vec![concept("Ping", "ping host")])]);
    let view = compute_filtered_view(&two_categories(), " ping", &None);
    assert!(view.is_empty());
}

#[test]
fn unknown_selection_gives_an_empty_view() {
    let view = compute_filtered_view(&two_categories(), "", &Some("Gone".to_string()));
    assert!(view.is_empty());
    let view = compute_filtered_view(&two_categories(), "ping", &Some("net".to_string()));
    assert!(view.is_empty());
}

#[test]
fn selection_and_query_together() {
    let view = compute_filtered_view(&two_categories(), "HOST", &Some("Net".to_string()));
    assert_eq!(view, vec![category("Net", vec![concept("Ping", "ping host")])]);
}

#[test]
fn empty_category_stays_only_without_a_query() {
    let catalog = vec![category("Empty", vec![]), category("Net", vec![concept("Ping", "ping")])];
    assert_eq!(compute_filtered_view(&catalog, "", &None), catalog);
    assert_eq!(
        compute_filtered_view(&catalog, "", &Some("Empty".to_string())),
        vec![category("Empty", vec![])]
    );
    assert_eq!(
        compute_filtered_view(&catalog, "p", &None),
        vec![category("Net", vec![concept("Ping", "ping")])]
    );
    assert!(compute_filtered_view(&catalog, "p", &Some("Empty".to_string())).is_empty());
}

#[test]
fn empty_catalog_gives_an_empty_view() {
    let catalog: Vec<Category> = Vec::new();
    assert!(compute_filtered_view(&catalog, "", &None).is_empty());
    assert!(compute_filtered_view(&catalog, "a", &Some("A".to_string())).is_empty());
}

#[test]
fn view_never_shows_what_the_filters_exclude() {
    let catalog = vec![
        category("A", vec![concept("one", "k get"), described("two", "k set", "Get it")]),
        category("B", vec![concept("three", "k top")]),
        category("C", vec![concept("get", "x"), concept("four", "y")]),
    ];
    let selections = vec![None, Some("A".to_string()), Some("C".to_string())];
    for selected in &selections {
        let view = compute_filtered_view(&catalog, "GET", selected);
        for shown in &view {
            assert!(!shown.concepts.is_empty());
            assert!(is_admitted(selected, &shown.name));
            for c in &shown.concepts {
                assert!(concept_matches(c, "get"));
            }
        }
    }
    assert_eq!(compute_filtered_view(&catalog, "GET", &None).len(), 2);
}

#[test]
fn folded_texts_are_searched_as_they_are() {
    assert!(matches_folded("ping host", "x", None, "ping"));
    assert!(matches_folded("x", "ping host", None, "g h"));
    assert!(matches_folded("x", "y", Some("ping host"), "host"));
    assert!(!matches_folded("x", "y", None, "host"));
    assert!(!matches_folded("Ping", "PING", Some("pinG"), "ping"));
    assert!(!matches_folded("pin", "ing", Some("pi ng"), "ping"));
    assert!(matches_folded("", "", None, ""));
    assert!(!matches_folded("", "", Some(""), "a"));
}

#[test]
fn concept_is_folded_before_the_search() {
    let c = described("Set Namespace", "k config SET-context", "Exam TIP");
    assert!(concept_matches(&c, "namespace"));
    assert!(concept_matches(&c, "set-context"));
    assert!(concept_matches(&c, "tip"));
    assert!(concept_matches(&c, ""));
    assert!(!concept_matches(&c, "Namespace"));
    assert!(!concept_matches(&c, "pod"));
    let bare = concept("Set", "k set");
    assert!(!concept_matches(&bare, "tip"));
}

#[test]
fn matching_entries_are_copied_in_order() {
    let concepts = vec![concept("Alpha", "a"), concept("Beta", "b"), concept("Gamma", "A")];
    assert_eq!(filter_concepts(&concepts, "a"), concepts);
    assert_eq!(filter_concepts(&concepts, "et"), vec![concept("Beta", "b")]);
    assert_eq!(filter_concepts(&concepts, "mm"), vec![concept("Gamma", "A")]);
    assert!(filter_concepts(&concepts, "z").is_empty());
    assert_eq!(filter_concepts(&concepts, ""), concepts);
}

#[test]
fn selection_admits_its_own_name_only() {
    assert!(is_admitted(&None, &"Net".to_string()));
    assert!(is_admitted(&Some("Net".to_string()), &"Net".to_string()));
    assert!(!is_admitted(&Some("Net".to_string()), &"Storage".to_string()));
    assert!(!is_admitted(&Some("Net".to_string()), &"net".to_string()));
}
