use ckad_wiki::ckad_data::{get_ckad_concepts, Category, Concept, CATEGORY_COUNT};
use ckad_wiki::filter::compute_filtered_view;

#[test]
fn catalog_has_its_categories() {
    let catalog = get_ckad_concepts();
    assert_eq!(CATEGORY_COUNT, 18);
    assert_eq!(catalog.len(), CATEGORY_COUNT);
    assert_eq!(catalog[0].name, "🚀 Quick Start & Context");
    assert_eq!(catalog[10].name, "💾 Storage");
    assert_eq!(catalog[17].name, "⚡ Time-Saving Aliases");
}

#[test]
fn catalog_names_are_unique() {
    let catalog = get_ckad_concepts();
    for i in 0..catalog.len() {
        for j in (i + 1)..catalog.len() {
            assert_ne!(catalog[i].name, catalog[j].name);
        }
    }
}

#[test]
fn catalog_categories_are_populated() {
    let catalog = get_ckad_concepts();
    let mut total: usize = 0;
    for category in &catalog {
        assert!(!category.concepts.is_empty());
        total += category.concepts.len();
    }
    assert_eq!(total, 141);
    assert_eq!(catalog[0].concepts.len(), 4);
}

#[test]
fn catalog_first_entries() {
    let catalog = get_ckad_concepts();
    assert_eq!(
        catalog[0].concepts[0],
        Concept {
            title: "Set namespace for current context".to_string(),
            command: "k config set-context --current --namespace NAMESPACE".to_string(),
            description: Some(
                "⚡ EXAM TIP: Set this early to avoid typing -n on every command!".to_string()
            ),
        }
    );
    assert_eq!(
        catalog[0].concepts[1],
        Concept {
            title: "Deploy resource from manifest".to_string(),
            command: "k apply -f manifest.yaml -n NAMESPACE".to_string(),
            description: None,
        }
    );
}

#[test]
fn catalog_is_the_same_on_every_call() {
    assert_eq!(get_ckad_concepts(), get_ckad_concepts());
}

#[test]
fn catalog_clone_is_equal() {
    let catalog = get_ckad_concepts();
    let copies: Vec<Category> = catalog.iter().map(|c| c.clone()).collect();
    assert_eq!(copies, catalog);
    assert_eq!(catalog[3].concepts[2].clone(), catalog[3].concepts[2]);
}

#[test]
fn catalog_selection_shows_one_category() {
    let catalog = get_ckad_concepts();
    for category in &catalog {
        let view = compute_filtered_view(&catalog, "", &Some(category.name.clone()));
        assert_eq!(view.len(), 1);
        assert_eq!(&view[0], category);
    }
}

#[test]
fn catalog_search_for_helm() {
    let catalog = get_ckad_concepts();
    let view = compute_filtered_view(&catalog, "HELM", &Some("🎩 Helm".to_string()));
    assert_eq!(view.len(), 1);
    assert_eq!(view[0].name, "🎩 Helm");
    assert!(!view[0].concepts.is_empty());
    for c in &view[0].concepts {
        let text = format!(
            "{}\n{}\n{}",
            c.title.to_lowercase(),
            c.command.to_lowercase(),
            c.description.clone().unwrap_or_default().to_lowercase()
        );
        assert!(text.contains("helm"));
    }
}

#[test]
fn catalog_entry_counts() {
    let catalog = get_ckad_concepts();
    let counts: Vec<usize> = catalog.iter().map(|c| c.concepts.len()).collect();
    assert_eq!(counts, vec![4, 8, 10, 22, 6, 7, 5, 9, 8, 13, 7, 3, 4, 6, 6, 6, 14, 3]);
}

#[test]
fn catalog_names_in_order() {
    let catalog = get_ckad_concepts();
    let names: Vec<&str> = catalog.iter().map(|c| c.name.as_str()).collect();
    assert_eq!(
        names,
        vec![
            "🚀 Quick Start & Context",
            "📦 Pods & Deployments",
            "🔐 Secrets & ConfigMaps",
            "🔍 Debugging & Inspection",
            "⚙️ Jobs & CronJobs",
            "🎩 Helm",
            "❤️ Probes & Health Checks",
            "🔄 Deployments & Rollouts",
            "🔒 Security & RBAC",
            "🌐 Services & Networking",
            "💾 Storage",
            "🚀 InitContainers & Sidecars",
            "⚡ Resource Management",
            "🏷️ Labels & Annotations",
            "🐳 Container Tools",
            "📚 Kubectl Explain Cheat Sheet",
            "🎯 Advanced Exam Patterns",
            "⚡ Time-Saving Aliases",
        ]
    );
}

#[test]
fn catalog_texts_are_not_empty() {
    for category in &get_ckad_concepts() {
        assert!(!category.name.is_empty());
        for c in &category.concepts {
            assert!(!c.title.is_empty());
            assert!(!c.command.is_empty());
            if let Some(d) = &c.description {
                assert!(!d.is_empty());
            }
        }
    }
}

#[test]
fn catalog_descriptions_given_and_absent() {
    let catalog = get_ckad_concepts();
    let mut absent: usize = 0;
    let mut given: usize = 0;
    for category in &catalog {
        for c in &category.concepts {
            if c.description.is_none() {
                absent += 1;
            } else {
                given += 1;
            }
        }
    }
    assert_eq!(absent, 36);
    assert_eq!(given, 105);
    assert_eq!(catalog[0].concepts[1].description, None);
}

#[test]
fn catalog_storage_entry() {
    let catalog = get_ckad_concepts();
    assert_eq!(
        catalog[10].concepts[6],
        Concept {
            title: "Check PVC status".to_string(),
            command: "k get pvc".to_string(),
            description: Some("Verify PVC is Bound before using".to_string()),
        }
    );
}

#[test]
fn catalog_command_of_several_lines() {
    let catalog = get_ckad_concepts();
    let entry = &catalog[1].concepts[6];
    assert_eq!(entry.title, "Quick edit running resource");
    assert_eq!(entry.command, "k edit deploy NAME\nk edit pod NAME\nk edit svc NAME");
}
