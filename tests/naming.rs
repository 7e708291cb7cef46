use clap_derive_darling::error::BuildError;
use clap_derive_darling::naming::{can_compose, compose, resolve_prefix_for_attachment, NameCache};
use clap_derive_darling::rename::RenameAll;

fn strings(items: &[&str]) -> Vec<String> {
    items.iter().map(|s| s.to_string()).collect()
}

#[test]
fn compose_at_the_root_casts_the_leaf() {
    assert_eq!(compose(&Vec::new(), "timeout_ms", RenameAll::Kebab), "timeout-ms");
    assert_eq!(compose(&Vec::new(), "timeout_ms", RenameAll::Verbatim), "timeout_ms");
}

#[test]
fn compose_casts_prefix_and_leaf_together() {
    assert_eq!(compose(&strings(&["db"]), "uri", RenameAll::Kebab), "db-uri");
    assert_eq!(compose(&strings(&["api"]), "timeout_ms", RenameAll::Kebab), "api-timeout-ms");
    assert_eq!(compose(&strings(&["api"]), "timeout_ms", RenameAll::ScreamingSnake), "API_TIMEOUT_MS");
    assert_eq!(compose(&strings(&["a", "b"]), "c", RenameAll::Verbatim), "a-b_c");
}

#[test]
fn compose_is_deterministic() {
    let p = strings(&["outer", "inner"]);
    assert_eq!(compose(&p, "leaf", RenameAll::Kebab), compose(&p, "leaf", RenameAll::Kebab));
}

#[test]
fn compose_verbatim_keeps_fixtures_apart() {
    let names = vec![
        compose(&Vec::new(), "name", RenameAll::Verbatim),
        compose(&strings(&["db"]), "name", RenameAll::Verbatim),
        compose(&strings(&["api"]), "name", RenameAll::Verbatim),
        compose(&strings(&["db"]), "uri", RenameAll::Verbatim),
        compose(&strings(&["db", "api"]), "uri", RenameAll::Verbatim),
    ];
    for i in 0..names.len() {
        for j in 0..names.len() {
            if i != j {
                assert_ne!(names[i], names[j]);
            }
        }
    }
}

#[test]
fn attachment_keeps_or_extends_the_prefix() {
    let anc = strings(&["outer"]);
    assert_eq!(resolve_prefix_for_attachment(&anc, &None, &Vec::new()).unwrap(), anc);
    assert_eq!(
        resolve_prefix_for_attachment(&anc, &Some("inner".to_string()), &Vec::new()).unwrap(),
        strings(&["outer", "inner"])
    );
}

#[test]
fn attachment_with_declared_labels() {
    let labels = strings(&["prefix0", "prefix1"]);
    let first = resolve_prefix_for_attachment(&strings(&["prefix0"]), &None, &labels).unwrap();
    assert_eq!(compose(&first, "name", RenameAll::Kebab), "prefix-0-name");
    let second = resolve_prefix_for_attachment(&strings(&["prefix1"]), &None, &labels).unwrap();
    assert_eq!(compose(&second, "name", RenameAll::Kebab), "prefix-1-name");
    assert_eq!(
        resolve_prefix_for_attachment(&strings(&["other"]), &None, &labels),
        Err(BuildError::NoPrefixLabel)
    );
    let root = resolve_prefix_for_attachment(&Vec::new(), &None, &labels).unwrap();
    assert_eq!(compose(&root, "name", RenameAll::Kebab), "name");
}

#[test]
fn name_cache_returns_the_composed_name() {
    let mut cache = NameCache::new();
    let p = strings(&["db"]);
    assert_eq!(cache.compose(&p, "uri", RenameAll::Kebab), "db-uri");
    assert_eq!(cache.compose(&p, "uri", RenameAll::Kebab), "db-uri");
    assert_eq!(cache.compose(&p, "uri", RenameAll::ScreamingSnake), "DB_URI");
    assert_eq!(cache.compose(&Vec::new(), "uri", RenameAll::Kebab), "uri");
}

#[test]
fn compose_verbatim_collides_across_separators() {
    assert_eq!(
        compose(&strings(&["a_b"]), "c", RenameAll::Verbatim),
        compose(&strings(&["a"]), "b_c", RenameAll::Verbatim)
    );
}

#[test]
fn composability_needs_ascii_under_word_cases() {
    assert!(can_compose(&strings(&["db"]), "uri", RenameAll::Kebab));
    assert!(!can_compose(&strings(&["dé"]), "uri", RenameAll::Kebab));
    assert!(!can_compose(&strings(&["db"]), "urí", RenameAll::Snake));
    assert!(can_compose(&strings(&["dé"]), "urí", RenameAll::Verbatim));
}
