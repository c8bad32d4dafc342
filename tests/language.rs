use image_compare::bundle::{ContentBundleStore, LanguageBundle, Resource};
use image_compare::locale::detect;
use image_compare::resolver::{Language, LanguageResolver, Notification};

fn bundle(code: &str, resources: &[(&str, &str)]) -> LanguageBundle {
    LanguageBundle {
        code: code.to_string(),
        resources: resources
            .iter()
            .map(|(name, text)| Resource {
                name: name.to_string(),
                text: text.to_string(),
            })
            .collect(),
    }
}

fn en_pt_store() -> ContentBundleStore {
    ContentBundleStore::new(vec![
        bundle("EN", &[("prompt.md", "Which image is better?"), ("cancel.md", "Cancel")]),
        bundle("PT", &[("prompt.md", "Qual imagem é melhor?"), ("greeting.md", "Olá")]),
    ])
}

fn codes(list: &[&str]) -> Vec<String> {
    list.iter().map(|s| s.to_string()).collect()
}

#[test]
fn scenario_en_pt_from_portuguese_locale() {
    let mut resolver = LanguageResolver::new(en_pt_store(), Some("pt-PT".to_string()));
    assert_eq!(resolver.current_index(), 1);
    resolver.set_language(5);
    assert_eq!(resolver.current_index(), 0);
    assert_eq!(resolver.resolve("missing_file.md"), None);
    assert_eq!(resolver.resolve("greeting.md"), None);
}

#[test]
fn set_language_keeps_valid_index() {
    let mut resolver = LanguageResolver::new(en_pt_store(), None);
    for r in 0..2 {
        resolver.set_language(r);
        assert_eq!(resolver.current_index(), r);
    }
}

#[test]
fn set_language_clamps_out_of_range_to_first() {
    let mut resolver = LanguageResolver::new(en_pt_store(), None);
    resolver.set_language(1);
    assert_eq!(resolver.current_index(), 1);
    resolver.set_language(2);
    assert_eq!(resolver.current_index(), 0);
    resolver.set_language(1);
    resolver.set_language(usize::MAX);
    assert_eq!(resolver.current_index(), 0);
}

#[test]
fn empty_catalog_never_resolves() {
    let mut resolver = LanguageResolver::new(ContentBundleStore::new(vec![]), Some("en-US".to_string()));
    assert_eq!(resolver.current_index(), 0);
    assert_eq!(resolver.resolve("prompt.md"), None);
    assert_eq!(resolver.current_language(), "");
    assert!(resolver.available_languages().is_empty());
    let notes = resolver.set_language(3);
    assert!(notes.is_empty());
    assert_eq!(resolver.current_index(), 0);
    assert_eq!(resolver.resolve("prompt.md"), None);
}

#[test]
fn resolve_twice_gives_same_result() {
    let mut resolver = LanguageResolver::new(en_pt_store(), Some("en-GB".to_string()));
    let first = resolver.resolve("prompt.md").map(|s| s.to_string());
    let handle = resolver.subscribe();
    let second = resolver.resolve("prompt.md").map(|s| s.to_string());
    resolver.unsubscribe(handle);
    let third = resolver.resolve("prompt.md").map(|s| s.to_string());
    assert_eq!(first, Some("Which image is better?".to_string()));
    assert_eq!(first, second);
    assert_eq!(second, third);
}

#[test]
fn changing_language_resolves_new_text() {
    let mut resolver = LanguageResolver::new(en_pt_store(), None);
    assert_eq!(resolver.resolve("prompt.md"), Some("Which image is better?"));
    resolver.set_language(1);
    assert_eq!(resolver.resolve("prompt.md"), Some("Qual imagem é melhor?"));
    assert_eq!(resolver.current_language(), "PT");
    resolver.set_language(0);
    assert_eq!(resolver.resolve("prompt.md"), Some("Which image is better?"));
    assert_eq!(resolver.current_language(), "EN");
}

#[test]
fn no_fallback_to_another_language() {
    let mut resolver = LanguageResolver::new(en_pt_store(), None);
    assert_eq!(resolver.resolve("greeting.md"), None);
    resolver.set_language(1);
    assert_eq!(resolver.resolve("greeting.md"), Some("Olá"));
    assert_eq!(resolver.resolve("cancel.md"), None);
}

#[test]
fn detect_ignores_case_and_region() {
    let available = codes(&["EN", "PT"]);
    let upper_first = detect(Some("PT-br".to_string()), &available);
    let lower_first = detect(Some("pt-BR".to_string()), &available);
    assert_eq!(upper_first, Some(1));
    assert_eq!(lower_first, Some(1));
    assert_eq!(detect(Some("pt".to_string()), &available), Some(1));
    assert_eq!(detect(Some("eN_us.UTF-8".to_string()), &available), Some(0));
}

#[test]
fn detect_without_locale_is_none() {
    assert_eq!(detect(None, &codes(&["EN", "PT"])), None);
    assert_eq!(detect(None, &codes(&[])), None);
}

#[test]
fn detect_unmapped_or_short_locale_is_none() {
    let available = codes(&["EN", "PT"]);
    assert_eq!(detect(Some("de-DE".to_string()), &available), None);
    assert_eq!(detect(Some("e".to_string()), &available), None);
    assert_eq!(detect(Some(String::new()), &available), None);
    assert_eq!(detect(Some("en".to_string()), &codes(&["en"])), None);
}

#[test]
fn detect_first_match_wins() {
    let available = codes(&["DE", "PT", "PT"]);
    assert_eq!(detect(Some("pt-PT".to_string()), &available), Some(1));
}

#[test]
fn resolver_starts_in_first_language_without_match() {
    let resolver = LanguageResolver::new(en_pt_store(), Some("fr-FR".to_string()));
    assert_eq!(resolver.current_index(), 0);
    let resolver = LanguageResolver::new(en_pt_store(), None);
    assert_eq!(resolver.current_index(), 0);
}

#[test]
fn subscribers_observe_new_index() {
    let mut resolver = LanguageResolver::new(en_pt_store(), None);
    let a = resolver.subscribe();
    let b = resolver.subscribe();
    let c = resolver.subscribe();
    assert_ne!(a, b);
    assert_ne!(b, c);
    let notes = resolver.set_language(1);
    assert_eq!(
        notes,
        vec![
            Notification { handle: a, index: 1 },
            Notification { handle: b, index: 1 },
            Notification { handle: c, index: 1 },
        ]
    );
    for note in &notes {
        assert_eq!(note.index, resolver.current_index());
    }
    let notes = resolver.set_language(9);
    assert!(notes.iter().all(|n| n.index == 0));
}

#[test]
fn unsubscribed_handles_are_not_notified() {
    let mut resolver = LanguageResolver::new(en_pt_store(), None);
    let a = resolver.subscribe();
    let b = resolver.subscribe();
    resolver.unsubscribe(a);
    resolver.unsubscribe(a);
    let notes = resolver.set_language(1);
    assert_eq!(notes, vec![Notification { handle: b, index: 1 }]);
    resolver.unsubscribe(b);
    assert!(resolver.set_language(0).is_empty());
    let c = resolver.subscribe();
    assert_ne!(c, a);
    assert_ne!(c, b);
}

#[test]
fn load_file_clamps_out_of_range_index() {
    let store = en_pt_store();
    assert_eq!(Language { index: 1 }.load_file(&store, "greeting.md"), Some("Olá"));
    assert_eq!(Language { index: 7 }.load_file(&store, "cancel.md"), Some("Cancel"));
    assert_eq!(Language { index: 7 }.load_file(&store, "greeting.md"), None);
    assert_eq!(Language::default().index, 0);
    let empty = ContentBundleStore::new(vec![]);
    assert_eq!(Language { index: 0 }.load_file(&empty, "cancel.md"), None);
}

#[test]
fn store_lookup_is_plain() {
    let store = en_pt_store();
    assert_eq!(store.lookup(0, "cancel.md"), Some("Cancel"));
    assert_eq!(store.lookup(1, "cancel.md"), None);
    assert_eq!(store.lookup(2, "cancel.md"), None);
    assert_eq!(store.len(), 2);
    assert_eq!(store.code(1), "PT");
}

#[test]
fn enumerate_languages_keeps_order() {
    let store = en_pt_store();
    assert_eq!(store.enumerate_languages(), codes(&["EN", "PT"]));
    assert_eq!(store.enumerate_languages(), store.enumerate_languages());
}

#[test]
fn first_resource_of_a_name_wins() {
    let store = ContentBundleStore::new(vec![bundle("EN", &[("a.md", "one"), ("a.md", "two")])]);
    assert_eq!(store.lookup(0, "a.md"), Some("one"));
    assert_eq!(store.lookup(0, "b.md"), None);
}
