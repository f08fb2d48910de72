//! Catalog selection, display decisions, and the command-line surface.

use wdscli::cli::{optional_string, GenerateCompletionsOptions, OverviewOptions, Verb};
use wdscli::display::{
    counts_summary, credentials_file_name, environment_status_label, is_environment_ready,
    str_eq,
};
use wdscli::select::{
    collection_with_id, collection_with_name, configuration_with_id, configuration_with_name,
    newest_collection, newest_configuration, oldest_collection, oldest_configuration,
    read_only_environment, select_collection, select_configuration, selector_from_flags,
    writable_environment, CollectionRecord, ConfigurationRecord, DiscoveryServiceInfo,
    EnvironmentInfo, SelectError, Selector,
};

fn coll(id: &str, name: &str) -> CollectionRecord {
    CollectionRecord { collection_id: id.to_string(), name: name.to_string() }
}

fn conf(id: &str, name: &str) -> ConfigurationRecord {
    ConfigurationRecord { configuration_id: id.to_string(), name: name.to_string() }
}

fn env(id: &str, read_only: Option<bool>) -> EnvironmentInfo {
    EnvironmentInfo {
        environment_id: id.to_string(),
        read_only,
        configurations: vec![conf("cf1", "default"), conf("cf2", "custom"), conf("cf3", "custom")],
        collections: vec![coll("c1", "old"), coll("c2", "mid"), coll("c3", "new")],
    }
}

#[test]
fn the_writable_environment_is_the_one_marked_writable() {
    let info = DiscoveryServiceInfo {
        environments: vec![env("ro", Some(true)), env("rw", Some(false)), env("unmarked", None)],
    };
    let w = writable_environment(&info).expect("one writable environment");
    assert_eq!(w.environment_id, "rw");
    let r = read_only_environment(&info).expect("one read-only environment");
    assert_eq!(r.environment_id, "ro");
}

#[test]
fn environment_selection_errors() {
    let none = DiscoveryServiceInfo { environments: vec![env("unmarked", None)] };
    assert_eq!(writable_environment(&none).unwrap_err(), SelectError::NotFound);
    assert_eq!(read_only_environment(&none).unwrap_err(), SelectError::NotFound);

    let two = DiscoveryServiceInfo {
        environments: vec![env("a", Some(false)), env("b", Some(false))],
    };
    assert_eq!(writable_environment(&two).unwrap_err(), SelectError::Ambiguous);
}

#[test]
fn collections_select_by_name_id_and_age() {
    let e = env("rw", Some(false));
    assert_eq!(collection_with_name(&e, &"mid".to_string()).unwrap().collection_id, "c2");
    assert_eq!(collection_with_id(&e, &"c3".to_string()).unwrap().name, "new");
    assert_eq!(oldest_collection(&e).unwrap().collection_id, "c1");
    assert_eq!(newest_collection(&e).unwrap().collection_id, "c3");
    assert_eq!(
        collection_with_name(&e, &"nope".to_string()).unwrap_err(),
        SelectError::NotFound
    );
}

#[test]
fn duplicate_collection_names_are_ambiguous() {
    let mut e = env("rw", Some(false));
    e.collections.push(coll("c4", "mid"));
    assert_eq!(
        collection_with_name(&e, &"mid".to_string()).unwrap_err(),
        SelectError::Ambiguous
    );
}

#[test]
fn the_newest_configuration_wins_a_name_tie() {
    let e = env("rw", Some(false));
    // Two configurations share the name "custom": the newest one wins.
    assert_eq!(
        configuration_with_name(&e, &"custom".to_string()).unwrap().configuration_id,
        "cf3"
    );
    assert_eq!(configuration_with_id(&e, &"cf1".to_string()).unwrap().name, "default");
    assert_eq!(oldest_configuration(&e).unwrap().configuration_id, "cf1");
    assert_eq!(newest_configuration(&e).unwrap().configuration_id, "cf3");
    assert_eq!(
        configuration_with_name(&e, &"nope".to_string()).unwrap_err(),
        SelectError::NotFound
    );
}

#[test]
fn selection_on_an_empty_environment() {
    let e = EnvironmentInfo {
        environment_id: "empty".to_string(),
        read_only: Some(false),
        configurations: vec![],
        collections: vec![],
    };
    assert!(oldest_collection(&e).is_none());
    assert!(newest_configuration(&e).is_none());
    assert_eq!(
        select_collection(&e, &Selector::Newest).unwrap_err(),
        SelectError::NotFound
    );
}

#[test]
fn selector_flags_have_a_priority_order() {
    let s = selector_from_flags(Some("n".to_string()), Some("i".to_string()), true);
    assert!(matches!(s, Selector::Named(ref n) if n == "n"));
    let s = selector_from_flags(None, Some("i".to_string()), true);
    assert!(matches!(s, Selector::ById(ref i) if i == "i"));
    let s = selector_from_flags(None, None, true);
    assert!(matches!(s, Selector::Oldest));
    let s = selector_from_flags(None, None, false);
    assert!(matches!(s, Selector::Newest));
}

#[test]
fn selectors_drive_both_catalogs() {
    let e = env("rw", Some(false));
    let c = select_collection(&e, &Selector::Named("old".to_string())).unwrap();
    assert_eq!(c.collection_id, "c1");
    let c = select_collection(&e, &Selector::ById("c2".to_string())).unwrap();
    assert_eq!(c.name, "mid");
    let c = select_collection(&e, &Selector::Oldest).unwrap();
    assert_eq!(c.collection_id, "c1");
    let cf = select_configuration(&e, &Selector::Newest).unwrap();
    assert_eq!(cf.configuration_id, "cf3");
    let cf = select_configuration(&e, &Selector::Named("custom".to_string())).unwrap();
    assert_eq!(cf.configuration_id, "cf3");
}

#[test]
fn counts_summary_shows_only_positive_counts() {
    assert_eq!(counts_summary(5, 2, 1), "5 available, 2 processing, 1 failed");
    assert_eq!(counts_summary(5, 2, 0), "5 available, 2 processing");
    assert_eq!(counts_summary(5, 0, 9), "5 available, 9 failed");
    assert_eq!(counts_summary(5, 0, 0), "5 available");
    assert_eq!(counts_summary(0, 0, 0), "0 available");
}

#[test]
fn environment_status_labels() {
    assert_eq!(environment_status_label(Some("pending"), Some(true)), " - pending");
    assert_eq!(environment_status_label(Some("active"), Some(true)), " - read only");
    assert_eq!(environment_status_label(Some("active"), Some(false)), "");
    assert_eq!(environment_status_label(None, Some(true)), " - read only");
    assert_eq!(environment_status_label(None, None), "");
}

#[test]
fn environment_readiness() {
    assert!(is_environment_ready("active"));
    assert!(is_environment_ready("available"));
    assert!(!is_environment_ready("pending"));
    assert!(!is_environment_ready(""));
}

#[test]
fn credentials_file_choice() {
    assert_eq!(
        credentials_file_name(Some("given.json".to_string()), Some("env.json".to_string())),
        "given.json"
    );
    assert_eq!(credentials_file_name(None, Some("env.json".to_string())), "env.json");
    assert_eq!(credentials_file_name(None, None), "credentials.json");
}

#[test]
fn string_equality_by_characters() {
    assert!(str_eq("", ""));
    assert!(str_eq("abc", "abc"));
    assert!(!str_eq("abc", "abd"));
    assert!(!str_eq("abc", "abcd"));
}

#[test]
fn optional_string_clones_the_content() {
    assert_eq!(optional_string(&Some("x")), Some("x".to_string()));
    assert_eq!(optional_string(&None), None);
}

#[test]
fn only_completion_generation_skips_credentials() {
    let gen = Verb::GenerateCompletions(GenerateCompletionsOptions { shell: "zsh".to_string() });
    assert!(!gen.needs_credentials());
    let over = Verb::Overview(OverviewOptions { guid: false });
    assert!(over.needs_credentials());
}
