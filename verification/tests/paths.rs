use easytodo::paths::{expanded_path, join_path, migrated_setting, migration_target};

#[test]
fn join_places_relative_and_absolute_names() {
    assert_eq!(join_path("/a", "b"), "/a/b");
    assert_eq!(join_path("/a/", "b"), "/a/b");
    assert_eq!(join_path("", "b"), "b");
    assert_eq!(join_path("/a", "/b"), "/b");
    assert_eq!(join_path("/a", ""), "/a/");
}

#[test]
fn tilde_stands_for_home() {
    let home = Some("/home/ann".to_string());
    assert_eq!(expanded_path("~/notes", home.clone()), Some("/home/ann/notes".to_string()));
    assert_eq!(expanded_path("~/", home.clone()), Some("/home/ann/".to_string()));
    assert_eq!(expanded_path("~/notes", None), None);
    assert_eq!(expanded_path("/srv/notes", None), Some("/srv/notes".to_string()));
    assert_eq!(expanded_path("notes", home), Some("notes".to_string()));
}

#[test]
fn migration_moves_into_an_easytodo_directory() {
    let home = Some("/home/ann".to_string());
    assert_eq!(
        migration_target("~/sync", home),
        Some(("/home/ann/sync".to_string(), "/home/ann/sync/easytodo".to_string()))
    );
    assert_eq!(
        migration_target("/srv/x", None),
        Some(("/srv/x".to_string(), "/srv/x/easytodo".to_string()))
    );
    assert_eq!(migration_target("~/sync", None), None);
}

#[test]
fn migrated_setting_is_home_relative_when_it_can_be() {
    let home = Some("/home/ann".to_string());
    assert_eq!(migrated_setting("/home/ann/sync", "/home/ann/sync/easytodo", home.clone()), "~/sync");
    assert_eq!(migrated_setting("/srv/x", "/srv/x/easytodo", home), "/srv/x/easytodo");
    assert_eq!(migrated_setting("/home/ann/sync", "/home/ann/sync/easytodo", None), "/home/ann/sync/easytodo");
}
