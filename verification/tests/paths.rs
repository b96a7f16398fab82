use indranet_cache::identity::{app_identity, AppIdentity, APPLICATION, ORGANIZATION, QUALIFIER};
use indranet_cache::paths::{cache_dir, data_file, DATA_FILE_NAME};
use std::path::Path;

fn resolved_by_platform(qualifier: &str, organization: &str, application: &str) -> Option<String> {
    let dirs = directories::ProjectDirs::from(qualifier, organization, application)?;
    Some(dirs.cache_dir().to_str()?.to_owned())
}

#[test]
fn identity_is_the_fixed_triple() {
    let identity = app_identity();
    assert_eq!(identity.qualifier, "org");
    assert_eq!(identity.organization, "infohazards");
    assert_eq!(identity.application, "indranet-explorer");
}

#[test]
fn identity_constants_match() {
    assert_eq!(QUALIFIER, "org");
    assert_eq!(ORGANIZATION, "infohazards");
    assert_eq!(APPLICATION, "indranet-explorer");
    assert_eq!(DATA_FILE_NAME, "data.json");
}

#[test]
fn identity_is_the_same_on_every_call() {
    assert_eq!(app_identity(), app_identity());
}

#[test]
fn cache_dir_is_what_the_platform_resolves() {
    let expected = resolved_by_platform("org", "infohazards", "indranet-explorer");
    assert_eq!(cache_dir(&app_identity()), expected);
}

#[test]
fn cache_dir_is_recomputed_with_the_same_result() {
    let identity = app_identity();
    assert_eq!(cache_dir(&identity), cache_dir(&identity));
}

#[test]
fn cache_dir_is_a_directory_path_not_the_name() {
    let identity = app_identity();
    if let Some(dir) = cache_dir(&identity) {
        assert_ne!(dir, identity.application);
        assert_ne!(dir, identity.organization);
        assert_ne!(dir, identity.qualifier);
        assert!(!dir.is_empty());
    }
}

#[test]
fn cache_dir_is_never_the_empty_path() {
    let bare = AppIdentity {
        qualifier: String::new(),
        organization: String::new(),
        application: String::new(),
    };
    if let Some(dir) = cache_dir(&bare) {
        assert!(!dir.is_empty());
    }
    if let Some(dir) = cache_dir(&app_identity()) {
        assert!(!dir.is_empty());
        assert_ne!(data_file(&dir), "data.json");
    }
}

#[test]
fn cache_dir_follows_the_identity() {
    let other = AppIdentity {
        qualifier: String::from("com"),
        organization: String::from("Example Corp"),
        application: String::from("Other App"),
    };
    assert_eq!(cache_dir(&other), resolved_by_platform("com", "Example Corp", "Other App"));
    if let (Some(ours), Some(theirs)) = (cache_dir(&app_identity()), cache_dir(&other)) {
        assert_ne!(ours, theirs);
    }
}

#[test]
fn data_file_is_the_name_adjoined_to_the_directory() {
    let dir = Path::new("home").join("alice").join(".cache").join("indranet-explorer");
    let dir_text = dir.to_str().unwrap().to_owned();
    let file = data_file(&dir_text);
    assert_eq!(Path::new(&file), dir.join("data.json"));
    assert_eq!(Path::new(&file).parent(), Some(dir.as_path()));
    assert_eq!(Path::new(&file).file_name().and_then(|n| n.to_str()), Some("data.json"));
    assert_ne!(file, dir_text);
    assert_ne!(file, "data.json");
}

#[test]
fn data_file_of_a_rooted_directory() {
    let sep = std::path::MAIN_SEPARATOR;
    let root = format!("{}cache{}app", sep, sep);
    let file = data_file(&root);
    assert_eq!(file, format!("{}cache{}app{}data.json", sep, sep, sep));
    assert_eq!(Path::new(&file), Path::new(&root).join("data.json"));
    assert!(Path::new(&file).has_root());
}

#[test]
fn data_file_adds_no_second_separator() {
    let sep = std::path::MAIN_SEPARATOR;
    let dir = format!("cache{}app{}", sep, sep);
    let file = data_file(&dir);
    assert_eq!(file, format!("cache{}app{}data.json", sep, sep));
}

#[test]
fn data_file_of_the_empty_directory_is_the_bare_name() {
    assert_eq!(data_file(""), "data.json");
}

#[test]
fn data_file_keeps_text_outside_ascii() {
    let dir = Path::new("h\u{f6}me").join("\u{7528}\u{6237}");
    let dir_text = dir.to_str().unwrap().to_owned();
    let file = data_file(&dir_text);
    assert_eq!(Path::new(&file), dir.join("data.json"));
}

#[test]
fn data_file_is_the_same_on_every_call() {
    assert_eq!(data_file("cache"), data_file("cache"));
}
