use std::collections::hash_map::DefaultHasher;
use std::hash::{Hash, Hasher};
use std::path::PathBuf;

use cosmic_ext_applet_spotify::paths::{
    art_cache_path, art_cache_path_in, config_path, config_path_in,
};

fn expected_name(url: &str) -> String {
    let mut h = DefaultHasher::new();
    url.hash(&mut h);
    format!("{:x}.jpg", h.finish())
}

#[test]
fn settings_file_below_a_directory() {
    assert_eq!(
        config_path_in(Some(PathBuf::from("/home/me/.config"))),
        PathBuf::from("/home/me/.config/cosmic-ext-applet-spotify/config.json")
    );
    assert_eq!(
        config_path_in(None),
        PathBuf::from("~/.config/cosmic-ext-applet-spotify/config.json")
    );
}

#[test]
fn settings_file_of_the_user() {
    let base = dirs::config_dir();
    assert_eq!(config_path(), config_path_in(base));
    assert!(config_path().ends_with("cosmic-ext-applet-spotify/config.json"));
}

#[test]
fn cache_file_below_a_directory() {
    let url = "https://i.scdn.co/image/ab67616d";
    let name = expected_name(url);
    assert_eq!(
        art_cache_path_in(Some(PathBuf::from("/var/cache")), url),
        PathBuf::from("/var/cache/cosmic-ext-applet-spotify").join(&name)
    );
    assert_eq!(
        art_cache_path_in(None, url),
        PathBuf::from("/tmp/cosmic-ext-applet-spotify").join(&name)
    );
}

#[test]
fn cache_file_of_the_user() {
    let url = "https://example.org/x";
    assert_eq!(art_cache_path(url), art_cache_path_in(dirs::cache_dir(), url));
}

#[test]
fn cache_file_stays_in_its_directory() {
    let path = art_cache_path_in(Some(PathBuf::from("/c")), "../../etc/passwd");
    assert_eq!(path.parent(), Some(PathBuf::from("/c/cosmic-ext-applet-spotify").as_path()));
}

#[test]
fn different_addresses_have_different_files() {
    let dir = Some(PathBuf::from("/c"));
    let a = art_cache_path_in(dir.clone(), "https://example.org/a");
    let b = art_cache_path_in(dir.clone(), "https://example.org/b");
    assert_ne!(a, b);
    assert_eq!(a, art_cache_path_in(dir.clone(), "https://example.org/a"));
    assert_ne!(a, config_path_in(dir));
}
