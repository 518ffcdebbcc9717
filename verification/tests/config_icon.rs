use gnome_topbar_toggle::{
    bgra_to_rgba, config_file_name, config_location, is_valid_instance_id, ConfigLocation,
    PersistentConfig,
};

fn location(base: &[u8], file: &str) -> Option<ConfigLocation> {
    Some(ConfigLocation {
        base: base.to_vec(),
        dir_name: "bash-toggle".to_string(),
        file_name: file.to_string(),
    })
}

#[test]
fn default_config_is_rocket_and_script_sh() {
    let c = PersistentConfig::default_config();
    assert_eq!(c.emoji, "🚀");
    assert_eq!(c.script_path, b"script.sh".to_vec());
}

#[test]
fn loaded_config_wins_over_defaults() {
    let parsed = PersistentConfig { emoji: "⚙️".to_string(), script_path: b"/x/y.sh".to_vec() };
    assert_eq!(PersistentConfig::from_loaded(Some(parsed.clone())), parsed);
    assert_eq!(PersistentConfig::from_loaded(None), PersistentConfig::default_config());
}

#[test]
fn config_file_is_named_after_the_instance() {
    assert_eq!(config_file_name("vpn"), "vpn.json");
    assert_eq!(config_file_name(""), ".json");
}

#[test]
fn config_location_falls_back_to_working_directory() {
    assert_eq!(config_location(None, "sync"), location(b".", "sync.json"));
    assert_eq!(
        config_location(Some(b"/home/u/.config".to_vec()), "vpn"),
        location(b"/home/u/.config", "vpn.json")
    );
}

#[test]
fn ids_that_leave_the_directory_name_no_file() {
    assert_eq!(config_location(None, "/tmp/x"), None);
    assert_eq!(config_location(Some(b"/c".to_vec()), "a/../../b"), None);
    assert_eq!(config_location(None, "../x"), None);
    assert!(!is_valid_instance_id("/"));
    assert!(!is_valid_instance_id("x/../y"));
}

#[test]
fn ids_that_stay_inside_keep_their_file_name() {
    assert_eq!(config_location(None, "a/b"), location(b".", "a/b.json"));
    assert_eq!(config_location(None, ".."), location(b".", "...json"));
    assert_eq!(config_location(None, "a/.."), location(b".", "a/...json"));
    assert_eq!(config_location(None, "a..b/c"), location(b".", "a..b/c.json"));
    assert!(is_valid_instance_id("x/"));
    assert!(is_valid_instance_id(""));
    assert!(is_valid_instance_id("./v"));
}

#[test]
fn bgra_pixels_become_rgba() {
    assert_eq!(bgra_to_rgba(&[1, 2, 3, 4, 5, 6, 7, 8]), vec![3, 2, 1, 4, 7, 6, 5, 8]);
}

#[test]
fn incomplete_trailing_pixel_is_dropped() {
    assert_eq!(bgra_to_rgba(&[1, 2, 3, 4, 9, 9, 9]), vec![3, 2, 1, 4]);
    assert_eq!(bgra_to_rgba(&[1, 2, 3]), Vec::<u8>::new());
    assert_eq!(bgra_to_rgba(&[]), Vec::<u8>::new());
}

#[test]
fn converting_twice_gives_back_the_pixels() {
    let data: Vec<u8> = (0u8..32).collect();
    assert_eq!(bgra_to_rgba(&bgra_to_rgba(&data)), data);
}

#[test]
fn full_icon_buffer_keeps_its_size() {
    let data = vec![7u8; 32 * 32 * 4];
    assert_eq!(bgra_to_rgba(&data).len(), 32 * 32 * 4);
}

#[test]
fn instances_keep_separate_files() {
    let a = config_location(Some(b"/c".to_vec()), "vpn").unwrap();
    let b = config_location(Some(b"/c".to_vec()), "sync").unwrap();
    assert_eq!((a.base.clone(), a.dir_name.clone()), (b.base.clone(), b.dir_name.clone()));
    assert_ne!(a.file_name, b.file_name);
    assert!(!a.file_name.starts_with('/'));
}
