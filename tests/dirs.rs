use rush::dirs::get_user_cache_dir;
use rush::dirs::get_user_config_dir;
use rush::dirs::get_user_data_dir;
use rush::dirs::get_xdg_dir;
use rush::dirs::init_module;
use rush::dirs::EnvError;
use rush::dirs::SearchPaths;
use rush::parse::parse_u8;
use rush::path::join_path;

#[test]
fn xdg_value_used_when_absolute() {
    assert_eq!(get_user_data_dir(Some("/x/data"), Some("/home/u")), Ok("/x/data/rush".to_string()));
    assert_eq!(get_user_config_dir(Some("/x/conf/"), None), Ok("/x/conf/rush".to_string()));
}

#[test]
fn relative_xdg_value_is_ignored() {
    assert_eq!(get_user_data_dir(Some("rel/data"), Some("/home/u")), Ok("/home/u/.local/share/rush".to_string()));
    assert_eq!(get_user_config_dir(Some(""), Some("/home/u")), Ok("/home/u/.config/rush".to_string()));
    assert_eq!(get_user_cache_dir(Some("cache"), Some("/home/u")), Ok("/home/u/.cache/rush".to_string()));
    assert_eq!(get_xdg_dir(Some("x"), Some("/h"), ".cache"), Ok("/h/.cache".to_string()));
}

#[test]
fn unset_xdg_falls_back_to_home() {
    assert_eq!(get_user_cache_dir(None, Some("/home/u")), Ok("/home/u/.cache/rush".to_string()));
}

#[test]
fn missing_home_is_an_error() {
    assert_eq!(get_user_config_dir(None, None), Err(EnvError::HomeNotSet));
    assert_eq!(get_user_data_dir(Some("relative"), None), Err(EnvError::HomeNotSet));
}

#[test]
fn default_search_paths() {
    let dirs = init_module();
    assert_eq!(dirs.data_dirs.to_vec(), vec!["/usr/local/share/rush".to_string(), "/usr/share/rush".to_string()]);
    assert_eq!(dirs.config_dirs.to_vec(), vec!["/etc/rush".to_string()]);
}

#[test]
fn user_paths_come_first_without_duplicates() {
    let mut dirs = init_module();
    dirs.data_dirs.add_dir("/home/u/.local/share/rush", true);
    dirs.data_dirs.add_dir("/usr/share/rush", true);
    dirs.data_dirs.add_dir("/opt/rush", false);
    assert_eq!(
        dirs.data_dirs.to_vec(),
        vec![
            "/home/u/.local/share/rush".to_string(),
            "/usr/local/share/rush".to_string(),
            "/usr/share/rush".to_string(),
            "/opt/rush".to_string(),
        ]
    );
    let mut empty = SearchPaths::new();
    assert!(!empty.contains("/a"));
    empty.add_dir("/a", false);
    assert!(empty.contains("/a"));
}

#[test]
fn joining_paths() {
    assert_eq!(join_path("/d", "x.so"), "/d/x.so");
    assert_eq!(join_path("/d/", "x.so"), "/d/x.so");
    assert_eq!(join_path("", "x.so"), "x.so");
    assert_eq!(join_path("/d", "/abs/x.so"), "/abs/x.so");
}

#[test]
fn parsing_exit_codes() {
    assert_eq!(parse_u8("0"), Some(0));
    assert_eq!(parse_u8("255"), Some(255));
    assert_eq!(parse_u8("256"), None);
    assert_eq!(parse_u8("99999999999"), None);
    assert_eq!(parse_u8(""), None);
    assert_eq!(parse_u8(" 1"), None);
    assert_eq!(parse_u8("1a"), None);
}
