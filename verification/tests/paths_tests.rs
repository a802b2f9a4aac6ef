use pushit::error::Error;
use pushit::paths::{
    config_dir, config_file, find_profile_file, profile_file, profiles_dir, validate_profile_name,
    Environment, FsPath, Platform, SearchStep, Tier,
};

fn parts(p: &FsPath) -> Vec<&str> {
    p.parts.iter().map(|s| s.as_str()).collect()
}

fn linux(home: Option<&str>, xdg: Option<&str>) -> Environment {
    Environment {
        platform: Platform::Other,
        appdata: None,
        home: home.map(String::from),
        xdg_config_home: xdg.map(String::from),
        programdata: None,
        allusersprofile: None,
    }
}

#[test]
fn tier_labels() {
    assert_eq!(Tier::User.label(), "user");
    assert_eq!(Tier::System.label(), "system");
}

#[test]
fn valid_profile_names() {
    assert!(validate_profile_name("personal").is_ok());
    assert!(validate_profile_name("A-z_09").is_ok());
    assert!(validate_profile_name("-").is_ok());
}

#[test]
fn invalid_profile_names() {
    assert_eq!(validate_profile_name(""), Err(Error::InvalidProfileName(String::new())));
    assert_eq!(
        validate_profile_name("bad name"),
        Err(Error::InvalidProfileName("bad name".to_string()))
    );
    assert!(validate_profile_name("../etc").is_err());
    assert!(validate_profile_name("caf\u{e9}").is_err());
    assert!(validate_profile_name("a.ron").is_err());
}

#[test]
fn linux_user_tier_prefers_xdg_config_home() {
    let env = linux(Some("/home/u"), Some("/xdg"));
    assert_eq!(parts(&config_dir(Tier::User, &env).unwrap()), vec!["/xdg", "pushit"]);
    let env = linux(Some("/home/u"), None);
    assert_eq!(parts(&config_dir(Tier::User, &env).unwrap()), vec!["/home/u", ".config", "pushit"]);
}

#[test]
fn user_tier_without_home_has_no_root() {
    let env = linux(None, None);
    assert_eq!(config_dir(Tier::User, &env), Err(Error::NoConfigHome));
    assert_eq!(config_file(Tier::User, &env), Err(Error::NoConfigHome));
    assert_eq!(profile_file(Tier::User, "x", &env), Err(Error::NoConfigHome));
    assert!(config_dir(Tier::System, &env).is_ok());
}

#[test]
fn invalid_name_is_reported_before_missing_root() {
    let env = linux(None, None);
    assert_eq!(
        profile_file(Tier::User, "no way", &env),
        Err(Error::InvalidProfileName("no way".to_string()))
    );
}

#[test]
fn system_tier_roots() {
    let env = linux(None, None);
    assert_eq!(parts(&config_dir(Tier::System, &env).unwrap()), vec!["/etc/xdg", "pushit"]);
    let mac = Environment { platform: Platform::MacOs, ..linux(Some("/Users/u"), None) };
    assert_eq!(
        parts(&config_dir(Tier::System, &mac).unwrap()),
        vec!["/Library/Application Support", "pushit"]
    );
    assert_eq!(
        parts(&config_dir(Tier::User, &mac).unwrap()),
        vec!["/Users/u", "Library", "Application Support", "pushit"]
    );
    let win = Environment {
        platform: Platform::Windows,
        appdata: Some("C:\\Users\\u\\AppData\\Roaming".to_string()),
        home: None,
        xdg_config_home: None,
        programdata: None,
        allusersprofile: Some("C:\\All".to_string()),
    };
    assert_eq!(parts(&config_dir(Tier::System, &win).unwrap()), vec!["C:\\All", "pushit"]);
    assert_eq!(
        parts(&config_dir(Tier::User, &win).unwrap()),
        vec!["C:\\Users\\u\\AppData\\Roaming", "pushit"]
    );
    let bare = Environment { allusersprofile: None, appdata: None, ..win };
    assert_eq!(parts(&config_dir(Tier::System, &bare).unwrap()), vec!["C:\\ProgramData", "pushit"]);
    assert_eq!(config_dir(Tier::User, &bare), Err(Error::NoConfigHome));
}

#[test]
fn tier_layout() {
    let env = linux(Some("/home/u"), None);
    assert_eq!(
        parts(&profiles_dir(Tier::User, &env).unwrap()),
        vec!["/home/u", ".config", "pushit", "profiles"]
    );
    assert_eq!(
        parts(&config_file(Tier::User, &env).unwrap()),
        vec!["/home/u", ".config", "pushit", "config.ron"]
    );
    assert_eq!(
        parts(&profile_file(Tier::System, "personal", &env).unwrap()),
        vec!["/etc/xdg", "pushit", "profiles", "personal.ron"]
    );
}

#[test]
fn search_goes_user_tier_then_system_tier() {
    let env = linux(Some("/h"), None);
    let (search, probe) = find_profile_file("p".to_string(), env.clone()).unwrap();
    assert_eq!(parts(&probe), vec!["/h", ".config", "pushit", "profiles", "p.ron"]);
    let (search, probe) = match search.resume(false) {
        SearchStep::Probe(s, p) => (s, p),
        other => panic!("unexpected {other:?}"),
    };
    assert_eq!(search.tier, Tier::System);
    assert_eq!(parts(&probe), vec!["/etc/xdg", "pushit", "profiles", "p.ron"]);
    match search.resume(false) {
        SearchStep::Missing(s) => assert_eq!(s.name, "p"),
        other => panic!("unexpected {other:?}"),
    }
    let (search, _) = find_profile_file("p".to_string(), env).unwrap();
    match search.resume(true) {
        SearchStep::Found(s) => assert_eq!(s.tier, Tier::User),
        other => panic!("unexpected {other:?}"),
    }
}

#[test]
fn search_fails_on_bad_name() {
    let env = linux(Some("/h"), None);
    assert_eq!(
        find_profile_file("a b".to_string(), env).unwrap_err(),
        Error::InvalidProfileName("a b".to_string())
    );
}

#[test]
fn search_without_user_tier_starts_in_system_tier() {
    let env = linux(None, None);
    let (search, probe) = find_profile_file("corp".to_string(), env).unwrap();
    assert_eq!(search.tier, Tier::System);
    assert_eq!(parts(&probe), vec!["/etc/xdg", "pushit", "profiles", "corp.ron"]);
    match search.resume(true) {
        SearchStep::Found(s) => assert_eq!(s.tier, Tier::System),
        other => panic!("unexpected {other:?}"),
    }
    let env = linux(None, None);
    assert_eq!(
        find_profile_file("x y".to_string(), env).unwrap_err(),
        Error::InvalidProfileName("x y".to_string())
    );
}
