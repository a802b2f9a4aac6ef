use pushit::commands::profile::list_text;
use pushit::config::Config;
use pushit::paths::{Environment, Platform, Tier};
use pushit::profile::{ron_file_stem, MessageDefaults, Profile, ServiceConfig};
use pushit::service::pushover::PushoverConfig;

fn profile() -> Profile {
    Profile {
        name: "personal".to_string(),
        service: ServiceConfig::Pushover(PushoverConfig {
            token: "tok".to_string(),
            user_key: "usr".to_string(),
        }),
        defaults: MessageDefaults {
            title: Some("home server".to_string()),
            priority: Some(0),
            sound: Some("bike".to_string()),
            device: None,
            url: None,
            url_title: None,
        },
    }
}

#[test]
fn overrides_win_over_defaults() {
    let overrides = MessageDefaults {
        title: Some("ci".to_string()),
        priority: Some(1),
        sound: None,
        device: Some("phone".to_string()),
        url: None,
        url_title: None,
    };
    let m = profile().message_with_overrides("done".to_string(), overrides);
    assert_eq!(m.body, "done");
    assert_eq!(m.title.as_deref(), Some("ci"));
    assert_eq!(m.priority, Some(1));
    assert_eq!(m.sound.as_deref(), Some("bike"));
    assert_eq!(m.device.as_deref(), Some("phone"));
    assert_eq!(m.url, None);
}

#[test]
fn defaults_apply_without_overrides() {
    let m = profile().message_with_overrides("x".to_string(), MessageDefaults::default());
    assert_eq!(m.title.as_deref(), Some("home server"));
    assert_eq!(m.priority, Some(0));
}

#[test]
fn build_service_gives_the_account() {
    let s = profile().build_service();
    assert_eq!(s.token, "tok");
    assert_eq!(s.user_key, "usr");
}

#[test]
fn path_for_profile() {
    let env = Environment {
        platform: Platform::Other,
        appdata: None,
        home: Some("/h".to_string()),
        xdg_config_home: None,
        programdata: None,
        allusersprofile: None,
    };
    let p = Profile::path_for(Tier::User, "alerts", &env).unwrap();
    assert_eq!(p.parts, vec!["/h", ".config", "pushit", "profiles", "alerts.ron"]);
}

#[test]
fn ron_stems() {
    assert_eq!(ron_file_stem("personal.ron").as_deref(), Some("personal"));
    assert_eq!(ron_file_stem("a.b.ron").as_deref(), Some("a.b"));
    assert_eq!(ron_file_stem("..ron").as_deref(), Some("."));
    assert_eq!(ron_file_stem(".ron"), None);
    assert_eq!(ron_file_stem("ron"), None);
    assert_eq!(ron_file_stem("notes.txt"), None);
    assert_eq!(ron_file_stem("x.RON"), None);
    assert_eq!(ron_file_stem("x.ron.bak"), None);
}

#[test]
fn ron_stems_agree_with_path_methods() {
    for name in ["personal.ron", "a.b.ron", "..ron", ".ron", "ron", "x.ron.bak", "é.ron", "x."] {
        let path = std::path::Path::new(name);
        let expected = if path.extension().and_then(|s| s.to_str()) == Some("ron") {
            path.file_stem().and_then(|s| s.to_str()).map(String::from)
        } else {
            None
        };
        assert_eq!(ron_file_stem(name), expected, "{name}");
    }
}

#[test]
fn listing_names_are_sorted_ron_stems() {
    let entries = vec![
        Some("personal.ron".to_string()),
        Some("notes.txt".to_string()),
        None,
        Some("alerts.ron".to_string()),
        Some(".ron".to_string()),
    ];
    assert_eq!(Profile::names_in_listing(&entries), vec!["alerts", "personal"]);
}

#[test]
fn listing_marks_defaults_and_shadowing() {
    let user = vec!["alerts".to_string(), "personal".to_string()];
    let system = vec!["alerts".to_string(), "corporate".to_string()];
    let text = list_text(&Some("alerts".to_string()), &Some("corporate".to_string()), &user, &system);
    assert_eq!(
        text,
        "user:\n  alerts (default)\n  personal\nsystem:\n  alerts (shadowed)\n  corporate (system default)\n"
    );
}

#[test]
fn listing_of_empty_tiers() {
    assert_eq!(list_text(&None, &None, &Vec::new(), &Vec::new()), "user:\n  (none)\nsystem:\n  (none)\n");
}

#[test]
fn listing_joins_two_system_tags() {
    let user = vec!["x".to_string()];
    let system = vec!["x".to_string()];
    assert_eq!(
        list_text(&None, &Some("x".to_string()), &user, &system),
        "user:\n  x\nsystem:\n  x (system default, shadowed)\n"
    );
}

#[test]
fn user_default_wins() {
    let r = Config::resolve_default_profile(
        Config { default_profile: Some("u".to_string()) },
        Config { default_profile: Some("s".to_string()) },
    );
    assert_eq!(r.as_deref(), Some("u"));
    let r = Config::resolve_default_profile(Config::default(), Config { default_profile: Some("s".to_string()) });
    assert_eq!(r.as_deref(), Some("s"));
    assert_eq!(Config::resolve_default_profile(Config::default(), Config::default()), None);
}
