use pushit::cli::{ProfileAddArgs, ProfileCmd, SendArgs, ServiceKind};
use pushit::commands::profile::{self as profile_cmd, tier_from, ProfileSession};
use pushit::commands::send::{self as send_cmd, SendSession};
use pushit::commands::{Action, Awaiting, Event};
use pushit::config::Config;
use pushit::error::Error;
use pushit::paths::{Environment, FsPath, Platform, Tier};
use pushit::profile::{MessageDefaults, Profile, ServiceConfig};
use pushit::service::pushover::PushoverConfig;
use pushit::service::Reply;

fn env() -> Environment {
    Environment {
        platform: Platform::Other,
        appdata: None,
        home: Some("/h".to_string()),
        xdg_config_home: None,
        programdata: None,
        allusersprofile: None,
    }
}

fn homeless() -> Environment {
    Environment { home: None, ..env() }
}

fn joined(p: &FsPath) -> String {
    p.parts.join("/")
}

fn probe(a: &Action) -> String {
    match a {
        Action::Probe(p) => joined(p),
        other => panic!("expected a probe, got {other:?}"),
    }
}

fn printed(a: &Action) -> String {
    match a {
        Action::Print(t) => t.clone(),
        other => panic!("expected output, got {other:?}"),
    }
}

fn finished(a: Action) -> Result<(), Error> {
    match a {
        Action::Finish(r) => r,
        other => panic!("expected the end, got {other:?}"),
    }
}

fn step(s: ProfileSession, e: Event) -> (ProfileSession, Action) {
    assert_eq!(s.awaiting(), e.kind());
    s.resume(e)
}

fn send_step(s: SendSession, e: Event) -> (SendSession, Action) {
    assert_eq!(s.awaiting(), e.kind());
    s.resume(e)
}

fn add_args(name: &str, system: bool) -> ProfileAddArgs {
    ProfileAddArgs {
        name: name.to_string(),
        service: ServiceKind::Pushover,
        token: Some("tok".to_string()),
        user_key: Some("usr".to_string()),
        title: Some("home".to_string()),
        priority: None,
        sound: None,
        device: None,
        url: None,
        url_title: None,
        system,
    }
}

fn stored_profile() -> Profile {
    Profile {
        name: "personal".to_string(),
        service: ServiceConfig::Pushover(PushoverConfig {
            token: "tok".to_string(),
            user_key: "usr".to_string(),
        }),
        defaults: MessageDefaults {
            title: Some("home".to_string()),
            priority: Some(0),
            sound: None,
            device: None,
            url: None,
            url_title: None,
        },
    }
}

#[test]
fn tier_flag() {
    assert_eq!(tier_from(true), Tier::System);
    assert_eq!(tier_from(false), Tier::User);
}

#[test]
fn add_creates_user_profile() {
    let (s, a) = profile_cmd::run(ProfileCmd::Add(add_args("personal", false)), env());
    assert_eq!(probe(&a), "/h/.config/pushit/profiles/personal.ron");
    let (s, a) = step(s, Event::Exists(false));
    match &a {
        Action::StoreProfile(p, profile) => {
            assert_eq!(joined(p), "/h/.config/pushit/profiles/personal.ron");
            assert_eq!(profile.name, "personal");
            assert_eq!(profile.defaults.title.as_deref(), Some("home"));
        }
        other => panic!("unexpected {other:?}"),
    }
    let (s, a) = step(s, Event::Done);
    assert_eq!(printed(&a), "created profile 'personal' (user)\n");
    let (s, a) = step(s, Event::Done);
    assert_eq!(finished(a), Ok(()));
    assert_eq!(s.awaiting(), Awaiting::Nothing);
}

#[test]
fn add_refuses_existing_profile() {
    let (s, _) = profile_cmd::run(ProfileCmd::Add(add_args("personal", false)), env());
    let (_, a) = step(s, Event::Exists(true));
    assert_eq!(finished(a), Err(Error::ProfileExists("personal".to_string())));
}

#[test]
fn add_rejects_invalid_name() {
    let (_, a) = profile_cmd::run(ProfileCmd::Add(add_args("my profile", false)), env());
    assert_eq!(finished(a), Err(Error::InvalidProfileName("my profile".to_string())));
}

#[test]
fn add_system_profile_warns_when_shadowed() {
    let (s, a) = profile_cmd::run(ProfileCmd::Add(add_args("corp", true)), env());
    assert_eq!(probe(&a), "/etc/xdg/pushit/profiles/corp.ron");
    let (s, _) = step(s, Event::Exists(false));
    let (s, a) = step(s, Event::Done);
    assert_eq!(printed(&a), "created profile 'corp' (system)\n");
    let (s, a) = step(s, Event::Done);
    assert_eq!(probe(&a), "/h/.config/pushit/profiles/corp.ron");
    let (s, a) = step(s, Event::Exists(true));
    match &a {
        Action::Warn(t) => assert_eq!(t, "warning: user profile 'corp' shadows this system profile\n"),
        other => panic!("unexpected {other:?}"),
    }
    let (_, a) = step(s, Event::Done);
    assert_eq!(finished(a), Ok(()));
}

#[test]
fn list_both_tiers() {
    let (s, a) = profile_cmd::run(ProfileCmd::List, env());
    assert!(matches!(&a, Action::LoadConfig(p) if joined(p) == "/h/.config/pushit/config.ron"));
    let (s, a) = step(s, Event::ConfigLoaded(Some(Config { default_profile: Some("alerts".to_string()) })));
    assert!(matches!(&a, Action::LoadConfig(p) if joined(p) == "/etc/xdg/pushit/config.ron"));
    let (s, a) = step(s, Event::ConfigLoaded(Some(Config { default_profile: Some("corporate".to_string()) })));
    assert!(matches!(&a, Action::ListDir(p) if joined(p) == "/h/.config/pushit/profiles"));
    let (s, a) = step(
        s,
        Event::Listing(Some(vec![Some("personal.ron".to_string()), Some("alerts.ron".to_string())])),
    );
    assert!(matches!(&a, Action::ListDir(p) if joined(p) == "/etc/xdg/pushit/profiles"));
    let (s, a) = step(
        s,
        Event::Listing(Some(vec![Some("corporate.ron".to_string()), Some("alerts.ron".to_string())])),
    );
    assert_eq!(
        printed(&a),
        "user:\n  alerts (default)\n  personal\nsystem:\n  alerts (shadowed)\n  corporate (system default)\n"
    );
    let (_, a) = step(s, Event::Done);
    assert_eq!(finished(a), Ok(()));
}

#[test]
fn list_without_directories() {
    let (s, _) = profile_cmd::run(ProfileCmd::List, env());
    let (s, _) = step(s, Event::ConfigLoaded(None));
    let (s, _) = step(s, Event::ConfigLoaded(None));
    let (s, _) = step(s, Event::Listing(None));
    let (_, a) = step(s, Event::Listing(None));
    assert_eq!(printed(&a), "user:\n  (none)\nsystem:\n  (none)\n");
}

#[test]
fn list_without_home_shows_system_tier_only() {
    let (s, a) = profile_cmd::run(ProfileCmd::List, homeless());
    assert!(matches!(&a, Action::LoadConfig(p) if joined(p) == "/etc/xdg/pushit/config.ron"));
    let (s, a) = step(s, Event::ConfigLoaded(Some(Config { default_profile: Some("corp".to_string()) })));
    assert!(matches!(&a, Action::ListDir(p) if joined(p) == "/etc/xdg/pushit/profiles"));
    let (s, a) = step(s, Event::Listing(Some(vec![Some("corp.ron".to_string())])));
    assert_eq!(printed(&a), "user:\n  (none)\nsystem:\n  corp (system default)\n");
    let (_, a) = step(s, Event::Done);
    assert_eq!(finished(a), Ok(()));
}

#[test]
fn show_without_home_uses_system_copy() {
    let (s, a) = profile_cmd::run(ProfileCmd::Show { name: "corp".to_string(), system: false }, homeless());
    assert_eq!(probe(&a), "/etc/xdg/pushit/profiles/corp.ron");
    let (s, a) = step(s, Event::Exists(true));
    assert!(matches!(&a, Action::ReadText(p) if joined(p) == "/etc/xdg/pushit/profiles/corp.ron"));
    let (_, a) = step(s, Event::Text(Some("x\n".to_string())));
    assert_eq!(printed(&a), "x\n");
    let (s, _) = profile_cmd::run(ProfileCmd::Show { name: "corp".to_string(), system: false }, homeless());
    let (_, a) = step(s, Event::Exists(false));
    assert_eq!(finished(a), Err(Error::ProfileNotFound("corp".to_string())));
}

#[test]
fn show_invalid_name_without_home() {
    let (_, a) = profile_cmd::run(ProfileCmd::Show { name: "a b".to_string(), system: false }, homeless());
    assert_eq!(finished(a), Err(Error::InvalidProfileName("a b".to_string())));
}

#[test]
fn system_add_without_home_succeeds() {
    let (s, a) = profile_cmd::run(ProfileCmd::Add(add_args("corp", true)), homeless());
    assert_eq!(probe(&a), "/etc/xdg/pushit/profiles/corp.ron");
    let (s, a) = step(s, Event::Exists(false));
    assert!(matches!(&a, Action::StoreProfile(p, _) if joined(p) == "/etc/xdg/pushit/profiles/corp.ron"));
    let (s, a) = step(s, Event::Done);
    assert_eq!(printed(&a), "created profile 'corp' (system)\n");
    let (_, a) = step(s, Event::Done);
    assert_eq!(finished(a), Ok(()));
}

#[test]
fn user_add_without_home_fails() {
    let (_, a) = profile_cmd::run(ProfileCmd::Add(add_args("p", false)), homeless());
    assert_eq!(finished(a), Err(Error::NoConfigHome));
}

#[test]
fn use_without_home_finds_system_profile_and_sets_system_default() {
    let (s, a) = profile_cmd::run(ProfileCmd::Use { name: "corp".to_string(), system: true }, homeless());
    assert_eq!(probe(&a), "/etc/xdg/pushit/profiles/corp.ron");
    let (s, _) = step(s, Event::Exists(true));
    let (s, a) = step(s, Event::ProfileLoaded(stored_profile()));
    assert!(matches!(&a, Action::LoadConfig(p) if joined(p) == "/etc/xdg/pushit/config.ron"));
    let (s, a) = step(s, Event::ConfigLoaded(None));
    assert!(matches!(&a, Action::StoreConfig(_, c) if c.default_profile.as_deref() == Some("corp")));
    let (s, a) = step(s, Event::Done);
    assert_eq!(printed(&a), "system default profile is now 'corp'\n");
    let (_, a) = step(s, Event::Done);
    assert_eq!(finished(a), Ok(()));
    let (s, _) = profile_cmd::run(ProfileCmd::Use { name: "corp".to_string(), system: false }, homeless());
    let (s, _) = step(s, Event::Exists(true));
    let (_, a) = step(s, Event::ProfileLoaded(stored_profile()));
    assert_eq!(finished(a), Err(Error::NoConfigHome));
}

#[test]
fn show_falls_back_to_system_copy() {
    let (s, a) = profile_cmd::run(ProfileCmd::Show { name: "corp".to_string(), system: false }, env());
    assert_eq!(probe(&a), "/h/.config/pushit/profiles/corp.ron");
    let (s, a) = step(s, Event::Exists(false));
    assert_eq!(probe(&a), "/etc/xdg/pushit/profiles/corp.ron");
    let (s, a) = step(s, Event::Exists(true));
    assert!(matches!(&a, Action::ReadText(p) if joined(p) == "/etc/xdg/pushit/profiles/corp.ron"));
    let (s, a) = step(s, Event::Text(Some("(name: \"corp\")".to_string())));
    assert_eq!(printed(&a), "(name: \"corp\")\n");
    let (_, a) = step(s, Event::Done);
    assert_eq!(finished(a), Ok(()));
}

#[test]
fn show_prefers_user_copy_and_keeps_final_newline() {
    let (s, _) = profile_cmd::run(ProfileCmd::Show { name: "p".to_string(), system: false }, env());
    let (s, a) = step(s, Event::Exists(true));
    assert!(matches!(&a, Action::ReadText(p) if joined(p) == "/h/.config/pushit/profiles/p.ron"));
    let (_, a) = step(s, Event::Text(Some("body\n".to_string())));
    assert_eq!(printed(&a), "body\n");
}

#[test]
fn show_missing_profile() {
    let (s, _) = profile_cmd::run(ProfileCmd::Show { name: "p".to_string(), system: false }, env());
    let (s, _) = step(s, Event::Exists(false));
    let (_, a) = step(s, Event::Exists(false));
    assert_eq!(finished(a), Err(Error::ProfileNotFound("p".to_string())));
    let (s, a) = profile_cmd::run(ProfileCmd::Show { name: "p".to_string(), system: true }, env());
    assert!(matches!(&a, Action::ReadText(p) if joined(p) == "/etc/xdg/pushit/profiles/p.ron"));
    let (_, a) = step(s, Event::Text(None));
    assert_eq!(finished(a), Err(Error::ProfileNotFound("p".to_string())));
}

#[test]
fn remove_clears_matching_default() {
    let (s, a) = profile_cmd::run(ProfileCmd::Remove { name: "p".to_string(), system: false }, env());
    assert!(matches!(&a, Action::Delete(p) if joined(p) == "/h/.config/pushit/profiles/p.ron"));
    let (s, a) = step(s, Event::Deleted(true));
    assert!(matches!(&a, Action::LoadConfig(p) if joined(p) == "/h/.config/pushit/config.ron"));
    let (s, a) = step(s, Event::ConfigLoaded(Some(Config { default_profile: Some("p".to_string()) })));
    match &a {
        Action::StoreConfig(p, c) => {
            assert_eq!(joined(p), "/h/.config/pushit/config.ron");
            assert_eq!(c.default_profile, None);
        }
        other => panic!("unexpected {other:?}"),
    }
    let (s, a) = step(s, Event::Done);
    assert_eq!(printed(&a), "removed profile 'p' (user)\n");
    let (s, a) = step(s, Event::Done);
    assert_eq!(probe(&a), "/etc/xdg/pushit/profiles/p.ron");
    let (s, a) = step(s, Event::Exists(true));
    assert_eq!(printed(&a), "system profile 'p' is now active\n");
    let (_, a) = step(s, Event::Done);
    assert_eq!(finished(a), Ok(()));
}

#[test]
fn remove_keeps_other_default() {
    let (s, _) = profile_cmd::run(ProfileCmd::Remove { name: "p".to_string(), system: true }, env());
    let (s, _) = step(s, Event::Deleted(true));
    let (s, a) = step(s, Event::ConfigLoaded(Some(Config { default_profile: Some("q".to_string()) })));
    assert_eq!(printed(&a), "removed profile 'p' (system)\n");
    let (_, a) = step(s, Event::Done);
    assert_eq!(finished(a), Ok(()));
}

#[test]
fn remove_missing_profile() {
    let (s, _) = profile_cmd::run(ProfileCmd::Remove { name: "p".to_string(), system: false }, env());
    let (_, a) = step(s, Event::Deleted(false));
    assert_eq!(finished(a), Err(Error::ProfileNotFound("p".to_string())));
}

#[test]
fn use_sets_default_of_chosen_tier() {
    let (s, a) = profile_cmd::run(ProfileCmd::Use { name: "p".to_string(), system: true }, env());
    assert_eq!(probe(&a), "/h/.config/pushit/profiles/p.ron");
    let (s, a) = step(s, Event::Exists(true));
    assert!(matches!(&a, Action::LoadProfile(p) if joined(p) == "/h/.config/pushit/profiles/p.ron"));
    let (s, a) = step(s, Event::ProfileLoaded(stored_profile()));
    assert!(matches!(&a, Action::LoadConfig(p) if joined(p) == "/etc/xdg/pushit/config.ron"));
    let (s, a) = step(s, Event::ConfigLoaded(None));
    match &a {
        Action::StoreConfig(p, c) => {
            assert_eq!(joined(p), "/etc/xdg/pushit/config.ron");
            assert_eq!(c.default_profile.as_deref(), Some("p"));
        }
        other => panic!("unexpected {other:?}"),
    }
    let (s, a) = step(s, Event::Done);
    assert_eq!(printed(&a), "system default profile is now 'p'\n");
    let (_, a) = step(s, Event::Done);
    assert_eq!(finished(a), Ok(()));
}

#[test]
fn use_missing_profile() {
    let (s, _) = profile_cmd::run(ProfileCmd::Use { name: "p".to_string(), system: false }, env());
    let (s, _) = step(s, Event::Exists(false));
    let (_, a) = step(s, Event::Exists(false));
    assert_eq!(finished(a), Err(Error::ProfileNotFound("p".to_string())));
}

#[test]
fn path_of_profile_and_directory() {
    let (s, a) = profile_cmd::run(ProfileCmd::Path { name: Some("p".to_string()), system: false }, env());
    assert!(matches!(&a, Action::ShowPath(p) if joined(p) == "/h/.config/pushit/profiles/p.ron"));
    let (_, a) = step(s, Event::Done);
    assert_eq!(finished(a), Ok(()));
    let (_, a) = profile_cmd::run(ProfileCmd::Path { name: None, system: true }, env());
    assert!(matches!(&a, Action::ShowPath(p) if joined(p) == "/etc/xdg/pushit/profiles"));
    let (_, a) = profile_cmd::run(ProfileCmd::Path { name: None, system: false }, homeless());
    assert_eq!(finished(a), Err(Error::NoConfigHome));
}

fn send_args(profile: Option<&str>) -> SendArgs {
    SendArgs {
        profile: profile.map(String::from),
        title: None,
        priority: Some(1),
        sound: None,
        device: None,
        url: None,
        url_title: None,
        message: "done".to_string(),
    }
}

#[test]
fn send_through_named_profile() {
    let (s, a) = send_cmd::run(send_args(Some("personal")), env());
    assert_eq!(probe(&a), "/h/.config/pushit/profiles/personal.ron");
    let (s, a) = send_step(s, Event::Exists(true));
    assert!(matches!(&a, Action::LoadProfile(_)));
    let (s, a) = send_step(s, Event::ProfileLoaded(stored_profile()));
    match &a {
        Action::Deliver(d) => {
            let form: Vec<(&str, &str)> = d.form.iter().map(|(k, v)| (k.as_str(), v.as_str())).collect();
            assert_eq!(
                form,
                vec![("token", "tok"), ("user", "usr"), ("message", "done"), ("title", "home"), ("priority", "1")]
            );
        }
        other => panic!("unexpected {other:?}"),
    }
    let (_, a) = send_step(s, Event::Replied(Reply { status: 200, body: "{}".to_string(), reported_errors: None }));
    assert_eq!(finished(a), Ok(()));
}

#[test]
fn send_reports_service_error() {
    let (s, _) = send_cmd::run(send_args(Some("personal")), env());
    let (s, _) = send_step(s, Event::Exists(true));
    let (s, _) = send_step(s, Event::ProfileLoaded(stored_profile()));
    let reply = Reply {
        status: 400,
        body: "{\"errors\":[\"application token is invalid\"]}".to_string(),
        reported_errors: Some(vec!["application token is invalid".to_string()]),
    };
    let (_, a) = send_step(s, Event::Replied(reply));
    assert_eq!(finished(a), Err(Error::Service("application token is invalid".to_string())));
}

#[test]
fn send_uses_user_default() {
    let (s, a) = send_cmd::run(send_args(None), env());
    assert!(matches!(&a, Action::LoadConfig(p) if joined(p) == "/h/.config/pushit/config.ron"));
    let (_, a) = send_step(s, Event::ConfigLoaded(Some(Config { default_profile: Some("u".to_string()) })));
    assert_eq!(probe(&a), "/h/.config/pushit/profiles/u.ron");
}

#[test]
fn send_falls_back_to_system_default() {
    let (s, _) = send_cmd::run(send_args(None), env());
    let (s, a) = send_step(s, Event::ConfigLoaded(None));
    assert!(matches!(&a, Action::LoadConfig(p) if joined(p) == "/etc/xdg/pushit/config.ron"));
    let (_, a) = send_step(s, Event::ConfigLoaded(Some(Config { default_profile: Some("corp".to_string()) })));
    assert_eq!(probe(&a), "/h/.config/pushit/profiles/corp.ron");
}

#[test]
fn send_without_any_default() {
    let (s, _) = send_cmd::run(send_args(None), env());
    let (s, _) = send_step(s, Event::ConfigLoaded(Some(Config { default_profile: None })));
    let (_, a) = send_step(s, Event::ConfigLoaded(None));
    assert_eq!(finished(a), Err(Error::NoDefaultProfile));
}

#[test]
fn send_without_home_uses_system_default() {
    let (s, a) = send_cmd::run(send_args(None), homeless());
    assert!(matches!(&a, Action::LoadConfig(p) if joined(p) == "/etc/xdg/pushit/config.ron"));
    let (s, a) = send_step(s, Event::ConfigLoaded(Some(Config { default_profile: Some("corp".to_string()) })));
    assert_eq!(probe(&a), "/etc/xdg/pushit/profiles/corp.ron");
    let (s, a) = send_step(s, Event::Exists(true));
    assert!(matches!(&a, Action::LoadProfile(p) if joined(p) == "/etc/xdg/pushit/profiles/corp.ron"));
    let (s, a) = send_step(s, Event::ProfileLoaded(stored_profile()));
    assert!(matches!(&a, Action::Deliver(_)));
    let (_, a) = send_step(s, Event::Replied(Reply { status: 200, body: String::new(), reported_errors: None }));
    assert_eq!(finished(a), Ok(()));
}

#[test]
fn send_without_home_and_without_default() {
    let (s, _) = send_cmd::run(send_args(None), homeless());
    let (_, a) = send_step(s, Event::ConfigLoaded(None));
    assert_eq!(finished(a), Err(Error::NoDefaultProfile));
}

#[test]
fn send_named_profile_without_home() {
    let (s, a) = send_cmd::run(send_args(Some("corp")), homeless());
    assert_eq!(probe(&a), "/etc/xdg/pushit/profiles/corp.ron");
    let (_, a) = send_step(s, Event::Exists(false));
    assert_eq!(finished(a), Err(Error::ProfileNotFound("corp".to_string())));
    let (_, a) = send_cmd::run(send_args(Some("no way")), homeless());
    assert_eq!(finished(a), Err(Error::InvalidProfileName("no way".to_string())));
}

#[test]
fn send_missing_profile() {
    let (s, _) = send_cmd::run(send_args(Some("nope")), env());
    let (s, _) = send_step(s, Event::Exists(false));
    let (_, a) = send_step(s, Event::Exists(false));
    assert_eq!(finished(a), Err(Error::ProfileNotFound("nope".to_string())));
}
