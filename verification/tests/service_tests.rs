use pushit::error::Error;
use pushit::service::pushover::PushoverConfig;
use pushit::service::{Message, Reply, Service};

fn account() -> PushoverConfig {
    PushoverConfig { token: "tok".to_string(), user_key: "usr".to_string() }
}

fn plain(body: &str) -> Message {
    Message {
        body: body.to_string(),
        title: None,
        priority: None,
        sound: None,
        device: None,
        url: None,
        url_title: None,
    }
}

fn pairs(form: &[(String, String)]) -> Vec<(&str, &str)> {
    form.iter().map(|(k, v)| (k.as_str(), v.as_str())).collect()
}

#[test]
fn form_holds_credentials_and_body() {
    let d = account().delivery(&plain("build finished"));
    assert_eq!(d.endpoint, "https://api.pushover.net/1/messages.json");
    assert_eq!(
        pairs(&d.form),
        vec![("token", "tok"), ("user", "usr"), ("message", "build finished")]
    );
}

#[test]
fn form_holds_each_set_attribute_in_order() {
    let msg = Message {
        body: "build 1337 failed".to_string(),
        title: Some("ci".to_string()),
        priority: Some(-2),
        sound: Some("siren".to_string()),
        device: Some("phone".to_string()),
        url: Some("https://ci.example.com/builds/1337".to_string()),
        url_title: Some("view build".to_string()),
    };
    assert_eq!(
        pairs(&account().form(&msg)),
        vec![
            ("token", "tok"),
            ("user", "usr"),
            ("message", "build 1337 failed"),
            ("title", "ci"),
            ("priority", "-2"),
            ("sound", "siren"),
            ("device", "phone"),
            ("url", "https://ci.example.com/builds/1337"),
            ("url_title", "view build"),
        ]
    );
}

#[test]
fn form_skips_unset_attributes() {
    let msg = Message { priority: Some(1), url_title: Some("t".to_string()), ..plain("m") };
    assert_eq!(
        pairs(&account().form(&msg)),
        vec![("token", "tok"), ("user", "usr"), ("message", "m"), ("priority", "1"), ("url_title", "t")]
    );
}

#[test]
fn success_statuses() {
    for status in [200u16, 204, 299] {
        let reply = Reply { status, body: String::new(), reported_errors: None };
        assert_eq!(account().outcome(&reply), Ok(()));
    }
}

#[test]
fn reported_errors_are_joined() {
    let reply = Reply {
        status: 400,
        body: "{}".to_string(),
        reported_errors: Some(vec![
            "application token is invalid".to_string(),
            "see https://pushover.net/api".to_string(),
        ]),
    };
    assert_eq!(
        account().outcome(&reply),
        Err(Error::Service(
            "application token is invalid; see https://pushover.net/api".to_string()
        ))
    );
}

#[test]
fn unreported_failure_shows_status_and_body() {
    let reply = Reply { status: 500, body: "oops".to_string(), reported_errors: None };
    assert_eq!(
        account().outcome(&reply),
        Err(Error::Service("pushover returned HTTP 500: oops".to_string()))
    );
    let reply = Reply { status: 199, body: "x".to_string(), reported_errors: Some(Vec::new()) };
    assert_eq!(
        account().outcome(&reply),
        Err(Error::Service("pushover returned HTTP 199: x".to_string()))
    );
}

#[test]
fn error_messages() {
    assert_eq!(Error::Service("down".to_string()).message(), "service error: down");
    assert_eq!(
        Error::InvalidProfileName("a b".to_string()).message(),
        "invalid profile name 'a b' (allowed: A-Z a-z 0-9 _ -)"
    );
    assert_eq!(Error::ProfileNotFound("p".to_string()).message(), "profile 'p' not found");
    assert_eq!(Error::ProfileExists("p".to_string()).message(), "profile 'p' already exists");
    assert_eq!(
        Error::NoDefaultProfile.message(),
        "no default profile set; pass --profile NAME or run `pushit profile use NAME`"
    );
    assert_eq!(Error::NoConfigHome.message(), "could not determine a config directory");
}
