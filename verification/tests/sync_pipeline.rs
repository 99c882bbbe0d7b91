use sshkm::config::{Config, User};
use sshkm::keys::{authorized_keys_path, keys_url, parse_keys, render_keys};
use sshkm::sync::{
    interval_millis, resolve_home, sleep_millis, Action, App, Phase, AUTHORIZED_KEYS_MODE,
};
use sshkm::SyncError;

fn config_with(users: Vec<User>) -> Config {
    Config { github_url: None, users, timeout: None, interval: None }
}

fn plain_user(name: &str) -> User {
    User { username: name.to_string(), github_username: None }
}

#[test]
fn empty_user_list_finishes_at_once() {
    let app = App::new(config_with(vec![]));
    let (pass, action) = app.start();
    assert_eq!(pass.phase, Phase::Done);
    assert_eq!(action, Action::Finish(None));
}

#[test]
fn identity_falls_back_to_local_username() {
    let user = plain_user("alice");
    assert_eq!(user.effective_identity(), "alice");
    assert!(user.falls_back());
    let app = App::new(config_with(vec![plain_user("alice")]));
    let req = app.fetch_request(0);
    assert_eq!(req.url, "https://github.com/alice.keys");
}

#[test]
fn explicit_identity_is_used() {
    let user = User {
        username: "alice".to_string(),
        github_username: Some("alice-gh".to_string()),
    };
    assert_eq!(user.effective_identity(), "alice-gh");
    assert!(!user.falls_back());
    let app = App::new(config_with(vec![user]));
    let req = app.fetch_request(0);
    assert_eq!(req.url, "https://github.com/alice-gh.keys");
}

#[test]
fn body_splits_into_ordered_key_set() {
    let keys = parse_keys("key-a\nkey-b\n");
    assert_eq!(keys, vec!["key-a".to_string(), "key-b".to_string()]);
}

#[test]
fn empty_body_yields_empty_key_set() {
    let keys = parse_keys("");
    assert!(keys.is_empty());
}

#[test]
fn body_without_trailing_newline_keeps_last_key() {
    assert_eq!(parse_keys("only"), vec!["only".to_string()]);
    assert_eq!(parse_keys("a\nb"), vec!["a".to_string(), "b".to_string()]);
}

#[test]
fn crlf_line_endings_are_one_break() {
    assert_eq!(parse_keys("a\r\nb\r\n"), vec!["a".to_string(), "b".to_string()]);
}

#[test]
fn lone_newline_is_one_empty_line() {
    assert_eq!(parse_keys("\n"), vec!["".to_string()]);
}

#[test]
fn duplicate_keys_are_kept_in_order() {
    assert_eq!(
        parse_keys("same\nsame\n"),
        vec!["same".to_string(), "same".to_string()]
    );
}

#[test]
fn rendered_content_is_each_key_then_newline() {
    let content = render_keys(&vec!["k1".to_string(), "k2".to_string()]);
    assert_eq!(content, "k1\nk2\n");
    assert_eq!(AUTHORIZED_KEYS_MODE, 0o600);
}

#[test]
fn rendered_empty_key_set_is_empty() {
    assert_eq!(render_keys(&vec![]), "");
}

#[test]
fn url_and_path_construction() {
    assert_eq!(keys_url("https://example.org", "bob"), "https://example.org/bob.keys");
    assert_eq!(authorized_keys_path("/home/bob"), "/home/bob/.ssh/authorized_keys");
}

#[test]
fn defaults_apply_only_when_absent() {
    let cfg = config_with(vec![]);
    assert_eq!(cfg.github_url(), "https://github.com");
    assert_eq!(cfg.timeout(), 10);
    assert_eq!(cfg.interval(), 60);
    let cfg = Config {
        github_url: Some("https://git.example.org".to_string()),
        users: vec![],
        timeout: Some(3),
        interval: Some(7),
    };
    assert_eq!(cfg.github_url(), "https://git.example.org");
    assert_eq!(cfg.timeout(), 3);
    assert_eq!(cfg.interval(), 7);
}

#[test]
fn validate_rejects_empty_username() {
    let good = config_with(vec![plain_user("alice"), plain_user("bob")]);
    assert!(good.validate());
    let bad = config_with(vec![plain_user("alice"), plain_user("")]);
    assert!(!bad.validate());
    assert!(config_with(vec![]).validate());
}

#[test]
fn missing_account_is_user_not_found() {
    let r = resolve_home("ghost", None);
    assert_eq!(r, Err(SyncError::UserNotFound("ghost".to_string())));
}

#[test]
fn found_account_home_passes_through() {
    let r = resolve_home("alice", Some("/home/alice".to_string()));
    assert_eq!(r, Ok("/home/alice".to_string()));
}

#[test]
fn long_pass_sleeps_not_at_all() {
    assert_eq!(sleep_millis(60_000, 60_000), 0);
    assert_eq!(sleep_millis(60_000, 99_000), 0);
}

#[test]
fn short_pass_sleeps_the_remainder() {
    assert_eq!(sleep_millis(60_000, 10_000), 50_000);
    assert_eq!(interval_millis(60), 60_000);
}

#[test]
fn one_user_end_to_end_pass() {
    let app = App::new(Config {
        github_url: None,
        users: vec![plain_user("alice")],
        timeout: None,
        interval: Some(60),
    });
    let (mut pass, action) = app.start();
    let req = match action {
        Action::Fetch(req) => req,
        other => panic!("expected a fetch, got {:?}", other),
    };
    assert_eq!(req.url, "https://github.com/alice.keys");
    assert_eq!(req.timeout, 10);
    let action = pass.on_fetch(&app, Ok("ssh-ed25519 AAA... a@b\n".to_string()));
    let plan = match action {
        Action::Write(plan) => plan,
        other => panic!("expected a write, got {:?}", other),
    };
    assert_eq!(plan.username, "alice");
    assert_eq!(plan.content, "ssh-ed25519 AAA... a@b\n");
    assert_eq!(plan.mode, 0o600);
    let action = pass.on_write(&app, Ok(()));
    assert_eq!(action, Action::Finish(None));
    assert_eq!(pass.phase, Phase::Done);
}

#[test]
fn two_passes_same_body_plan_identical_content() {
    let app = App::new(config_with(vec![plain_user("alice")]));
    let body = "key-a\nkey-b\n";
    let mut contents: Vec<String> = Vec::new();
    for _ in 0..2 {
        let (mut pass, action) = app.start();
        assert!(matches!(action, Action::Fetch(_)));
        match pass.on_fetch(&app, Ok(body.to_string())) {
            Action::Write(plan) => contents.push(plan.content),
            other => panic!("expected a write, got {:?}", other),
        }
        assert_eq!(pass.on_write(&app, Ok(())), Action::Finish(None));
    }
    assert_eq!(contents[0], contents[1]);
    assert_eq!(contents[0], "key-a\nkey-b\n");
}

#[test]
fn users_are_processed_in_declared_order() {
    let app = App::new(config_with(vec![plain_user("a"), plain_user("b"), plain_user("c")]));
    let (mut pass, action) = app.start();
    let mut fetched: Vec<String> = Vec::new();
    let mut action = action;
    loop {
        match action {
            Action::Fetch(req) => {
                fetched.push(req.url.clone());
                action = pass.on_fetch(&app, Ok("k\n".to_string()));
            }
            Action::Write(_) => {
                action = pass.on_write(&app, Ok(()));
            }
            Action::Finish(outcome) => {
                assert_eq!(outcome, None);
                break;
            }
        }
    }
    assert_eq!(
        fetched,
        vec![
            "https://github.com/a.keys".to_string(),
            "https://github.com/b.keys".to_string(),
            "https://github.com/c.keys".to_string(),
        ]
    );
}

#[test]
fn first_fetch_error_aborts_the_pass() {
    let app = App::new(config_with(vec![plain_user("a"), plain_user("b")]));
    let (mut pass, action) = app.start();
    assert!(matches!(action, Action::Fetch(_)));
    let err = SyncError::Fetch("connection timed out".to_string());
    let action = pass.on_fetch(&app, Err(err.clone()));
    assert_eq!(action, Action::Finish(Some(err)));
    assert_eq!(pass.phase, Phase::Done);
    assert_eq!(pass.idx, 0);
}

#[test]
fn first_write_error_aborts_the_pass() {
    let app = App::new(config_with(vec![plain_user("a"), plain_user("b")]));
    let (mut pass, action) = app.start();
    assert!(matches!(action, Action::Fetch(_)));
    assert!(matches!(pass.on_fetch(&app, Ok("k\n".to_string())), Action::Write(_)));
    let err = SyncError::Ownership("operation not permitted".to_string());
    let action = pass.on_write(&app, Err(err.clone()));
    assert_eq!(action, Action::Finish(Some(err)));
    assert_eq!(pass.phase, Phase::Done);
}

#[test]
fn write_side_error_values_round_trip_through_the_pass() {
    let errors = vec![
        SyncError::Fetch("transport".to_string()),
        SyncError::UserNotFound("nobody".to_string()),
        SyncError::Path,
        SyncError::Io("no such directory".to_string()),
        SyncError::Ownership("not permitted".to_string()),
        SyncError::InvalidName("a\0b".to_string()),
    ];
    for err in errors {
        let app = App::new(config_with(vec![plain_user("a")]));
        let (mut pass, _) = app.start();
        assert_eq!(
            pass.on_fetch(&app, Err(err.clone())),
            Action::Finish(Some(err))
        );
    }
}
