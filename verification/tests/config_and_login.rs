use whisphub::api::{CliAuthPollResponse, CliAuthUser};
use whisphub::config::{
    app_data_config_dir, auth_path, check_token_accepted, config_dir_in_app_data, config_dir_in_home,
    home_config_dir, require_session, AuthConfig, ConfigError, DirLookup, SessionError,
};
use whisphub::paths::PathStyle;
use whisphub::login::{decide_failed_poll, decide_poll, LoginError, LoginPoll, PollDecision, MAX_POLL_DURATION_SECS};

fn poll(status: &str, token: Option<&str>, user: Option<&str>) -> CliAuthPollResponse {
    CliAuthPollResponse {
        status: status.to_string(),
        token: token.map(|t| t.to_string()),
        user: user.map(|u| CliAuthUser { id: "id-1".to_string(), username: u.to_string() }),
    }
}

#[test]
fn config_dir_under_home() {
    assert_eq!(config_dir_in_home(DirLookup::Found("/home/alice".to_string())).unwrap(), "/home/alice/.config/whisphub");
    assert_eq!(config_dir_in_home(DirLookup::Found("/".to_string())).unwrap(), "/.config/whisphub");
    assert_eq!(config_dir_in_home(DirLookup::Missing), Err(ConfigError::NoHomeDirectory));
    assert_eq!(config_dir_in_home(DirLookup::NotUnicode), Err(ConfigError::NonUnicodeDirectory));
}

#[test]
fn config_dir_under_app_data() {
    assert_eq!(
        config_dir_in_app_data(DirLookup::Found("C:\\Users\\A\\AppData\\Roaming".to_string())).unwrap(),
        "C:\\Users\\A\\AppData\\Roaming\\whisphub"
    );
    assert_eq!(config_dir_in_app_data(DirLookup::Missing), Err(ConfigError::NoConfigDirectory));
    assert_eq!(config_dir_in_app_data(DirLookup::NotUnicode), Err(ConfigError::NonUnicodeDirectory));
}

#[test]
fn auth_file_is_auth_json_in_the_config_dir() {
    assert_eq!(auth_path(PathStyle::Unix, "/home/alice/.config/whisphub"), "/home/alice/.config/whisphub/auth.json");
    assert_eq!(
        auth_path(PathStyle::Windows, "C:\\Users\\A\\AppData\\Roaming\\whisphub"),
        "C:\\Users\\A\\AppData\\Roaming\\whisphub\\auth.json"
    );
    assert_eq!(auth_path(PathStyle::Windows, "D:/cfg/"), "D:/cfg/auth.json");
    assert_eq!(auth_path(PathStyle::Windows, "D:"), "D:auth.json");
    assert_eq!(auth_path(PathStyle::Unix, "D:"), "D:/auth.json");
}

#[test]
fn environment_config_dirs_have_the_expected_shape() {
    match home_config_dir() {
        Ok(d) => assert!(d.ends_with("/.config/whisphub"), "{}", d),
        Err(e) => assert!(e == ConfigError::NoHomeDirectory || e == ConfigError::NonUnicodeDirectory),
    }
    match app_data_config_dir() {
        Ok(d) => assert!(d.ends_with("whisphub"), "{}", d),
        Err(e) => assert!(e == ConfigError::NoConfigDirectory || e == ConfigError::NonUnicodeDirectory),
    }
}

#[test]
fn session_requirements() {
    let a = require_session(Some(AuthConfig { token: "t".to_string(), username: "u".to_string() })).unwrap();
    assert_eq!(a.token, "t");
    assert_eq!(a.username, "u");
    assert_eq!(require_session(None).unwrap_err(), SessionError::NotLoggedIn);
    assert!(check_token_accepted(true).is_ok());
    assert_eq!(check_token_accepted(false), Err(SessionError::Expired));
}

#[test]
fn poll_schedule_uses_the_suggested_interval() {
    let p = LoginPoll::new(5);
    assert_eq!(p.interval_secs(), 5);
    assert_eq!(p.remaining(), 120);
    assert_eq!(p.attempts(), 0);
}

#[test]
fn poll_schedule_treats_zero_interval_as_one_second() {
    let p = LoginPoll::new(0);
    assert_eq!(p.interval_secs(), 1);
    assert_eq!(p.remaining(), 600);
}

#[test]
fn poll_schedule_never_waits_longer_than_the_budget() {
    for interval in [0u64, 1, 5, 7, 599, 600, 601, 10_000] {
        let mut p = LoginPoll::new(interval);
        let budget = p.remaining();
        let mut waited = 0u64;
        let mut polls = 0u64;
        while let Some(secs) = p.next_wait() {
            waited += secs;
            polls += 1;
        }
        assert_eq!(polls, budget);
        assert_eq!(p.attempts(), budget);
        assert!(waited <= MAX_POLL_DURATION_SECS);
        assert!(p.next_wait().is_none());
    }
}

#[test]
fn poll_schedule_with_interval_seven_has_85_polls() {
    let mut p = LoginPoll::new(7);
    assert_eq!(p.remaining(), 85);
    assert_eq!(p.next_wait(), Some(7));
    assert_eq!(p.remaining(), 84);
    assert_eq!(p.attempts(), 1);
}

#[test]
fn interval_above_budget_times_out_at_once() {
    let mut p = LoginPoll::new(601);
    assert_eq!(p.next_wait(), None);
}

#[test]
fn pending_poll_keeps_waiting() {
    assert!(matches!(decide_poll(poll("pending", None, None)), PollDecision::KeepWaiting));
    assert!(matches!(decide_failed_poll(), PollDecision::KeepWaiting));
}

#[test]
fn expired_poll_fails() {
    assert!(matches!(decide_poll(poll("expired", None, None)), PollDecision::Fail(LoginError::CodeExpired)));
}

#[test]
fn authorized_poll_saves_token_and_username() {
    match decide_poll(poll("authorized", Some("tok-123"), Some("alice"))) {
        PollDecision::Save(a) => {
            assert_eq!(a.token, "tok-123");
            assert_eq!(a.username, "alice");
        }
        other => panic!("unexpected {:?}", other),
    }
}

#[test]
fn authorized_poll_without_token_or_user_fails() {
    assert!(matches!(decide_poll(poll("authorized", None, Some("alice"))), PollDecision::Fail(LoginError::NoToken)));
    assert!(matches!(decide_poll(poll("authorized", Some("t"), None)), PollDecision::Fail(LoginError::NoUser)));
}

#[test]
fn unknown_poll_status_fails_with_that_status() {
    match decide_poll(poll("Pending", None, None)) {
        PollDecision::Fail(LoginError::UnexpectedStatus { status }) => assert_eq!(status, "Pending"),
        other => panic!("unexpected {:?}", other),
    }
}

#[test]
fn timed_out_error_exists() {
    let e = LoginError::TimedOut;
    assert!(matches!(e, LoginError::TimedOut));
}
