use battery_friend::cfg::{
    default_poll, default_status, next_reload_step, reload, Config, LoadError, LoadErrorKind,
    Message, ReloadError, ReloadStep, RELOAD_ATTEMPTS, RELOAD_BACKOFF_MS,
};
use battery_friend::poll::{poll_period, PollPeriod, DEFAULT_POLL_SECS};

fn config(poll: &str, names: &[&str]) -> Config {
    Config {
        poll: poll.to_string(),
        messages: names
            .iter()
            .map(|n| {
                (
                    n.to_string(),
                    Message {
                        status: default_status(),
                        from: 0,
                        to: 20,
                        body: None,
                        summary: None,
                        icon: None,
                        urgency: None,
                    },
                )
            })
            .collect(),
    }
}

fn read_failure() -> LoadError {
    LoadError {
        kind: LoadErrorKind::Read(std::io::Error::new(std::io::ErrorKind::NotFound, "gone")),
        path: std::path::PathBuf::from("/tmp/config.toml"),
    }
}

fn names(c: &Config) -> Vec<String> {
    c.messages.iter().map(|(n, _)| n.clone()).collect()
}

#[test]
fn defaults() {
    assert_eq!(default_poll(), "2m");
    assert_eq!(default_status(), "Discharging");
}

#[test]
fn reload_installs_loaded_config() {
    let mut active = config("2m", &["low"]);
    assert!(reload(&mut active, Ok(config("5m", &["low", "high"]))).is_ok());
    assert_eq!(active.poll, "5m");
    assert_eq!(names(&active), vec!["low", "high"]);
}

#[test]
fn failed_load_keeps_active_config() {
    let mut active = config("2m", &["low"]);
    let r = reload(&mut active, Err(read_failure()));
    assert!(matches!(r, Err(ReloadError::Load(_))));
    assert_eq!(active.poll, "2m");
    assert_eq!(names(&active), vec!["low"]);
}

#[test]
fn reload_with_same_content_is_idempotent() {
    let mut active = config("2m", &["low"]);
    reload(&mut active, Ok(config("3m", &["a", "b"]))).unwrap();
    reload(&mut active, Ok(config("3m", &["a", "b"]))).unwrap();
    assert_eq!(active.poll, "3m");
    assert_eq!(names(&active), vec!["a", "b"]);
}

#[test]
fn retries_until_the_last_attempt() {
    assert_eq!(RELOAD_ATTEMPTS, 10);
    let mut active = config("2m", &["old"]);
    for attempt in 0..RELOAD_ATTEMPTS - 1 {
        let r = reload(&mut active, Err(read_failure()));
        assert_eq!(
            next_reload_step(attempt, RELOAD_ATTEMPTS, &r),
            ReloadStep::RetryAfterMs(RELOAD_BACKOFF_MS)
        );
    }
    let r = reload(&mut active, Ok(config("1m", &["new"])));
    assert_eq!(
        next_reload_step(RELOAD_ATTEMPTS - 1, RELOAD_ATTEMPTS, &r),
        ReloadStep::Reloaded
    );
    assert_eq!(names(&active), vec!["new"]);
}

#[test]
fn gives_up_after_all_attempts_fail() {
    let mut active = config("2m", &["old"]);
    let mut step = ReloadStep::Reloaded;
    for attempt in 0..RELOAD_ATTEMPTS {
        let r = reload(&mut active, Err(read_failure()));
        step = next_reload_step(attempt, RELOAD_ATTEMPTS, &r);
    }
    assert_eq!(step, ReloadStep::GiveUp);
    assert_eq!(RELOAD_BACKOFF_MS, 10);
    assert_eq!(active.poll, "2m");
    assert_eq!(names(&active), vec!["old"]);
}

#[test]
fn poisoned_lock_is_fatal() {
    assert_eq!(next_reload_step(0, 10, &Err(ReloadError::Poison)), ReloadStep::Fatal);
    assert_eq!(next_reload_step(0, 10, &Ok(())), ReloadStep::Reloaded);
}

#[test]
fn poll_interval_from_config() {
    let (p, e) = poll_period(&config("2m", &[]));
    assert_eq!(p, PollPeriod { secs: 120, nanos: 0 });
    assert!(e.is_none());
    let (p, _) = poll_period(&config("90s", &[]));
    assert_eq!(p, PollPeriod { secs: 90, nanos: 0 });
    let (p, _) = poll_period(&config("1.5s", &[]));
    assert_eq!(p, PollPeriod { secs: 1, nanos: 500_000_000 });
}

#[test]
fn unreadable_poll_interval_falls_back() {
    let (p, e) = poll_period(&config("soon", &[]));
    assert_eq!(p, PollPeriod { secs: DEFAULT_POLL_SECS, nanos: 0 });
    assert_eq!(DEFAULT_POLL_SECS, 120);
    assert!(e.is_some());
}

#[test]
fn only_data_changes_of_the_config_file_reload() {
    let changed = vec!["other.toml".to_string(), "config.toml".to_string()];
    assert!(battery_friend::cfg::is_config_change(true, &changed, "config.toml"));
    assert!(!battery_friend::cfg::is_config_change(false, &changed, "config.toml"));
    let others = vec!["other.toml".to_string()];
    assert!(!battery_friend::cfg::is_config_change(true, &others, "config.toml"));
    assert!(!battery_friend::cfg::is_config_change(true, &Vec::new(), "config.toml"));
}
