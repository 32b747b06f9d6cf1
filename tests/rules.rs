use battery_friend::battery::Status;
use battery_friend::cfg::{default_poll, default_status, Config, Message};
use battery_friend::notification::{build_notification, parse_urgency, Urgency};
use battery_friend::rules::{filter_messages, RuleWarning};
use battery_friend::tracker::NotificationIds;

fn rule(status: &str, from: i64, to: i64) -> Message {
    Message {
        status: status.to_string(),
        from,
        to,
        body: None,
        summary: None,
        icon: None,
        urgency: None,
    }
}

fn low_config() -> Config {
    let mut low = rule("Discharging", 0, 20);
    low.summary = Some("Battery at {percent}%".to_string());
    Config {
        poll: "2m".to_string(),
        messages: vec![("low".to_string(), low)],
    }
}

#[test]
fn low_battery_shows_one_notification() {
    let config = low_config();
    let ids = NotificationIds::new();
    let ev = filter_messages(&config.messages, 15, Status::Discharging);
    assert_eq!(ev.matches, vec![0]);
    assert!(ev.warnings.is_empty());
    let (name, message) = &config.messages[ev.matches[0]];
    assert_eq!(name, "low");
    let payload = ids.prepare(name, message, 15).unwrap();
    assert_eq!(payload.summary.as_deref(), Some("Battery at 15%"));
    assert_eq!(payload.body, None);
    assert_eq!(payload.id, None);
}

#[test]
fn high_battery_shows_nothing_and_keeps_tracker() {
    let config = low_config();
    let mut ids = NotificationIds::new();
    ids.shown(&"low".to_string(), 4);
    let ev = filter_messages(&config.messages, 50, Status::Discharging);
    assert!(ev.matches.is_empty());
    assert!(ev.warnings.is_empty());
    ids.prune(&config.messages);
    assert_eq!(ids.get("low"), Some(4));
}

#[test]
fn inverted_bounds_excluded_with_one_warning() {
    let config = Config {
        poll: default_poll(),
        messages: vec![("bad".to_string(), rule(&default_status(), 50, 10))],
    };
    for p in [0, 10, 30, 50, 100] {
        let ev = filter_messages(&config.messages, p, Status::Discharging);
        assert!(ev.matches.is_empty());
        assert_eq!(ev.warnings, vec![RuleWarning::InvertedBounds(0)]);
    }
}

#[test]
fn inverted_bounds_not_reported_for_other_status() {
    let messages = vec![("bad".to_string(), rule("Discharging", 50, 10))];
    let ev = filter_messages(&messages, 30, Status::Charging);
    assert!(ev.matches.is_empty());
    assert!(ev.warnings.is_empty());
}

#[test]
fn bounds_are_inclusive() {
    let messages = vec![("low".to_string(), rule("Discharging", 0, 20))];
    assert_eq!(filter_messages(&messages, 0, Status::Discharging).matches, vec![0]);
    assert_eq!(filter_messages(&messages, 20, Status::Discharging).matches, vec![0]);
    assert!(filter_messages(&messages, 21, Status::Discharging).matches.is_empty());
    assert!(filter_messages(&messages, -1, Status::Discharging).matches.is_empty());
}

#[test]
fn equal_bounds_match_one_value() {
    let messages = vec![("full".to_string(), rule("Full", 100, 100))];
    assert_eq!(filter_messages(&messages, 100, Status::Full).matches, vec![0]);
    assert!(filter_messages(&messages, 99, Status::Full).matches.is_empty());
}

#[test]
fn status_must_equal_observed() {
    let messages = vec![
        ("a".to_string(), rule("charging", 0, 100)),
        ("b".to_string(), rule("Not charging", 0, 100)),
        ("c".to_string(), rule("discharging", 0, 100)),
        ("d".to_string(), rule("Full", 0, 100)),
    ];
    assert_eq!(filter_messages(&messages, 40, Status::Charging).matches, vec![0]);
    assert_eq!(filter_messages(&messages, 40, Status::NotCharging).matches, vec![1]);
    assert_eq!(filter_messages(&messages, 40, Status::Discharging).matches, vec![2]);
    assert_eq!(filter_messages(&messages, 40, Status::Full).matches, vec![3]);
}

#[test]
fn unknown_status_excluded_with_warning() {
    let messages = vec![
        ("odd".to_string(), rule("Sleeping", 0, 100)),
        ("low".to_string(), rule("Discharging", 0, 100)),
    ];
    for status in [Status::Charging, Status::Discharging] {
        let ev = filter_messages(&messages, 40, status);
        assert!(!ev.matches.contains(&0));
        assert_eq!(ev.warnings, vec![RuleWarning::UnknownStatus(0)]);
    }
}

#[test]
fn every_matching_rule_once_in_order() {
    let messages = vec![
        ("a".to_string(), rule("Discharging", 0, 30)),
        ("b".to_string(), rule("Discharging", 40, 60)),
        ("c".to_string(), rule("Discharging", 10, 20)),
        ("d".to_string(), rule("Discharging", 90, 80)),
    ];
    let ev = filter_messages(&messages, 15, Status::Discharging);
    assert_eq!(ev.matches, vec![0, 2]);
    assert_eq!(ev.warnings, vec![RuleWarning::InvertedBounds(3)]);
}

#[test]
fn no_rules_no_matches() {
    let ev = filter_messages(&Vec::new(), 15, Status::Discharging);
    assert!(ev.matches.is_empty());
    assert!(ev.warnings.is_empty());
}

#[test]
fn format_substitutes_every_token() {
    assert_eq!(battery_friend::notification::format("{percent}% and {percent}", 7), "7% and 7");
    assert_eq!(battery_friend::notification::format("at {percent}", -5), "at -5");
    assert_eq!(battery_friend::notification::format("at {percent}", 100), "at 100");
    assert_eq!(battery_friend::notification::format("no token", 42), "no token");
    assert_eq!(battery_friend::notification::format("{perc {percent", 1), "{perc {percent");
    assert_eq!(battery_friend::notification::format("{{percent}}", 0), "{0}");
    assert_eq!(battery_friend::notification::format("", 3), "");
    assert_eq!(battery_friend::notification::format("é {percent} ü", 12), "é 12 ü");
    assert_eq!(battery_friend::notification::format("{percent}", i64::MIN), "-9223372036854775808");
}

#[test]
fn urgency_names() {
    assert_eq!(parse_urgency("low").unwrap(), Urgency::Low);
    assert_eq!(parse_urgency("Low").unwrap(), Urgency::Low);
    assert_eq!(parse_urgency("normal").unwrap(), Urgency::Normal);
    assert_eq!(parse_urgency("Normal").unwrap(), Urgency::Normal);
    assert_eq!(parse_urgency("critical").unwrap(), Urgency::Critical);
    assert_eq!(parse_urgency("Critical").unwrap(), Urgency::Critical);
    let e = parse_urgency("LOW").unwrap_err();
    assert_eq!(e.s, "LOW");
    assert_eq!(
        e.message(),
        "Error parsing notification urgency. Unknown urgency `LOW`"
    );
}

#[test]
fn build_fills_every_field() {
    let mut m = rule("Discharging", 0, 20);
    m.body = Some("{percent} left".to_string());
    m.summary = Some("Low".to_string());
    m.icon = Some("battery-low".to_string());
    m.urgency = Some("critical".to_string());
    let p = build_notification(&m, 9).unwrap();
    assert_eq!(p.body.as_deref(), Some("9 left"));
    assert_eq!(p.summary.as_deref(), Some("Low"));
    assert_eq!(p.icon.as_deref(), Some("battery-low"));
    assert_eq!(p.urgency, Some(Urgency::Critical));
    assert_eq!(p.id, None);
}

#[test]
fn build_fails_on_unknown_urgency() {
    let mut m = rule("Discharging", 0, 20);
    m.urgency = Some("urgent".to_string());
    let e = build_notification(&m, 9).unwrap_err();
    assert_eq!(
        e.message(),
        "Unable to build notification: Error parsing notification urgency. Unknown urgency `urgent`"
    );
}
