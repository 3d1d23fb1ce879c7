use bugwatch_core::alerting::{
    build_monitor_down_alert, build_monitor_recovery_alert, build_new_issue_alert, compute_hmac_signature,
    rules_to_fire, AlertCondition, AlertTrigger, RuleInfo,
};
use bugwatch_core::dispatch::{
    select_targets, ChannelInfo, ChannelKind, DeliveryStatus, Dispatch, EmailRateLimits,
};
use bugwatch_core::notify::{build_slack_blocks, color_for, emoji_for, SlackBlock, SlackMessageTemplate};

fn rule(id: &str, condition: Option<AlertCondition>) -> RuleInfo {
    RuleInfo { id: id.to_string(), condition }
}

#[test]
fn new_issue_rules_match_level_exactly() {
    let rules = vec![
        rule("any", Some(AlertCondition::NewIssue { level: None })),
        rule("errors", Some(AlertCondition::NewIssue { level: Some("error".to_string()) })),
        rule("Errors", Some(AlertCondition::NewIssue { level: Some("Error".to_string()) })),
        rule("broken", None),
        rule("freq", Some(AlertCondition::IssueFrequency { threshold: 10, window_minutes: 5 })),
        rule("down", Some(AlertCondition::MonitorDown { monitor_id: None })),
        rule("late", Some(AlertCondition::NewIssue { level: None })),
    ];
    let t = AlertTrigger::NewIssue { level: "error".to_string() };
    assert_eq!(rules_to_fire(&rules, &t), vec![0, 1, 6]);
    let w = AlertTrigger::NewIssue { level: "warning".to_string() };
    assert_eq!(rules_to_fire(&rules, &w), vec![0, 6]);
}

#[test]
fn monitor_rules_match_their_monitor() {
    let rules = vec![
        rule("all-down", Some(AlertCondition::MonitorDown { monitor_id: None })),
        rule("m1-down", Some(AlertCondition::MonitorDown { monitor_id: Some("m1".to_string()) })),
        rule("m1-up", Some(AlertCondition::MonitorRecovery { monitor_id: Some("m1".to_string()) })),
    ];
    assert_eq!(rules_to_fire(&rules, &AlertTrigger::MonitorDown { monitor_id: "m2".to_string() }), vec![0]);
    assert_eq!(rules_to_fire(&rules, &AlertTrigger::MonitorDown { monitor_id: "m1".to_string() }), vec![0, 1]);
    assert_eq!(rules_to_fire(&rules, &AlertTrigger::MonitorRecovery { monitor_id: "m1".to_string() }), vec![2]);
}

#[test]
fn alert_texts() {
    let p = build_new_issue_alert("error", "TypeError: x", "iss1", "Shop", "proj1", "https://app", "2024-01-01T00:00:00Z");
    assert_eq!(p.title, "New error in Shop");
    assert_eq!(p.message, "TypeError: x");
    assert_eq!(p.severity, "error");
    assert_eq!(p.trigger_type, "new_issue");
    assert_eq!(p.trigger_id, Some("iss1".to_string()));
    assert_eq!(p.url, Some("https://app/dashboard/issues/iss1?project=proj1".to_string()));
    let d = build_monitor_down_alert("API", "m1", Some("timeout"), "Shop", "proj1", "https://app", "t");
    assert_eq!(d.title, "Monitor Down: API");
    assert_eq!(d.message, "API is DOWN: timeout");
    assert_eq!(d.url, Some("https://app/dashboard/uptime?project=proj1".to_string()));
    let d2 = build_monitor_down_alert("API", "m1", None, "Shop", "proj1", "https://app", "t");
    assert_eq!(d2.message, "API is DOWN");
    let r = build_monitor_recovery_alert("API", "m1", "Shop", "proj1", "https://app", "t");
    assert_eq!(r.title, "Monitor Recovered: API");
    assert_eq!(r.message, "API is back UP");
    assert_eq!(r.severity, "info");
    assert_eq!(r.trigger_type, "monitor_recovery");
}

#[test]
fn webhook_signature_is_hmac_sha256_hex() {
    assert_eq!(
        compute_hmac_signature("The quick brown fox jumps over the lazy dog", "key"),
        "f7bc83f430538424b13298e6aa6fb143ef4d59a14946175997479dbc2d1a3cd8"
    );
    assert_eq!(compute_hmac_signature("body", "").len(), 64);
}

#[test]
fn missing_and_inactive_channels_are_skipped() {
    let found = vec![
        Some(ChannelInfo { id: "a".to_string(), kind: ChannelKind::Webhook, is_active: true }),
        None,
        Some(ChannelInfo { id: "c".to_string(), kind: ChannelKind::Email, is_active: false }),
        Some(ChannelInfo { id: "d".to_string(), kind: ChannelKind::Slack, is_active: true }),
    ];
    assert_eq!(select_targets(&found), vec!["a".to_string(), "d".to_string()]);
}

#[test]
fn one_failing_channel_does_not_stop_the_others() {
    let mut d = Dispatch::new(vec!["A".to_string(), "B".to_string()]);
    let first = d.next_target();
    assert_eq!(first, Some("A".to_string()));
    assert_eq!(d.log_at(0).0, DeliveryStatus::Pending);
    d.settle(Err("connection refused".to_string()));
    let second = d.next_target();
    assert_eq!(second, Some("B".to_string()));
    d.settle(Ok(()));
    assert_eq!(d.next_target(), None);
    assert_eq!(d.log_count(), 2);
    assert_eq!(d.log_at(0), (DeliveryStatus::Failed, Some("connection refused".to_string())));
    assert_eq!(d.log_at(1), (DeliveryStatus::Sent, None));
}

#[test]
fn email_cooldown_holds_back_repeats() {
    let mut limits = EmailRateLimits::new();
    let minute: i64 = 60_000;
    let t1: i64 = 1_000_000;
    let mut delivered = 0;
    for t in [t1, t1 + 10 * minute, t1 + 15 * minute] {
        if limits.should_send(ChannelKind::Email, "p", Some("fp"), "ch", 15, t) {
            delivered += 1;
            limits.record_sent("p", "fp", "ch", t);
        }
    }
    assert_eq!(delivered, 2);
    assert_eq!(limits.check_rate_limit("p", "fp", "ch", 15, t1 + 16 * minute), Some(t1 + 15 * minute));
    assert_eq!(limits.check_rate_limit("p", "fp", "other", 15, t1 + 16 * minute), None);
    assert_eq!(limits.check_rate_limit("p", "fp", "ch", 0, t1 + 16 * minute), None);
    assert!(limits.should_send(ChannelKind::Webhook, "p", Some("fp"), "ch", 15, t1 + 16 * minute));
    assert!(limits.should_send(ChannelKind::Email, "p", None, "ch", 15, t1 + 16 * minute));
}

#[test]
fn chat_message_layout() {
    let p = build_new_issue_alert("fatal", "Boom", "i1", "Shop", "p1", "https://app", "T");
    let blocks = build_slack_blocks(&SlackMessageTemplate::default(), &p);
    assert_eq!(blocks.len(), 4);
    match &blocks[0] {
        SlackBlock::Header { text } => assert_eq!(text, ":skull: New fatal in Shop"),
        _ => panic!("header expected"),
    }
    match &blocks[1] {
        SlackBlock::Section { text } => assert_eq!(text, "`Boom`"),
        _ => panic!("section expected"),
    }
    match &blocks[2] {
        SlackBlock::Context { text } => assert_eq!(text, "*Project:* Shop | *Severity:* fatal | *Time:* T"),
        _ => panic!("context expected"),
    }
    match &blocks[3] {
        SlackBlock::Actions { buttons } => {
            assert_eq!(buttons.len(), 1);
            assert_eq!(buttons[0].label, "View in Bugwatch");
            assert_eq!(buttons[0].url, "https://app/dashboard/issues/i1?project=p1");
            assert_eq!(buttons[0].style, Some("primary".to_string()));
        }
        _ => panic!("actions expected"),
    }
    assert_eq!(color_for("error"), "#dc2626");
    assert_eq!(color_for("debug"), "#6b7280");
    assert_eq!(emoji_for("warning"), ":warning:");
}

#[test]
fn old_cooldown_records_are_swept() {
    let mut limits = EmailRateLimits::new();
    let day: i64 = 24 * 60 * 60 * 1000;
    limits.record_sent("p", "a", "ch", 0);
    limits.record_sent("p", "b", "ch", day);
    limits.record_sent("p", "c", "ch", 2 * day);
    let dropped = limits.cleanup_old_records(2 * day, day);
    assert_eq!(dropped, 1);
    assert_eq!(limits.check_rate_limit("p", "a", "ch", 60, 1), None);
    assert_eq!(limits.check_rate_limit("p", "c", "ch", 60, 2 * day + 1), Some(2 * day));
}
