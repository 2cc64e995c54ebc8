use queue_alerts::engine::{check_trigger_applicability, evaluate_cycle};
use queue_alerts::model::{NotificationSettings, QueueStat};
use queue_alerts::text::{build_alert_text, str_eq, u64_to_dec};
use queue_alerts::trigger::{Trigger, TriggerData};

fn stat(queue_name: &str, stat_name: &str, value: u64) -> QueueStat {
    QueueStat {
        queue_name: queue_name.to_string(),
        stat_name: stat_name.to_string(),
        value,
    }
}

fn settings() -> NotificationSettings {
    NotificationSettings {
        username: "queue-bot".to_string(),
        channel: "alerts".to_string(),
        icon_url: None,
        icon_emoji: Some(":bell:".to_string()),
    }
}

#[test]
fn unscoped_trigger_applies_by_field_alone() {
    let t = Trigger::ReadyMsgs(TriggerData {
        threshold: 5,
        queue: None,
    });
    assert!(check_trigger_applicability(&t, &stat("any", "messages_ready", 0)));
    assert!(check_trigger_applicability(&t, &stat("other", "messages_ready", 9)));
    assert!(!check_trigger_applicability(&t, &stat("any", "messages", 0)));
}

#[test]
fn scoped_trigger_needs_field_and_queue() {
    let t = Trigger::ConsumersTotal(TriggerData {
        threshold: 1,
        queue: Some("orders".to_string()),
    });
    assert!(check_trigger_applicability(&t, &stat("orders", "consumers", 0)));
    assert!(!check_trigger_applicability(&t, &stat("payments", "consumers", 0)));
    assert!(!check_trigger_applicability(&t, &stat("orders", "memory", 0)));
}

#[test]
fn field_names_are_fixed_per_variant() {
    let d = || TriggerData {
        threshold: 0,
        queue: None,
    };
    assert_eq!(Trigger::ConsumersTotal(d()).field_name(), "consumers");
    assert_eq!(Trigger::MemoryTotal(d()).field_name(), "memory");
    assert_eq!(Trigger::MessagesTotal(d()).field_name(), "messages");
    assert_eq!(Trigger::ReadyMsgs(d()).field_name(), "messages_ready");
    assert_eq!(
        Trigger::UnacknowledgedMsgs(d()).field_name(),
        "messages_unacknowledged"
    );
}

#[test]
fn display_names_are_fixed_per_variant() {
    let d = || TriggerData {
        threshold: 0,
        queue: None,
    };
    assert_eq!(Trigger::ConsumersTotal(d()).name(), "total number of consumers");
    assert_eq!(Trigger::MemoryTotal(d()).name(), "memory consumption");
    assert_eq!(Trigger::MessagesTotal(d()).name(), "total number of messages");
    assert_eq!(Trigger::ReadyMsgs(d()).name(), "ready messages");
    assert_eq!(Trigger::UnacknowledgedMsgs(d()).name(), "unacknowledged messages");
}

#[test]
fn data_returns_the_payload() {
    let t = Trigger::MemoryTotal(TriggerData {
        threshold: 1024,
        queue: Some("bulk".to_string()),
    });
    assert_eq!(t.data().threshold, 1024);
    assert_eq!(t.data().queue.as_deref(), Some("bulk"));
}

#[test]
fn value_at_threshold_does_not_fire() {
    let triggers = vec![Trigger::MessagesTotal(TriggerData {
        threshold: 10,
        queue: None,
    })];
    let stats = vec![stat("q1", "messages", 10)];
    let msgs = evaluate_cycle(&triggers, &stats, &settings());
    assert!(msgs.is_empty());
}

#[test]
fn value_one_above_threshold_fires() {
    let triggers = vec![Trigger::MessagesTotal(TriggerData {
        threshold: 10,
        queue: None,
    })];
    let stats = vec![stat("q1", "messages", 11)];
    let msgs = evaluate_cycle(&triggers, &stats, &settings());
    assert_eq!(msgs.len(), 1);
    assert_eq!(
        msgs[0].text,
        "Queue q1 has passed a threshold of 10 total number of messages. Currently at 11."
    );
}

#[test]
fn duplicate_stats_yield_one_message() {
    let triggers = vec![Trigger::ReadyMsgs(TriggerData {
        threshold: 100,
        queue: Some("orders".to_string()),
    })];
    let stats = vec![
        stat("orders", "messages_ready", 150),
        stat("orders", "messages_ready", 150),
    ];
    let msgs = evaluate_cycle(&triggers, &stats, &settings());
    assert_eq!(msgs.len(), 1);
    assert_eq!(
        msgs[0].text,
        "Queue orders has passed a threshold of 100 ready messages. Currently at 150."
    );
}

#[test]
fn only_matching_field_fires() {
    let triggers = vec![
        Trigger::MessagesTotal(TriggerData {
            threshold: 10,
            queue: None,
        }),
        Trigger::ReadyMsgs(TriggerData {
            threshold: 5,
            queue: None,
        }),
    ];
    let stats = vec![stat("q1", "messages_ready", 6)];
    let msgs = evaluate_cycle(&triggers, &stats, &settings());
    assert_eq!(msgs.len(), 1);
    assert_eq!(
        msgs[0].text,
        "Queue q1 has passed a threshold of 5 ready messages. Currently at 6."
    );
}

#[test]
fn queue_scope_mismatch_yields_no_message() {
    let triggers = vec![Trigger::ReadyMsgs(TriggerData {
        threshold: 1,
        queue: Some("a".to_string()),
    })];
    let stats = vec![stat("b", "messages_ready", 50)];
    let msgs = evaluate_cycle(&triggers, &stats, &settings());
    assert!(msgs.is_empty());
}

#[test]
fn two_triggers_on_same_field_alert_once() {
    // A scoped and an unscoped trigger both fire on the same stat; the
    // (queue, field) key is registered once, so only the first produces a
    // message.
    let triggers = vec![
        Trigger::ReadyMsgs(TriggerData {
            threshold: 10,
            queue: Some("orders".to_string()),
        }),
        Trigger::ReadyMsgs(TriggerData {
            threshold: 20,
            queue: None,
        }),
    ];
    let stats = vec![stat("orders", "messages_ready", 99)];
    let msgs = evaluate_cycle(&triggers, &stats, &settings());
    assert_eq!(msgs.len(), 1);
    assert_eq!(
        msgs[0].text,
        "Queue orders has passed a threshold of 10 ready messages. Currently at 99."
    );
}

#[test]
fn output_follows_trigger_order_then_stat_order() {
    let triggers = vec![
        Trigger::ReadyMsgs(TriggerData {
            threshold: 0,
            queue: None,
        }),
        Trigger::ConsumersTotal(TriggerData {
            threshold: 0,
            queue: None,
        }),
    ];
    let stats = vec![
        stat("beta", "consumers", 2),
        stat("alpha", "messages_ready", 3),
        stat("gamma", "messages_ready", 4),
    ];
    let msgs = evaluate_cycle(&triggers, &stats, &settings());
    let texts: Vec<&str> = msgs.iter().map(|m| m.text.as_str()).collect();
    assert_eq!(
        texts,
        vec![
            "Queue alpha has passed a threshold of 0 ready messages. Currently at 3.",
            "Queue gamma has passed a threshold of 0 ready messages. Currently at 4.",
            "Queue beta has passed a threshold of 0 total number of consumers. Currently at 2.",
        ]
    );
}

#[test]
fn identical_inputs_give_identical_outputs() {
    let triggers = vec![
        Trigger::ReadyMsgs(TriggerData {
            threshold: 3,
            queue: None,
        }),
        Trigger::MemoryTotal(TriggerData {
            threshold: 1000,
            queue: Some("bulk".to_string()),
        }),
    ];
    let stats = vec![
        stat("bulk", "messages_ready", 7),
        stat("bulk", "memory", 2048),
        stat("fast", "messages_ready", 2),
    ];
    let cfg = settings();
    let first = evaluate_cycle(&triggers, &stats, &cfg);
    let second = evaluate_cycle(&triggers, &stats, &cfg);
    assert_eq!(first.len(), second.len());
    for (a, b) in first.iter().zip(second.iter()) {
        assert_eq!(a.username, b.username);
        assert_eq!(a.channel, b.channel);
        assert_eq!(a.text, b.text);
        assert_eq!(a.icon_url, b.icon_url);
        assert_eq!(a.icon_emoji, b.icon_emoji);
    }
}

#[test]
fn empty_triggers_give_empty_output() {
    let triggers: Vec<Trigger> = vec![];
    let stats = vec![stat("q1", "messages", 1000), stat("q2", "consumers", 5)];
    assert!(evaluate_cycle(&triggers, &stats, &settings()).is_empty());
}

#[test]
fn empty_stats_give_empty_output() {
    let triggers = vec![
        Trigger::MessagesTotal(TriggerData {
            threshold: 0,
            queue: None,
        }),
        Trigger::ReadyMsgs(TriggerData {
            threshold: 0,
            queue: Some("orders".to_string()),
        }),
    ];
    let stats: Vec<QueueStat> = vec![];
    assert!(evaluate_cycle(&triggers, &stats, &settings()).is_empty());
}

#[test]
fn messages_carry_the_fixed_settings() {
    let triggers = vec![Trigger::UnacknowledgedMsgs(TriggerData {
        threshold: 1,
        queue: None,
    })];
    let stats = vec![stat("work", "messages_unacknowledged", 5)];
    let msgs = evaluate_cycle(&triggers, &stats, &settings());
    assert_eq!(msgs.len(), 1);
    assert_eq!(msgs[0].username, "queue-bot");
    assert_eq!(msgs[0].channel, "#alerts");
    assert_eq!(msgs[0].icon_url, None);
    assert_eq!(msgs[0].icon_emoji, Some(":bell:".to_string()));
    assert_eq!(
        msgs[0].text,
        "Queue work has passed a threshold of 1 unacknowledged messages. Currently at 5."
    );
}

#[test]
fn decimal_rendering_is_exact() {
    assert_eq!(u64_to_dec(0), "0");
    assert_eq!(u64_to_dec(7), "7");
    assert_eq!(u64_to_dec(10), "10");
    assert_eq!(u64_to_dec(150), "150");
    assert_eq!(u64_to_dec(18446744073709551615), "18446744073709551615");
}

#[test]
fn alert_text_format_is_exact() {
    assert_eq!(
        build_alert_text("orders", 100, "ready messages", 150),
        "Queue orders has passed a threshold of 100 ready messages. Currently at 150."
    );
}

#[test]
fn str_eq_compares_contents() {
    assert!(str_eq("", ""));
    assert!(str_eq("abc", "abc"));
    assert!(!str_eq("abc", "abd"));
    assert!(!str_eq("abc", "ab"));
    assert!(str_eq("queue \u{00e9}", "queue \u{00e9}"));
}
