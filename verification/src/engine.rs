//! The per-cycle alert evaluation: matching, threshold check, intra-cycle
//! deduplication and message construction.

use vstd::prelude::*;

use crate::model::{opt_str_view, NotificationMessage, NotificationSettings, QueueStat};
use crate::text::{build_alert_text, spec_alert_text, str_eq};
use crate::trigger::Trigger;

verus! {

/// Whether one trigger applies to one observed stat: the stat must report
/// the trigger's field, and, if the trigger is scoped to a queue, come from
/// exactly that queue. A trigger with no scope applies to every queue.
pub open spec fn spec_matches(t: Trigger, s: QueueStat) -> bool {
    match t.spec_queue() {
        Some(q) => q == s.queue_name@ && t.spec_field_name() == s.stat_name@,
        None => t.spec_field_name() == s.stat_name@,
    }
}

/// Whether one trigger fires on one observed stat: it applies, and the
/// observed value strictly exceeds the threshold. A value exactly at the
/// threshold does not fire.
pub open spec fn spec_fires(t: Trigger, s: QueueStat) -> bool {
    spec_matches(t, s) && s.value > t.spec_threshold()
}

/// One alert the engine decided to raise, reduced to the values its message
/// is built from.
pub ghost struct Alert {
    pub queue_name: Seq<char>,
    pub field_name: Seq<char>,
    pub display_name: Seq<char>,
    pub threshold: u64,
    pub value: u64,
}

/// The alert a firing (trigger, stat) pair raises.
pub open spec fn alert_of(t: Trigger, s: QueueStat) -> Alert {
    Alert {
        queue_name: s.queue_name@,
        field_name: t.spec_field_name(),
        display_name: t.spec_display_name(),
        threshold: t.spec_threshold(),
        value: s.value,
    }
}

/// The deduplication key of an alert: its queue name and field name.
pub open spec fn alert_key(a: Alert) -> (Seq<char>, Seq<char>) {
    (a.queue_name, a.field_name)
}

/// The deduplication key a (trigger, stat) pair would be registered under.
pub open spec fn stat_key(t: Trigger, s: QueueStat) -> (Seq<char>, Seq<char>) {
    (s.queue_name@, t.spec_field_name())
}

/// One trigger evaluated against the remaining stats, in supplied order,
/// threading the registry of keys already alerted on and the alerts
/// accumulated so far.
pub open spec fn eval_stats(
    t: Trigger,
    ss: Seq<QueueStat>,
    reg: Seq<(Seq<char>, Seq<char>)>,
    acc: Seq<Alert>,
) -> (Seq<Alert>, Seq<(Seq<char>, Seq<char>)>)
    decreases ss.len(),
{
    if ss.len() == 0 {
        (acc, reg)
    } else if spec_fires(t, ss[0]) && !reg.contains(stat_key(t, ss[0])) {
        eval_stats(t, ss.drop_first(), reg.push(stat_key(t, ss[0])), acc.push(alert_of(t, ss[0])))
    } else {
        eval_stats(t, ss.drop_first(), reg, acc)
    }
}

/// The remaining triggers evaluated in configured order, each against the
/// whole stat list, threading registry and accumulated alerts.
pub open spec fn eval_triggers(
    ts: Seq<Trigger>,
    ss: Seq<QueueStat>,
    reg: Seq<(Seq<char>, Seq<char>)>,
    acc: Seq<Alert>,
) -> (Seq<Alert>, Seq<(Seq<char>, Seq<char>)>)
    decreases ts.len(),
{
    if ts.len() == 0 {
        (acc, reg)
    } else {
        let r = eval_stats(ts[0], ss, reg, acc);
        eval_triggers(ts.drop_first(), ss, r.1, r.0)
    }
}

/// The alerts one poll cycle raises, in output order: trigger order first,
/// stat order within a trigger, duplicates by key suppressed. The registry
/// starts empty every cycle.
pub open spec fn spec_cycle_alerts(ts: Seq<Trigger>, ss: Seq<QueueStat>) -> Seq<Alert> {
    eval_triggers(ts, ss, Seq::empty(), Seq::empty()).0
}

/// Whether one outbound message is exactly the rendering of one alert under
/// the given settings: the fixed username, the '#'-prefixed channel, the
/// fixed text format, and the icons copied unchanged.
pub open spec fn msg_renders_alert(
    m: NotificationMessage,
    a: Alert,
    cfg: NotificationSettings,
) -> bool {
    &&& m.username@ == cfg.username@
    &&& m.channel@ == seq!['#'] + cfg.channel@
    &&& m.text@ == spec_alert_text(a.queue_name, a.threshold, a.display_name, a.value)
    &&& opt_str_view(m.icon_url) == opt_str_view(cfg.icon_url)
    &&& opt_str_view(m.icon_emoji) == opt_str_view(cfg.icon_emoji)
}

/// Whether a message batch is exactly what one cycle over the given triggers
/// and stats must produce under the given settings.
pub open spec fn cycle_output_matches(
    msgs: Seq<NotificationMessage>,
    ts: Seq<Trigger>,
    ss: Seq<QueueStat>,
    cfg: NotificationSettings,
) -> bool {
    let alerts = spec_cycle_alerts(ts, ss);
    &&& msgs.len() == alerts.len()
    &&& forall|i: int|
        0 <= i < msgs.len() ==> msg_renders_alert(#[trigger] msgs[i], alerts[i], cfg)
}

/// Decides whether a trigger applies to an observed stat.
pub fn check_trigger_applicability(trigger: &Trigger, stat: &QueueStat) -> (r: bool)
    ensures
        r == spec_matches(*trigger, *stat),
{
    if let Some(trigger_queue_name) = &trigger.data().queue {
        str_eq(trigger_queue_name.as_str(), stat.queue_name.as_str()) && str_eq(
            trigger.field_name(),
            stat.stat_name.as_str(),
        )
    } else {
        str_eq(trigger.field_name(), stat.stat_name.as_str())
    }
}

/// The view of the registry: each entry's pair of character sequences.
pub open spec fn reg_view(reg: Seq<(String, String)>) -> Seq<(Seq<char>, Seq<char>)> {
    reg.map_values(|p: (String, String)| (p.0@, p.1@))
}

/// Whether the registry already holds the given (queue, field) pair.
fn registry_contains(reg: &Vec<(String, String)>, queue_name: &str, field_name: &str) -> (r: bool)
    ensures
        r == reg_view(reg@).contains((queue_name@, field_name@)),
{
    let mut i: usize = 0;
    while i < reg.len()
        invariant
            i <= reg@.len(),
            forall|j: int| 0 <= j < i ==> reg_view(reg@)[j] != (queue_name@, field_name@),
        decreases reg@.len() - i,
    {
        let entry = &reg[i];
        if str_eq(entry.0.as_str(), queue_name) && str_eq(entry.1.as_str(), field_name) {
            proof {
                assert(reg_view(reg@)[i as int] == (queue_name@, field_name@));
            }
            return true;
        }
        i = i + 1;
    }
    proof {
        if reg_view(reg@).contains((queue_name@, field_name@)) {
            let j = choose|j: int|
                0 <= j < reg_view(reg@).len() && reg_view(reg@)[j] == (queue_name@, field_name@);
            assert(false);
        }
    }
    false
}

/// Clones an optional string setting for one message.
fn clone_opt_string(o: &Option<String>) -> (r: Option<String>)
    ensures
        opt_str_view(r) == opt_str_view(*o),
{
    match o {
        Some(s) => Some(s.clone()),
        None => None,
    }
}

/// Evaluates one full poll cycle: every trigger, in configured order,
/// against every stat, in supplied order. A trigger fires when it applies
/// and the observed value strictly exceeds its threshold; at most one
/// message is produced per (queue, field) pair per cycle, whatever the
/// number of triggers that would fire on it. The registry is local to the
/// call: nothing carries over to a later cycle.
pub fn evaluate_cycle(
    triggers: &Vec<Trigger>,
    stats: &Vec<QueueStat>,
    settings: &NotificationSettings,
) -> (msgs: Vec<NotificationMessage>)
    ensures
        cycle_output_matches(msgs@, triggers@, stats@, *settings),
{
    let mut registry: Vec<(String, String)> = Vec::new();
    let mut msgs: Vec<NotificationMessage> = Vec::new();
    let ghost mut alerts: Seq<Alert> = Seq::empty();

    proof {
        assert(reg_view(registry@) =~= Seq::<(Seq<char>, Seq<char>)>::empty());
        assert(triggers@.skip(0) =~= triggers@);
    }
    let mut ti: usize = 0;
    while ti < triggers.len()
        invariant
            ti <= triggers@.len(),
            eval_triggers(triggers@.skip(ti as int), stats@, reg_view(registry@), alerts)
                == eval_triggers(triggers@, stats@, Seq::empty(), Seq::empty()),
            msgs@.len() == alerts.len(),
            forall|i: int|
                0 <= i < msgs@.len() ==> msg_renders_alert(#[trigger] msgs@[i], alerts[i], *settings),
        decreases triggers@.len() - ti,
    {
        let t = &triggers[ti];
        proof {
            assert(triggers@.skip(ti as int).len() != 0);
            assert(triggers@.skip(ti as int)[0] == triggers@[ti as int]);
            assert(triggers@.skip(ti as int).drop_first() =~= triggers@.skip(ti as int + 1));
            assert(stats@.skip(0) =~= stats@);
            assert(eval_triggers(triggers@.skip(ti as int), stats@, reg_view(registry@), alerts)
                == eval_triggers(
                triggers@.skip(ti as int + 1),
                stats@,
                eval_stats(triggers@[ti as int], stats@, reg_view(registry@), alerts).1,
                eval_stats(triggers@[ti as int], stats@, reg_view(registry@), alerts).0,
            ));
        }
        let mut si: usize = 0;
        while si < stats.len()
            invariant
                si <= stats@.len(),
                ti < triggers@.len(),
                *t == triggers@[ti as int],
                ({
                    let st = eval_stats(
                        triggers@[ti as int],
                        stats@.skip(si as int),
                        reg_view(registry@),
                        alerts,
                    );
                    eval_triggers(triggers@.skip(ti as int + 1), stats@, st.1, st.0)
                        == eval_triggers(triggers@, stats@, Seq::empty(), Seq::empty())
                }),
                msgs@.len() == alerts.len(),
                forall|i: int|
                    0 <= i < msgs@.len() ==> msg_renders_alert(
                        #[trigger] msgs@[i],
                        alerts[i],
                        *settings,
                    ),
            decreases stats@.len() - si,
        {
            let stat = &stats[si];
            let ghost reg_before = reg_view(registry@);
            let ghost alerts_before = alerts;
            proof {
                assert(stats@.skip(si as int).len() != 0);
                assert(stats@.skip(si as int)[0] == stats@[si as int]);
                assert(stats@.skip(si as int).drop_first() =~= stats@.skip(si as int + 1));
            }
            let applicable = check_trigger_applicability(t, stat);
            let fired = applicable && stat.value > t.data().threshold;
            if fired {
                let already = registry_contains(
                    &registry,
                    stat.queue_name.as_str(),
                    t.field_name(),
                );
                if !already {
                    registry.push((String::from_str(stat.queue_name.as_str()), String::from_str(
                        t.field_name(),
                    )));
                    proof {
                        assert(reg_view(registry@) =~= reg_before.push(
                            stat_key(triggers@[ti as int], stats@[si as int]),
                        ));
                    }
                    let text = build_alert_text(
                        stat.queue_name.as_str(),
                        t.data().threshold,
                        t.name(),
                        stat.value,
                    );
                    let mut channel = String::from_str("#");
                    channel.append(settings.channel.as_str());
                    proof {
                        reveal_strlit("#");
                        assert(channel@ =~= seq!['#'] + settings.channel@);
                    }
                    let msg = NotificationMessage {
                        username: settings.username.clone(),
                        channel,
                        text,
                        icon_url: clone_opt_string(&settings.icon_url),
                        icon_emoji: clone_opt_string(&settings.icon_emoji),
                    };
                    msgs.push(msg);
                    proof {
                        alerts = alerts.push(
                            alert_of(triggers@[ti as int], stats@[si as int]),
                        );
                    }
                }
            }
            proof {
                assert(eval_stats(
                    triggers@[ti as int],
                    stats@.skip(si as int),
                    reg_before,
                    alerts_before,
                ) == eval_stats(
                    triggers@[ti as int],
                    stats@.skip(si as int + 1),
                    reg_view(registry@),
                    alerts,
                ));
            }
            si = si + 1;
        }
        proof {
            assert(stats@.skip(si as int) =~= Seq::<QueueStat>::empty());
            assert(eval_stats(
                triggers@[ti as int],
                stats@.skip(si as int),
                reg_view(registry@),
                alerts,
            ) == (alerts, reg_view(registry@)));
        }
        ti = ti + 1;
    }
    proof {
        assert(triggers@.skip(ti as int) =~= Seq::<Trigger>::empty());
        assert(eval_triggers(triggers@.skip(ti as int), stats@, reg_view(registry@), alerts)
            == (alerts, reg_view(registry@)));
        assert(alerts == spec_cycle_alerts(triggers@, stats@));
    }
    msgs
}

} // verus!
