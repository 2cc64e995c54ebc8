//! Engine-wide properties, stated and proved once, for all inputs.

use vstd::prelude::*;

use crate::engine::{
    alert_key, alert_of, cycle_output_matches, eval_stats, eval_triggers, spec_cycle_alerts,
    spec_fires, spec_matches, stat_key, Alert,
};
use crate::model::{opt_str_view, NotificationMessage, NotificationSettings, QueueStat};
use crate::trigger::Trigger;

verus! {

/// Whether no two alerts in the sequence share a (queue, field) key.
pub open spec fn distinct_alert_keys(alerts: Seq<Alert>) -> bool {
    forall|i: int, j: int|
        0 <= i < j < alerts.len() ==> alert_key(alerts[i]) != alert_key(alerts[j])
}

/// Whether every alert's key stands in the registry.
pub open spec fn keys_registered(alerts: Seq<Alert>, reg: Seq<(Seq<char>, Seq<char>)>) -> bool {
    forall|i: int| 0 <= i < alerts.len() ==> reg.contains(#[trigger] alert_key(alerts[i]))
}

/// A trigger with no queue scope applies exactly to the stats that report
/// its field, whatever queue they come from.
pub proof fn lemma_applicability_unscoped(t: Trigger, s: QueueStat)
    requires
        t.spec_queue() is None,
    ensures
        spec_matches(t, s) == (t.spec_field_name() == s.stat_name@),
{
}

/// A trigger scoped to a queue applies exactly to the stats that report its
/// field and come from that queue, by exact comparison of the names.
pub proof fn lemma_applicability_scoped(t: Trigger, s: QueueStat, q: Seq<char>)
    requires
        t.spec_queue() == Some(q),
    ensures
        spec_matches(t, s) == (t.spec_field_name() == s.stat_name@ && q == s.queue_name@),
{
}

/// The threshold is strict: an applicable stat at exactly the threshold
/// never fires, and one unit above it always fires.
pub proof fn lemma_strict_threshold(t: Trigger, s: QueueStat)
    requires
        spec_matches(t, s),
    ensures
        s.value == t.spec_threshold() ==> !spec_fires(t, s),
        s.value == t.spec_threshold() + 1 ==> spec_fires(t, s),
{
}

proof fn lemma_push_preserves_contains(
    reg: Seq<(Seq<char>, Seq<char>)>,
    k: (Seq<char>, Seq<char>),
    x: (Seq<char>, Seq<char>),
)
    requires
        reg.contains(x),
    ensures
        reg.push(k).contains(x),
{
    let i = choose|i: int| 0 <= i < reg.len() && reg[i] == x;
    assert(reg.push(k)[i] == x);
}

proof fn lemma_eval_stats_dedup(
    t: Trigger,
    ss: Seq<QueueStat>,
    reg: Seq<(Seq<char>, Seq<char>)>,
    acc: Seq<Alert>,
)
    requires
        distinct_alert_keys(acc),
        keys_registered(acc, reg),
    ensures
        distinct_alert_keys(eval_stats(t, ss, reg, acc).0),
        keys_registered(eval_stats(t, ss, reg, acc).0, eval_stats(t, ss, reg, acc).1),
        forall|x: (Seq<char>, Seq<char>)|
            reg.contains(x) ==> #[trigger] eval_stats(t, ss, reg, acc).1.contains(x),
    decreases ss.len(),
{
    if ss.len() == 0 {
    } else if spec_fires(t, ss[0]) && !reg.contains(stat_key(t, ss[0])) {
        let k = stat_key(t, ss[0]);
        let a = alert_of(t, ss[0]);
        let acc2 = acc.push(a);
        let reg2 = reg.push(k);
        assert(alert_key(a) == k);
        assert forall|i: int, j: int| 0 <= i < j < acc2.len() implies alert_key(acc2[i])
            != alert_key(acc2[j]) by {
            if j == acc.len() {
                assert(acc2[i] == acc[i]);
                assert(reg.contains(alert_key(acc[i])));
            } else {
                assert(acc2[i] == acc[i] && acc2[j] == acc[j]);
            }
        }
        assert forall|i: int| 0 <= i < acc2.len() implies reg2.contains(
            #[trigger] alert_key(acc2[i]),
        ) by {
            if i < acc.len() {
                assert(acc2[i] == acc[i]);
                lemma_push_preserves_contains(reg, k, alert_key(acc[i]));
            } else {
                assert(reg2[reg.len() as int] == k);
            }
        }
        lemma_eval_stats_dedup(t, ss.drop_first(), reg2, acc2);
        assert forall|x: (Seq<char>, Seq<char>)| reg.contains(x) implies #[trigger] eval_stats(
            t,
            ss,
            reg,
            acc,
        ).1.contains(x) by {
            lemma_push_preserves_contains(reg, k, x);
        }
    } else {
        lemma_eval_stats_dedup(t, ss.drop_first(), reg, acc);
    }
}

proof fn lemma_eval_triggers_dedup(
    ts: Seq<Trigger>,
    ss: Seq<QueueStat>,
    reg: Seq<(Seq<char>, Seq<char>)>,
    acc: Seq<Alert>,
)
    requires
        distinct_alert_keys(acc),
        keys_registered(acc, reg),
    ensures
        distinct_alert_keys(eval_triggers(ts, ss, reg, acc).0),
    decreases ts.len(),
{
    if ts.len() == 0 {
    } else {
        lemma_eval_stats_dedup(ts[0], ss, reg, acc);
        let r = eval_stats(ts[0], ss, reg, acc);
        lemma_eval_triggers_dedup(ts.drop_first(), ss, r.1, r.0);
    }
}

/// Law: within one cycle, no two alerts share a (queue, field) key — at most
/// one message is produced per queue and field, however many triggers would
/// fire on it.
pub proof fn lemma_intra_cycle_dedup(ts: Seq<Trigger>, ss: Seq<QueueStat>)
    ensures
        distinct_alert_keys(spec_cycle_alerts(ts, ss)),
{
    lemma_eval_triggers_dedup(ts, ss, Seq::empty(), Seq::empty());
}

/// Whether two messages agree in every observable field.
pub open spec fn msg_views_equal(a: NotificationMessage, b: NotificationMessage) -> bool {
    &&& a.username@ == b.username@
    &&& a.channel@ == b.channel@
    &&& a.text@ == b.text@
    &&& opt_str_view(a.icon_url) == opt_str_view(b.icon_url)
    &&& opt_str_view(a.icon_emoji) == opt_str_view(b.icon_emoji)
}

/// Law: evaluation is a function of its inputs alone. Two message batches
/// produced from identical triggers, stats and settings are identical,
/// message for message: the registry of one cycle cannot suppress anything
/// in another.
pub proof fn lemma_cross_cycle_independence(
    m1: Seq<NotificationMessage>,
    m2: Seq<NotificationMessage>,
    ts: Seq<Trigger>,
    ss: Seq<QueueStat>,
    cfg: NotificationSettings,
)
    requires
        cycle_output_matches(m1, ts, ss, cfg),
        cycle_output_matches(m2, ts, ss, cfg),
    ensures
        m1.len() == m2.len(),
        forall|i: int| 0 <= i < m1.len() ==> msg_views_equal(#[trigger] m1[i], m2[i]),
{
}

/// Law: an empty trigger list yields no alerts, whatever the stats.
pub proof fn lemma_no_triggers_no_alerts(ss: Seq<QueueStat>)
    ensures
        spec_cycle_alerts(Seq::empty(), ss) == Seq::<Alert>::empty(),
{
}

proof fn lemma_eval_triggers_no_stats(
    ts: Seq<Trigger>,
    reg: Seq<(Seq<char>, Seq<char>)>,
    acc: Seq<Alert>,
)
    ensures
        eval_triggers(ts, Seq::empty(), reg, acc) == (acc, reg),
    decreases ts.len(),
{
    if ts.len() == 0 {
    } else {
        assert(eval_stats(ts[0], Seq::empty(), reg, acc) == (acc, reg));
        lemma_eval_triggers_no_stats(ts.drop_first(), reg, acc);
    }
}

/// Law: an empty stat list yields no alerts, whatever the triggers.
pub proof fn lemma_no_stats_no_alerts(ts: Seq<Trigger>)
    ensures
        spec_cycle_alerts(ts, Seq::empty()) == Seq::<Alert>::empty(),
{
    lemma_eval_triggers_no_stats(ts, Seq::empty(), Seq::empty());
}

} // verus!
