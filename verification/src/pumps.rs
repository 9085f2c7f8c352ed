//! Notification pumps: a device owns at most one.
use vstd::prelude::*;

use crate::command::{ActionView, CommandView, EffectView, InternalView};
use crate::machine::{
    command_spec, device_completed_spec, device_index, drain_spec, ensure_pump_spec,
    ensure_session_spec, failed_session, finish_pump_spec, internal_spec, remote_disconnect_spec,
    shutdown_spec, succeeded_session, validate_spec, with_session, CoreView, QueuedView,
    SessionView,
};

verus! {

/// Whether an effect starts a pump for device `d`.
pub open spec fn starts_pump(e: EffectView, d: Seq<char>) -> bool {
    e matches EffectView::StartNotificationPump { device, .. } && device == d
}

/// How many pumps for device `d` the effects start.
pub open spec fn pump_starts(effs: Seq<EffectView>, d: Seq<char>) -> nat
    decreases effs.len(),
{
    if effs.len() == 0 {
        0
    } else {
        pump_starts(effs.drop_last(), d) + if starts_pump(effs.last(), d) {
            1nat
        } else {
            0nat
        }
    }
}

/// Whether device `d` has a live pump.
pub open spec fn pump_live(s: CoreView, d: Seq<char>) -> bool {
    device_index(s, d) >= 0 && s.devices[device_index(s, d)].notification_active
}

proof fn lemma_starts_concat(a: Seq<EffectView>, b: Seq<EffectView>, d: Seq<char>)
    ensures
        pump_starts(a + b, d) == pump_starts(a, d) + pump_starts(b, d),
    decreases b.len(),
{
    if b.len() == 0 {
        assert(a + b =~= a);
    } else {
        assert((a + b).drop_last() =~= a + b.drop_last());
        lemma_starts_concat(a, b.drop_last(), d);
    }
}

proof fn lemma_starts_none(e: Seq<EffectView>, d: Seq<char>)
    requires
        forall|j: int| 0 <= j < e.len() ==> !starts_pump(#[trigger] e[j], d),
    ensures
        pump_starts(e, d) == 0,
    decreases e.len(),
{
    if e.len() > 0 {
        lemma_starts_none(e.drop_last(), d);
    }
}

/// What a pump start at session `i` does.
proof fn lemma_pump_starts(s: CoreView, i: int)
    requires
        0 <= i < s.devices.len(),
    ensures
        forall|d: Seq<char>| d != s.devices[i].device ==> pump_starts(#[trigger] ensure_pump_spec(s, i).1, d) == 0,
        pump_starts(ensure_pump_spec(s, i).1, s.devices[i].device) == if s.devices[i].notification_active {
            0nat
        } else {
            1nat
        },
        ensure_pump_spec(s, i).0.devices.len() == s.devices.len(),
        ensure_pump_spec(s, i).0.devices[i].notification_active,
        ensure_pump_spec(s, i).0.devices[i].device == s.devices[i].device,
        ensure_pump_spec(s, i).0.devices[i].pending == s.devices[i].pending,
        ensure_pump_spec(s, i).0.devices[i].in_flight == s.devices[i].in_flight,
        ensure_pump_spec(s, i).0.devices[i].subscriptions == s.devices[i].subscriptions,
        ensure_pump_spec(s, i).0.devices[i].state == s.devices[i].state,
        forall|m: int| 0 <= m < s.devices.len() && m != i ==> ensure_pump_spec(s, i).0.devices[m] == s.devices[m],
{
    let e = ensure_pump_spec(s, i).1;
    if s.devices[i].notification_active {
        assert forall|d: Seq<char>| pump_starts(#[trigger] ensure_pump_spec(s, i).1, d) == 0 by {
            lemma_starts_none(e, d);
        }
    } else {
        assert(e.drop_last() =~= Seq::<EffectView>::empty());
        assert forall|d: Seq<char>| d != s.devices[i].device implies pump_starts(#[trigger] ensure_pump_spec(s, i).1, d) == 0 by {
            assert(pump_starts(e.drop_last(), d) == 0);
        }
        assert(pump_starts(e.drop_last(), s.devices[i].device) == 0);
    }
}

/// Working through a queue starts at most one pump, only for the session's
/// own device, only while it has none, and only when it has subscriptions.
proof fn lemma_drain_pumps(s: CoreView, i: int)
    requires
        0 <= i < s.devices.len(),
    ensures
        forall|d: Seq<char>| d != s.devices[i].device ==> pump_starts(#[trigger] drain_spec(s, i).1, d) == 0,
        pump_starts(drain_spec(s, i).1, s.devices[i].device) <= 1,
        pump_starts(drain_spec(s, i).1, s.devices[i].device) == 1 ==> !s.devices[i].notification_active
            && s.devices[i].subscriptions.len() > 0,
        drain_spec(s, i).0.devices.len() == s.devices.len(),
        drain_spec(s, i).0.devices[i].device == s.devices[i].device,
        drain_spec(s, i).0.devices[i].notification_active == (s.devices[i].notification_active || pump_starts(
            drain_spec(s, i).1,
            s.devices[i].device,
        ) == 1),
        forall|m: int| 0 <= m < s.devices.len() && m != i ==> drain_spec(s, i).0.devices[m] == s.devices[m],
    decreases s.devices[i].pending.len(),
{
    reveal(drain_spec);
    let sess = s.devices[i];
    let dev = sess.device;
    let out = drain_spec(s, i);
    if sess.in_flight is Some || sess.pending.len() == 0 {
        assert forall|d: Seq<char>| pump_starts(#[trigger] drain_spec(s, i).1, d) == 0 by {
            lemma_starts_none(out.1, d);
        }
    } else {
        let q = sess.pending[0];
        let sess1 = SessionView { pending: sess.pending.drop_first(), ..sess };
        let s1 = with_session(s, i, sess1);
        match validate_spec(sess1, q.action) {
            Some(res) => {
                let restart = crate::machine::restarts_pump(sess1, q.action);
                let p = if restart {
                    ensure_pump_spec(s1, i)
                } else {
                    (s1, seq![])
                };
                if restart {
                    lemma_pump_starts(s1, i);
                }
                assert(p.0.devices[i].pending.len() < sess.pending.len());
                lemma_drain_pumps(p.0, i);
                let r = drain_spec(p.0, i);
                let ev = crate::machine::validation_event(q, dev, res);
                assert(out.1 == seq![ev] + p.1 + r.1);
                assert forall|d: Seq<char>| #[trigger] pump_starts(drain_spec(s, i).1, d) == pump_starts(p.1, d) + pump_starts(r.1, d) by {
                    lemma_starts_concat(seq![ev] + p.1, r.1, d);
                    lemma_starts_concat(seq![ev], p.1, d);
                    lemma_starts_none(seq![ev], d);
                    if !restart {
                        lemma_starts_none(p.1, d);
                    }
                }
                if restart {
                    assert(p.0.devices[i].notification_active);
                    assert(sess1.subscriptions.len() > 0) by {
                        if let ActionView::Subscribe(k) = q.action {
                            assert(sess1.subscriptions.contains(k));
                        }
                    }
                } else {
                    assert(pump_starts(p.1, dev) == 0) by {
                        lemma_starts_none(p.1, dev);
                    }
                }
                assert(p.0.devices[i].subscriptions == sess.subscriptions);
                assert forall|m: int| 0 <= m < s.devices.len() && m != i implies drain_spec(s, i).0.devices[m]
                    == s.devices[m] by {
                    assert(s1.devices[m] == s.devices[m]);
                    assert(p.0.devices[m] == s1.devices[m]);
                    assert(r.0.devices[m] == p.0.devices[m]);
                }
            },
            None => {
                assert forall|d: Seq<char>| pump_starts(#[trigger] drain_spec(s, i).1, d) == 0 by {
                    lemma_starts_none(out.1, d);
                }
            },
        }
    }
}

/// A command starts at most one pump per device, and only for a device that
/// has no live pump.
pub proof fn law_command_single_pump(s: CoreView, c: CommandView, d: Seq<char>)
    ensures
        pump_starts(command_spec(s, c).1, d) <= 1,
        pump_starts(command_spec(s, c).1, d) == 1 ==> !pump_live(s, d),
{
    let r = command_spec(s, c);
    match c {
        CommandView::Device { operation_id, device, action } => {
            if !s.initialized {
                lemma_starts_none(r.1, d);
            } else {
                let s1 = ensure_session_spec(s, device);
                crate::machine::lemma_session_index(s1.devices, device);
                crate::machine::lemma_session_index(s.devices, device);
                if device_index(s, device) < 0 {
                    assert(s1.devices[s1.devices.len() - 1].device == device);
                }
                let i = device_index(s1, device);
                let sess = s1.devices[i];
                if sess.pending.len() < crate::machine::DEVICE_QUEUE_CAPACITY {
                    let x = SessionView {
                        pending: sess.pending.push(QueuedView { operation_id, action }),
                        ..sess
                    };
                    lemma_drain_pumps(with_session(s1, i, x), i);
                    if d == device && pump_starts(r.1, d) == 1 {
                        assert(!x.notification_active);
                        if device_index(s, device) >= 0 {
                            assert(s1 == s);
                        }
                    }
                } else {
                    lemma_starts_none(r.1, d);
                }
            }
        },
        _ => {
            lemma_starts_none(r.1, d);
        },
    }
}

/// A result of background work starts at most one pump per device, and only
/// for a device that has no live pump.
pub proof fn law_result_single_pump(s: CoreView, e: InternalView, d: Seq<char>)
    ensures
        pump_starts(internal_spec(s, e).1, d) <= 1,
        pump_starts(internal_spec(s, e).1, d) == 1 ==> !pump_live(s, d),
{
    let r = internal_spec(s, e);
    match e {
        InternalView::DeviceCompleted { operation_id, device, generation, action, result } => {
            crate::machine::lemma_session_index(s.devices, device);
            let i = device_index(s, device);
            if i < 0 || !crate::machine::is_running(s.devices[i], operation_id, generation) {
                lemma_starts_none(r.1, d);
            } else {
                let sess = s.devices[i];
                match result {
                    Ok(data) => {
                        let x = succeeded_session(sess, action, data);
                        let s1 = with_session(s, i, x);
                        let pre = if action is Disconnect && sess.notification_active {
                            seq![EffectView::CancelNotificationPump { device }]
                        } else {
                            seq![]
                        };
                        let ev = r.1[pre.len() as int];
                        let p = if action is Subscribe {
                            ensure_pump_spec(s1, i)
                        } else {
                            (s1, seq![])
                        };
                        if action is Subscribe {
                            lemma_pump_starts(s1, i);
                        } else {
                            lemma_starts_none(p.1, d);
                        }
                        lemma_drain_pumps(p.0, i);
                        let q = drain_spec(p.0, i);
                        assert(r.1 =~= pre + seq![ev] + p.1 + q.1);
                        lemma_starts_concat(pre + seq![ev] + p.1, q.1, d);
                        lemma_starts_concat(pre + seq![ev], p.1, d);
                        lemma_starts_concat(pre, seq![ev], d);
                        lemma_starts_none(pre, d);
                        lemma_starts_none(seq![ev], d);
                        if d == device {
                            if action is Subscribe {
                                assert(p.0.devices[i].notification_active);
                            } else if action is Disconnect {
                                assert(x.subscriptions.len() == 0);
                            }
                        }
                    },
                    Err(_) => {
                        let x = failed_session(sess, action);
                        let s1 = with_session(s, i, x);
                        lemma_drain_pumps(s1, i);
                        let q = drain_spec(s1, i);
                        let ev = r.1[0];
                        assert(r.1 =~= seq![ev] + q.1);
                        lemma_starts_concat(seq![ev], q.1, d);
                        lemma_starts_none(seq![ev], d);
                    },
                }
            }
        },
        InternalView::Backend(Ok(crate::command::BackendEventView::Disconnected(dev))) => {
            let out = remote_disconnect_spec(s, dev);
            crate::machine::lemma_session_index(s.devices, dev);
            assert forall|j: int| 0 <= j < out.1.len() implies !starts_pump(#[trigger] out.1[j], d) by {
                let i = device_index(s, dev);
                if i >= 0 {
                    let pend = crate::machine::pending_cancellations(s.devices[i].pending, dev);
                    let k = out.1.len() - 1 - pend.len() - j;
                    if j < out.1.len() - 1 && j >= out.1.len() - 1 - pend.len() {
                        assert(out.1[j] == pend[j - (out.1.len() - 1 - pend.len())]);
                    }
                }
            }
            lemma_starts_none(out.1, d);
        },
        _ => {
            lemma_starts_none(r.1, d);
        },
    }
}

/// Shutdown starts no pump.
pub proof fn law_shutdown_starts_no_pump(s: CoreView, d: Seq<char>)
    ensures
        pump_starts(shutdown_spec(s).1, d) == 0,
{
    lemma_shutdown_effects_no_pump(s.devices, s.devices.len() as int, d);
    let e = shutdown_spec(s).1;
    let pre = (if s.scan.cancellation {
        seq![EffectView::CancelScanCancellation]
    } else {
        seq![]
    }) + (if s.scan.tracker.active is Some {
        seq![EffectView::StopScanNow]
    } else {
        seq![]
    });
    let mid = crate::machine::shutdown_effects(s.devices, s.devices.len() as int);
    assert(e =~= pre + mid + seq![EffectView::AbortAllTasks]);
    lemma_starts_concat(pre + mid, seq![EffectView::AbortAllTasks], d);
    lemma_starts_concat(pre, mid, d);
    lemma_starts_none(pre, d);
    lemma_starts_none(seq![EffectView::AbortAllTasks], d);
}

proof fn lemma_shutdown_effects_no_pump(devs: Seq<SessionView>, n: int, d: Seq<char>)
    ensures
        pump_starts(crate::machine::shutdown_effects(devs, n), d) == 0,
    decreases n,
{
    if n > 0 {
        lemma_shutdown_effects_no_pump(devs, n - 1, d);
        let one = crate::machine::shutdown_session(devs[n - 1]).1;
        lemma_starts_concat(crate::machine::shutdown_effects(devs, n - 1), one, d);
        lemma_starts_none(one, d);
    }
}

} // verus!
