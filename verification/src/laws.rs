//! Properties that hold across the core's steps.
use vstd::multiset::Multiset;
use vstd::prelude::*;

use crate::command::{CommandView, EffectView, InternalView};
use crate::event::OperationId;
use crate::machine::{
    active_generation, command_spec, device_command_spec, device_completed_spec, device_index,
    drain_spec, ensure_pump_spec, ensure_session_spec, finish_pump_spec, initialize_spec,
    internal_spec, pending_cancellations, queue_request_spec, remote_disconnect_spec,
    remotely_disconnected, scan_operation, scan_started_spec, scan_stopped_spec,
    spawn_scan_stop_spec, start_scan_spec, stop_scan_spec, with_session, CoreView, QueuedView,
    SessionView,
};

verus! {

broadcast use vstd::multiset::group_multiset_axioms;

// ------------------------------------------------------- open operations

/// The identities of a request queue.
pub open spec fn queue_ops(p: Seq<QueuedView>) -> Multiset<OperationId>
    decreases p.len(),
{
    if p.len() == 0 {
        Multiset::empty()
    } else {
        queue_ops(p.drop_first()).insert(p[0].operation_id)
    }
}

/// The identities a session owns: its running and its waiting requests.
pub open spec fn session_ops(sv: SessionView) -> Multiset<OperationId> {
    match sv.in_flight {
        Some(f) => queue_ops(sv.pending).insert(f.operation_id),
        None => queue_ops(sv.pending),
    }
}

/// The identities all sessions own.
pub open spec fn sessions_ops(devs: Seq<SessionView>) -> Multiset<OperationId>
    decreases devs.len(),
{
    if devs.len() == 0 {
        Multiset::empty()
    } else {
        sessions_ops(devs.drop_last()).add(session_ops(devs.last()))
    }
}

/// The operations the core has accepted and not yet ended: a running
/// initialization, the running scan, and every device request, running or
/// waiting.
pub open spec fn open_operations(s: CoreView) -> Multiset<OperationId> {
    let a = sessions_ops(s.devices);
    let b = match s.initializing {
        Some(op) => a.insert(op),
        None => a,
    };
    match s.scan.tracker.active {
        Some(x) => b.insert(x.operation_id),
        None => b,
    }
}

/// The identity an effect ends, if it is a terminal event.
pub open spec fn effect_terminal(e: EffectView) -> Multiset<OperationId> {
    match e {
        EffectView::Emit(ev) => if ev.terminal {
            Multiset::singleton(ev.operation_id)
        } else {
            Multiset::empty()
        },
        _ => Multiset::empty(),
    }
}

/// The identities that the terminal events among `effs` end.
pub open spec fn terminal_operations(effs: Seq<EffectView>) -> Multiset<OperationId>
    decreases effs.len(),
{
    if effs.len() == 0 {
        Multiset::empty()
    } else {
        terminal_operations(effs.drop_last()).add(effect_terminal(effs.last()))
    }
}

/// The fresh identity a command carries.
pub open spec fn command_operation(c: CommandView) -> OperationId {
    match c {
        CommandView::Initialize { operation_id } => operation_id,
        CommandView::StartScan { operation_id, .. } => operation_id,
        CommandView::StopScan { operation_id } => operation_id,
        CommandView::Device { operation_id, .. } => operation_id,
        CommandView::Shutdown => OperationId(0),
    }
}

/// A result of background work that matches the work the core started: an
/// initialization result answers the running initialization, and a scan
/// result of the running generation carries the running scan's identity.
pub open spec fn consistent(s: CoreView, e: InternalView) -> bool {
    match e {
        InternalView::Initialized { operation_id, .. } => s.initializing == Some(operation_id),
        InternalView::ScanStarted { operation_id, generation, .. } => active_generation(s) == Some(
            generation,
        ) ==> scan_operation(s) == operation_id,
        InternalView::ScanStopped { operation_id, generation, .. } => active_generation(s) == Some(
            generation,
        ) ==> scan_operation(s) == operation_id,
        _ => true,
    }
}

// ------------------------------------------------------------- lemmas

proof fn lemma_terminal_concat(a: Seq<EffectView>, b: Seq<EffectView>)
    ensures
        terminal_operations(a + b) == terminal_operations(a).add(terminal_operations(b)),
    decreases b.len(),
{
    if b.len() == 0 {
        assert(a + b =~= a);
        assert(terminal_operations(a).add(terminal_operations(b)) =~= terminal_operations(a));
    } else {
        assert((a + b).drop_last() =~= a + b.drop_last());
        lemma_terminal_concat(a, b.drop_last());
        assert(terminal_operations(a + b) =~= terminal_operations(a).add(terminal_operations(b)));
    }
}

proof fn lemma_terminal_silent(e: Seq<EffectView>)
    requires
        forall|j: int| 0 <= j < e.len() ==> effect_terminal(#[trigger] e[j]) =~= Multiset::empty(),
    ensures
        terminal_operations(e) =~= Multiset::empty(),
    decreases e.len(),
{
    if e.len() > 0 {
        lemma_terminal_silent(e.drop_last());
    }
}

proof fn lemma_terminal_one(x: EffectView)
    ensures
        terminal_operations(seq![x]) =~= effect_terminal(x),
{
    assert(seq![x].drop_last() =~= Seq::<EffectView>::empty());
    assert(terminal_operations(Seq::<EffectView>::empty()) =~= Multiset::empty());
    assert(seq![x].last() == x);
    assert(terminal_operations(seq![x]) == terminal_operations(seq![x].drop_last()).add(effect_terminal(x)));
}

proof fn lemma_queue_push(p: Seq<QueuedView>, q: QueuedView)
    ensures
        queue_ops(p.push(q)) =~= queue_ops(p).insert(q.operation_id),
    decreases p.len(),
{
    if p.len() == 0 {
        assert(p.push(q).drop_first() =~= p);
    } else {
        assert(p.push(q).drop_first() =~= p.drop_first().push(q));
        lemma_queue_push(p.drop_first(), q);
    }
}

proof fn lemma_cancellations(p: Seq<QueuedView>, d: Seq<char>)
    ensures
        terminal_operations(pending_cancellations(p, d)) =~= queue_ops(p),
    decreases p.len(),
{
    if p.len() > 0 {
        let init = p.drop_last();
        assert(pending_cancellations(p, d).drop_last() =~= pending_cancellations(init, d));
        lemma_cancellations(init, d);
        assert(init.push(p.last()) =~= p);
        lemma_queue_push(init, p.last());
    }
}

proof fn lemma_sessions_update(devs: Seq<SessionView>, i: int, x: SessionView)
    requires
        0 <= i < devs.len(),
    ensures
        sessions_ops(devs.update(i, x)).add(session_ops(devs[i])) =~= sessions_ops(devs).add(
            session_ops(x),
        ),
    decreases devs.len(),
{
    let n = devs.len() - 1;
    let u = devs.update(i, x);
    assert(sessions_ops(u) == sessions_ops(u.drop_last()).add(session_ops(u.last())));
    assert(sessions_ops(devs) == sessions_ops(devs.drop_last()).add(session_ops(devs.last())));
    if i == n {
        assert(u.drop_last() =~= devs.drop_last());
        assert(u.last() == x);
        assert(devs[i] == devs.last());
    } else {
        assert(u.drop_last() =~= devs.drop_last().update(i, x));
        assert(u.last() == devs.last());
        assert(devs[i] == devs.drop_last()[i]);
        lemma_sessions_update(devs.drop_last(), i, x);
        let a = sessions_ops(devs.drop_last().update(i, x));
        let b = sessions_ops(devs.drop_last());
        assert(a.add(session_ops(devs[i])) =~= b.add(session_ops(x)));
        assert forall|v: OperationId|
            #[trigger] sessions_ops(u).add(session_ops(devs[i])).count(v) == sessions_ops(devs).add(
                session_ops(x),
            ).count(v) by {
            assert(a.add(session_ops(devs[i])).count(v) == b.add(session_ops(x)).count(v));
        }
    }
}

proof fn lemma_sessions_push(devs: Seq<SessionView>, x: SessionView)
    ensures
        sessions_ops(devs.push(x)) =~= sessions_ops(devs).add(session_ops(x)),
{
    assert(devs.push(x).drop_last() =~= devs);
}

/// Replacing a session with one that owns the same identities keeps the
/// open operations.
proof fn lemma_with_session_same(s: CoreView, i: int, x: SessionView)
    requires
        0 <= i < s.devices.len(),
        session_ops(x) =~= session_ops(s.devices[i]),
    ensures
        open_operations(with_session(s, i, x)) =~= open_operations(s),
{
    lemma_with_session(s, i, x);
    assert forall|v: OperationId| #[trigger] open_operations(with_session(s, i, x)).count(v) == open_operations(s).count(v) by {
        assert(open_operations(with_session(s, i, x)).add(session_ops(s.devices[i])).count(v)
            == open_operations(s).add(session_ops(x)).count(v));
    }
}

/// Replacing a session changes the open operations by the difference of
/// what the two sessions own.
proof fn lemma_with_session(s: CoreView, i: int, x: SessionView)
    requires
        0 <= i < s.devices.len(),
    ensures
        open_operations(with_session(s, i, x)).add(session_ops(s.devices[i])) =~= open_operations(s).add(
            session_ops(x),
        ),
{
    lemma_sessions_update(s.devices, i, x);
    let a = sessions_ops(with_session(s, i, x).devices);
    let b = sessions_ops(s.devices);
    assert(with_session(s, i, x).devices == s.devices.update(i, x));
    assert forall|v: OperationId|
        #[trigger] open_operations(with_session(s, i, x)).add(session_ops(s.devices[i])).count(v)
            == open_operations(s).add(session_ops(x)).count(v) by {
        assert(a.add(session_ops(s.devices[i])).count(v) == b.add(session_ops(x)).count(v));
    }
}

proof fn lemma_pump_balance(s: CoreView, i: int)
    requires
        0 <= i < s.devices.len(),
    ensures
        open_operations(ensure_pump_spec(s, i).0) =~= open_operations(s),
        terminal_operations(ensure_pump_spec(s, i).1) =~= Multiset::empty(),
        ensure_pump_spec(s, i).0.devices.len() == s.devices.len(),
        ensure_pump_spec(s, i).0.devices[i].pending == s.devices[i].pending,
        ensure_pump_spec(s, i).0.devices[i].in_flight == s.devices[i].in_flight,
{
    let sess = s.devices[i];
    if !sess.notification_active {
        let x = SessionView {
            notification_active: true,
            notification_generation: crate::scan::wrapping_next(sess.notification_generation),
            ..sess
        };
        lemma_with_session_same(s, i, x);
        lemma_terminal_one(ensure_pump_spec(s, i).1[0]);
        assert(ensure_pump_spec(s, i).1 =~= seq![ensure_pump_spec(s, i).1[0]]);
    }
}

/// Working through a queue ends exactly the requests it answers at once:
/// what leaves the open operations is what the terminal events end.
proof fn lemma_drain_balance(s: CoreView, i: int)
    requires
        0 <= i < s.devices.len(),
    ensures
        open_operations(drain_spec(s, i).0).add(terminal_operations(drain_spec(s, i).1))
            =~= open_operations(s),
        drain_spec(s, i).0.devices.len() == s.devices.len(),
    decreases s.devices[i].pending.len(),
{
    reveal(drain_spec);
    let sess = s.devices[i];
    let out = drain_spec(s, i);
    if sess.in_flight is Some || sess.pending.len() == 0 {
        assert(out.1 =~= Seq::<EffectView>::empty());
        assert(terminal_operations(out.1) =~= Multiset::empty());
        assert(open_operations(out.0).add(terminal_operations(out.1)) =~= open_operations(s));
    } else {
        let q = sess.pending[0];
        let sess1 = SessionView { pending: sess.pending.drop_first(), ..sess };
        let s1 = with_session(s, i, sess1);
        lemma_with_session(s, i, sess1);
        assert(session_ops(sess) =~= session_ops(sess1).insert(q.operation_id));
        match crate::machine::validate_spec(sess1, q.action) {
            Some(res) => {
                let p = if crate::machine::restarts_pump(sess1, q.action) {
                    ensure_pump_spec(s1, i)
                } else {
                    (s1, seq![])
                };
                if crate::machine::restarts_pump(sess1, q.action) {
                    lemma_pump_balance(s1, i);
                } else {
                    assert(terminal_operations(p.1) =~= Multiset::empty());
                }
                assert(p.0.devices[i].pending.len() < sess.pending.len());
                lemma_drain_balance(p.0, i);
                let r = drain_spec(p.0, i);
                let ev = crate::machine::validation_event(q, sess.device, res);
                assert(out.1 == seq![ev] + p.1 + r.1);
                assert(out.0 == r.0);
                lemma_terminal_concat(seq![ev] + p.1, r.1);
                lemma_terminal_concat(seq![ev], p.1);
                lemma_terminal_one(ev);
                assert(effect_terminal(ev) =~= Multiset::singleton(q.operation_id));
                assert forall|v: OperationId|
                    #[trigger] open_operations(out.0).add(terminal_operations(out.1)).count(v)
                        == open_operations(s).count(v) by {
                    assert(open_operations(r.0).add(terminal_operations(r.1)).count(v)
                        == open_operations(p.0).count(v));
                    assert(open_operations(p.0).count(v) == open_operations(s1).count(v));
                    assert(open_operations(s1).add(session_ops(sess)).count(v) == open_operations(s).add(
                        session_ops(sess1),
                    ).count(v));
                }
            },
            None => {
                let sess2 = crate::machine::started_session(sess1, q);
                assert(session_ops(sess2) =~= session_ops(sess));
                lemma_with_session_same(s, i, sess2);
                lemma_terminal_silent(out.1);
                assert(open_operations(out.0).add(terminal_operations(out.1)) =~= open_operations(s));
            },
        }
    }
}

proof fn lemma_spawn_stop_balance(s: CoreView, a: crate::scan::ActiveScan, reason: Seq<char>)
    ensures
        open_operations(spawn_scan_stop_spec(s, a, reason).0) =~= open_operations(s),
        terminal_operations(spawn_scan_stop_spec(s, a, reason).1) =~= Multiset::empty(),
{
    lemma_terminal_silent(spawn_scan_stop_spec(s, a, reason).1);
}

proof fn lemma_stop_scan_balance(s: CoreView, op: OperationId, reason: Seq<char>)
    ensures
        open_operations(stop_scan_spec(s, op, reason).0) =~= open_operations(s),
        terminal_operations(stop_scan_spec(s, op, reason).1) =~= Multiset::empty(),
{
    lemma_terminal_silent(stop_scan_spec(s, op, reason).1);
}

// --------------------------------------------------------------- laws

/// Every operation that a command opens ends with exactly one terminal
/// event: after a command other than `stop_scan` and shutdown, the
/// operations still open together with those ended by the step's terminal
/// events are exactly the operations open before plus the command's own.
/// (`stop_scan` refers to the running scan and opens nothing; shutdown drops
/// all work without events.)
pub proof fn law_command_ends_or_opens(s: CoreView, c: CommandView)
    requires
        !(c is Shutdown),
        !(c is StopScan),
    ensures
        open_operations(command_spec(s, c).0).add(terminal_operations(command_spec(s, c).1))
            =~= open_operations(s).insert(command_operation(c)),
{
    let r = command_spec(s, c);
    match c {
        CommandView::Initialize { operation_id } => {
            if s.initialized || s.initializing is Some {
                assert(r.1 =~= seq![r.1[0]]);
                lemma_terminal_one(r.1[0]);
                assert(terminal_operations(r.1) =~= Multiset::singleton(operation_id));
            } else {
                lemma_terminal_silent(r.1);
            }
        },
        CommandView::StartScan { operation_id, timeout } => {
            if !s.initialized || s.scan.tracker.active is Some {
                assert(r.1 =~= seq![r.1[0]]);
                lemma_terminal_one(r.1[0]);
                assert(terminal_operations(r.1) =~= Multiset::singleton(operation_id));
            } else {
                lemma_terminal_silent(r.1);
            }
        },
        CommandView::Device { operation_id, device, action } => {
            if !s.initialized {
                assert(r.1 =~= seq![r.1[0]]);
                lemma_terminal_one(r.1[0]);
                assert(terminal_operations(r.1) =~= Multiset::singleton(operation_id));
            } else {
                let s1 = ensure_session_spec(s, device);
                if device_index(s, device) < 0 {
                    lemma_sessions_push(s.devices, crate::machine::default_session(device));
                    assert(queue_ops(Seq::<QueuedView>::empty()) =~= Multiset::empty());
                    assert(session_ops(crate::machine::default_session(device)) =~= Multiset::empty());
                }
                assert(open_operations(s1) =~= open_operations(s));
                crate::machine::lemma_session_index(s1.devices, device);
                let i = device_index(s1, device);
                let sess = s1.devices[i];
                if sess.pending.len() >= crate::machine::DEVICE_QUEUE_CAPACITY {
                    assert(r.1 =~= seq![r.1[0]]);
                    lemma_terminal_one(r.1[0]);
                    assert(terminal_operations(r.1) =~= Multiset::singleton(operation_id));
                    assert(r.0 == s1);
                } else {
                    let q = QueuedView { operation_id, action };
                    let x = SessionView { pending: sess.pending.push(q), ..sess };
                    let s2 = with_session(s1, i, x);
                    lemma_with_session(s1, i, x);
                    lemma_queue_push(sess.pending, q);
                    assert(session_ops(x) =~= session_ops(sess).insert(operation_id));
                    lemma_drain_balance(s2, i);
                    assert(r == drain_spec(s2, i));
                    assert forall|v: OperationId|
                        #[trigger] open_operations(r.0).add(terminal_operations(r.1)).count(v)
                            == open_operations(s).insert(operation_id).count(v) by {
                        assert(open_operations(r.0).add(terminal_operations(r.1)).count(v)
                            == open_operations(s2).count(v));
                        assert(open_operations(s2).add(session_ops(sess)).count(v) == open_operations(
                            s1,
                        ).add(session_ops(x)).count(v));
                    }
                }
            }
        },
        _ => {},
    }
}


proof fn lemma_remote_disconnect_balance(s: CoreView, d: Seq<char>)
    ensures
        open_operations(remote_disconnect_spec(s, d).0).add(
            terminal_operations(remote_disconnect_spec(s, d).1),
        ) =~= open_operations(s),
{
    let r = remote_disconnect_spec(s, d);
    let i = device_index(s, d);
    crate::machine::lemma_session_index(s.devices, d);
    if i < 0 {
        lemma_terminal_one(r.1[0]);
        assert(r.1 =~= seq![r.1[0]]);
    } else {
        let sess = s.devices[i];
        let x = remotely_disconnected(sess);
        lemma_with_session(s, i, x);
        assert(queue_ops(Seq::<QueuedView>::empty()) =~= Multiset::empty());
        assert(session_ops(x) =~= Multiset::empty());
        let received = r.1.last();
        let abort = if sess.in_flight is Some {
            seq![EffectView::AbortDeviceAction { device: d }]
        } else {
            seq![]
        };
        let cancel = if sess.notification_active {
            seq![EffectView::CancelNotificationPump { device: d }]
        } else {
            seq![]
        };
        let running = match sess.in_flight {
            Some(f) => seq![
                crate::machine::emit(
                    crate::event::failed_view(
                        crate::command::action_operation(f.action),
                        f.operation_id,
                        crate::command::action_context(f.action, d),
                        crate::machine::remote_cancel(),
                    ),
                ),
            ],
            None => seq![],
        };
        let cancels = pending_cancellations(sess.pending, d);
        assert(r.1 =~= abort + cancel + running + cancels + seq![received]);
        lemma_terminal_concat(abort + cancel + running + cancels, seq![received]);
        lemma_terminal_concat(abort + cancel + running, cancels);
        lemma_terminal_concat(abort + cancel, running);
        lemma_terminal_silent(abort + cancel);
        lemma_terminal_one(received);
        lemma_cancellations(sess.pending, d);
        match sess.in_flight {
            Some(f) => {
                lemma_terminal_one(running[0]);
                assert(running =~= seq![running[0]]);
            },
            None => {},
        }
        assert(terminal_operations(r.1) =~= session_ops(sess));
        assert forall|v: OperationId|
            #[trigger] open_operations(r.0).add(terminal_operations(r.1)).count(v)
                == open_operations(s).count(v) by {
            assert(open_operations(r.0).add(session_ops(sess)).count(v) == open_operations(s).add(
                session_ops(x),
            ).count(v));
        }
    }
}

proof fn lemma_finish_pump_balance(s: CoreView, d: Seq<char>, g: u64)
    ensures
        open_operations(finish_pump_spec(s, d, g).0) =~= open_operations(s),
        terminal_operations(finish_pump_spec(s, d, g).1) =~= Multiset::empty(),
{
    crate::machine::lemma_session_index(s.devices, d);
    let i = device_index(s, d);
    if i >= 0 && s.devices[i].notification_generation == g {
        lemma_with_session_same(s, i, SessionView { notification_active: false, ..s.devices[i] });
    }
    lemma_terminal_silent(finish_pump_spec(s, d, g).1);
}

proof fn lemma_device_completed_balance(
    s: CoreView,
    op: OperationId,
    d: Seq<char>,
    g: u64,
    a: crate::command::ActionView,
    result: Result<crate::event::EventDataView, crate::types::BleErrorView>,
)
    ensures
        open_operations(device_completed_spec(s, op, d, g, a, result).0).add(
            terminal_operations(device_completed_spec(s, op, d, g, a, result).1),
        ) =~= open_operations(s),
{
    let out = device_completed_spec(s, op, d, g, a, result);
    crate::machine::lemma_session_index(s.devices, d);
    let i = device_index(s, d);
    if i < 0 || !crate::machine::is_running(s.devices[i], op, g) {
        assert(terminal_operations(out.1) =~= Multiset::empty());
    } else {
        let sess = s.devices[i];
        match result {
            Ok(data) => {
                let x = crate::machine::succeeded_session(sess, a, data);
                assert(session_ops(sess) =~= session_ops(x).insert(op));
                let s1 = with_session(s, i, x);
                lemma_with_session(s, i, x);
                let pre = if a is Disconnect && sess.notification_active {
                    seq![EffectView::CancelNotificationPump { device: d }]
                } else {
                    seq![]
                };
                let ev = crate::machine::emit(
                    crate::event::succeeded_view(
                        crate::command::action_operation(a),
                        op,
                        crate::command::action_context(a, d),
                        data,
                    ),
                );
                let p = if a is Subscribe {
                    ensure_pump_spec(s1, i)
                } else {
                    (s1, seq![])
                };
                if a is Subscribe {
                    lemma_pump_balance(s1, i);
                } else {
                    assert(terminal_operations(p.1) =~= Multiset::empty());
                }
                lemma_drain_balance(p.0, i);
                let r = drain_spec(p.0, i);
                assert(out.1 == pre + seq![ev] + p.1 + r.1);
                lemma_terminal_concat(pre + seq![ev] + p.1, r.1);
                lemma_terminal_concat(pre + seq![ev], p.1);
                lemma_terminal_concat(pre, seq![ev]);
                lemma_terminal_silent(pre);
                lemma_terminal_one(ev);
                assert forall|v: OperationId|
                    #[trigger] open_operations(out.0).add(terminal_operations(out.1)).count(v)
                        == open_operations(s).count(v) by {
                    assert(open_operations(r.0).add(terminal_operations(r.1)).count(v)
                        == open_operations(p.0).count(v));
                    assert(open_operations(s1).add(session_ops(sess)).count(v) == open_operations(
                        s,
                    ).add(session_ops(x)).count(v));
                }
            },
            Err(e) => {
                let x = crate::machine::failed_session(sess, a);
                assert(session_ops(sess) =~= session_ops(x).insert(op));
                let s1 = with_session(s, i, x);
                lemma_with_session(s, i, x);
                lemma_drain_balance(s1, i);
                let r = drain_spec(s1, i);
                let ev = out.1[0];
                assert(out.1 =~= seq![ev] + r.1);
                lemma_terminal_concat(seq![ev], r.1);
                lemma_terminal_one(ev);
                assert forall|v: OperationId|
                    #[trigger] open_operations(out.0).add(terminal_operations(out.1)).count(v)
                        == open_operations(s).count(v) by {
                    assert(open_operations(r.0).add(terminal_operations(r.1)).count(v)
                        == open_operations(s1).count(v));
                    assert(open_operations(s1).add(session_ops(sess)).count(v) == open_operations(
                        s,
                    ).add(session_ops(x)).count(v));
                }
            },
        }
    }
}

/// Results of background work end only operations that were open, each at
/// most once: for a result consistent with the work the core started, the
/// operations still open together with those ended by the step's terminal
/// events are exactly the operations open before.
pub proof fn law_internal_ends_only_open(s: CoreView, e: InternalView)
    requires
        consistent(s, e),
    ensures
        open_operations(internal_spec(s, e).0).add(terminal_operations(internal_spec(s, e).1))
            =~= open_operations(s),
{
    let r = internal_spec(s, e);
    match e {
        InternalView::Initialized { operation_id, result } => {
            assert(r.1.len() >= 1);
            lemma_terminal_one(r.1[0]);
            match result {
                Ok(_) => {
                    assert(r.1 =~= seq![r.1[0]] + seq![r.1[1]]);
                    lemma_terminal_concat(seq![r.1[0]], seq![r.1[1]]);
                    lemma_terminal_one(r.1[1]);
                },
                Err(_) => {
                    assert(r.1 =~= seq![r.1[0]]);
                },
            }
            assert(terminal_operations(r.1) =~= Multiset::singleton(operation_id));
        },
        InternalView::Backend(b) => {
            match b {
                Ok(crate::command::BackendEventView::Disconnected(d)) => {
                    lemma_remote_disconnect_balance(s, d);
                },
                _ => {
                    lemma_terminal_silent(r.1);
                    crate::machine::lemma_session_index(s.devices, Seq::empty());
                },
            }
        },
        InternalView::ScanStarted { operation_id, generation, result } => {
            if active_generation(s) == Some(generation) {
                match result {
                    Ok(_) => {
                        let s1 = CoreView {
                            scan: crate::machine::ScanRuntimeView {
                                status: crate::machine::ScanStatus::Scanning,
                                ..s.scan
                            },
                            ..s
                        };
                        let a = s1.scan.tracker.active.unwrap();
                        if s1.scan.stop_requested {
                            lemma_spawn_stop_balance(s1, a, "stopped"@);
                            let e1 = seq![r.1[0]];
                            assert(r.1 =~= e1 + spawn_scan_stop_spec(s1, a, "stopped"@).1);
                            lemma_terminal_concat(e1, spawn_scan_stop_spec(s1, a, "stopped"@).1);
                            lemma_terminal_one(r.1[0]);
                        } else {
                            lemma_terminal_silent(r.1);
                        }
                    },
                    Err(_) => {
                        assert(r.1 =~= seq![r.1[0]] + seq![r.1[1]]);
                        lemma_terminal_concat(seq![r.1[0]], seq![r.1[1]]);
                        lemma_terminal_one(r.1[0]);
                        lemma_terminal_one(r.1[1]);
                    },
                }
            } else {
                lemma_terminal_silent(r.1);
            }
        },
        InternalView::ScanTimedOut { generation } => {
            match s.scan.tracker.active {
                Some(a) => {
                    if a.generation == generation {
                        lemma_stop_scan_balance(s, a.operation_id, "timeout"@);
                    } else {
                        lemma_terminal_silent(r.1);
                    }
                },
                None => {
                    lemma_terminal_silent(r.1);
                },
            }
        },
        InternalView::ScanStopped { operation_id, generation, reason, result } => {
            if active_generation(s) == Some(generation) {
                assert(r.1 =~= seq![r.1[0]] + seq![r.1[1]]);
                lemma_terminal_concat(seq![r.1[0]], seq![r.1[1]]);
                lemma_terminal_one(r.1[0]);
                lemma_terminal_one(r.1[1]);
            } else {
                lemma_terminal_silent(r.1);
            }
        },
        InternalView::DeviceCompleted { operation_id, device, generation, action, result } => {
            lemma_device_completed_balance(s, operation_id, device, generation, action, result);
        },
        InternalView::Notification { device, characteristic_uuid, value } => {
            lemma_terminal_silent(r.1);
        },
        InternalView::NotificationPumpFailed { device, generation, error } => {
            lemma_finish_pump_balance(s, device, generation);
            let f = finish_pump_spec(s, device, generation);
            assert(r.1 =~= f.1 + seq![r.1.last()]);
            lemma_terminal_concat(f.1, seq![r.1.last()]);
            lemma_terminal_one(r.1.last());
        },
        InternalView::NotificationPumpEnded { device, generation } => {
            lemma_finish_pump_balance(s, device, generation);
        },
    }
}

/// `stop_scan` ends nothing at once and opens nothing: the scan's terminal
/// event comes when the backend has stopped.
pub proof fn law_stop_scan_opens_nothing(s: CoreView, op: OperationId)
    ensures
        open_operations(command_spec(s, CommandView::StopScan { operation_id: op }).0)
            =~= open_operations(s),
        terminal_operations(command_spec(s, CommandView::StopScan { operation_id: op }).1)
            =~= Multiset::empty(),
{
    lemma_stop_scan_balance(s, op, "stopped"@);
}

} // verus!
