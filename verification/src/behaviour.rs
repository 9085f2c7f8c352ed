//! Promises of the core about single kinds of step.
use vstd::prelude::*;

use core::time::Duration;

use crate::command::{ActionView, CommandView, EffectView};
use crate::event::{failed_view, empty_context, succeeded_view, EventDataView, Operation, OperationId};
use crate::machine::{
    command_spec, device_completed_spec, device_index, drain_spec, ensure_pump_spec,
    ensure_session_spec, initialize_spec, remote_disconnect_spec, scan_stopped_spec,
    start_scan_spec, with_session, ConnectionState, CoreView, QueuedView, SessionView,
};
use crate::scan::ScanGeneration;
use crate::types::BleErrorView;

verus! {

/// Working through a queue takes requests from its front only, keeps the
/// device's session in place, and never makes the device connected.
proof fn lemma_drain_front(s: CoreView, i: int)
    requires
        0 <= i < s.devices.len(),
    ensures
        exists|k: int|
            0 <= k <= s.devices[i].pending.len() && drain_spec(s, i).0.devices[i].pending
                == #[trigger] s.devices[i].pending.skip(k),
        drain_spec(s, i).0.devices.len() == s.devices.len(),
        drain_spec(s, i).0.devices[i].device == s.devices[i].device,
        drain_spec(s, i).0.devices[i].state == ConnectionState::Connected ==> s.devices[i].state
            == ConnectionState::Connected,
    decreases s.devices[i].pending.len(),
{
    reveal(drain_spec);
    let sess = s.devices[i];
    if sess.in_flight is Some || sess.pending.len() == 0 {
        assert(sess.pending.skip(0) =~= sess.pending);
    } else {
        let q = sess.pending[0];
        let sess1 = SessionView { pending: sess.pending.drop_first(), ..sess };
        let s1 = with_session(s, i, sess1);
        match crate::machine::validate_spec(sess1, q.action) {
            Some(_) => {
                let p = if crate::machine::restarts_pump(sess1, q.action) {
                    ensure_pump_spec(s1, i)
                } else {
                    (s1, seq![])
                };
                assert(p.0.devices[i].pending == sess1.pending);
                assert(p.0.devices[i].state == sess.state);
                lemma_drain_front(p.0, i);
                let k = choose|k: int|
                    0 <= k <= sess1.pending.len() && drain_spec(p.0, i).0.devices[i].pending
                        == #[trigger] sess1.pending.skip(k);
                assert(sess1.pending.skip(k) =~= sess.pending.skip(k + 1));
                assert(drain_spec(s, i).0.devices[i].pending == sess.pending.skip(k + 1));
            },
            None => {
                assert(sess1.pending =~= sess.pending.skip(1));
                assert(drain_spec(s, i).0.devices[i].pending == sess.pending.skip(1));
            },
        }
    }
}

/// `after` is `queue` with a prefix removed.
pub open spec fn taken_from_front(after: Seq<QueuedView>, queue: Seq<QueuedView>) -> bool {
    exists|k: int| 0 <= k <= queue.len() && after == #[trigger] queue.skip(k)
}

/// The queue of device `d` once a request has been offered to it: the old
/// queue followed by the request, or the old queue when it is full.
pub open spec fn offered_queue(s: CoreView, op: OperationId, d: Seq<char>, a: ActionView) -> Seq<QueuedView> {
    let s1 = ensure_session_spec(s, d);
    let before = s1.devices[device_index(s1, d)].pending;
    if before.len() >= crate::machine::DEVICE_QUEUE_CAPACITY {
        before
    } else {
        before.push(QueuedView { operation_id: op, action: a })
    }
}

/// Device requests are executed in submission order: a request joins the
/// back of its device's queue, and a step only takes requests from the front,
/// so the queue after the step is the queue before, followed by the new
/// request, with a prefix removed.
pub proof fn law_device_requests_in_order(s: CoreView, op: OperationId, d: Seq<char>, a: ActionView)
    requires
        s.initialized,
    ensures
        taken_from_front(
            command_spec(s, CommandView::Device { operation_id: op, device: d, action: a }).0.devices[device_index(
                ensure_session_spec(s, d),
                d,
            )].pending,
            offered_queue(s, op, d, a),
        ),
{
    let s1 = ensure_session_spec(s, d);
    crate::machine::lemma_session_index(s1.devices, d);
    crate::machine::lemma_session_index(s.devices, d);
    if device_index(s, d) < 0 {
        assert(s1.devices[s1.devices.len() - 1].device == d);
    }
    let i = device_index(s1, d);
    let sess = s1.devices[i];
    let queue = offered_queue(s, op, d, a);
    let r = command_spec(s, CommandView::Device { operation_id: op, device: d, action: a }).0;
    if sess.pending.len() >= crate::machine::DEVICE_QUEUE_CAPACITY {
        assert(queue.skip(0) =~= queue);
        assert(r == s1);
        assert(r.devices[i].pending == queue.skip(0));
    } else {
        let x = SessionView { pending: queue, ..sess };
        let s2 = with_session(s1, i, x);
        lemma_drain_front(s2, i);
        assert(r == drain_spec(s2, i).0);
        let k = choose|k: int|
            0 <= k <= x.pending.len() && drain_spec(s2, i).0.devices[i].pending == #[trigger] x.pending.skip(k);
        assert(r.devices[i].pending == queue.skip(k));
    }
}

/// A failed connect never leaves the device connected: when the running
/// connect of a device fails, the device is not connected after the step.
pub proof fn law_failed_connect_not_connected(
    s: CoreView,
    op: OperationId,
    d: Seq<char>,
    g: u64,
    e: BleErrorView,
)
    requires
        device_index(s, d) >= 0,
        crate::machine::is_running(s.devices[device_index(s, d)], op, g),
    ensures
        ({
            let s2 = device_completed_spec(s, op, d, g, ActionView::Connect, Err(e)).0;
            s2.devices[device_index(s, d)].state != ConnectionState::Connected
        }),
{
    crate::machine::lemma_session_index(s.devices, d);
    let i = device_index(s, d);
    let x = crate::machine::failed_session(s.devices[i], ActionView::Connect);
    lemma_drain_front(with_session(s, i, x), i);
}

/// A remote disconnect clears the device at once: it is disconnected, has no
/// running or waiting request, no subscription and no live pump.
pub proof fn law_remote_disconnect_clears(s: CoreView, d: Seq<char>)
    requires
        device_index(s, d) >= 0,
    ensures
        ({
            let sv = remote_disconnect_spec(s, d).0.devices[device_index(s, d)];
            &&& sv.state == ConnectionState::Disconnected
            &&& sv.in_flight is None
            &&& sv.pending.len() == 0
            &&& sv.subscriptions.len() == 0
            &&& !sv.notification_active
            &&& sv.generation == crate::scan::wrapping_next(s.devices[device_index(s, d)].generation)
        }),
{
    crate::machine::lemma_session_index(s.devices, d);
}

/// The identities of the cancelled terminal events among `effs`, in order.
pub open spec fn cancelled_ids(effs: Seq<EffectView>) -> Seq<OperationId>
    decreases effs.len(),
{
    if effs.len() == 0 {
        seq![]
    } else {
        cancelled_ids(effs.drop_last()) + match effs.last() {
            EffectView::Emit(ev) => if ev.terminal && ev.phase == crate::event::Phase::Cancelled {
                seq![ev.operation_id]
            } else {
                seq![]
            },
            _ => seq![],
        }
    }
}

/// The identities of a request queue, in order.
pub open spec fn queued_ids(p: Seq<QueuedView>) -> Seq<OperationId> {
    Seq::new(p.len(), |j: int| p[j].operation_id)
}

proof fn lemma_cancelled_single(e: EffectView)
    ensures
        cancelled_ids(seq![e]) == match e {
            EffectView::Emit(ev) => if ev.terminal && ev.phase == crate::event::Phase::Cancelled {
                seq![ev.operation_id]
            } else {
                Seq::<OperationId>::empty()
            },
            _ => Seq::<OperationId>::empty(),
        },
{
    assert(seq![e].drop_last() =~= Seq::<EffectView>::empty());
    assert(seq![e].last() == e);
    reveal_with_fuel(cancelled_ids, 2);
    assert(cancelled_ids(seq![e]) =~= cancelled_ids(Seq::<EffectView>::empty()) + match e {
        EffectView::Emit(ev) => if ev.terminal && ev.phase == crate::event::Phase::Cancelled {
            seq![ev.operation_id]
        } else {
            seq![]
        },
        _ => seq![],
    });
}

proof fn lemma_cancelled_concat(a: Seq<EffectView>, b: Seq<EffectView>)
    ensures
        cancelled_ids(a + b) == cancelled_ids(a) + cancelled_ids(b),
    decreases b.len(),
{
    if b.len() == 0 {
        assert(a + b =~= a);
        assert(cancelled_ids(a) + cancelled_ids(b) =~= cancelled_ids(a));
    } else {
        assert((a + b).drop_last() =~= a + b.drop_last());
        lemma_cancelled_concat(a, b.drop_last());
        assert(cancelled_ids(a + b) =~= cancelled_ids(a) + cancelled_ids(b));
    }
}

proof fn lemma_pending_cancelled(p: Seq<QueuedView>, d: Seq<char>)
    ensures
        cancelled_ids(crate::machine::pending_cancellations(p, d)) == queued_ids(p),
    decreases p.len(),
{
    let pc = crate::machine::pending_cancellations(p, d);
    if p.len() == 0 {
        assert(queued_ids(p) =~= Seq::<OperationId>::empty());
    } else {
        lemma_pending_cancelled(p.drop_last(), d);
        assert(pc.drop_last() =~= crate::machine::pending_cancellations(p.drop_last(), d));
        assert(queued_ids(p) =~= queued_ids(p.drop_last()).push(p.last().operation_id));
        assert(cancelled_ids(pc) =~= queued_ids(p));
    }
}

/// A remote disconnect cancels the device's work in order: the running
/// request first, then each waiting request in queue order, each with one
/// cancelled terminal event, and ends with the unsolicited `disconnect` /
/// `received` event. A device without a session gets that event alone.
pub proof fn law_remote_disconnect_cancels_in_order(s: CoreView, d: Seq<char>)
    ensures
        remote_disconnect_spec(s, d).1.len() > 0,
        remote_disconnect_spec(s, d).1.last() == crate::machine::emit(
            crate::event::received_view(
                Operation::Disconnect,
                crate::event::device_context(d),
                EventDataView::Reason("remote"@),
            ),
        ),
        crate::event::received_view(
            Operation::Disconnect,
            crate::event::device_context(d),
            EventDataView::Reason("remote"@),
        ).operation_id == OperationId(0),
        cancelled_ids(remote_disconnect_spec(s, d).1) == if device_index(s, d) >= 0 {
            let sess = s.devices[device_index(s, d)];
            match sess.in_flight {
                Some(f) => seq![f.operation_id] + queued_ids(sess.pending),
                None => queued_ids(sess.pending),
            }
        } else {
            Seq::<OperationId>::empty()
        },
{
    crate::machine::lemma_session_index(s.devices, d);
    let received = crate::machine::emit(
        crate::event::received_view(Operation::Disconnect, crate::event::device_context(d), EventDataView::Reason("remote"@)),
    );
    let i = device_index(s, d);
    if i < 0 {
        lemma_cancelled_single(received);
    } else {
        let sess = s.devices[i];
        let abort = if sess.in_flight is Some {
            seq![EffectView::AbortDeviceAction { device: d }]
        } else {
            seq![]
        };
        let cancel = if sess.notification_active {
            seq![EffectView::CancelNotificationPump { device: d }]
        } else {
            seq![]
        };
        let running = match sess.in_flight {
            Some(f) => seq![
                crate::machine::emit(
                    failed_view(
                        crate::command::action_operation(f.action),
                        f.operation_id,
                        crate::command::action_context(f.action, d),
                        crate::machine::remote_cancel(),
                    ),
                ),
            ],
            None => seq![],
        };
        let pc = crate::machine::pending_cancellations(sess.pending, d);
        assert(remote_disconnect_spec(s, d).1 == abort + cancel + running + pc + seq![received]);
        lemma_cancelled_concat(abort + cancel + running + pc, seq![received]);
        lemma_cancelled_concat(abort + cancel + running, pc);
        lemma_cancelled_concat(abort + cancel, running);
        lemma_cancelled_concat(abort, cancel);
        lemma_pending_cancelled(sess.pending, d);
        if sess.in_flight is Some {
            lemma_cancelled_single(EffectView::AbortDeviceAction { device: d });
        }
        if sess.notification_active {
            lemma_cancelled_single(EffectView::CancelNotificationPump { device: d });
        }
        lemma_cancelled_single(received);
        match sess.in_flight {
            Some(f) => {
                lemma_cancelled_single(running[0]);
                assert(running == seq![running[0]]);
            },
            None => {},
        }
        assert(cancelled_ids(remote_disconnect_spec(s, d).1) =~= cancelled_ids(running) + queued_ids(
            sess.pending,
        ));
    }
}

/// A result for a request that is no longer running is ignored: with no
/// session for the device, or a running request of another identity or
/// generation, nothing changes and nothing is published or started.
pub proof fn law_stale_completion_ignored(
    s: CoreView,
    op: OperationId,
    d: Seq<char>,
    g: u64,
    a: ActionView,
    result: Result<EventDataView, BleErrorView>,
)
    requires
        device_index(s, d) < 0 || !crate::machine::is_running(s.devices[device_index(s, d)], op, g),
    ensures
        device_completed_spec(s, op, d, g, a, result) == (s, Seq::<EffectView>::empty()),
{
}

/// The identities of the terminal events among `effs`, in order.
pub open spec fn terminal_ids(effs: Seq<EffectView>) -> Seq<OperationId>
    decreases effs.len(),
{
    if effs.len() == 0 {
        seq![]
    } else {
        terminal_ids(effs.drop_last()) + match effs.last() {
            EffectView::Emit(ev) => if ev.terminal {
                seq![ev.operation_id]
            } else {
                seq![]
            },
            _ => seq![],
        }
    }
}

proof fn lemma_terminal_ids_concat(a: Seq<EffectView>, b: Seq<EffectView>)
    ensures
        terminal_ids(a + b) == terminal_ids(a) + terminal_ids(b),
    decreases b.len(),
{
    if b.len() == 0 {
        assert(a + b =~= a);
        assert(terminal_ids(a) + terminal_ids(b) =~= terminal_ids(a));
    } else {
        assert((a + b).drop_last() =~= a + b.drop_last());
        lemma_terminal_ids_concat(a, b.drop_last());
        assert(terminal_ids(a + b) =~= terminal_ids(a) + terminal_ids(b));
    }
}

proof fn lemma_terminal_ids_single(e: EffectView)
    ensures
        terminal_ids(seq![e]) == match e {
            EffectView::Emit(ev) => if ev.terminal {
                seq![ev.operation_id]
            } else {
                Seq::<OperationId>::empty()
            },
            _ => Seq::<OperationId>::empty(),
        },
{
    assert(seq![e].drop_last() =~= Seq::<EffectView>::empty());
    assert(seq![e].last() == e);
    reveal_with_fuel(terminal_ids, 2);
    assert(terminal_ids(seq![e]) =~= terminal_ids(Seq::<EffectView>::empty()) + match e {
        EffectView::Emit(ev) => if ev.terminal {
            seq![ev.operation_id]
        } else {
            seq![]
        },
        _ => seq![],
    });
}

/// How a step through a device's queue left it: `k` requests were answered
/// at once, each with its terminal event in queue order, and either the
/// queue stopped there or the next request was started and now runs.
pub open spec fn queue_step(before: SessionView, after: SessionView, effs: Seq<EffectView>, k: int) -> bool {
    &&& 0 <= k <= before.pending.len()
    &&& terminal_ids(effs) == queued_ids(before.pending.take(k))
    &&& {
        ||| after.pending == before.pending.skip(k) && after.in_flight == before.in_flight
        ||| {
            &&& k < before.pending.len()
            &&& after.pending == before.pending.skip(k + 1)
            &&& before.in_flight is None
            &&& (after.in_flight matches Some(f) && f.operation_id == before.pending[k].operation_id)
        }
    }
}

/// Working through a device's queue: while a request runs nothing happens.
/// Otherwise requests are taken from the front in order; each answered at
/// once gets exactly one terminal event, in queue order; the first that
/// needs the backend becomes the one running request, and the rest of the
/// queue keeps its order.
pub proof fn law_queue_step(s: CoreView, i: int)
    requires
        0 <= i < s.devices.len(),
    ensures
        s.devices[i].in_flight is Some ==> drain_spec(s, i) == (s, Seq::<EffectView>::empty()),
        exists|k: int| queue_step(s.devices[i], drain_spec(s, i).0.devices[i], drain_spec(s, i).1, k),
    decreases s.devices[i].pending.len(),
{
    reveal(drain_spec);
    let sess = s.devices[i];
    let out = drain_spec(s, i);
    if sess.in_flight is Some || sess.pending.len() == 0 {
        assert(sess.pending.skip(0) =~= sess.pending);
        assert(queued_ids(sess.pending.take(0)) =~= Seq::<OperationId>::empty());
        assert(queue_step(sess, out.0.devices[i], out.1, 0));
    } else {
        let q = sess.pending[0];
        let sess1 = SessionView { pending: sess.pending.drop_first(), ..sess };
        let s1 = with_session(s, i, sess1);
        match crate::machine::validate_spec(sess1, q.action) {
            Some(res) => {
                let restart = crate::machine::restarts_pump(sess1, q.action);
                let p = if restart {
                    ensure_pump_spec(s1, i)
                } else {
                    (s1, seq![])
                };
                assert(p.0.devices[i].pending == sess1.pending);
                assert(p.0.devices[i].in_flight == sess.in_flight);
                law_queue_step(p.0, i);
                lemma_drain_front(p.0, i);
                let r = drain_spec(p.0, i);
                let k = choose|k: int| queue_step(p.0.devices[i], r.0.devices[i], r.1, k);
                let ev = crate::machine::validation_event(q, sess.device, res);
                assert(out.1 == seq![ev] + p.1 + r.1);
                lemma_terminal_ids_concat(seq![ev] + p.1, r.1);
                lemma_terminal_ids_concat(seq![ev], p.1);
                lemma_terminal_ids_single(ev);
                if restart {
                    lemma_terminal_ids_single(p.1[0]);
                    assert(p.1 == seq![p.1[0]]);
                } else {
                    assert(terminal_ids(p.1) =~= Seq::<OperationId>::empty());
                }
                assert(terminal_ids(seq![ev]) == seq![q.operation_id]);
                assert(queued_ids(sess.pending.take(k + 1)) =~= seq![q.operation_id] + queued_ids(
                    sess1.pending.take(k),
                ));
                assert(sess1.pending.skip(k) =~= sess.pending.skip(k + 1));
                if k < sess1.pending.len() {
                    assert(sess1.pending.skip(k + 1) =~= sess.pending.skip(k + 2));
                    assert(sess1.pending[k] == sess.pending[k + 1]);
                }
                assert(queue_step(sess, out.0.devices[i], out.1, k + 1));
            },
            None => {
                let sess2 = crate::machine::started_session(sess1, q);
                assert(sess1.pending =~= sess.pending.skip(1));
                let started = crate::machine::emit(
                    crate::event::started_view(
                        crate::command::action_operation(q.action),
                        q.operation_id,
                        crate::command::action_context(q.action, sess.device),
                    ),
                );
                let run = EffectView::RunDeviceAction {
                    operation_id: q.operation_id,
                    device: sess.device,
                    generation: sess2.generation,
                    action: q.action,
                };
                assert(out.1 == seq![started] + seq![run]);
                lemma_terminal_ids_concat(seq![started], seq![run]);
                lemma_terminal_ids_single(started);
                lemma_terminal_ids_single(run);
                assert(queued_ids(sess.pending.take(0)) =~= Seq::<OperationId>::empty());
                assert(terminal_ids(out.1) =~= Seq::<OperationId>::empty());
                assert(queue_step(sess, out.0.devices[i], out.1, 0));
            },
        }
    }
}

/// A result for the running request settles it: the request stops running;
/// its one terminal event comes first (after cancelling the pump of a
/// disconnected device) and reports success with the data or the error; the
/// session changes as the request's kind says; then the queue moves on.
pub proof fn law_completion_settles_running_request(
    s: CoreView,
    op: OperationId,
    d: Seq<char>,
    g: u64,
    a: ActionView,
    result: Result<EventDataView, BleErrorView>,
)
    requires
        device_index(s, d) >= 0,
        crate::machine::is_running(s.devices[device_index(s, d)], op, g),
    ensures
        ({
            let i = device_index(s, d);
            let sess = s.devices[i];
            let r = device_completed_spec(s, op, d, g, a, result);
            match result {
                Ok(data) => {
                    let settled = crate::machine::succeeded_session(sess, a, data);
                    let pre = if a is Disconnect && sess.notification_active { 1int } else { 0int };
                    &&& settled.in_flight is None
                    &&& r.1[pre] == crate::machine::emit(
                        succeeded_view(crate::command::action_operation(a), op, crate::command::action_context(a, d), data),
                    )
                    &&& a is Connect ==> settled.state == ConnectionState::Connected
                    &&& a is Disconnect ==> settled.state == ConnectionState::Disconnected
                        && settled.subscriptions.len() == 0 && !settled.notification_active
                    &&& (a is DiscoverServices && data is Services) ==> settled.services == data->Services_0
                    &&& a matches ActionView::Subscribe(k) ==> settled.subscriptions.contains(k)
                    &&& a matches ActionView::Unsubscribe(k) ==> settled.subscriptions == crate::machine::set_remove(
                        sess.subscriptions,
                        k,
                    )
                },
                Err(e) => {
                    let settled = crate::machine::failed_session(sess, a);
                    &&& settled.in_flight is None
                    &&& r.1[0] == crate::machine::emit(
                        failed_view(crate::command::action_operation(a), op, crate::command::action_context(a, d), e),
                    )
                    &&& a is Connect ==> settled.state == ConnectionState::Disconnected
                    &&& a is Disconnect ==> settled.state == ConnectionState::Connected
                    &&& settled.subscriptions == sess.subscriptions
                },
            }
        }),
{
    crate::machine::lemma_session_index(s.devices, d);
    let i = device_index(s, d);
    let sess = s.devices[i];
    match result {
        Ok(data) => {
            let pre = if a is Disconnect && sess.notification_active {
                seq![EffectView::CancelNotificationPump { device: d }]
            } else {
                seq![]
            };
            let s1 = with_session(s, i, crate::machine::succeeded_session(sess, a, data));
            let ev = crate::machine::emit(
                succeeded_view(crate::command::action_operation(a), op, crate::command::action_context(a, d), data),
            );
            let p = if a is Subscribe {
                ensure_pump_spec(s1, i)
            } else {
                (s1, seq![])
            };
            let rest = drain_spec(p.0, i);
            let effs = pre + seq![ev] + p.1 + rest.1;
            assert(device_completed_spec(s, op, d, g, a, result).1 == effs);
            assert(effs[pre.len() as int] == ev);
            if let ActionView::Subscribe(k) = a {
                assert(crate::machine::set_insert(sess.subscriptions, k).contains(k)) by {
                    if !sess.subscriptions.contains(k) {
                        assert(sess.subscriptions.push(k)[sess.subscriptions.len() as int] == k);
                    }
                }
            }
        },
        Err(e) => {},
    }
}

/// A second scan start while a scan runs is refused with `BUSY` and does not
/// replace the running scan.
pub proof fn law_duplicate_scan_refused(s: CoreView, op: OperationId, timeout: Option<Duration>)
    requires
        s.initialized,
        s.scan.tracker.active is Some,
    ensures
        start_scan_spec(s, op, timeout).0 == s,
        start_scan_spec(s, op, timeout).1 == seq![
            crate::machine::emit(
                failed_view(Operation::Scan, op, empty_context(), BleErrorView::Busy("scan already active"@)),
            ),
        ],
        crate::event::error_view(BleErrorView::Busy("scan already active"@)).code == "BUSY"@,
{
}

/// A stale scan result cannot end the current scan: a stop result whose
/// generation is not the running scan's changes nothing and publishes nothing.
pub proof fn law_stale_scan_stop_ignored(
    s: CoreView,
    op: OperationId,
    g: ScanGeneration,
    reason: Seq<char>,
    result: Result<(), BleErrorView>,
)
    requires
        crate::machine::active_generation(s) != Some(g),
    ensures
        scan_stopped_spec(s, op, g, reason, result).0 == s,
        scan_stopped_spec(s, op, g, reason, result).1.len() == 0,
{
}

/// Initialization is answered from the cache once it has succeeded: the
/// state is unchanged and the request succeeds with the cached adapter.
pub proof fn law_initialize_after_success(s: CoreView, op: OperationId)
    requires
        s.initialized,
        s.adapter_info is Some,
    ensures
        initialize_spec(s, op).0 == s,
        initialize_spec(s, op).1 == seq![
            crate::machine::emit(
                succeeded_view(
                    Operation::Initialize,
                    op,
                    empty_context(),
                    EventDataView::Adapter(s.adapter_info.unwrap()),
                ),
            ),
        ],
{
}

} // verus!
