//! The adapter session: the backend is initialized by one request at a time,
//! and the adapter's event stream is watched at most once.
use vstd::prelude::*;

use crate::command::{CommandView, EffectView, InternalView};
use crate::laws::consistent;
use crate::machine::{
    command_spec, drain_spec, ensure_pump_spec, fresh_core, internal_spec, shutdown_effects,
    shutdown_session, shutdown_spec, with_session, CoreView, SessionView,
};

verus! {

/// Whether an effect starts adapter-level work: initializing the backend or
/// watching the adapter's event stream.
pub open spec fn adapter_work(e: EffectView) -> bool {
    e is InitializeBackend || e is WatchAdapterEvents
}

/// Whether none of the effects starts adapter-level work.
pub open spec fn no_adapter_work(effs: Seq<EffectView>) -> bool {
    forall|j: int| 0 <= j < effs.len() ==> !adapter_work(#[trigger] effs[j])
}

/// Whether the effects watch the adapter's event stream.
pub open spec fn watches_adapter(effs: Seq<EffectView>) -> bool {
    exists|j: int| 0 <= j < effs.len() && (#[trigger] effs[j]) is WatchAdapterEvents
}

/// Whether the effects ask the backend to initialize.
pub open spec fn initializes_backend(effs: Seq<EffectView>) -> bool {
    exists|j: int| 0 <= j < effs.len() && (#[trigger] effs[j]) is InitializeBackend
}

/// An initialization is in flight only on a core that is not initialized.
pub open spec fn adapter_exclusive(s: CoreView) -> bool {
    s.initializing is Some ==> !s.initialized
}

proof fn lemma_no_work_concat(a: Seq<EffectView>, b: Seq<EffectView>)
    requires
        no_adapter_work(a),
        no_adapter_work(b),
    ensures
        no_adapter_work(a + b),
{
    assert forall|j: int| 0 <= j < (a + b).len() implies !adapter_work(#[trigger] (a + b)[j]) by {
        if j < a.len() {
            assert((a + b)[j] == a[j]);
        } else {
            assert((a + b)[j] == b[j - a.len()]);
        }
    }
}

proof fn lemma_no_work_quiet(effs: Seq<EffectView>)
    requires
        no_adapter_work(effs),
    ensures
        !watches_adapter(effs),
        !initializes_backend(effs),
{
    if watches_adapter(effs) {
        let j = choose|j: int| 0 <= j < effs.len() && (#[trigger] effs[j]) is WatchAdapterEvents;
        assert(!adapter_work(effs[j]));
    }
    if initializes_backend(effs) {
        let j = choose|j: int| 0 <= j < effs.len() && (#[trigger] effs[j]) is InitializeBackend;
        assert(!adapter_work(effs[j]));
    }
}

/// Starting a pump touches only the session and starts no adapter work.
proof fn lemma_pump_quiet(s: CoreView, i: int)
    requires
        0 <= i < s.devices.len(),
    ensures
        no_adapter_work(ensure_pump_spec(s, i).1),
        ensure_pump_spec(s, i).0.initialized == s.initialized,
        ensure_pump_spec(s, i).0.initializing == s.initializing,
        ensure_pump_spec(s, i).0.devices.len() == s.devices.len(),
{
}

/// Working through a queue touches only sessions and starts no adapter work.
proof fn lemma_drain_quiet(s: CoreView, i: int)
    ensures
        no_adapter_work(drain_spec(s, i).1),
        drain_spec(s, i).0.initialized == s.initialized,
        drain_spec(s, i).0.initializing == s.initializing,
    decreases (if 0 <= i < s.devices.len() { s.devices[i].pending.len() } else { 0 }),
{
    reveal(drain_spec);
    if 0 <= i < s.devices.len() {
        let sess = s.devices[i];
        if !(sess.in_flight is Some || sess.pending.len() == 0) {
            let q = sess.pending[0];
            let sess1 = SessionView { pending: sess.pending.drop_first(), ..sess };
            let s1 = with_session(s, i, sess1);
            match crate::machine::validate_spec(sess1, q.action) {
                Some(res) => {
                    let restart = crate::machine::restarts_pump(sess1, q.action);
                    let p = if restart {
                        ensure_pump_spec(s1, i)
                    } else {
                        (s1, seq![])
                    };
                    if restart {
                        lemma_pump_quiet(s1, i);
                        assert(p.0.devices[i].pending == sess1.pending);
                    }
                    assert(p.0.devices[i].pending.len() < sess.pending.len());
                    lemma_drain_quiet(p.0, i);
                    let r = drain_spec(p.0, i);
                    let ev = crate::machine::validation_event(q, sess.device, res);
                    assert(no_adapter_work(seq![ev]));
                    assert(no_adapter_work(p.1));
                    lemma_no_work_concat(seq![ev], p.1);
                    lemma_no_work_concat(seq![ev] + p.1, r.1);
                },
                None => {},
            }
        }
    }
}

/// The shutdown effects of sessions start no adapter work.
proof fn lemma_shutdown_sessions_quiet(devs: Seq<SessionView>, n: int)
    ensures
        no_adapter_work(shutdown_effects(devs, n)),
    decreases n,
{
    if n > 0 {
        lemma_shutdown_sessions_quiet(devs, n - 1);
        let sv = devs[n - 1];
        let a = if sv.in_flight is Some {
            seq![EffectView::AbortDeviceAction { device: sv.device }]
        } else {
            seq![]
        };
        let b = if sv.notification_active {
            seq![EffectView::CancelNotificationPump { device: sv.device }]
        } else {
            seq![]
        };
        let c = if sv.state == crate::machine::ConnectionState::Connected {
            seq![EffectView::DisconnectNow { device: sv.device }]
        } else {
            seq![]
        };
        lemma_no_work_concat(a, b);
        lemma_no_work_concat(a + b, c);
        assert(shutdown_session(sv).1 == a + b + c);
        lemma_no_work_concat(shutdown_effects(devs, n - 1), shutdown_session(sv).1);
    }
}

/// A fresh core is not initialized and has no initialization in flight.
pub proof fn law_fresh_core_adapter()
    ensures
        adapter_exclusive(fresh_core()),
        !fresh_core().initialized,
        fresh_core().initializing is None,
{
}

/// Requests never watch the adapter's event stream and never change whether
/// the core is initialized. Only an `initialize` request on a core that is
/// neither initialized nor initializing asks the backend to initialize, and
/// that request is then the one in flight.
pub proof fn law_command_adapter_work(s: CoreView, c: CommandView)
    requires
        adapter_exclusive(s),
    ensures
        adapter_exclusive(command_spec(s, c).0),
        command_spec(s, c).0.initialized == s.initialized,
        !watches_adapter(command_spec(s, c).1),
        initializes_backend(command_spec(s, c).1) ==> (c matches CommandView::Initialize { operation_id } && {
            &&& !s.initialized
            &&& s.initializing is None
            &&& command_spec(s, c).0.initializing == Some(operation_id)
        }),
{
    let r = command_spec(s, c);
    match c {
        CommandView::Initialize { operation_id } => {
            if s.initialized || s.initializing is Some {
                assert(no_adapter_work(r.1));
                lemma_no_work_quiet(r.1);
            } else {
                if watches_adapter(r.1) {
                    let j = choose|j: int| 0 <= j < r.1.len() && (#[trigger] r.1[j]) is WatchAdapterEvents;
                    assert(j == 0 || j == 1);
                }
            }
        },
        CommandView::StartScan { .. } => {
            assert(no_adapter_work(r.1));
            lemma_no_work_quiet(r.1);
        },
        CommandView::StopScan { operation_id } => {
            match s.scan.tracker.active {
                None => {},
                Some(a) => {
                    if a.operation_id == operation_id {
                        let pre = if s.scan.cancellation {
                            seq![EffectView::CancelScanCancellation]
                        } else {
                            seq![]
                        };
                        let e2 = crate::machine::spawn_scan_stop_spec(s, a, "stopped"@).1;
                        lemma_no_work_concat(pre, e2);
                    }
                },
            }
            lemma_no_work_quiet(r.1);
        },
        CommandView::Device { operation_id, device, action } => {
            if s.initialized {
                let s1 = crate::machine::ensure_session_spec(s, device);
                let i = crate::machine::device_index(s1, device);
                let sess = s1.devices[i];
                if sess.pending.len() < crate::machine::DEVICE_QUEUE_CAPACITY {
                    let s2 = with_session(
                        s1,
                        i,
                        SessionView {
                            pending: sess.pending.push(crate::machine::QueuedView { operation_id, action }),
                            ..sess
                        },
                    );
                    lemma_drain_quiet(s2, i);
                }
            }
            lemma_no_work_quiet(r.1);
        },
        CommandView::Shutdown => {
            lemma_no_work_quiet(r.1);
        },
    }
}

/// Results of background work never ask the backend to initialize, and a
/// core once initialized stays so. Only the result of the initialization in
/// flight watches the adapter's event stream, on a core that was not
/// initialized and is initialized afterwards; so the stream is watched at
/// most once.
pub proof fn law_result_adapter_work(s: CoreView, e: InternalView)
    requires
        adapter_exclusive(s),
        consistent(s, e),
    ensures
        adapter_exclusive(internal_spec(s, e).0),
        s.initialized ==> internal_spec(s, e).0.initialized,
        !initializes_backend(internal_spec(s, e).1),
        watches_adapter(internal_spec(s, e).1) ==> {
            &&& e is Initialized
            &&& !s.initialized
            &&& internal_spec(s, e).0.initialized
        },
{
    let r = internal_spec(s, e);
    match e {
        InternalView::Initialized { operation_id, result } => {
            if initializes_backend(r.1) {
                let j = choose|j: int| 0 <= j < r.1.len() && (#[trigger] r.1[j]) is InitializeBackend;
                assert(j == 0 || j == 1);
            }
            if watches_adapter(r.1) {
                if result is Err {
                    let j = choose|j: int| 0 <= j < r.1.len() && (#[trigger] r.1[j]) is WatchAdapterEvents;
                    assert(j == 0);
                }
            }
        },
        InternalView::Backend(res) => {
            match res {
                Ok(crate::command::BackendEventView::Disconnected(d)) => {
                    let i = crate::machine::device_index(s, d);
                    crate::machine::lemma_session_index(s.devices, d);
                    if i >= 0 {
                        let sess = s.devices[i];
                        let abort = if sess.in_flight is Some {
                            seq![EffectView::AbortDeviceAction { device: d }]
                        } else {
                            seq![]
                        };
                        let cancel = if sess.notification_active {
                            seq![EffectView::CancelNotificationPump { device: d }]
                        } else {
                            seq![]
                        };
                        let running = match sess.in_flight {
                            Some(f) => seq![
                                crate::machine::emit(
                                    crate::event::failed_view(
                                        crate::command::action_operation(f.action),
                                        f.operation_id,
                                        crate::command::action_context(f.action, d),
                                        crate::machine::remote_cancel(),
                                    ),
                                ),
                            ],
                            None => seq![],
                        };
                        let pc = crate::machine::pending_cancellations(sess.pending, d);
                        let received = crate::machine::emit(
                            crate::event::received_view(
                                crate::event::Operation::Disconnect,
                                crate::event::device_context(d),
                                crate::event::EventDataView::Reason("remote"@),
                            ),
                        );
                        assert(no_adapter_work(pc));
                        lemma_no_work_concat(abort, cancel);
                        lemma_no_work_concat(abort + cancel, running);
                        lemma_no_work_concat(abort + cancel + running, pc);
                        lemma_no_work_concat(abort + cancel + running + pc, seq![received]);
                    }
                },
                _ => {},
            }
            lemma_no_work_quiet(r.1);
        },
        InternalView::ScanStarted { operation_id, generation, result } => {
            if crate::machine::active_generation(s) == Some(generation) && result is Ok {
                let s1 = CoreView {
                    scan: crate::machine::ScanRuntimeView {
                        status: crate::machine::ScanStatus::Scanning,
                        ..s.scan
                    },
                    ..s
                };
                let e1 = seq![
                    crate::machine::emit(
                        crate::event::started_view(
                            crate::event::Operation::Scan,
                            operation_id,
                            crate::event::empty_context(),
                        ),
                    ),
                ];
                let a = s1.scan.tracker.active.unwrap();
                if s1.scan.stop_requested {
                    let e2 = crate::machine::spawn_scan_stop_spec(s1, a, "stopped"@).1;
                    lemma_no_work_concat(e1, e2);
                }
            }
            lemma_no_work_quiet(r.1);
        },
        InternalView::ScanTimedOut { generation } => {
            match s.scan.tracker.active {
                Some(a) => {
                    if a.generation == generation {
                        let pre = if s.scan.cancellation {
                            seq![EffectView::CancelScanCancellation]
                        } else {
                            seq![]
                        };
                        if s.scan.status == crate::machine::ScanStatus::Scanning {
                            let e2 = crate::machine::spawn_scan_stop_spec(s, a, "timeout"@).1;
                            lemma_no_work_concat(pre, e2);
                        }
                    }
                },
                None => {},
            }
            lemma_no_work_quiet(r.1);
        },
        InternalView::ScanStopped { .. } => {
            lemma_no_work_quiet(r.1);
        },
        InternalView::DeviceCompleted { operation_id, device, generation, action, result } => {
            let i = crate::machine::device_index(s, device);
            crate::machine::lemma_session_index(s.devices, device);
            if i >= 0 && crate::machine::is_running(s.devices[i], operation_id, generation) {
                let sess = s.devices[i];
                match result {
                    Ok(data) => {
                        let pre = if action is Disconnect && sess.notification_active {
                            seq![EffectView::CancelNotificationPump { device }]
                        } else {
                            seq![]
                        };
                        let s1 = with_session(s, i, crate::machine::succeeded_session(sess, action, data));
                        let ev = crate::machine::emit(
                            crate::event::succeeded_view(
                                crate::command::action_operation(action),
                                operation_id,
                                crate::command::action_context(action, device),
                                data,
                            ),
                        );
                        let p = if action is Subscribe {
                            ensure_pump_spec(s1, i)
                        } else {
                            (s1, seq![])
                        };
                        if action is Subscribe {
                            lemma_pump_quiet(s1, i);
                        }
                        lemma_drain_quiet(p.0, i);
                        lemma_no_work_concat(pre, seq![ev]);
                        lemma_no_work_concat(pre + seq![ev], p.1);
                        lemma_no_work_concat(pre + seq![ev] + p.1, drain_spec(p.0, i).1);
                    },
                    Err(err) => {
                        let s1 = with_session(s, i, crate::machine::failed_session(sess, action));
                        lemma_drain_quiet(s1, i);
                        let ev = crate::machine::emit(
                            crate::event::failed_view(
                                crate::command::action_operation(action),
                                operation_id,
                                crate::command::action_context(action, device),
                                err,
                            ),
                        );
                        lemma_no_work_concat(seq![ev], drain_spec(s1, i).1);
                    },
                }
            }
            lemma_no_work_quiet(r.1);
        },
        InternalView::Notification { .. } => {
            lemma_no_work_quiet(r.1);
        },
        InternalView::NotificationPumpFailed { .. } => {
            lemma_no_work_quiet(r.1);
        },
        InternalView::NotificationPumpEnded { .. } => {
            lemma_no_work_quiet(r.1);
        },
    }
}

/// Shutdown starts no adapter work and leaves the initialization as it is.
pub proof fn law_shutdown_adapter_work(s: CoreView)
    ensures
        no_adapter_work(shutdown_spec(s).1),
        shutdown_spec(s).0.initialized == s.initialized,
        shutdown_spec(s).0.initializing == s.initializing,
{
    let a = if s.scan.cancellation {
        seq![EffectView::CancelScanCancellation]
    } else {
        seq![]
    };
    let b = if s.scan.tracker.active is Some {
        seq![EffectView::StopScanNow]
    } else {
        seq![]
    };
    let c = shutdown_effects(s.devices, s.devices.len() as int);
    lemma_shutdown_sessions_quiet(s.devices, s.devices.len() as int);
    lemma_no_work_concat(a, b);
    lemma_no_work_concat(a + b, c);
    lemma_no_work_concat(a + b + c, seq![EffectView::AbortAllTasks]);
}

} // verus!
