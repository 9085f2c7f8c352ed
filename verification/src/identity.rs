//! Each device has at most one scan record and at most one session.
use vstd::prelude::*;

use crate::command::{BackendEventView, CommandView, InternalView};
use crate::machine::{
    command_spec, device_index, drain_spec, ensure_pump_spec, fresh_core, internal_spec,
    known_index, lemma_session_index, shutdown_session, shutdown_spec, with_session, CoreView,
    SessionView,
};

verus! {

/// Each device occurs once among the known scan records and once among the
/// device sessions.
pub open spec fn core_keys_unique(s: CoreView) -> bool {
    &&& forall|i: int, j: int|
        0 <= i < j < s.known_devices.len() ==> s.known_devices[i].0 != s.known_devices[j].0
    &&& forall|i: int, j: int| 0 <= i < j < s.devices.len() ==> s.devices[i].device != s.devices[j].device
}

/// The same scan records, and sessions for the same devices in the same
/// places.
pub open spec fn same_devices(a: CoreView, b: CoreView) -> bool {
    &&& a.known_devices == b.known_devices
    &&& a.devices.len() == b.devices.len()
    &&& forall|i: int| 0 <= i < a.devices.len() ==> #[trigger] a.devices[i].device == b.devices[i].device
}

proof fn lemma_same_devices_unique(a: CoreView, b: CoreView)
    requires
        core_keys_unique(a),
        same_devices(a, b),
    ensures
        core_keys_unique(b),
{
    assert forall|i: int, j: int| 0 <= i < j < b.devices.len() implies b.devices[i].device
        != b.devices[j].device by {
        assert(a.devices[i].device == b.devices[i].device);
        assert(a.devices[j].device == b.devices[j].device);
    }
}

/// Working through a queue keeps the records and the sessions' devices.
proof fn lemma_drain_same(s: CoreView, i: int)
    ensures
        same_devices(s, drain_spec(s, i).0),
    decreases (if 0 <= i < s.devices.len() { s.devices[i].pending.len() } else { 0 }),
{
    reveal(drain_spec);
    if 0 <= i < s.devices.len() {
        let sess = s.devices[i];
        if !(sess.in_flight is Some || sess.pending.len() == 0) {
            let q = sess.pending[0];
            let sess1 = SessionView { pending: sess.pending.drop_first(), ..sess };
            let s1 = with_session(s, i, sess1);
            match crate::machine::validate_spec(sess1, q.action) {
                Some(res) => {
                    let restart = crate::machine::restarts_pump(sess1, q.action);
                    let p = if restart {
                        ensure_pump_spec(s1, i)
                    } else {
                        (s1, seq![])
                    };
                    assert(p.0.devices[i].pending == sess1.pending);
                    assert(p.0.devices[i].pending.len() < sess.pending.len());
                    assert(same_devices(s, p.0));
                    lemma_drain_same(p.0, i);
                },
                None => {},
            }
        }
    }
}

/// Replacing session `i` by one for the same device keeps the devices.
proof fn lemma_with_session_same(s: CoreView, i: int, sv: SessionView)
    requires
        0 <= i < s.devices.len(),
        sv.device == s.devices[i].device,
    ensures
        same_devices(s, with_session(s, i, sv)),
{
}

/// Adding the session of a device that has none keeps each device once.
proof fn lemma_ensure_session_unique(s: CoreView, d: Seq<char>)
    requires
        core_keys_unique(s),
    ensures
        core_keys_unique(crate::machine::ensure_session_spec(s, d)),
        device_index(crate::machine::ensure_session_spec(s, d), d) >= 0,
        device_index(crate::machine::ensure_session_spec(s, d), d) < crate::machine::ensure_session_spec(
            s,
            d,
        ).devices.len(),
{
    let s1 = crate::machine::ensure_session_spec(s, d);
    lemma_session_index(s.devices, d);
    lemma_session_index(s1.devices, d);
    if device_index(s, d) < 0 {
        assert(s1.devices[s1.devices.len() - 1].device == d);
    }
}

/// A scan record keeps each device's record once.
proof fn lemma_progress_unique(s: CoreView, info: crate::info::DeviceInfoView)
    requires
        core_keys_unique(s),
    ensures
        core_keys_unique(crate::machine::device_progress_spec(s, info).0),
{
    match crate::event::device_id_spec(info.address) {
        None => {},
        Some(d) => {
            let k = known_index(s.known_devices, d);
            reveal(known_index);
            if k < 0 {
                assert forall|m: int| 0 <= m < s.known_devices.len() implies s.known_devices[m].0 != d by {
                    if s.known_devices[m].0 == d {
                        assert(exists|j: int| 0 <= j < s.known_devices.len() && s.known_devices[j].0 == d);
                    }
                }
            } else {
                assert(s.known_devices[k].0 == d);
            }
        },
    }
}

/// A new core has no records and no sessions.
pub proof fn law_fresh_core_keys_unique()
    ensures
        core_keys_unique(fresh_core()),
{
}

/// Every request keeps each device's scan record and session unique.
pub proof fn law_command_keeps_keys_unique(s: CoreView, c: CommandView)
    requires
        core_keys_unique(s),
    ensures
        core_keys_unique(command_spec(s, c).0),
{
    match c {
        CommandView::Device { operation_id, device, action } => {
            if s.initialized {
                let s1 = crate::machine::ensure_session_spec(s, device);
                lemma_ensure_session_unique(s, device);
                let i = device_index(s1, device);
                let sess = s1.devices[i];
                if sess.pending.len() < crate::machine::DEVICE_QUEUE_CAPACITY {
                    let s2 = with_session(
                        s1,
                        i,
                        SessionView {
                            pending: sess.pending.push(crate::machine::QueuedView { operation_id, action }),
                            ..sess
                        },
                    );
                    lemma_with_session_same(s1, i, s2.devices[i]);
                    lemma_same_devices_unique(s1, s2);
                    lemma_drain_same(s2, i);
                    lemma_same_devices_unique(s2, drain_spec(s2, i).0);
                }
            }
        },
        _ => {},
    }
}

/// Every result of background work keeps each device's scan record and
/// session unique.
pub proof fn law_result_keeps_keys_unique(s: CoreView, e: InternalView)
    requires
        core_keys_unique(s),
    ensures
        core_keys_unique(internal_spec(s, e).0),
{
    match e {
        InternalView::Backend(r) => {
            match r {
                Ok(BackendEventView::Discovered(info)) => lemma_progress_unique(s, info),
                Ok(BackendEventView::Updated(info)) => lemma_progress_unique(s, info),
                Ok(BackendEventView::Disconnected(d)) => {
                    let i = device_index(s, d);
                    lemma_session_index(s.devices, d);
                    if i >= 0 {
                        let sv = crate::machine::remotely_disconnected(s.devices[i]);
                        lemma_with_session_same(s, i, sv);
                        lemma_same_devices_unique(s, with_session(s, i, sv));
                    }
                },
                Err(_) => {},
            }
        },
        InternalView::DeviceCompleted { operation_id, device, generation, action, result } => {
            let i = device_index(s, device);
            lemma_session_index(s.devices, device);
            if i >= 0 && crate::machine::is_running(s.devices[i], operation_id, generation) {
                let sess = s.devices[i];
                match result {
                    Ok(data) => {
                        let sv = crate::machine::succeeded_session(sess, action, data);
                        let s1 = with_session(s, i, sv);
                        lemma_with_session_same(s, i, sv);
                        let p = if action is Subscribe {
                            ensure_pump_spec(s1, i)
                        } else {
                            (s1, seq![])
                        };
                        assert(same_devices(s1, p.0));
                        lemma_drain_same(p.0, i);
                        assert(same_devices(s, drain_spec(p.0, i).0));
                        lemma_same_devices_unique(s, drain_spec(p.0, i).0);
                    },
                    Err(_) => {
                        let sv = crate::machine::failed_session(sess, action);
                        let s1 = with_session(s, i, sv);
                        lemma_with_session_same(s, i, sv);
                        lemma_drain_same(s1, i);
                        assert(same_devices(s, drain_spec(s1, i).0));
                        lemma_same_devices_unique(s, drain_spec(s1, i).0);
                    },
                }
            }
        },
        InternalView::NotificationPumpFailed { device, .. } | InternalView::NotificationPumpEnded {
            device,
            ..
        } => {
            let i = device_index(s, device);
            lemma_session_index(s.devices, device);
            if i >= 0 {
                let sv = SessionView { notification_active: false, ..s.devices[i] };
                lemma_with_session_same(s, i, sv);
                lemma_same_devices_unique(s, with_session(s, i, sv));
            }
        },
        _ => {},
    }
}

/// Shutdown keeps each device's scan record and session unique.
pub proof fn law_shutdown_keeps_keys_unique(s: CoreView)
    requires
        core_keys_unique(s),
    ensures
        core_keys_unique(shutdown_spec(s).0),
{
    let t = shutdown_spec(s).0;
    assert forall|i: int| 0 <= i < s.devices.len() implies #[trigger] s.devices[i].device == t.devices[i].device by {
        assert(t.devices[i] == shutdown_session(s.devices[i]).0);
    }
    lemma_same_devices_unique(s, t);
}

} // verus!
