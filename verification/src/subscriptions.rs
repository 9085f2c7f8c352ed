//! Subscription identity: a device never holds two subscriptions that share
//! a characteristic UUID, so each notification has one subscription to go to.
use vstd::prelude::*;

use crate::command::{ActionView, CommandView, InternalView};
use crate::machine::{
    command_spec, device_completed_spec, device_index, drain_spec, ensure_pump_spec,
    ensure_session_spec, failed_session, finish_pump_spec, internal_spec, key_index,
    remote_disconnect_spec, remotely_disconnected, set_insert, set_remove, shutdown_session,
    shutdown_spec, succeeded_session, validate_spec, with_session, CoreView, QueuedView,
    SessionView,
};

verus! {

/// No two subscriptions share a characteristic UUID.
pub open spec fn unique_characteristics(subs: Seq<(Seq<char>, Seq<char>)>) -> bool {
    forall|j: int, k: int|
        0 <= j < subs.len() && 0 <= k < subs.len() && #[trigger] subs[j].1 == #[trigger] subs[k].1
            ==> j == k
}

/// A running subscription request whose characteristic UUID no subscription
/// uses yet.
pub open spec fn running_subscription_fresh(sv: SessionView) -> bool {
    match sv.in_flight {
        Some(f) => match f.action {
            ActionView::Subscribe(k) => forall|j: int|
                0 <= j < sv.subscriptions.len() ==> #[trigger] sv.subscriptions[j].1 != k.1,
            _ => true,
        },
        None => true,
    }
}

/// A session's subscriptions are unambiguous, and so will they be when its
/// running subscription completes.
pub open spec fn session_unambiguous(sv: SessionView) -> bool {
    unique_characteristics(sv.subscriptions) && running_subscription_fresh(sv)
}

/// Every session's subscriptions are unambiguous.
pub open spec fn subscriptions_unambiguous(s: CoreView) -> bool {
    forall|i: int| 0 <= i < s.devices.len() ==> session_unambiguous(#[trigger] s.devices[i])
}

/// A device result that answers the running request with that request's own
/// action.
pub open spec fn completion_matches(s: CoreView, e: InternalView) -> bool {
    match e {
        InternalView::DeviceCompleted { operation_id, device, generation, action, .. } => {
            let i = device_index(s, device);
            (i >= 0 && crate::machine::is_running(s.devices[i], operation_id, generation)) ==> s.devices[i].in_flight.unwrap().action == action
        },
        _ => true,
    }
}

proof fn lemma_with_session_keeps(s: CoreView, i: int, x: SessionView)
    requires
        subscriptions_unambiguous(s),
        0 <= i < s.devices.len(),
        session_unambiguous(x),
    ensures
        subscriptions_unambiguous(with_session(s, i, x)),
{
    assert forall|m: int| 0 <= m < with_session(s, i, x).devices.len() implies session_unambiguous(
        #[trigger] with_session(s, i, x).devices[m],
    ) by {
        if m != i {
            assert(with_session(s, i, x).devices[m] == s.devices[m]);
        }
    }
}

proof fn lemma_pump_keeps(s: CoreView, i: int)
    requires
        subscriptions_unambiguous(s),
        0 <= i < s.devices.len(),
    ensures
        subscriptions_unambiguous(ensure_pump_spec(s, i).0),
        ensure_pump_spec(s, i).0.devices.len() == s.devices.len(),
        ensure_pump_spec(s, i).0.devices[i].pending == s.devices[i].pending,
{
    let sess = s.devices[i];
    if !sess.notification_active {
        lemma_with_session_keeps(
            s,
            i,
            SessionView {
                notification_active: true,
                notification_generation: crate::scan::wrapping_next(sess.notification_generation),
                ..sess
            },
        );
    }
}

proof fn lemma_drain_keeps(s: CoreView, i: int)
    requires
        subscriptions_unambiguous(s),
        0 <= i < s.devices.len(),
    ensures
        subscriptions_unambiguous(drain_spec(s, i).0),
    decreases s.devices[i].pending.len(),
{
    reveal(drain_spec);
    let sess = s.devices[i];
    if !(sess.in_flight is Some || sess.pending.len() == 0) {
        let q = sess.pending[0];
        let sess1 = SessionView { pending: sess.pending.drop_first(), ..sess };
        let s1 = with_session(s, i, sess1);
        lemma_with_session_keeps(s, i, sess1);
        match validate_spec(sess1, q.action) {
            Some(res) => {
                if crate::machine::restarts_pump(sess1, q.action) {
                    lemma_pump_keeps(s1, i);
                    lemma_drain_keeps(ensure_pump_spec(s1, i).0, i);
                } else {
                    lemma_drain_keeps(s1, i);
                }
            },
            None => {
                let sess2 = crate::machine::started_session(sess1, q);
                if let ActionView::Subscribe(k) = q.action {
                    assert forall|j: int| 0 <= j < sess2.subscriptions.len() implies #[trigger] sess2.subscriptions[j].1
                        != k.1 by {
                        if sess2.subscriptions[j].1 == k.1 {
                            if sess2.subscriptions[j].0 == k.0 {
                                assert(sess1.subscriptions[j] == k);
                                assert(sess1.subscriptions.contains(k));
                            } else {
                                assert(crate::machine::conflicts(sess1.subscriptions, k));
                            }
                        }
                    }
                }
                lemma_with_session_keeps(s, i, sess2);
            },
        }
    }
}

proof fn lemma_set_insert_unique(subs: Seq<(Seq<char>, Seq<char>)>, k: (Seq<char>, Seq<char>))
    requires
        unique_characteristics(subs),
        forall|j: int| 0 <= j < subs.len() ==> #[trigger] subs[j].1 != k.1,
    ensures
        unique_characteristics(set_insert(subs, k)),
{
    if !subs.contains(k) {
        let t = subs.push(k);
        assert forall|j: int, m: int|
            0 <= j < t.len() && 0 <= m < t.len() && #[trigger] t[j].1 == #[trigger] t[m].1 implies j == m by {
            if j < subs.len() && m < subs.len() {
                assert(subs[j].1 == subs[m].1);
            } else if j < subs.len() {
                assert(subs[j].1 != k.1);
            } else if m < subs.len() {
                assert(subs[m].1 != k.1);
            }
        }
    }
}

proof fn lemma_set_remove_unique(subs: Seq<(Seq<char>, Seq<char>)>, k: (Seq<char>, Seq<char>))
    requires
        unique_characteristics(subs),
    ensures
        unique_characteristics(set_remove(subs, k)),
{
    let x = key_index(subs, k);
    if x >= 0 {
        crate::machine::lemma_key_index_range(subs, k);
        let t = subs.remove(x);
        assert forall|j: int, m: int|
            0 <= j < t.len() && 0 <= m < t.len() && #[trigger] t[j].1 == #[trigger] t[m].1 implies j == m by {
            let jj = if j < x { j } else { j + 1 };
            let mm = if m < x { m } else { m + 1 };
            assert(t[j] == subs[jj]);
            assert(t[m] == subs[mm]);
            assert(subs[jj].1 == subs[mm].1);
        }
    }
}

/// Subscriptions stay unambiguous through every command: a subscription
/// whose characteristic UUID is already subscribed under another service is
/// refused with `AMBIGUOUS_CHARACTERISTIC` instead of being started.
pub proof fn law_commands_keep_subscriptions_unambiguous(s: CoreView, c: CommandView)
    requires
        subscriptions_unambiguous(s),
    ensures
        subscriptions_unambiguous(command_spec(s, c).0),
{
    match c {
        CommandView::Device { operation_id, device, action } => {
            if s.initialized {
                let s1 = ensure_session_spec(s, device);
                assert(subscriptions_unambiguous(s1)) by {
                    if device_index(s, device) < 0 {
                        assert forall|m: int| 0 <= m < s1.devices.len() implies session_unambiguous(
                            #[trigger] s1.devices[m],
                        ) by {
                            if m < s.devices.len() {
                                assert(s1.devices[m] == s.devices[m]);
                            }
                        }
                    }
                }
                crate::machine::lemma_session_index(s1.devices, device);
                crate::machine::lemma_session_index(s.devices, device);
                if device_index(s, device) < 0 {
                    assert(s1.devices[s1.devices.len() - 1].device == device);
                }
                let i = device_index(s1, device);
                let sess = s1.devices[i];
                if sess.pending.len() < crate::machine::DEVICE_QUEUE_CAPACITY {
                    let x = SessionView {
                        pending: sess.pending.push(QueuedView { operation_id, action }),
                        ..sess
                    };
                    lemma_with_session_keeps(s1, i, x);
                    lemma_drain_keeps(with_session(s1, i, x), i);
                }
            }
        },
        _ => {},
    }
}

/// Subscriptions stay unambiguous through every result of background work
/// that answers the running request with its own action.
pub proof fn law_results_keep_subscriptions_unambiguous(s: CoreView, e: InternalView)
    requires
        subscriptions_unambiguous(s),
        completion_matches(s, e),
    ensures
        subscriptions_unambiguous(internal_spec(s, e).0),
{
    match e {
        InternalView::Backend(Ok(crate::command::BackendEventView::Disconnected(d))) => {
            crate::machine::lemma_session_index(s.devices, d);
            let i = device_index(s, d);
            if i >= 0 {
                let x = remotely_disconnected(s.devices[i]);
                lemma_with_session_keeps(s, i, x);
            }
        },
        InternalView::DeviceCompleted { operation_id, device, generation, action, result } => {
            crate::machine::lemma_session_index(s.devices, device);
            let i = device_index(s, device);
            if i >= 0 && crate::machine::is_running(s.devices[i], operation_id, generation) {
                let sess = s.devices[i];
                match result {
                    Ok(data) => {
                        let x = succeeded_session(sess, action, data);
                        match action {
                            ActionView::Subscribe(k) => lemma_set_insert_unique(sess.subscriptions, k),
                            ActionView::Unsubscribe(k) => lemma_set_remove_unique(sess.subscriptions, k),
                            _ => {},
                        }
                        lemma_with_session_keeps(s, i, x);
                        let s1 = with_session(s, i, x);
                        if action is Subscribe {
                            lemma_pump_keeps(s1, i);
                            lemma_drain_keeps(ensure_pump_spec(s1, i).0, i);
                        } else {
                            lemma_drain_keeps(s1, i);
                        }
                    },
                    Err(_) => {
                        let x = failed_session(sess, action);
                        lemma_with_session_keeps(s, i, x);
                        lemma_drain_keeps(with_session(s, i, x), i);
                    },
                }
            }
        },
        InternalView::NotificationPumpFailed { device, generation, .. } => {
            crate::machine::lemma_session_index(s.devices, device);
            let i = device_index(s, device);
            if i >= 0 && s.devices[i].notification_generation == generation {
                lemma_with_session_keeps(s, i, SessionView { notification_active: false, ..s.devices[i] });
            }
        },
        InternalView::NotificationPumpEnded { device, generation } => {
            crate::machine::lemma_session_index(s.devices, device);
            let i = device_index(s, device);
            if i >= 0 && s.devices[i].notification_generation == generation {
                lemma_with_session_keeps(s, i, SessionView { notification_active: false, ..s.devices[i] });
            }
        },
        _ => {},
    }
}

/// Shutdown keeps subscriptions unambiguous.
pub proof fn law_shutdown_keeps_subscriptions_unambiguous(s: CoreView)
    requires
        subscriptions_unambiguous(s),
    ensures
        subscriptions_unambiguous(shutdown_spec(s).0),
{
    let t = shutdown_spec(s).0;
    assert forall|i: int| 0 <= i < t.devices.len() implies session_unambiguous(#[trigger] t.devices[i]) by {
        assert(t.devices[i] == shutdown_session(s.devices[i]).0);
        assert(session_unambiguous(s.devices[i]));
    }
}

/// A notification reaches the subscription whose characteristic UUID it
/// names: when `(service, characteristic)` is subscribed on a device, a
/// notification from that device for the characteristic, in any ASCII case,
/// is published once with that full key and the notified bytes.
pub proof fn law_notification_reaches_its_subscription(
    s: CoreView,
    d: Seq<char>,
    uuid: Seq<char>,
    value: Seq<u8>,
    j: int,
)
    requires
        subscriptions_unambiguous(s),
        device_index(s, d) >= 0,
        0 <= j < s.devices[device_index(s, d)].subscriptions.len(),
        s.devices[device_index(s, d)].subscriptions[j].1 == crate::text::ascii_lower_spec(uuid),
    ensures
        crate::machine::notification_spec(s, d, uuid, value).1 == seq![
            crate::machine::emit(
                crate::event::received_view(
                    crate::event::Operation::Notification,
                    crate::event::gatt_context(d, s.devices[device_index(s, d)].subscriptions[j]),
                    crate::event::EventDataView::Bytes(value),
                ),
            ),
        ],
{
    crate::machine::lemma_session_index(s.devices, d);
    let i = device_index(s, d);
    let subs = s.devices[i].subscriptions;
    let c = crate::text::ascii_lower_spec(uuid);
    assert(session_unambiguous(s.devices[i]));
    assert forall|m: int| 0 <= m < j implies subs[m].1 != c by {
        if subs[m].1 == c {
            assert(subs[m].1 == subs[j].1);
        }
    }
    crate::machine::lemma_characteristic_index_found(subs, c, j);
}

/// A new core has no subscriptions.
pub proof fn law_fresh_core_unambiguous()
    ensures
        subscriptions_unambiguous(crate::machine::fresh_core()),
{
}

} // verus!
