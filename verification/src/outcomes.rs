//! What single steps answer, stated event by event: scan records,
//! initialization, requests on an idle device, and the legacy signals of the
//! manager and of a device handle.
use vstd::prelude::*;

use crate::command::{ActionView, BackendEventView, CommandView, EffectView, InternalView};
use crate::device::{device_event_spec, BleDeviceView, DeviceSignalView};
use crate::event::{
    BleEventView, DeviceProgressKind, EventContextView, EventDataView, Operation, OperationId,
    Phase,
};
use crate::identity::core_keys_unique;
use crate::info::{same_record, AdapterInfoView, DeviceInfoView};
use crate::machine::{
    command_spec, device_index, drain_spec, internal_spec, lemma_session_index, ConnectionState,
    CoreView,
};
use crate::manager::{manager_event_spec, ManagerSignalView, ManagerView};

verus! {

/// The identity that scan progress carries: the running scan's, or zero.
pub open spec fn running_scan_id(s: CoreView) -> OperationId {
    match s.scan.tracker.active {
        Some(a) => a.operation_id,
        None => OperationId(0),
    }
}

/// The scan progress event that publishes record `info` of device `d`.
pub open spec fn progress_event(s: CoreView, d: Seq<char>, kind: DeviceProgressKind, info: DeviceInfoView) -> EffectView {
    EffectView::Emit(
        BleEventView {
            operation: Operation::Scan,
            phase: Phase::Progress,
            operation_id: running_scan_id(s),
            terminal: false,
            context: EventContextView {
                device_address: d,
                service_uuid: Seq::empty(),
                characteristic_uuid: Seq::empty(),
            },
            data: EventDataView::Device { kind, info },
            error: None,
        },
    )
}

/// A scan record of a device the core has no record of is published as
/// `discovered`; a record that differs from the device's known record is
/// published as `updated` and replaces it; the same record again publishes
/// nothing. This holds whether the adapter reported the device as discovered
/// or as updated.
pub proof fn law_scan_record_kind(s: CoreView, info: DeviceInfoView, d: Seq<char>, updated: bool)
    requires
        core_keys_unique(s),
        crate::event::device_id_spec(info.address) == Some(d),
    ensures
        ({
            let e = if updated {
                InternalView::Backend(Ok(BackendEventView::Updated(info)))
            } else {
                InternalView::Backend(Ok(BackendEventView::Discovered(info)))
            };
            let r = internal_spec(s, e);
            &&& (forall|j: int| 0 <= j < s.known_devices.len() ==> s.known_devices[j].0 != d) ==> {
                &&& r.1 == seq![progress_event(s, d, DeviceProgressKind::Discovered, info)]
                &&& r.0.known_devices == s.known_devices.push((d, info))
            }
            &&& forall|j: int|
                0 <= j < s.known_devices.len() && s.known_devices[j].0 == d ==> {
                    &&& !same_record(s.known_devices[j].1, info) ==> {
                        &&& r.1 == seq![progress_event(s, d, DeviceProgressKind::Updated, info)]
                        &&& r.0.known_devices == s.known_devices.update(j, (d, info))
                    }
                    &&& same_record(s.known_devices[j].1, info) ==> r.1.len() == 0 && r.0 == s
                }
        }),
{
    reveal(crate::machine::known_index);
    assert forall|j: int|
        0 <= j < s.known_devices.len() && s.known_devices[j].0 == d implies crate::machine::known_index(
        s.known_devices,
        d,
    ) == j by {
        crate::machine::lemma_known_index_found(s.known_devices, d, j);
    }
    if forall|j: int| 0 <= j < s.known_devices.len() ==> s.known_devices[j].0 != d {
        crate::machine::lemma_known_index_none(s.known_devices, d);
    }
}

/// A successful initialization publishes the adapter it reported: the
/// request's one terminal event succeeds carrying `Adapter(info)`, the core
/// is initialized with that adapter, and a later `initialize` is answered at
/// once with the same adapter.
pub proof fn law_initialization_reports_adapter(s: CoreView, op: OperationId, info: AdapterInfoView, later: OperationId)
    ensures
        ({
            let r = internal_spec(s, InternalView::Initialized { operation_id: op, result: Ok(info) });
            let answer = |id: OperationId|
                EffectView::Emit(
                    BleEventView {
                        operation: Operation::Initialize,
                        phase: Phase::Succeeded,
                        operation_id: id,
                        terminal: true,
                        context: EventContextView {
                            device_address: Seq::empty(),
                            service_uuid: Seq::empty(),
                            characteristic_uuid: Seq::empty(),
                        },
                        data: EventDataView::Adapter(info),
                        error: None,
                    },
                );
            &&& r.1[0] == answer(op)
            &&& r.0.initialized
            &&& r.0.adapter_info == Some(info)
            &&& command_spec(r.0, CommandView::Initialize { operation_id: later }) == (r.0, seq![answer(later)])
        }),
{
}

/// The event that answers request `op` on device `d` at once.
pub open spec fn answer_event(
    operation: Operation,
    op: OperationId,
    d: Seq<char>,
    phase: Phase,
    data: EventDataView,
) -> BleEventView {
    BleEventView {
        operation,
        phase,
        operation_id: op,
        terminal: true,
        context: EventContextView { device_address: d, service_uuid: Seq::empty(), characteristic_uuid: Seq::empty() },
        data,
        error: None,
    }
}

/// A connect or disconnect request on an initialized core, for a device with
/// no work running or waiting: connecting a connected device and
/// disconnecting a disconnected one (a device never seen is disconnected)
/// succeed at once with the reasons `already_connected` and
/// `already_disconnected`; otherwise the request is started, with one
/// non-terminal `started` event, and handed to the backend.
pub proof fn law_link_request_on_idle_device(s: CoreView, op: OperationId, d: Seq<char>, connect: bool)
    requires
        s.initialized,
        device_index(s, d) >= 0 ==> {
            let sess = s.devices[device_index(s, d)];
            &&& sess.in_flight is None
            &&& sess.pending.len() == 0
        },
    ensures
        ({
            let a = if connect {
                ActionView::Connect
            } else {
                ActionView::Disconnect
            };
            let operation = if connect {
                Operation::Connect
            } else {
                Operation::Disconnect
            };
            let state = if device_index(s, d) >= 0 {
                s.devices[device_index(s, d)].state
            } else {
                ConnectionState::Disconnected
            };
            let r = command_spec(s, CommandView::Device { operation_id: op, device: d, action: a });
            &&& connect && state == ConnectionState::Connected ==> r.1 == seq![
                EffectView::Emit(
                    answer_event(operation, op, d, Phase::Succeeded, EventDataView::Reason("already_connected"@)),
                ),
            ]
            &&& !connect && state == ConnectionState::Disconnected ==> r.1 == seq![
                EffectView::Emit(
                    answer_event(operation, op, d, Phase::Succeeded, EventDataView::Reason("already_disconnected"@)),
                ),
            ]
            &&& (connect && state != ConnectionState::Connected) || (!connect && state
                != ConnectionState::Disconnected) ==> {
                &&& r.1.len() == 2
                &&& r.1[0] matches EffectView::Emit(ev)
                &&& ev.operation == operation && ev.phase == Phase::Started && !ev.terminal
                    && ev.operation_id == op
                &&& r.1[1] matches EffectView::RunDeviceAction { operation_id, device, action, .. }
                &&& operation_id == op && device == d && action == a
            }
        }),
{
    let a = if connect {
        ActionView::Connect
    } else {
        ActionView::Disconnect
    };
    let s1 = crate::machine::ensure_session_spec(s, d);
    lemma_session_index(s.devices, d);
    lemma_session_index(s1.devices, d);
    if device_index(s, d) < 0 {
        assert(s1.devices[s1.devices.len() - 1].device == d);
    }
    let i = device_index(s1, d);
    let sess = s1.devices[i];
    let q = crate::machine::QueuedView { operation_id: op, action: a };
    let s2 = crate::machine::with_session(s1, i, crate::machine::SessionView { pending: sess.pending.push(q), ..sess });
    reveal_with_fuel(drain_spec, 2);
    let sess1 = crate::machine::SessionView { pending: s2.devices[i].pending.drop_first(), ..s2.devices[i] };
    assert(s2.devices[i].pending[0] == q);
    assert(sess1.pending =~= Seq::<crate::machine::QueuedView>::empty());
    let s3 = crate::machine::with_session(s2, i, sess1);
    assert(drain_spec(s3, i) == (s3, Seq::<EffectView>::empty()));
    let r = command_spec(s, CommandView::Device { operation_id: op, device: d, action: a });
    assert(r == drain_spec(s2, i));
}

/// The legacy signals of a connection event on the manager: a started
/// connect emits `device_connecting`, a succeeded connect `device_connected`,
/// and a succeeded or device-reported disconnect `device_disconnected`, each
/// with the event's device address and nothing else; the caches stay.
pub proof fn law_manager_link_signals(m: ManagerView, e: BleEventView)
    ensures
        e.operation == Operation::Connect && e.phase == Phase::Started ==> manager_event_spec(m, e) == (
            m,
            seq![ManagerSignalView::DeviceConnecting(e.context.device_address)],
        ),
        e.operation == Operation::Connect && e.phase == Phase::Succeeded ==> manager_event_spec(m, e) == (
            m,
            seq![ManagerSignalView::DeviceConnected(e.context.device_address)],
        ),
        e.operation == Operation::Disconnect && (e.phase == Phase::Succeeded || e.phase == Phase::Received)
            ==> manager_event_spec(m, e) == (m, seq![ManagerSignalView::DeviceDisconnected(e.context.device_address)]),
{
}

/// The legacy signals of GATT results on a device handle: after `ble_event`,
/// a succeeded read emits `characteristic_read`, a succeeded write
/// `characteristic_written`, and a received notification
/// `characteristic_notified`, each naming the event's characteristic UUID
/// and carrying the event's bytes; the handle's connection state stays.
pub proof fn law_handle_gatt_signals(d: BleDeviceView, e: BleEventView)
    requires
        e.context.device_address == d.address,
    ensures
        e.operation == Operation::Write && e.phase == Phase::Succeeded ==> device_event_spec(d, e).1 == seq![
            DeviceSignalView::Event,
            DeviceSignalView::CharacteristicWritten(e.context.characteristic_uuid),
        ],
        e.operation == Operation::Read && e.phase == Phase::Succeeded && e.data is Bytes ==> device_event_spec(
            d,
            e,
        ).1 == seq![
            DeviceSignalView::Event,
            DeviceSignalView::CharacteristicRead {
                characteristic_uuid: e.context.characteristic_uuid,
                data: e.data->Bytes_0,
            },
        ],
        e.operation == Operation::Notification && e.phase == Phase::Received && e.data is Bytes
            ==> device_event_spec(d, e).1 == seq![
            DeviceSignalView::Event,
            DeviceSignalView::CharacteristicNotified {
                characteristic_uuid: e.context.characteristic_uuid,
                data: e.data->Bytes_0,
            },
        ],
        (e.operation == Operation::Write || e.operation == Operation::Read || e.operation
            == Operation::Notification) ==> device_event_spec(d, e).0.state == d.state,
{
    let t = crate::device::device_transition_spec(crate::device::refresh_spec(d, e), e);
    assert(device_event_spec(d, e).1 == seq![DeviceSignalView::Event] + t.1);
    assert(seq![DeviceSignalView::Event] + seq![
        DeviceSignalView::CharacteristicWritten(e.context.characteristic_uuid),
    ] =~= seq![DeviceSignalView::Event, DeviceSignalView::CharacteristicWritten(e.context.characteristic_uuid)]);
    if e.data is Bytes {
        assert(seq![DeviceSignalView::Event] + seq![
            DeviceSignalView::CharacteristicRead {
                characteristic_uuid: e.context.characteristic_uuid,
                data: e.data->Bytes_0,
            },
        ] =~= seq![
            DeviceSignalView::Event,
            DeviceSignalView::CharacteristicRead {
                characteristic_uuid: e.context.characteristic_uuid,
                data: e.data->Bytes_0,
            },
        ]);
        assert(seq![DeviceSignalView::Event] + seq![
            DeviceSignalView::CharacteristicNotified {
                characteristic_uuid: e.context.characteristic_uuid,
                data: e.data->Bytes_0,
            },
        ] =~= seq![
            DeviceSignalView::Event,
            DeviceSignalView::CharacteristicNotified {
                characteristic_uuid: e.context.characteristic_uuid,
                data: e.data->Bytes_0,
            },
        ]);
    }
}

/// A GATT request or a service discovery on an initialized core, for a
/// device with no work running or waiting that is not connected (a device
/// never seen is not), fails at once with `NOT_CONNECTED` as its first
/// effect and is not handed to the backend. (A repeated subscription may
/// still restart the device's pump after the failure, as the queue does for
/// every repeated subscription.)
pub proof fn law_gatt_request_needs_connection(s: CoreView, op: OperationId, d: Seq<char>, a: ActionView)
    requires
        s.initialized,
        !(a is Connect || a is Disconnect),
        device_index(s, d) >= 0 ==> {
            let sess = s.devices[device_index(s, d)];
            &&& sess.in_flight is None
            &&& sess.pending.len() == 0
            &&& sess.state != ConnectionState::Connected
        },
    ensures
        ({
            let r = command_spec(s, CommandView::Device { operation_id: op, device: d, action: a });
            &&& r.1.len() >= 1
            &&& forall|j: int| 0 <= j < r.1.len() ==> !(#[trigger] r.1[j] is RunDeviceAction)
            &&& r.1[0] matches EffectView::Emit(ev)
            &&& ev.phase == Phase::Failed && ev.terminal && ev.operation_id == op
            &&& ev.context.device_address == d
            &&& ev.error matches Some(err)
            &&& err.code == "NOT_CONNECTED"@
        }),
{
    let s1 = crate::machine::ensure_session_spec(s, d);
    lemma_session_index(s.devices, d);
    lemma_session_index(s1.devices, d);
    if device_index(s, d) < 0 {
        assert(s1.devices[s1.devices.len() - 1].device == d);
    }
    let i = device_index(s1, d);
    let sess = s1.devices[i];
    let q = crate::machine::QueuedView { operation_id: op, action: a };
    let s2 = crate::machine::with_session(s1, i, crate::machine::SessionView { pending: sess.pending.push(q), ..sess });
    reveal_with_fuel(drain_spec, 2);
    let sess1 = crate::machine::SessionView { pending: s2.devices[i].pending.drop_first(), ..s2.devices[i] };
    assert(s2.devices[i].pending[0] == q);
    assert(sess1.pending =~= Seq::<crate::machine::QueuedView>::empty());
    let s3 = crate::machine::with_session(s2, i, sess1);
    assert(drain_spec(s3, i) == (s3, Seq::<EffectView>::empty()));
    let r = command_spec(s, CommandView::Device { operation_id: op, device: d, action: a });
    assert(r == drain_spec(s2, i));
    let ev = crate::machine::validation_event(q, d, Err(crate::types::BleErrorView::NotConnected));
    let p = if crate::machine::restarts_pump(sess1, a) {
        crate::machine::ensure_pump_spec(s3, i)
    } else {
        (s3, Seq::<EffectView>::empty())
    };
    assert(p.0.devices[i].pending.len() == 0);
    assert(drain_spec(p.0, i).1 == Seq::<EffectView>::empty());
    assert(r.1 == seq![ev] + p.1 + Seq::<EffectView>::empty());
    assert(r.1[0] == ev);
    match a {
        ActionView::Read(k) => {},
        ActionView::Write { key, .. } => {},
        ActionView::Subscribe(k) => {},
        ActionView::Unsubscribe(k) => {},
        _ => {},
    }
}

/// The legacy signals of initialization and scan progress on the manager:
/// a succeeded initialization carrying an adapter caches it and reports
/// success; a failed or cancelled one clears the cache and reports the
/// failure twice, as `adapter_initialized(false, ..)` and as
/// `error_occurred`, with the error's legacy text; a scan record is reported
/// as `device_discovered` or `device_updated` as its kind says.
pub proof fn law_manager_initialization_and_progress_signals(m: ManagerView, e: BleEventView)
    ensures
        e.operation == Operation::Initialize && e.phase == Phase::Succeeded && e.data is Adapter ==> {
            &&& manager_event_spec(m, e).0.initialized
            &&& manager_event_spec(m, e).0.adapter_info == Some(e.data->Adapter_0)
            &&& manager_event_spec(m, e).1 == seq![
                ManagerSignalView::AdapterInitialized { success: true, error: Seq::empty() },
            ]
        },
        e.operation == Operation::Initialize && (e.phase == Phase::Failed || e.phase == Phase::Cancelled)
            && e.error is Some ==> {
            &&& !manager_event_spec(m, e).0.initialized
            &&& manager_event_spec(m, e).0.adapter_info is None
            &&& manager_event_spec(m, e).1 == seq![
                ManagerSignalView::AdapterInitialized { success: false, error: e.error->Some_0.legacy_message },
                ManagerSignalView::ErrorOccurred(e.error->Some_0.legacy_message),
            ]
        },
        e.operation == Operation::Scan && e.phase == Phase::Progress && e.data is Device ==> manager_event_spec(
            m,
            e,
        ).1 == seq![
            if e.data->kind == DeviceProgressKind::Discovered {
                ManagerSignalView::DeviceDiscovered(e.data->info)
            } else {
                ManagerSignalView::DeviceUpdated(e.data->info)
            },
        ],
{
}

/// The legacy connection signals of a device handle: after `ble_event`, a
/// succeeded connect emits `connected`, a failed or cancelled connect emits
/// `connection_failed` with the error's legacy text, a succeeded or
/// device-reported disconnect emits `disconnected`, and a failed or
/// cancelled disconnect emits `operation_failed("disconnect", ..)`.
pub proof fn law_handle_link_signals(d: BleDeviceView, e: BleEventView)
    requires
        e.context.device_address == d.address,
        e.error is Some,
    ensures
        e.operation == Operation::Connect && e.phase == Phase::Succeeded ==> device_event_spec(d, e).1 == seq![
            DeviceSignalView::Event,
            DeviceSignalView::Connected,
        ],
        e.operation == Operation::Connect && (e.phase == Phase::Failed || e.phase == Phase::Cancelled)
            ==> device_event_spec(d, e).1 == seq![
            DeviceSignalView::Event,
            DeviceSignalView::ConnectionFailed(e.error->Some_0.legacy_message),
        ],
        e.operation == Operation::Disconnect && (e.phase == Phase::Succeeded || e.phase == Phase::Received)
            ==> device_event_spec(d, e).1 == seq![DeviceSignalView::Event, DeviceSignalView::Disconnected],
        e.operation == Operation::Disconnect && (e.phase == Phase::Failed || e.phase == Phase::Cancelled)
            ==> device_event_spec(d, e).1 == seq![
            DeviceSignalView::Event,
            DeviceSignalView::OperationFailed {
                operation: "disconnect"@,
                error: e.error->Some_0.legacy_message,
            },
        ],
{
    let t = crate::device::device_transition_spec(crate::device::refresh_spec(d, e), e);
    assert(device_event_spec(d, e).1 == seq![DeviceSignalView::Event] + t.1);
    assert(seq![DeviceSignalView::Event] + seq![DeviceSignalView::Connected] =~= seq![
        DeviceSignalView::Event,
        DeviceSignalView::Connected,
    ]);
    assert(seq![DeviceSignalView::Event] + seq![DeviceSignalView::Disconnected] =~= seq![
        DeviceSignalView::Event,
        DeviceSignalView::Disconnected,
    ]);
    assert(seq![DeviceSignalView::Event] + seq![
        DeviceSignalView::ConnectionFailed(e.error->Some_0.legacy_message),
    ] =~= seq![DeviceSignalView::Event, DeviceSignalView::ConnectionFailed(e.error->Some_0.legacy_message)]);
    assert(seq![DeviceSignalView::Event] + seq![
        DeviceSignalView::OperationFailed { operation: "disconnect"@, error: e.error->Some_0.legacy_message },
    ] =~= seq![
        DeviceSignalView::Event,
        DeviceSignalView::OperationFailed { operation: "disconnect"@, error: e.error->Some_0.legacy_message },
    ]);
}

} // verus!
