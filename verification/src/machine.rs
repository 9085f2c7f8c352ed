use vstd::prelude::*;

use core::time::Duration;

use crate::command::{
    action_context, action_operation, effects_view, result_view, ActionView, BackendEvent, BackendEventView,
    BackendNotification, CommandView, CoreCommand, CoreEffect, DeviceAction, EffectView,
    InternalEvent, InternalView,
};
use crate::event::{
    device_context, device_id_spec, empty_context, error_view, failed_view, gatt_context,
    progress_view, received_view, started_view, succeeded_view, unsolicited_id, BleEvent,
    BleEventView, DeviceId, DeviceProgressKind, EventContext, EventData, EventDataView,
    EventError, GattKey, Operation, OperationId, Phase,
};
use crate::info::{
    copy_services, services_view, AdapterInfo, AdapterInfoView, BleServiceInfo, DeviceInfo,
    DeviceInfoView, ServiceView, same_record,
};
use crate::scan::{
    next_counter, wrapping_next, ActiveScan, ScanGeneration, ScanSession, ScanSessionView,
};
use crate::text::ascii_lowercase;
use crate::types::{BleError, BleErrorView};

verus! {

/// Most requests a device may have waiting behind its running request.
pub const DEVICE_QUEUE_CAPACITY: usize = 64;

// --------------------------------------------------------------- lookups

// ----------------------------------------------------------- state types

/// Where a scan is in its life.
#[derive(Clone, Copy, Debug, PartialEq, Eq, Structural)]
pub enum ScanStatus {
    Idle,
    Starting,
    Scanning,
    Stopping,
}

/// Where a device connection is in its life.
#[derive(Clone, Copy, Debug, PartialEq, Eq, Structural)]
pub enum ConnectionState {
    Disconnected,
    Connecting,
    Connected,
    Disconnecting,
}

/// The running request of a device, by value.
pub struct InFlightView {
    pub operation_id: OperationId,
    pub generation: u64,
    pub action: ActionView,
}

/// A waiting request of a device, by value.
pub struct QueuedView {
    pub operation_id: OperationId,
    pub action: ActionView,
}

/// One device's session, by value.
pub struct SessionView {
    pub device: Seq<char>,
    pub state: ConnectionState,
    pub generation: u64,
    pub in_flight: Option<InFlightView>,
    pub pending: Seq<QueuedView>,
    pub services: Seq<ServiceView>,
    pub subscriptions: Seq<(Seq<char>, Seq<char>)>,
    pub notification_active: bool,
    pub notification_generation: u64,
}

/// The scan side of the core, by value.
pub struct ScanRuntimeView {
    pub tracker: ScanSessionView,
    pub status: ScanStatus,
    pub cancellation: bool,
    pub stop_requested: bool,
}

/// The whole core, by value.
pub struct CoreView {
    pub initialized: bool,
    pub initializing: Option<OperationId>,
    pub adapter_info: Option<AdapterInfoView>,
    pub scan: ScanRuntimeView,
    pub known_devices: Seq<(Seq<char>, DeviceInfoView)>,
    pub devices: Seq<SessionView>,
}

/// The running request of a device.
#[derive(Debug)]
pub struct InFlightOperation {
    operation_id: OperationId,
    generation: u64,
    action: DeviceAction,
}

impl View for InFlightOperation {
    type V = InFlightView;

    closed spec fn view(&self) -> InFlightView {
        InFlightView {
            operation_id: self.operation_id,
            generation: self.generation,
            action: self.action@,
        }
    }
}

/// A waiting request of a device.
#[derive(Debug)]
pub struct QueuedOperation {
    operation_id: OperationId,
    action: DeviceAction,
}

impl View for QueuedOperation {
    type V = QueuedView;

    closed spec fn view(&self) -> QueuedView {
        QueuedView { operation_id: self.operation_id, action: self.action@ }
    }
}

/// The ordered request queue and connection state of one device.
#[derive(Debug)]
pub struct DeviceSession {
    device: DeviceId,
    state: ConnectionState,
    generation: u64,
    in_flight: Option<InFlightOperation>,
    pending: Vec<QueuedOperation>,
    services: Vec<BleServiceInfo>,
    subscriptions: Vec<GattKey>,
    notification_active: bool,
    notification_generation: u64,
}

/// The by-value form of a request queue.
pub open spec fn queue_view(v: Seq<QueuedOperation>) -> Seq<QueuedView> {
    Seq::new(v.len(), |i: int| v[i]@)
}

/// The by-value form of a subscription list.
pub open spec fn keys_view(v: Seq<GattKey>) -> Seq<(Seq<char>, Seq<char>)> {
    Seq::new(v.len(), |i: int| v[i]@)
}

impl View for DeviceSession {
    type V = SessionView;

    closed spec fn view(&self) -> SessionView {
        SessionView {
            device: self.device@,
            state: self.state,
            generation: self.generation,
            in_flight: match self.in_flight {
                Some(f) => Some(f@),
                None => None,
            },
            pending: queue_view(self.pending@),
            services: services_view(self.services@),
            subscriptions: keys_view(self.subscriptions@),
            notification_active: self.notification_active,
            notification_generation: self.notification_generation,
        }
    }
}

/// The scan side of the core.
#[derive(Debug)]
pub struct ScanRuntimeState {
    tracker: ScanSession,
    status: ScanStatus,
    cancellation: bool,
    stop_requested: bool,
}

impl View for ScanRuntimeState {
    type V = ScanRuntimeView;

    closed spec fn view(&self) -> ScanRuntimeView {
        ScanRuntimeView {
            tracker: self.tracker@,
            status: self.status,
            cancellation: self.cancellation,
            stop_requested: self.stop_requested,
        }
    }
}

impl Default for ScanRuntimeState {
    fn default() -> (r: Self)
        ensures
            r@ == idle_scan(),
    {
        ScanRuntimeState {
            tracker: ScanSession::default(),
            status: ScanStatus::Idle,
            cancellation: false,
            stop_requested: false,
        }
    }
}

/// A scan side that has never scanned.
pub open spec fn idle_scan() -> ScanRuntimeView {
    ScanRuntimeView {
        tracker: ScanSessionView { generation: 0, active: None },
        status: ScanStatus::Idle,
        cancellation: false,
        stop_requested: false,
    }
}

/// The single owner of adapter, scan and device state. Each command, each
/// result of background work, and shutdown is one step that updates the
/// state and returns the effects the runner must perform, in order.
#[derive(Debug)]
pub struct CoreState {
    initialized: bool,
    initializing: Option<OperationId>,
    adapter_info: Option<AdapterInfo>,
    scan: ScanRuntimeState,
    known_devices: Vec<(DeviceId, DeviceInfo)>,
    devices: Vec<DeviceSession>,
}

/// The by-value form of the known-device list.
pub open spec fn known_view(v: Seq<(DeviceId, DeviceInfo)>) -> Seq<(Seq<char>, DeviceInfoView)> {
    Seq::new(v.len(), |i: int| (v[i].0@, v[i].1@))
}

/// The by-value form of the session list.
pub open spec fn sessions_view(v: Seq<DeviceSession>) -> Seq<SessionView> {
    Seq::new(v.len(), |i: int| v[i]@)
}

/// The by-value form of a core's fields.
#[verifier::opaque]
pub closed spec fn core_view(c: &CoreState) -> CoreView {
    CoreView {
        initialized: c.initialized,
        initializing: c.initializing,
        adapter_info: match c.adapter_info {
            Some(a) => Some(a@),
            None => None,
        },
        scan: c.scan@,
        known_devices: known_view(c.known_devices@),
        devices: sessions_view(c.devices@),
    }
}

impl View for CoreState {
    type V = CoreView;

    closed spec fn view(&self) -> CoreView {
        core_view(self)
    }
}

/// A core that has not been initialized.
pub open spec fn fresh_core() -> CoreView {
    CoreView {
        initialized: false,
        initializing: None,
        adapter_info: None,
        scan: idle_scan(),
        known_devices: Seq::empty(),
        devices: Seq::empty(),
    }
}

// ------------------------------------------------------------- the model

/// An event to publish.
pub open spec fn emit(e: BleEventView) -> EffectView {
    EffectView::Emit(e)
}

/// The identity of the running scan, or `UNSOLICITED`.
pub open spec fn scan_operation(s: CoreView) -> OperationId {
    match s.scan.tracker.active {
        Some(a) => a.operation_id,
        None => unsolicited_id(),
    }
}

/// `initialize`: answers from the cache once initialized, refuses a second
/// concurrent initialization, otherwise starts backend initialization.
pub open spec fn initialize_spec(s: CoreView, op: OperationId) -> (CoreView, Seq<EffectView>) {
    if s.initialized {
        (
            s,
            seq![
                emit(
                    succeeded_view(
                        Operation::Initialize,
                        op,
                        empty_context(),
                        match s.adapter_info {
                            Some(a) => EventDataView::Adapter(a),
                            None => EventDataView::Empty,
                        },
                    ),
                ),
            ],
        )
    } else if s.initializing is Some {
        (
            s,
            seq![
                emit(
                    failed_view(
                        Operation::Initialize,
                        op,
                        empty_context(),
                        BleErrorView::Busy("initialization already in progress"@),
                    ),
                ),
            ],
        )
    } else {
        (
            CoreView { initializing: Some(op), ..s },
            seq![
                emit(started_view(Operation::Initialize, op, empty_context())),
                EffectView::InitializeBackend { operation_id: op },
            ],
        )
    }
}

/// `start_scan`: refused before initialization and while a scan runs;
/// otherwise a new generation starts in `Starting`.
pub open spec fn start_scan_spec(s: CoreView, op: OperationId, timeout: Option<Duration>) -> (
    CoreView,
    Seq<EffectView>,
) {
    if !s.initialized {
        (s, seq![emit(failed_view(Operation::Scan, op, empty_context(), BleErrorView::NotInitialized))])
    } else if s.scan.tracker.active is Some {
        (
            s,
            seq![
                emit(
                    failed_view(
                        Operation::Scan,
                        op,
                        empty_context(),
                        BleErrorView::Busy("scan already active"@),
                    ),
                ),
            ],
        )
    } else {
        let g = wrapping_next(s.scan.tracker.generation);
        (
            CoreView {
                scan: ScanRuntimeView {
                    tracker: ScanSessionView {
                        generation: g,
                        active: Some(
                            ActiveScan { generation: ScanGeneration(g), operation_id: op, timeout },
                        ),
                    },
                    status: ScanStatus::Starting,
                    cancellation: true,
                    stop_requested: false,
                },
                ..s
            },
            seq![
                EffectView::ArmScanCancellation,
                EffectView::StartScan { operation_id: op, generation: ScanGeneration(g) },
            ],
        )
    }
}

/// Moves a scanning scan to `Stopping` and asks the backend to stop it; a
/// scan already stopping is left alone.
pub open spec fn spawn_scan_stop_spec(s: CoreView, a: ActiveScan, reason: Seq<char>) -> (
    CoreView,
    Seq<EffectView>,
) {
    if s.scan.status == ScanStatus::Stopping {
        (s, seq![])
    } else {
        (
            CoreView { scan: ScanRuntimeView { status: ScanStatus::Stopping, ..s.scan }, ..s },
            seq![
                EffectView::StopScan {
                    operation_id: a.operation_id,
                    generation: a.generation,
                    reason,
                },
            ],
        )
    }
}

/// `stop_scan`: only the running scan's identity stops it. Its token is
/// cancelled; a starting scan is stopped once it has started.
pub open spec fn stop_scan_spec(s: CoreView, op: OperationId, reason: Seq<char>) -> (
    CoreView,
    Seq<EffectView>,
) {
    match s.scan.tracker.active {
        None => (s, seq![]),
        Some(a) => if a.operation_id != op {
            (s, seq![])
        } else {
            let pre = if s.scan.cancellation {
                seq![EffectView::CancelScanCancellation]
            } else {
                seq![]
            };
            match s.scan.status {
                ScanStatus::Starting => (
                    CoreView { scan: ScanRuntimeView { stop_requested: true, ..s.scan }, ..s },
                    pre,
                ),
                ScanStatus::Scanning => {
                    let (s2, e2) = spawn_scan_stop_spec(s, a, reason);
                    (s2, pre + e2)
                },
                _ => (s, pre),
            }
        },
    }
}


// ------------------------------------------------------ device sessions

/// The index of the first session of device `d` in `devs`, or -1.
#[verifier::opaque]
pub open spec fn session_index(devs: Seq<SessionView>, d: Seq<char>) -> int {
    if exists|j: int| 0 <= j < devs.len() && devs[j].device == d {
        choose|j: int|
            0 <= j < devs.len() && devs[j].device == d && forall|m: int|
                0 <= m < j ==> devs[m].device != d
    } else {
        -1
    }
}

/// The index of the session of device `d`, or -1.
pub open spec fn device_index(s: CoreView, d: Seq<char>) -> int {
    session_index(s.devices, d)
}

/// `session_index` is `j` when `devs[j]` is the first session of `d`.
pub proof fn lemma_session_index_found(devs: Seq<SessionView>, d: Seq<char>, j: int)
    requires
        0 <= j < devs.len(),
        devs[j].device == d,
        forall|m: int| 0 <= m < j ==> devs[m].device != d,
    ensures
        session_index(devs, d) == j,
{
    reveal(session_index);
    let k = choose|k: int|
        0 <= k < devs.len() && devs[k].device == d && forall|m: int| 0 <= m < k ==> devs[m].device != d;
    if k < j {
        assert(devs[k].device != d);
    }
    if k > j {
        assert(devs[j].device != d);
    }
}

proof fn lemma_session_min(devs: Seq<SessionView>, d: Seq<char>, j: int)
    requires
        0 <= j < devs.len(),
        devs[j].device == d,
    ensures
        exists|k: int| 0 <= k < devs.len() && devs[k].device == d && forall|m: int| 0 <= m < k ==> devs[m].device != d,
    decreases j,
{
    if exists|m: int| 0 <= m < j && devs[m].device == d {
        let m = choose|m: int| 0 <= m < j && devs[m].device == d;
        lemma_session_min(devs, d, m);
    }
}

/// `session_index` is -1 or the index of a session of `d`, with no earlier one.
pub proof fn lemma_session_index(devs: Seq<SessionView>, d: Seq<char>)
    ensures
        session_index(devs, d) == -1 <==> forall|m: int| 0 <= m < devs.len() ==> devs[m].device != d,
        session_index(devs, d) != -1 ==> {
            &&& 0 <= session_index(devs, d) < devs.len()
            &&& devs[session_index(devs, d)].device == d
            &&& forall|m: int| 0 <= m < session_index(devs, d) ==> devs[m].device != d
        },
{
    reveal(session_index);
    if exists|j: int| 0 <= j < devs.len() && devs[j].device == d {
        let j0 = choose|j: int| 0 <= j < devs.len() && devs[j].device == d;
        lemma_session_min(devs, d, j0);
    }
}

/// `s` with session `i` replaced.
pub open spec fn with_session(s: CoreView, i: int, sv: SessionView) -> CoreView {
    CoreView { devices: s.devices.update(i, sv), ..s }
}

/// A new device session: disconnected, idle, without subscriptions.
pub open spec fn default_session(d: Seq<char>) -> SessionView {
    SessionView {
        device: d,
        state: ConnectionState::Disconnected,
        generation: 0,
        in_flight: None,
        pending: Seq::empty(),
        services: Seq::empty(),
        subscriptions: Seq::empty(),
        notification_active: false,
        notification_generation: 0,
    }
}

/// `s` with a session for `d`, adding a new one at the end if needed.
pub open spec fn ensure_session_spec(s: CoreView, d: Seq<char>) -> CoreView {
    if device_index(s, d) >= 0 {
        s
    } else {
        CoreView { devices: s.devices.push(default_session(d)), ..s }
    }
}

/// Whether a subscription for another service shares `k`'s characteristic UUID.
pub open spec fn conflicts(subs: Seq<(Seq<char>, Seq<char>)>, k: (Seq<char>, Seq<char>)) -> bool {
    exists|j: int| 0 <= j < subs.len() && subs[j].1 == k.1 && subs[j].0 != k.0
}

/// The immediate answer to a request, where no backend work is needed:
/// connecting a connected device or disconnecting a disconnected one
/// succeeds at once, GATT work needs a connection, and a subscription is
/// answered at once when it exists or when its characteristic UUID is
/// already subscribed under another service.
pub open spec fn validate_spec(sess: SessionView, a: ActionView) -> Option<Result<EventDataView, BleErrorView>> {
    if a is Connect && sess.state == ConnectionState::Connected {
        Some(Ok(EventDataView::Reason("already_connected"@)))
    } else if a is Disconnect && sess.state == ConnectionState::Disconnected {
        Some(Ok(EventDataView::Reason("already_disconnected"@)))
    } else if !(a is Connect || a is Disconnect) && sess.state != ConnectionState::Connected {
        Some(Err(BleErrorView::NotConnected))
    } else {
        match a {
            ActionView::Subscribe(k) => if sess.subscriptions.contains(k) {
                Some(Ok(EventDataView::Reason("already_subscribed"@)))
            } else if conflicts(sess.subscriptions, k) {
                Some(Err(BleErrorView::AmbiguousCharacteristic(k.1)))
            } else {
                None
            },
            _ => None,
        }
    }
}

/// Starts the notification pump of session `i` unless one is live.
pub open spec fn ensure_pump_spec(s: CoreView, i: int) -> (CoreView, Seq<EffectView>) {
    let sess = s.devices[i];
    if sess.notification_active {
        (s, seq![])
    } else {
        let g = wrapping_next(sess.notification_generation);
        (
            with_session(
                s,
                i,
                SessionView { notification_active: true, notification_generation: g, ..sess },
            ),
            seq![EffectView::StartNotificationPump { device: sess.device, generation: g }],
        )
    }
}

/// The terminal event of a request answered without backend work.
pub open spec fn validation_event(q: QueuedView, d: Seq<char>, res: Result<EventDataView, BleErrorView>) -> EffectView {
    match res {
        Ok(data) => emit(
            succeeded_view(action_operation(q.action), q.operation_id, action_context(q.action, d), data),
        ),
        Err(e) => emit(
            failed_view(action_operation(q.action), q.operation_id, action_context(q.action, d), e),
        ),
    }
}

/// Whether answering `a` at once restarts a pump that has ended: a repeated
/// subscription while no pump is live.
pub open spec fn restarts_pump(sess: SessionView, a: ActionView) -> bool {
    match a {
        ActionView::Subscribe(k) => sess.subscriptions.contains(k) && !sess.notification_active,
        _ => false,
    }
}

/// The session after its head request has been started under a new generation.
pub open spec fn started_session(sess: SessionView, q: QueuedView) -> SessionView {
    let g = wrapping_next(sess.generation);
    SessionView {
        generation: g,
        state: match q.action {
            ActionView::Connect => ConnectionState::Connecting,
            ActionView::Disconnect => ConnectionState::Disconnecting,
            _ => sess.state,
        },
        in_flight: Some(InFlightView { operation_id: q.operation_id, generation: g, action: q.action }),
        ..sess
    }
}

/// Works through session `i`'s queue in order while nothing runs: requests
/// answered at once get their terminal event, and the first request that
/// needs the backend is started.
#[verifier::opaque]
pub open spec fn drain_spec(s: CoreView, i: int) -> (CoreView, Seq<EffectView>)
    decreases (if 0 <= i < s.devices.len() { s.devices[i].pending.len() } else { 0 }),
{
    if !(0 <= i < s.devices.len()) {
        (s, seq![])
    } else {
        let sess = s.devices[i];
        if sess.in_flight is Some || sess.pending.len() == 0 {
            (s, seq![])
        } else {
            let q = sess.pending[0];
            let sess1 = SessionView { pending: sess.pending.drop_first(), ..sess };
            let s1 = with_session(s, i, sess1);
            match validate_spec(sess1, q.action) {
                Some(res) => {
                    let p = if restarts_pump(sess1, q.action) {
                        ensure_pump_spec(s1, i)
                    } else {
                        (s1, seq![])
                    };
                    let r = drain_spec(p.0, i);
                    (r.0, seq![validation_event(q, sess.device, res)] + p.1 + r.1)
                },
                None => {
                    let sess2 = started_session(sess1, q);
                    (
                        with_session(s, i, sess2),
                        seq![
                            emit(
                                started_view(
                                    action_operation(q.action),
                                    q.operation_id,
                                    action_context(q.action, sess.device),
                                ),
                            ),
                            EffectView::RunDeviceAction {
                                operation_id: q.operation_id,
                                device: sess.device,
                                generation: sess2.generation,
                                action: q.action,
                            },
                        ],
                    )
                },
            }
        }
    }
}

/// A device request: refused before initialization and when the device's
/// queue is full; otherwise queued behind the device's earlier requests.
pub open spec fn device_command_spec(s: CoreView, op: OperationId, d: Seq<char>, a: ActionView) -> (
    CoreView,
    Seq<EffectView>,
) {
    if !s.initialized {
        (
            s,
            seq![
                emit(
                    failed_view(action_operation(a), op, action_context(a, d), BleErrorView::NotInitialized),
                ),
            ],
        )
    } else {
        queue_request_spec(s, op, d, a)
    }
}

/// Queues a request on an initialized core, refusing it when the device's
/// queue is full.
pub open spec fn queue_request_spec(s: CoreView, op: OperationId, d: Seq<char>, a: ActionView) -> (
    CoreView,
    Seq<EffectView>,
) {
    {
        let s1 = ensure_session_spec(s, d);
        let i = device_index(s1, d);
        let sess = s1.devices[i];
        if sess.pending.len() >= DEVICE_QUEUE_CAPACITY {
            (
                s1,
                seq![
                    emit(failed_view(action_operation(a), op, action_context(a, d), BleErrorView::QueueFull)),
                ],
            )
        } else {
            let s2 = with_session(
                s1,
                i,
                SessionView {
                    pending: sess.pending.push(QueuedView { operation_id: op, action: a }),
                    ..sess
                },
            );
            drain_spec(s2, i)
        }
    }
}


// ----------------------------------------------- results of background work

/// The index of the first known record of device `d`, or -1.
#[verifier::opaque]
pub open spec fn known_index(known: Seq<(Seq<char>, DeviceInfoView)>, d: Seq<char>) -> int {
    if exists|j: int| 0 <= j < known.len() && known[j].0 == d {
        choose|j: int|
            0 <= j < known.len() && known[j].0 == d && forall|m: int| 0 <= m < j ==> known[m].0 != d
    } else {
        -1
    }
}

/// `known_index` is `j` when `known[j]` is the first record of `d`.
pub proof fn lemma_known_index_found(known: Seq<(Seq<char>, DeviceInfoView)>, d: Seq<char>, j: int)
    requires
        0 <= j < known.len(),
        known[j].0 == d,
        forall|m: int| 0 <= m < j ==> known[m].0 != d,
    ensures
        known_index(known, d) == j,
{
    reveal(known_index);
    let k = choose|k: int|
        0 <= k < known.len() && known[k].0 == d && forall|m: int| 0 <= m < k ==> known[m].0 != d;
    if k < j {
        assert(known[k].0 != d);
    }
    if k > j {
        assert(known[j].0 != d);
    }
}

/// `known_index` is -1 when no record is of `d`.
pub proof fn lemma_known_index_none(known: Seq<(Seq<char>, DeviceInfoView)>, d: Seq<char>)
    requires
        forall|m: int| 0 <= m < known.len() ==> known[m].0 != d,
    ensures
        known_index(known, d) == -1,
{
    reveal(known_index);
}

/// The index of the first occurrence of key `k`, or -1.
#[verifier::opaque]
pub open spec fn key_index(subs: Seq<(Seq<char>, Seq<char>)>, k: (Seq<char>, Seq<char>)) -> int {
    if exists|j: int| 0 <= j < subs.len() && subs[j] == k {
        choose|j: int| 0 <= j < subs.len() && subs[j] == k && forall|m: int| 0 <= m < j ==> subs[m] != k
    } else {
        -1
    }
}

/// `key_index` is `j` when `subs[j]` is the first occurrence of `k`.
pub proof fn lemma_key_index_found(subs: Seq<(Seq<char>, Seq<char>)>, k: (Seq<char>, Seq<char>), j: int)
    requires
        0 <= j < subs.len(),
        subs[j] == k,
        forall|m: int| 0 <= m < j ==> subs[m] != k,
    ensures
        key_index(subs, k) == j,
{
    reveal(key_index);
    let x = choose|x: int| 0 <= x < subs.len() && subs[x] == k && forall|m: int| 0 <= m < x ==> subs[m] != k;
    if x < j {
        assert(subs[x] != k);
    }
    if x > j {
        assert(subs[j] != k);
    }
}

/// `key_index` is -1 or the index of an occurrence of `k`.
pub proof fn lemma_key_index_range(subs: Seq<(Seq<char>, Seq<char>)>, k: (Seq<char>, Seq<char>))
    ensures
        key_index(subs, k) == -1 || (0 <= key_index(subs, k) < subs.len() && subs[key_index(subs, k)] == k),
{
    reveal(key_index);
    if exists|j: int| 0 <= j < subs.len() && subs[j] == k {
        let j0 = choose|j: int| 0 <= j < subs.len() && subs[j] == k;
        lemma_key_min(subs, k, j0);
    }
}

proof fn lemma_key_min(subs: Seq<(Seq<char>, Seq<char>)>, k: (Seq<char>, Seq<char>), j: int)
    requires
        0 <= j < subs.len(),
        subs[j] == k,
    ensures
        exists|x: int| 0 <= x < subs.len() && subs[x] == k && forall|m: int| 0 <= m < x ==> subs[m] != k,
    decreases j,
{
    if exists|m: int| 0 <= m < j && subs[m] == k {
        let m = choose|m: int| 0 <= m < j && subs[m] == k;
        lemma_key_min(subs, k, m);
    }
}

/// `key_index` is -1 when `k` does not occur.
pub proof fn lemma_key_index_none(subs: Seq<(Seq<char>, Seq<char>)>, k: (Seq<char>, Seq<char>))
    requires
        forall|m: int| 0 <= m < subs.len() ==> subs[m] != k,
    ensures
        key_index(subs, k) == -1,
{
    reveal(key_index);
}

/// The index of the first subscription whose characteristic UUID is `c`, or -1.
#[verifier::opaque]
pub open spec fn characteristic_index(subs: Seq<(Seq<char>, Seq<char>)>, c: Seq<char>) -> int {
    if exists|j: int| 0 <= j < subs.len() && subs[j].1 == c {
        choose|j: int| 0 <= j < subs.len() && subs[j].1 == c && forall|m: int| 0 <= m < j ==> subs[m].1 != c
    } else {
        -1
    }
}

/// `characteristic_index` is `j` when `subs[j]` is the first match of `c`.
pub proof fn lemma_characteristic_index_found(subs: Seq<(Seq<char>, Seq<char>)>, c: Seq<char>, j: int)
    requires
        0 <= j < subs.len(),
        subs[j].1 == c,
        forall|m: int| 0 <= m < j ==> subs[m].1 != c,
    ensures
        characteristic_index(subs, c) == j,
{
    reveal(characteristic_index);
    let x = choose|x: int|
        0 <= x < subs.len() && subs[x].1 == c && forall|m: int| 0 <= m < x ==> subs[m].1 != c;
    if x < j {
        assert(subs[x].1 != c);
    }
    if x > j {
        assert(subs[j].1 != c);
    }
}

/// `characteristic_index` is -1 when no subscription matches `c`.
pub proof fn lemma_characteristic_index_none(subs: Seq<(Seq<char>, Seq<char>)>, c: Seq<char>)
    requires
        forall|m: int| 0 <= m < subs.len() ==> subs[m].1 != c,
    ensures
        characteristic_index(subs, c) == -1,
{
    reveal(characteristic_index);
}

/// `subs` with `k` added unless present.
pub open spec fn set_insert(subs: Seq<(Seq<char>, Seq<char>)>, k: (Seq<char>, Seq<char>)) -> Seq<(Seq<char>, Seq<char>)> {
    if subs.contains(k) {
        subs
    } else {
        subs.push(k)
    }
}

/// `subs` with the first occurrence of `k` removed.
pub open spec fn set_remove(subs: Seq<(Seq<char>, Seq<char>)>, k: (Seq<char>, Seq<char>)) -> Seq<(Seq<char>, Seq<char>)> {
    if key_index(subs, k) >= 0 {
        subs.remove(key_index(subs, k))
    } else {
        subs
    }
}

/// Initialization finished: on success the adapter is cached and its event
/// stream is watched.
pub open spec fn initialized_spec(s: CoreView, op: OperationId, result: Result<AdapterInfoView, BleErrorView>) -> (
    CoreView,
    Seq<EffectView>,
) {
    let s1 = CoreView { initializing: None, ..s };
    match result {
        Ok(info) => (
            CoreView { initialized: true, adapter_info: Some(info), ..s1 },
            seq![
                emit(succeeded_view(Operation::Initialize, op, empty_context(), EventDataView::Adapter(info))),
                EffectView::WatchAdapterEvents,
            ],
        ),
        Err(e) => (s1, seq![emit(failed_view(Operation::Initialize, op, empty_context(), e))]),
    }
}

/// A scan record: published as `discovered` the first time, as `updated`
/// when it changed, and not at all when unchanged (manufacturer and service
/// data compared as maps). Records whose address is
/// blank are ignored.
pub open spec fn device_progress_spec(s: CoreView, info: DeviceInfoView) -> (CoreView, Seq<EffectView>) {
    match device_id_spec(info.address) {
        None => (s, seq![]),
        Some(d) => {
            let k = known_index(s.known_devices, d);
            if k >= 0 && same_record(s.known_devices[k].1, info) {
                (s, seq![])
            } else {
                let kind = if k >= 0 {
                    DeviceProgressKind::Updated
                } else {
                    DeviceProgressKind::Discovered
                };
                let known = if k >= 0 {
                    s.known_devices.update(k, (d, info))
                } else {
                    s.known_devices.push((d, info))
                };
                (
                    CoreView { known_devices: known, ..s },
                    seq![
                        emit(
                            progress_view(
                                scan_operation(s),
                                device_context(d),
                                EventDataView::Device { kind, info },
                            ),
                        ),
                    ],
                )
            }
        },
    }
}

/// The reason carried by requests cancelled by a remote disconnect.
pub open spec fn remote_cancel() -> BleErrorView {
    BleErrorView::Cancelled("device disconnected remotely"@)
}

/// The cancellation events of waiting requests, in queue order.
pub open spec fn pending_cancellations(pending: Seq<QueuedView>, d: Seq<char>) -> Seq<EffectView> {
    Seq::new(
        pending.len(),
        |j: int|
            emit(
                failed_view(
                    action_operation(pending[j].action),
                    pending[j].operation_id,
                    action_context(pending[j].action, d),
                    remote_cancel(),
                ),
            ),
    )
}

/// A session after its device disconnected on its own.
pub open spec fn remotely_disconnected(sess: SessionView) -> SessionView {
    SessionView {
        state: ConnectionState::Disconnected,
        generation: wrapping_next(sess.generation),
        in_flight: None,
        pending: Seq::empty(),
        subscriptions: Seq::empty(),
        notification_active: false,
        notification_generation: wrapping_next(sess.notification_generation),
        ..sess
    }
}

/// The device disconnected on its own: its running and waiting requests are
/// cancelled, its pump and subscriptions end, and an unsolicited
/// `disconnect`/`received` event follows.
pub open spec fn remote_disconnect_spec(s: CoreView, d: Seq<char>) -> (CoreView, Seq<EffectView>) {
    let received = emit(received_view(Operation::Disconnect, device_context(d), EventDataView::Reason("remote"@)));
    let i = device_index(s, d);
    if i < 0 {
        (s, seq![received])
    } else {
        let sess = s.devices[i];
        let abort = if sess.in_flight is Some {
            seq![EffectView::AbortDeviceAction { device: d }]
        } else {
            seq![]
        };
        let cancel = if sess.notification_active {
            seq![EffectView::CancelNotificationPump { device: d }]
        } else {
            seq![]
        };
        let running = match sess.in_flight {
            Some(f) => seq![
                emit(
                    failed_view(
                        action_operation(f.action),
                        f.operation_id,
                        action_context(f.action, d),
                        remote_cancel(),
                    ),
                ),
            ],
            None => seq![],
        };
        (
            with_session(s, i, remotely_disconnected(sess)),
            abort + cancel + running + pending_cancellations(sess.pending, d) + seq![received],
        )
    }
}

/// An event from the adapter's stream.
pub open spec fn backend_spec(s: CoreView, r: Result<BackendEventView, BleErrorView>) -> (
    CoreView,
    Seq<EffectView>,
) {
    match r {
        Ok(BackendEventView::Discovered(info)) => device_progress_spec(s, info),
        Ok(BackendEventView::Updated(info)) => device_progress_spec(s, info),
        Ok(BackendEventView::Disconnected(d)) => remote_disconnect_spec(s, d),
        Err(e) => (
            s,
            seq![
                emit(
                    BleEventView {
                        operation: Operation::Scan,
                        phase: Phase::Failed,
                        operation_id: scan_operation(s),
                        terminal: false,
                        context: empty_context(),
                        data: EventDataView::Empty,
                        error: Some(error_view(e)),
                    },
                ),
            ],
        ),
    }
}

/// The generation of the running scan.
pub open spec fn active_generation(s: CoreView) -> Option<ScanGeneration> {
    match s.scan.tracker.active {
        Some(a) => Some(a.generation),
        None => None,
    }
}

/// The scan side after its scan ended.
pub open spec fn scan_ended(s: CoreView) -> CoreView {
    CoreView {
        scan: ScanRuntimeView {
            tracker: ScanSessionView { generation: s.scan.tracker.generation, active: None },
            status: ScanStatus::Idle,
            cancellation: false,
            stop_requested: false,
        },
        ..s
    }
}

/// The backend answered a scan start; stale generations are ignored. A
/// started scan is stopped at once if a stop came meanwhile, and otherwise
/// gets its timer; a failed start ends the scan.
pub open spec fn scan_started_spec(s: CoreView, op: OperationId, g: ScanGeneration, result: Result<(), BleErrorView>) -> (
    CoreView,
    Seq<EffectView>,
) {
    if active_generation(s) != Some(g) {
        (s, seq![])
    } else {
        match result {
            Ok(_) => {
                let s1 = CoreView { scan: ScanRuntimeView { status: ScanStatus::Scanning, ..s.scan }, ..s };
                let e1 = seq![emit(started_view(Operation::Scan, op, empty_context()))];
                let a = s1.scan.tracker.active.unwrap();
                if s1.scan.stop_requested {
                    let (s2, e2) = spawn_scan_stop_spec(s1, a, "stopped"@);
                    (s2, e1 + e2)
                } else {
                    match a.timeout {
                        Some(t) => (s1, e1.push(EffectView::StartScanTimer { generation: g, timeout: t })),
                        None => (s1, e1),
                    }
                }
            },
            Err(e) => (
                scan_ended(s),
                seq![
                    EffectView::ReleaseScanCancellation,
                    emit(failed_view(Operation::Scan, op, empty_context(), e)),
                ],
            ),
        }
    }
}

/// A scan's timer fired: the scan stops if it is still the running one.
pub open spec fn scan_timed_out_spec(s: CoreView, g: ScanGeneration) -> (CoreView, Seq<EffectView>) {
    match s.scan.tracker.active {
        Some(a) => if a.generation == g {
            stop_scan_spec(s, a.operation_id, "timeout"@)
        } else {
            (s, seq![])
        },
        None => (s, seq![]),
    }
}

/// The backend answered a scan stop; the scan ends with its terminal event.
/// Stale generations are ignored.
pub open spec fn scan_stopped_spec(
    s: CoreView,
    op: OperationId,
    g: ScanGeneration,
    reason: Seq<char>,
    result: Result<(), BleErrorView>,
) -> (CoreView, Seq<EffectView>) {
    if active_generation(s) != Some(g) {
        (s, seq![])
    } else {
        (
            scan_ended(s),
            seq![
                EffectView::ReleaseScanCancellation,
                match result {
                    Ok(_) => emit(
                        succeeded_view(Operation::Scan, op, empty_context(), EventDataView::Reason(reason)),
                    ),
                    Err(e) => emit(failed_view(Operation::Scan, op, empty_context(), e)),
                },
            ],
        )
    }
}

/// The session after its running request succeeded.
pub open spec fn succeeded_session(sess: SessionView, a: ActionView, data: EventDataView) -> SessionView {
    let base = SessionView { in_flight: None, ..sess };
    match a {
        ActionView::Connect => SessionView { state: ConnectionState::Connected, ..base },
        ActionView::Disconnect => SessionView {
            state: ConnectionState::Disconnected,
            notification_active: false,
            notification_generation: wrapping_next(sess.notification_generation),
            subscriptions: Seq::empty(),
            ..base
        },
        ActionView::DiscoverServices => match data {
            EventDataView::Services(sv) => SessionView { services: sv, ..base },
            _ => base,
        },
        ActionView::Subscribe(k) => SessionView { subscriptions: set_insert(sess.subscriptions, k), ..base },
        ActionView::Unsubscribe(k) => SessionView { subscriptions: set_remove(sess.subscriptions, k), ..base },
        _ => base,
    }
}

/// The session after its running request failed: a failed connect leaves
/// the device disconnected, a failed disconnect leaves it connected.
pub open spec fn failed_session(sess: SessionView, a: ActionView) -> SessionView {
    SessionView {
        in_flight: None,
        state: match a {
            ActionView::Connect => ConnectionState::Disconnected,
            ActionView::Disconnect => ConnectionState::Connected,
            _ => sess.state,
        },
        ..sess
    }
}

/// Whether the running request of `sess` is the one identified.
pub open spec fn is_running(sess: SessionView, op: OperationId, g: u64) -> bool {
    sess.in_flight matches Some(f) && f.operation_id == op && f.generation == g
}

/// A device request finished. Results of requests that are no longer
/// running (a later generation replaced them) are ignored. Otherwise the
/// session is updated, the terminal event published, a new subscription gets
/// the device's pump, and the queue moves on.
pub open spec fn device_completed_spec(
    s: CoreView,
    op: OperationId,
    d: Seq<char>,
    g: u64,
    a: ActionView,
    result: Result<EventDataView, BleErrorView>,
) -> (CoreView, Seq<EffectView>) {
    let i = device_index(s, d);
    if i < 0 || !is_running(s.devices[i], op, g) {
        (s, seq![])
    } else {
        let sess = s.devices[i];
        match result {
            Ok(data) => {
                let pre = if a is Disconnect && sess.notification_active {
                    seq![EffectView::CancelNotificationPump { device: d }]
                } else {
                    seq![]
                };
                let s1 = with_session(s, i, succeeded_session(sess, a, data));
                let ev = emit(succeeded_view(action_operation(a), op, action_context(a, d), data));
                let p = if a is Subscribe {
                    ensure_pump_spec(s1, i)
                } else {
                    (s1, seq![])
                };
                let r = drain_spec(p.0, i);
                (r.0, pre + seq![ev] + p.1 + r.1)
            },
            Err(e) => {
                let s1 = with_session(s, i, failed_session(sess, a));
                let r = drain_spec(s1, i);
                (r.0, seq![emit(failed_view(action_operation(a), op, action_context(a, d), e))] + r.1)
            },
        }
    }
}

/// A notification: routed to the subscription whose characteristic UUID
/// matches, compared in ASCII lower case; dropped when none matches.
pub open spec fn notification_spec(s: CoreView, d: Seq<char>, uuid: Seq<char>, value: Seq<u8>) -> (
    CoreView,
    Seq<EffectView>,
) {
    let i = device_index(s, d);
    if i < 0 {
        (s, seq![])
    } else {
        let subs = s.devices[i].subscriptions;
        let j = characteristic_index(subs, crate::text::ascii_lower_spec(uuid));
        if j < 0 {
            (s, seq![])
        } else {
            (
                s,
                seq![
                    emit(
                        received_view(
                            Operation::Notification,
                            gatt_context(d, subs[j]),
                            EventDataView::Bytes(value),
                        ),
                    ),
                ],
            )
        }
    }
}

/// A notification pump ended: if it is the device's current pump, the
/// device has no live pump any more.
pub open spec fn finish_pump_spec(s: CoreView, d: Seq<char>, g: u64) -> (CoreView, Seq<EffectView>) {
    let i = device_index(s, d);
    if i >= 0 && s.devices[i].notification_generation == g {
        (
            with_session(s, i, SessionView { notification_active: false, ..s.devices[i] }),
            seq![EffectView::ReleaseNotificationPump { device: d }],
        )
    } else {
        (s, seq![])
    }
}

/// A notification pump failed: it ends, and a non-terminal
/// `notification`/`failed` event reports the error.
pub open spec fn pump_failed_spec(s: CoreView, d: Seq<char>, g: u64, e: BleErrorView) -> (CoreView, Seq<EffectView>) {
    let (s1, e1) = finish_pump_spec(s, d, g);
    (
        s1,
        e1.push(
            emit(
                BleEventView {
                    operation: Operation::Notification,
                    phase: Phase::Failed,
                    operation_id: unsolicited_id(),
                    terminal: false,
                    context: device_context(d),
                    data: EventDataView::Empty,
                    error: Some(error_view(e)),
                },
            ),
        ),
    )
}

/// One command.
pub open spec fn command_spec(s: CoreView, c: CommandView) -> (CoreView, Seq<EffectView>) {
    match c {
        CommandView::Initialize { operation_id } => initialize_spec(s, operation_id),
        CommandView::StartScan { operation_id, timeout } => start_scan_spec(s, operation_id, timeout),
        CommandView::StopScan { operation_id } => stop_scan_spec(s, operation_id, "stopped"@),
        CommandView::Device { operation_id, device, action } => device_command_spec(
            s,
            operation_id,
            device,
            action,
        ),
        CommandView::Shutdown => (s, seq![]),
    }
}

/// One result of background work.
pub open spec fn internal_spec(s: CoreView, e: InternalView) -> (CoreView, Seq<EffectView>) {
    match e {
        InternalView::Initialized { operation_id, result } => initialized_spec(s, operation_id, result),
        InternalView::Backend(r) => backend_spec(s, r),
        InternalView::ScanStarted { operation_id, generation, result } => scan_started_spec(
            s,
            operation_id,
            generation,
            result,
        ),
        InternalView::ScanTimedOut { generation } => scan_timed_out_spec(s, generation),
        InternalView::ScanStopped { operation_id, generation, reason, result } => scan_stopped_spec(
            s,
            operation_id,
            generation,
            reason,
            result,
        ),
        InternalView::DeviceCompleted { operation_id, device, generation, action, result } =>
            device_completed_spec(s, operation_id, device, generation, action, result),
        InternalView::Notification { device, characteristic_uuid, value } => notification_spec(
            s,
            device,
            characteristic_uuid,
            value,
        ),
        InternalView::NotificationPumpFailed { device, generation, error } => pump_failed_spec(
            s,
            device,
            generation,
            error,
        ),
        InternalView::NotificationPumpEnded { device, generation } => finish_pump_spec(
            s,
            device,
            generation,
        ),
    }
}

/// One session at shutdown: its running request is aborted, its pump
/// cancelled, its queue dropped, and a connected device disconnected.
pub open spec fn shutdown_session(sv: SessionView) -> (SessionView, Seq<EffectView>) {
    (
        SessionView { in_flight: None, notification_active: false, pending: Seq::empty(), ..sv },
        (if sv.in_flight is Some {
            seq![EffectView::AbortDeviceAction { device: sv.device }]
        } else {
            seq![]
        }) + (if sv.notification_active {
            seq![EffectView::CancelNotificationPump { device: sv.device }]
        } else {
            seq![]
        }) + (if sv.state == ConnectionState::Connected {
            seq![EffectView::DisconnectNow { device: sv.device }]
        } else {
            seq![]
        }),
    )
}

/// The shutdown effects of the first `n` sessions, in order.
pub open spec fn shutdown_effects(devs: Seq<SessionView>, n: int) -> Seq<EffectView>
    decreases n,
{
    if n <= 0 {
        seq![]
    } else {
        shutdown_effects(devs, n - 1) + shutdown_session(devs[n - 1]).1
    }
}

/// Shutdown: cancel the scan token, stop a running scan, shut every session
/// down, then abort all background work. No event is published.
pub open spec fn shutdown_spec(s: CoreView) -> (CoreView, Seq<EffectView>) {
    (
        CoreView {
            scan: ScanRuntimeView { cancellation: false, ..s.scan },
            devices: Seq::new(s.devices.len(), |i: int| shutdown_session(s.devices[i]).0),
            ..s
        },
        (if s.scan.cancellation {
            seq![EffectView::CancelScanCancellation]
        } else {
            seq![]
        }) + (if s.scan.tracker.active is Some {
            seq![EffectView::StopScanNow]
        } else {
            seq![]
        }) + shutdown_effects(s.devices, s.devices.len() as int) + seq![EffectView::AbortAllTasks],
    )
}

// ------------------------------------------------------------ exec steps


/// The by-value form of an immediate answer.
pub open spec fn validation_view(r: Option<Result<EventData, BleError>>) -> Option<Result<EventDataView, BleErrorView>> {
    match r {
        Some(Ok(d)) => Some(Ok(d@)),
        Some(Err(e)) => Some(Err(e@)),
        None => None,
    }
}

impl DeviceSession {
    /// A new session for `device`.
    fn new(device: DeviceId) -> (r: Self)
        ensures
            r@ == default_session(device@),
    {
        let r = DeviceSession {
            device,
            state: ConnectionState::Disconnected,
            generation: 0,
            in_flight: None,
            pending: Vec::new(),
            services: Vec::new(),
            subscriptions: Vec::new(),
            notification_active: false,
            notification_generation: 0,
        };
        assert(r@.pending =~= Seq::<QueuedView>::empty());
        assert(r@.services =~= Seq::<ServiceView>::empty());
        assert(r@.subscriptions =~= Seq::<(Seq<char>, Seq<char>)>::empty());
        r
    }

    /// Whether `key` is subscribed.
    fn is_subscribed(&self, key: &GattKey) -> (r: bool)
        ensures
            r == self@.subscriptions.contains(key@),
    {
        let ghost subs = self@.subscriptions;
        for j in 0..self.subscriptions.len()
            invariant
                subs == keys_view(self.subscriptions@),
                forall|m: int| 0 <= m < j ==> subs[m] != key@,
        {
            if self.subscriptions[j].same_as(key) {
                assert(subs[j as int] == key@);
                return true;
            }
        }
        false
    }

    /// Whether a subscription for another service shares `key`'s characteristic UUID.
    fn has_conflict(&self, key: &GattKey) -> (r: bool)
        ensures
            r == conflicts(self@.subscriptions, key@),
    {
        let ghost subs = self@.subscriptions;
        for j in 0..self.subscriptions.len()
            invariant
                subs == keys_view(self.subscriptions@),
                forall|m: int| 0 <= m < j ==> !(subs[m].1 == key@.1 && subs[m].0 != key@.0),
        {
            let existing = &self.subscriptions[j];
            if existing.same_characteristic(key) && !existing.same_service(key) {
                assert(subs[j as int].1 == key@.1 && subs[j as int].0 != key@.0);
                return true;
            }
        }
        false
    }

    /// The immediate answer to `action`, if it needs no backend work.
    fn validate(&self, action: &DeviceAction) -> (r: Option<Result<EventData, BleError>>)
        ensures
            validation_view(r) == validate_spec(self@, action@),
    {
        let state = self.state;
        if matches!(action, DeviceAction::Connect) && state == ConnectionState::Connected {
            return Some(Ok(EventData::Reason(String::from_str("already_connected"))));
        }
        if matches!(action, DeviceAction::Disconnect) && state == ConnectionState::Disconnected {
            return Some(Ok(EventData::Reason(String::from_str("already_disconnected"))));
        }
        if !matches!(action, DeviceAction::Connect | DeviceAction::Disconnect) && state
            != ConnectionState::Connected {
            return Some(Err(BleError::NotConnected));
        }
        if let DeviceAction::Subscribe(key) = action {
            if self.is_subscribed(key) {
                return Some(Ok(EventData::Reason(String::from_str("already_subscribed"))));
            }
            if self.has_conflict(key) {
                return Some(
                    Err(BleError::AmbiguousCharacteristic(String::from_str(key.characteristic_uuid()))),
                );
            }
        }
        None
    }

    /// Adds `key` to the subscriptions unless present.
    fn add_subscription(&mut self, key: &GattKey)
        ensures
            final(self)@ == (SessionView { subscriptions: set_insert(old(self)@.subscriptions, key@), ..old(self)@ }),
    {
        if self.is_subscribed(key) {
            return;
        }
        let ghost old_subs = self@.subscriptions;
        self.subscriptions.push(key.clone());
        assert(self@.subscriptions =~= old_subs.push(key@));
    }

    /// Removes the first occurrence of `key` from the subscriptions.
    fn remove_subscription(&mut self, key: &GattKey)
        ensures
            final(self)@ == (SessionView { subscriptions: set_remove(old(self)@.subscriptions, key@), ..old(self)@ }),
    {
        let ghost subs = self@.subscriptions;
        match self.find_subscription(key) {
            Some(j) => {
                self.subscriptions.remove(j);
                assert(self@.subscriptions =~= subs.remove(j as int));
            },
            None => {},
        }
    }

    /// The index of the first occurrence of `key` among the subscriptions.
    fn find_subscription(&self, key: &GattKey) -> (r: Option<usize>)
        ensures
            match r {
                Some(j) => j < self.subscriptions.len() && j as int == key_index(self@.subscriptions, key@),
                None => key_index(self@.subscriptions, key@) == -1,
            },
    {
        let ghost subs = self@.subscriptions;
        for j in 0..self.subscriptions.len()
            invariant
                subs == keys_view(self.subscriptions@),
                forall|m: int| 0 <= m < j ==> subs[m] != key@,
        {
            if self.subscriptions[j].same_as(key) {
                proof {
                    lemma_key_index_found(subs, key@, j as int);
                }
                return Some(j);
            }
        }
        proof {
            lemma_key_index_none(subs, key@);
        }
        None
    }

    /// The first subscription whose characteristic UUID is `uuid`.
    fn find_characteristic(&self, uuid: &String) -> (r: Option<usize>)
        ensures
            match r {
                Some(j) => j < self.subscriptions.len() && j as int == characteristic_index(
                    self@.subscriptions,
                    uuid@,
                ),
                None => characteristic_index(self@.subscriptions, uuid@) == -1,
            },
    {
        let ghost subs = self@.subscriptions;
        for j in 0..self.subscriptions.len()
            invariant
                subs == keys_view(self.subscriptions@),
                forall|m: int| 0 <= m < j ==> subs[m].1 != uuid@,
        {
            if self.subscriptions[j].has_characteristic(uuid) {
                proof {
                    lemma_characteristic_index_found(subs, uuid@, j as int);
                }
                return Some(j);
            }
        }
        proof {
            lemma_characteristic_index_none(subs, uuid@);
        }
        None
    }

    /// The session after its running request succeeded with `data`; answers
    /// whether the request was a subscription.
    fn apply_success(&mut self, action: &DeviceAction, data: &EventData)
        ensures
            final(self)@ == succeeded_session(old(self)@, action@, data@),
    {
        self.in_flight = None;
        match action {
            DeviceAction::Connect => {
                self.state = ConnectionState::Connected;
            },
            DeviceAction::Disconnect => {
                self.state = ConnectionState::Disconnected;
                self.notification_active = false;
                self.notification_generation = next_counter(self.notification_generation);
                self.subscriptions = Vec::new();
                assert(self@.subscriptions =~= Seq::<(Seq<char>, Seq<char>)>::empty());
            },
            DeviceAction::DiscoverServices => {
                if let EventData::Services(services) = data {
                    self.services = copy_services(services);
                }
            },
            DeviceAction::Subscribe(key) => {
                self.add_subscription(key);
            },
            DeviceAction::Unsubscribe(key) => {
                self.remove_subscription(key);
            },
            _ => {},
        }
    }

    /// The session after its running request failed.
    fn apply_failure(&mut self, action: &DeviceAction)
        ensures
            final(self)@ == failed_session(old(self)@, action@),
    {
        self.in_flight = None;
        match action {
            DeviceAction::Connect => {
                self.state = ConnectionState::Disconnected;
            },
            DeviceAction::Disconnect => {
                self.state = ConnectionState::Connected;
            },
            _ => {},
        }
    }

    /// Whether the running request is `operation_id` of generation `generation`.
    fn runs(&self, operation_id: OperationId, generation: u64) -> (r: bool)
        ensures
            r == is_running(self@, operation_id, generation),
    {
        match &self.in_flight {
            Some(f) => f.operation_id == operation_id && f.generation == generation,
            None => false,
        }
    }
}

impl CoreState {
    /// The index of `device`'s session.
    fn find_device(&self, device: &DeviceId) -> (r: Option<usize>)
        ensures
            match r {
                Some(i) => i < self.devices.len() && i as int == device_index(self@, device@),
                None => device_index(self@, device@) == -1,
            },
    {
        proof {
            self.lemma_sessions();
        }
        let ghost devs = self@.devices;
        for i in 0..self.devices.len()
            invariant
                devs == self@.devices,
                devs.len() == self.devices.len(),
                forall|k: int| 0 <= k < devs.len() ==> #[trigger] devs[k].device == self.devices@[k].device@,
                forall|m: int| 0 <= m < i ==> devs[m].device != device@,
        {
            if self.devices[i].device.same_as(device) {
                proof {
                    lemma_session_index_found(devs, device@, i as int);
                }
                return Some(i);
            }
        }
        proof {
            lemma_session_index(devs, device@);
        }
        None
    }

    /// The session list's view holds each session's view.
    proof fn lemma_sessions(&self)
        ensures
            self@.devices == sessions_view(self.devices@),
            self@.devices.len() == self.devices.len(),
            forall|k: int| 0 <= k < self.devices.len() ==> #[trigger] self@.devices[k] == self.devices@[k]@,
            forall|k: int| 0 <= k < self.devices.len() ==> #[trigger] self@.devices[k].device == self.devices@[k].device@,
    {
        reveal(core_view);
    }

    /// The view's flags are the fields.
    proof fn lemma_flags(&self)
        ensures
            self@.initialized == self.initialized,
            self@.initializing == self.initializing,
            self@.scan == self.scan@,
    {
        reveal(core_view);
    }

    /// Takes session `i` out of the list.
    fn take_session(&mut self, i: usize) -> (r: DeviceSession)
        requires
            i < old(self).devices.len(),
        ensures
            r@ == old(self)@.devices[i as int],
            final(self)@ == (CoreView { devices: old(self)@.devices.remove(i as int), ..old(self)@ }),
            final(self).devices.len() == old(self).devices.len() - 1,
    {
        proof {
            reveal(core_view);
        }
        let r = self.devices.remove(i);
        assert(sessions_view(self.devices@) =~= sessions_view(old(self).devices@).remove(i as int));
        r
    }

    /// Puts a session back at index `i`.
    fn put_session(&mut self, i: usize, sess: DeviceSession)
        requires
            i <= old(self).devices.len(),
        ensures
            final(self)@ == (CoreView { devices: old(self)@.devices.insert(i as int, sess@), ..old(self)@ }),
            final(self).devices.len() == old(self).devices.len() + 1,
    {
        proof {
            reveal(core_view);
        }
        let ghost sv = sess@;
        self.devices.insert(i, sess);
        assert(sessions_view(self.devices@) =~= sessions_view(old(self).devices@).insert(i as int, sv));
    }

    /// The index of `device`'s session, adding a new session at the end if needed.
    fn ensure_session(&mut self, device: &DeviceId) -> (r: usize)
        ensures
            final(self)@ == ensure_session_spec(old(self)@, device@),
            r < final(self).devices.len(),
            r as int == device_index(final(self)@, device@),
    {
        proof {
            reveal(core_view);
        }
        match self.find_device(device) {
            Some(i) => i,
            None => {
                let sess = DeviceSession::new(device.clone());
                let ghost sv = sess@;
                self.devices.push(sess);
                assert(sessions_view(self.devices@) =~= sessions_view(old(self).devices@).push(sv));
                let i = self.devices.len() - 1;
                proof {
                    lemma_session_index(old(self)@.devices, device@);
                    lemma_session_index_found(self@.devices, device@, i as int);
                }
                i
            },
        }
    }

    /// Starts the notification pump of session `i` unless one is live.
    fn ensure_notification_pump(&mut self, i: usize, effects: &mut Vec<CoreEffect>)
        requires
            i < old(self).devices.len(),
        ensures
            final(self)@ == ensure_pump_spec(old(self)@, i as int).0,
            effects_view(final(effects)@) == effects_view(old(effects)@) + ensure_pump_spec(
                old(self)@,
                i as int,
            ).1,
            final(self).devices.len() == old(self).devices.len(),
    {
        proof {
            self.lemma_sessions();
        }
        let ghost sv = self@.devices[i as int];
        if self.devices[i].notification_active {
            assert(effects_view(effects@) =~= effects_view(effects@) + Seq::<EffectView>::empty());
            return;
        }
        let mut sess = self.take_session(i);
        sess.notification_active = true;
        sess.notification_generation = next_counter(sess.notification_generation);
        let generation = sess.notification_generation;
        let device = sess.device.clone();
        assert(sess@ == SessionView {
            notification_active: true,
            notification_generation: generation,
            ..sv
        });
        self.put_session(i, sess);
        push_effect(effects, CoreEffect::StartNotificationPump { device, generation });
        assert(self@.devices =~= ensure_pump_spec(old(self)@, i as int).0.devices);
    }

    /// Works through session `i`'s queue while nothing runs on the device.
    fn start_next_device_action(&mut self, i: usize, effects: &mut Vec<CoreEffect>)
        requires
            i < old(self).devices.len(),
        ensures
            final(self)@ == drain_spec(old(self)@, i as int).0,
            effects_view(final(effects)@) == effects_view(old(effects)@) + drain_spec(
                old(self)@,
                i as int,
            ).1,
    {
        proof {
            reveal(drain_spec);
        }
        let ghost target = drain_spec(self@, i as int);
        let ghost e0 = effects_view(effects@);
        assert(effects_view(effects@) + drain_spec(self@, i as int).1 =~= e0 + target.1);
        loop
            invariant
                i < self.devices.len(),
                target == drain_spec(old(self)@, i as int),
                e0 == effects_view(old(effects)@),
                drain_spec(self@, i as int).0 == target.0,
                effects_view(effects@) + drain_spec(self@, i as int).1 == e0 + target.1,
            decreases self@.devices[i as int].pending.len(),
        {
            proof {
                self.lemma_sessions();
                reveal(drain_spec);
            }
            if self.devices[i].in_flight.is_some() || self.devices[i].pending.len() == 0 {
                assert(self@.devices[i as int].in_flight is Some || self@.devices[i as int].pending.len() == 0);
                assert(drain_spec(self@, i as int).1 =~= Seq::<EffectView>::empty());
                assert(drain_spec(self@, i as int).0 == self@);
                assert(effects_view(effects@) =~= e0 + target.1);
                return;
            }
            let ghost s0 = self@;
            let mut sess = self.take_session(i);
            let q = sess.pending.remove(0);
            assert(queue_view(sess.pending@) =~= s0.devices[i as int].pending.drop_first());
            let ghost sess1 = sess@;
            let validation = sess.validate(&q.action);
            let restart = match &q.action {
                DeviceAction::Subscribe(key) => sess.is_subscribed(key) && !sess.notification_active,
                _ => false,
            };
            match validation {
                Some(result) => {
                    let operation = q.action.operation();
                    let context = q.action.context(&sess.device);
                    let event = match result {
                        Ok(data) => BleEvent::succeeded(operation, q.operation_id, context, data),
                        Err(error) => BleEvent::failed(operation, q.operation_id, context, error),
                    };
                    self.put_session(i, sess);
                    assert(self@ == with_session(s0, i as int, sess1)) by {
                        assert(self@.devices =~= s0.devices.update(i as int, sess1));
                    }
                    push_effect(effects, CoreEffect::Emit(event));
                    if restart {
                        self.ensure_notification_pump(i, effects);
                    }
                },
                None => {
                    sess.generation = next_counter(sess.generation);
                    let generation = sess.generation;
                    sess.state = match &q.action {
                        DeviceAction::Connect => ConnectionState::Connecting,
                        DeviceAction::Disconnect => ConnectionState::Disconnecting,
                        _ => sess.state,
                    };
                    let operation = q.action.operation();
                    let context = q.action.context(&sess.device);
                    push_effect(
                        effects,
                        CoreEffect::Emit(BleEvent::started(operation, q.operation_id, context)),
                    );
                    push_effect(
                        effects,
                        CoreEffect::RunDeviceAction {
                            operation_id: q.operation_id,
                            device: sess.device.clone(),
                            generation,
                            action: q.action.clone(),
                        },
                    );
                    sess.in_flight = Some(
                        InFlightOperation {
                            operation_id: q.operation_id,
                            generation,
                            action: q.action,
                        },
                    );
                    self.put_session(i, sess);
                    assert(self@.devices =~= s0.devices.update(
                        i as int,
                        started_session(sess1, s0.devices[i as int].pending[0]),
                    ));
                    assert(effects_view(effects@) =~= e0 + target.1);
                    return;
                },
            }
        }
    }

    /// Appends a request to session `i`'s queue.
    fn enqueue(&mut self, i: usize, operation_id: OperationId, action: DeviceAction)
        requires
            i < old(self).devices.len(),
        ensures
            final(self)@ == with_session(
                old(self)@,
                i as int,
                SessionView {
                    pending: old(self)@.devices[i as int].pending.push(
                        QueuedView { operation_id, action: action@ },
                    ),
                    ..old(self)@.devices[i as int]
                },
            ),
            final(self).devices.len() == old(self).devices.len(),
    {
        proof {
            self.lemma_sessions();
        }
        let ghost s1 = self@;
        let mut sess = self.take_session(i);
        let ghost sv = sess@;
        let ghost av = action@;
        sess.pending.push(QueuedOperation { operation_id, action });
        assert(sess@.pending =~= sv.pending.push(QueuedView { operation_id, action: av }));
        assert(sess@ == SessionView {
            pending: sv.pending.push(QueuedView { operation_id, action: av }),
            ..sv
        });
        self.put_session(i, sess);
        assert(s1.devices.remove(i as int).insert(i as int, SessionView {
                pending: sv.pending.push(QueuedView { operation_id, action: av }),
                ..sv
            }) =~= s1.devices.update(
            i as int,
            SessionView {
                pending: sv.pending.push(QueuedView { operation_id, action: av }),
                ..sv
            },
        ));
    }

    fn device_command(
        &mut self,
        operation_id: OperationId,
        device: DeviceId,
        action: DeviceAction,
        effects: &mut Vec<CoreEffect>,
    )
        ensures
            final(self)@ == device_command_spec(old(self)@, operation_id, device@, action@).0,
            effects_view(final(effects)@) == effects_view(old(effects)@) + device_command_spec(
                old(self)@,
                operation_id,
                device@,
                action@,
            ).1,
    {
        proof {
            self.lemma_flags();
        }
        if !self.initialized {
            push_effect(
                effects,
                CoreEffect::Emit(
                    BleEvent::failed(
                        action.operation(),
                        operation_id,
                        action.context(&device),
                        BleError::NotInitialized,
                    ),
                ),
            );
            return;
        }
        self.queue_request(operation_id, device, action, effects);
    }

    fn queue_request(
        &mut self,
        operation_id: OperationId,
        device: DeviceId,
        action: DeviceAction,
        effects: &mut Vec<CoreEffect>,
    )
        ensures
            final(self)@ == queue_request_spec(old(self)@, operation_id, device@, action@).0,
            effects_view(final(effects)@) == effects_view(old(effects)@) + queue_request_spec(
                old(self)@,
                operation_id,
                device@,
                action@,
            ).1,
    {
        let i = self.ensure_session(&device);
        proof {
            self.lemma_sessions();
        }
        if self.devices[i].pending.len() >= DEVICE_QUEUE_CAPACITY {
            push_effect(
                effects,
                CoreEffect::Emit(
                    BleEvent::failed(
                        action.operation(),
                        operation_id,
                        action.context(&device),
                        BleError::QueueFull,
                    ),
                ),
            );
            return;
        }
        self.enqueue(i, operation_id, action);
        self.start_next_device_action(i, effects);
    }


    /// The identity of the running scan, or `UNSOLICITED`.
    fn scan_operation(&self) -> (r: OperationId)
        ensures
            r == scan_operation(self@),
    {
        proof {
            self.lemma_flags();
        }
        match self.scan.tracker.active() {
            Some(active) => active.operation_id,
            None => OperationId::unsolicited(),
        }
    }

    fn initialized(
        &mut self,
        operation_id: OperationId,
        result: Result<AdapterInfo, BleError>,
        effects: &mut Vec<CoreEffect>,
    )
        ensures
            final(self)@ == initialized_spec(
                old(self)@,
                operation_id,
                result_view(result, |a: AdapterInfo| a@),
            ).0,
            effects_view(final(effects)@) == effects_view(old(effects)@) + initialized_spec(
                old(self)@,
                operation_id,
                result_view(result, |a: AdapterInfo| a@),
            ).1,
    {
        proof {
            reveal(core_view);
        }
        self.initializing = None;
        match result {
            Ok(adapter_info) => {
                self.initialized = true;
                self.adapter_info = Some(adapter_info.clone());
                push_effect(
                    effects,
                    CoreEffect::Emit(
                        BleEvent::succeeded(
                            Operation::Initialize,
                            operation_id,
                            EventContext::default(),
                            EventData::Adapter(adapter_info),
                        ),
                    ),
                );
                push_effect(effects, CoreEffect::WatchAdapterEvents);
            },
            Err(error) => {
                push_effect(
                    effects,
                    CoreEffect::Emit(
                        BleEvent::failed(
                            Operation::Initialize,
                            operation_id,
                            EventContext::default(),
                            error,
                        ),
                    ),
                );
            },
        }
    }

    /// The index of `device`'s first known record.
    fn find_known(&self, device: &DeviceId) -> (r: Option<usize>)
        ensures
            match r {
                Some(k) => k < self.known_devices.len() && k as int == known_index(
                    self@.known_devices,
                    device@,
                ) && self@.known_devices[k as int].0 == device@,
                None => known_index(self@.known_devices, device@) == -1,
            },
    {
        proof {
            reveal(core_view);
        }
        let ghost known = self@.known_devices;
        for k in 0..self.known_devices.len()
            invariant
                known == self@.known_devices,
                known == known_view(self.known_devices@),
                forall|m: int| 0 <= m < k ==> known[m].0 != device@,
        {
            if self.known_devices[k].0.same_as(device) {
                proof {
                    lemma_known_index_found(known, device@, k as int);
                }
                return Some(k);
            }
        }
        proof {
            lemma_known_index_none(known, device@);
        }
        None
    }

    fn device_progress(&mut self, info: DeviceInfo, effects: &mut Vec<CoreEffect>)
        ensures
            final(self)@ == device_progress_spec(old(self)@, info@).0,
            effects_view(final(effects)@) == effects_view(old(effects)@) + device_progress_spec(
                old(self)@,
                info@,
            ).1,
    {
        proof {
            reveal(core_view);
        }
        let device = match DeviceId::parse(info.address.as_str()) {
            Ok(device) => device,
            Err(_) => {
                assert(effects_view(effects@) =~= effects_view(effects@) + Seq::<EffectView>::empty());
                return;
            },
        };
        let ghost known = self@.known_devices;
        let found = self.find_known(&device);
        let kind = match found {
            Some(k) => {
                if self.known_devices[k].1.same_as(&info) {
                    assert(effects_view(effects@) =~= effects_view(effects@) + Seq::<EffectView>::empty());
                    return;
                }
                DeviceProgressKind::Updated
            },
            None => DeviceProgressKind::Discovered,
        };
        let operation_id = self.scan_operation();
        let context = EventContext::for_device(&device);
        let copy = info.clone();
        match found {
            Some(k) => {
                let ghost dv = device@;
                self.known_devices.remove(k);
                self.known_devices.insert(k, (device, info));
                assert(known_view(self.known_devices@) =~= known.update(k as int, (dv, copy@)));
            },
            None => {
                self.known_devices.push((device, info));
                assert(known_view(self.known_devices@) =~= known.push((context@.device_address, copy@)));
            },
        }
        push_effect(
            effects,
            CoreEffect::Emit(
                BleEvent::progress(operation_id, context, EventData::Device { kind, info: copy }),
            ),
        );
    }

    fn remote_disconnect(&mut self, device: DeviceId, effects: &mut Vec<CoreEffect>)
        ensures
            final(self)@ == remote_disconnect_spec(old(self)@, device@).0,
            effects_view(final(effects)@) == effects_view(old(effects)@) + remote_disconnect_spec(
                old(self)@,
                device@,
            ).1,
    {
        let ghost e0 = effects_view(effects@);
        let ghost s0 = self@;
        match self.find_device(&device) {
            Some(i) => {
                proof {
                    self.lemma_sessions();
                }
                let mut sess = self.take_session(i);
                let ghost sv = sess@;
                sess.state = ConnectionState::Disconnected;
                sess.generation = next_counter(sess.generation);
                let in_flight = sess.in_flight.take();
                if in_flight.is_some() {
                    push_effect(effects, CoreEffect::AbortDeviceAction { device: device.clone() });
                }
                if sess.notification_active {
                    push_effect(effects, CoreEffect::CancelNotificationPump { device: device.clone() });
                }
                sess.notification_active = false;
                sess.notification_generation = next_counter(sess.notification_generation);
                sess.subscriptions = Vec::new();
                let mut pending: Vec<QueuedOperation> = Vec::new();
                std::mem::swap(&mut pending, &mut sess.pending);
                assert(sess@ == remotely_disconnected(sv)) by {
                    assert(sess@.pending =~= Seq::<QueuedView>::empty());
                    assert(sess@.subscriptions =~= Seq::<(Seq<char>, Seq<char>)>::empty());
                }
                self.put_session(i, sess);
                assert(self@.devices =~= s0.devices.update(i as int, remotely_disconnected(sv)));
                if let Some(running) = in_flight {
                    push_effect(
                        effects,
                        CoreEffect::Emit(
                            BleEvent::failed(
                                running.action.operation(),
                                running.operation_id,
                                running.action.context(&device),
                                BleError::Cancelled(String::from_str("device disconnected remotely")),
                            ),
                        ),
                    );
                }
                let ghost e1 = effects_view(effects@);
                let ghost cancels = pending_cancellations(sv.pending, device@);
                for j in 0..pending.len()
                    invariant
                        queue_view(pending@) == sv.pending,
                        cancels == pending_cancellations(sv.pending, device@),
                        effects_view(effects@) == e1 + cancels.subrange(0, j as int),
                {
                    let queued = &pending[j];
                    push_effect(
                        effects,
                        CoreEffect::Emit(
                            BleEvent::failed(
                                queued.action.operation(),
                                queued.operation_id,
                                queued.action.context(&device),
                                BleError::Cancelled(String::from_str("device disconnected remotely")),
                            ),
                        ),
                    );
                    assert(effects_view(effects@) =~= e1 + cancels.subrange(0, j + 1));
                }
                assert(cancels.subrange(0, pending.len() as int) =~= cancels);
            },
            None => {},
        }
        push_effect(
            effects,
            CoreEffect::Emit(
                BleEvent::received(
                    Operation::Disconnect,
                    EventContext::for_device(&device),
                    EventData::Reason(String::from_str("remote")),
                ),
            ),
        );
        assert(effects_view(effects@) =~= e0 + remote_disconnect_spec(s0, device@).1);
    }

    fn backend_event(&mut self, result: Result<BackendEvent, BleError>, effects: &mut Vec<CoreEffect>)
        ensures
            final(self)@ == backend_spec(old(self)@, result_view(result, |b: BackendEvent| b@)).0,
            effects_view(final(effects)@) == effects_view(old(effects)@) + backend_spec(
                old(self)@,
                result_view(result, |b: BackendEvent| b@),
            ).1,
    {
        match result {
            Ok(BackendEvent::Discovered(info)) => self.device_progress(info, effects),
            Ok(BackendEvent::Updated(info)) => self.device_progress(info, effects),
            Ok(BackendEvent::Disconnected(device)) => self.remote_disconnect(device, effects),
            Err(error) => {
                let operation_id = self.scan_operation();
                push_effect(
                    effects,
                    CoreEffect::Emit(
                        BleEvent {
                            operation: Operation::Scan,
                            phase: Phase::Failed,
                            operation_id,
                            terminal: false,
                            context: EventContext::default(),
                            data: EventData::Empty,
                            error: Some(EventError::from_error(error)),
                        },
                    ),
                );
            },
        }
    }

    fn scan_started(
        &mut self,
        operation_id: OperationId,
        generation: ScanGeneration,
        result: Result<(), BleError>,
        effects: &mut Vec<CoreEffect>,
    )
        ensures
            final(self)@ == scan_started_spec(
                old(self)@,
                operation_id,
                generation,
                result_view(result, |u: ()| u),
            ).0,
            effects_view(final(effects)@) == effects_view(old(effects)@) + scan_started_spec(
                old(self)@,
                operation_id,
                generation,
                result_view(result, |u: ()| u),
            ).1,
    {
        proof {
            reveal(core_view);
        }
        let ghost e0 = effects_view(effects@);
        if self.scan.tracker.active_generation() != Some(generation) {
            assert(e0 =~= e0 + Seq::<EffectView>::empty());
            return;
        }
        match result {
            Ok(()) => {
                self.scan.status = ScanStatus::Scanning;
                push_effect(
                    effects,
                    CoreEffect::Emit(
                        BleEvent::started(Operation::Scan, operation_id, EventContext::default()),
                    ),
                );
                let ghost e1 = effects_view(effects@);
                let active = self.scan.tracker.active().unwrap();
                if self.scan.stop_requested {
                    self.spawn_scan_stop(active, String::from_str("stopped"), effects);
                } else if let Some(timeout) = active.timeout {
                    push_effect(effects, CoreEffect::StartScanTimer { generation, timeout });
                }
                assert(effects_view(effects@) =~= e0 + scan_started_spec(
                    old(self)@,
                    operation_id,
                    generation,
                    result_view(result, |u: ()| u),
                ).1);
            },
            Err(error) => {
                let _ = self.scan.tracker.finish(generation);
                self.scan.status = ScanStatus::Idle;
                self.scan.cancellation = false;
                self.scan.stop_requested = false;
                push_effect(effects, CoreEffect::ReleaseScanCancellation);
                push_effect(
                    effects,
                    CoreEffect::Emit(
                        BleEvent::failed(Operation::Scan, operation_id, EventContext::default(), error),
                    ),
                );
            },
        }
    }

    fn scan_timed_out(&mut self, generation: ScanGeneration, effects: &mut Vec<CoreEffect>)
        ensures
            final(self)@ == scan_timed_out_spec(old(self)@, generation).0,
            effects_view(final(effects)@) == effects_view(old(effects)@) + scan_timed_out_spec(
                old(self)@,
                generation,
            ).1,
    {
        proof {
            self.lemma_flags();
        }
        if let Some(active) = self.scan.tracker.active() {
            if active.generation == generation {
                self.stop_scan(active.operation_id, "timeout", effects);
                return;
            }
        }
        assert(effects_view(effects@) =~= effects_view(effects@) + Seq::<EffectView>::empty());
    }

    fn scan_stopped(
        &mut self,
        operation_id: OperationId,
        generation: ScanGeneration,
        reason: String,
        result: Result<(), BleError>,
        effects: &mut Vec<CoreEffect>,
    )
        ensures
            final(self)@ == scan_stopped_spec(
                old(self)@,
                operation_id,
                generation,
                reason@,
                result_view(result, |u: ()| u),
            ).0,
            effects_view(final(effects)@) == effects_view(old(effects)@) + scan_stopped_spec(
                old(self)@,
                operation_id,
                generation,
                reason@,
                result_view(result, |u: ()| u),
            ).1,
    {
        proof {
            reveal(core_view);
        }
        let ghost e0 = effects_view(effects@);
        let finished = self.scan.tracker.finish(generation);
        if !matches!(finished, Ok(true)) {
            assert(e0 =~= e0 + Seq::<EffectView>::empty());
            return;
        }
        self.scan.status = ScanStatus::Idle;
        self.scan.cancellation = false;
        self.scan.stop_requested = false;
        push_effect(effects, CoreEffect::ReleaseScanCancellation);
        let event = match result {
            Ok(()) => BleEvent::succeeded(
                Operation::Scan,
                operation_id,
                EventContext::default(),
                EventData::Reason(reason),
            ),
            Err(error) => BleEvent::failed(Operation::Scan, operation_id, EventContext::default(), error),
        };
        push_effect(effects, CoreEffect::Emit(event));
    }


    fn device_completed(
        &mut self,
        operation_id: OperationId,
        device: DeviceId,
        generation: u64,
        action: DeviceAction,
        result: Result<EventData, BleError>,
        effects: &mut Vec<CoreEffect>,
    )
        ensures
            final(self)@ == device_completed_spec(
                old(self)@,
                operation_id,
                device@,
                generation,
                action@,
                result_view(result, |d: EventData| d@),
            ).0,
            effects_view(final(effects)@) == effects_view(old(effects)@) + device_completed_spec(
                old(self)@,
                operation_id,
                device@,
                generation,
                action@,
                result_view(result, |d: EventData| d@),
            ).1,
    {
        let ghost e0 = effects_view(effects@);
        let ghost s0 = self@;
        let i = match self.find_device(&device) {
            Some(i) => i,
            None => {
                assert(e0 =~= e0 + Seq::<EffectView>::empty());
                return;
            },
        };
        proof {
            self.lemma_sessions();
        }
        if !self.devices[i].runs(operation_id, generation) {
            assert(e0 =~= e0 + Seq::<EffectView>::empty());
            return;
        }
        let operation = action.operation();
        let context = action.context(&device);
        let mut sess = self.take_session(i);
        let ghost sv = sess@;
        match result {
            Ok(data) => {
                if matches!(action, DeviceAction::Disconnect) && sess.notification_active {
                    push_effect(effects, CoreEffect::CancelNotificationPump { device: device.clone() });
                }
                sess.apply_success(&action, &data);
                self.put_session(i, sess);
                assert(self@.devices =~= s0.devices.update(i as int, succeeded_session(sv, action@, data@)));
                push_effect(
                    effects,
                    CoreEffect::Emit(BleEvent::succeeded(operation, operation_id, context, data)),
                );
                if matches!(action, DeviceAction::Subscribe(_)) {
                    self.ensure_notification_pump(i, effects);
                }
                let ghost e1 = effects_view(effects@);
                self.start_next_device_action(i, effects);
                assert(effects_view(effects@) =~= e0 + device_completed_spec(
                    s0,
                    operation_id,
                    device@,
                    generation,
                    action@,
                    result_view(result, |d: EventData| d@),
                ).1);
            },
            Err(error) => {
                sess.apply_failure(&action);
                self.put_session(i, sess);
                assert(self@.devices =~= s0.devices.update(i as int, failed_session(sv, action@)));
                push_effect(
                    effects,
                    CoreEffect::Emit(BleEvent::failed(operation, operation_id, context, error)),
                );
                self.start_next_device_action(i, effects);
                assert(effects_view(effects@) =~= e0 + device_completed_spec(
                    s0,
                    operation_id,
                    device@,
                    generation,
                    action@,
                    result_view(result, |d: EventData| d@),
                ).1);
            },
        }
    }

    fn notification(&mut self, device: DeviceId, notification: BackendNotification, effects: &mut Vec<CoreEffect>)
        ensures
            final(self)@ == old(self)@,
            effects_view(final(effects)@) == effects_view(old(effects)@) + notification_spec(
                old(self)@,
                device@,
                notification.characteristic_uuid@,
                notification.value@,
            ).1,
            notification_spec(old(self)@, device@, notification.characteristic_uuid@, notification.value@).0
                == old(self)@,
    {
        let ghost e0 = effects_view(effects@);
        let i = match self.find_device(&device) {
            Some(i) => i,
            None => {
                assert(e0 =~= e0 + Seq::<EffectView>::empty());
                return;
            },
        };
        proof {
            self.lemma_sessions();
        }
        let uuid = ascii_lowercase(notification.characteristic_uuid.as_str());
        let j = match self.devices[i].find_characteristic(&uuid) {
            Some(j) => j,
            None => {
                assert(e0 =~= e0 + Seq::<EffectView>::empty());
                return;
            },
        };
        let context = EventContext::for_gatt(&device, &self.devices[i].subscriptions[j]);
        push_effect(
            effects,
            CoreEffect::Emit(
                BleEvent::received(Operation::Notification, context, EventData::Bytes(notification.value)),
            ),
        );
    }

    fn finish_notification_pump(&mut self, device: &DeviceId, generation: u64, effects: &mut Vec<CoreEffect>)
        ensures
            final(self)@ == finish_pump_spec(old(self)@, device@, generation).0,
            effects_view(final(effects)@) == effects_view(old(effects)@) + finish_pump_spec(
                old(self)@,
                device@,
                generation,
            ).1,
    {
        let ghost e0 = effects_view(effects@);
        let ghost s0 = self@;
        if let Some(i) = self.find_device(device) {
            proof {
                self.lemma_sessions();
            }
            if self.devices[i].notification_generation == generation {
                let mut sess = self.take_session(i);
                let ghost sv = sess@;
                sess.notification_active = false;
                self.put_session(i, sess);
                assert(self@.devices =~= s0.devices.update(
                    i as int,
                    SessionView { notification_active: false, ..sv },
                ));
                push_effect(effects, CoreEffect::ReleaseNotificationPump { device: device.clone() });
                return;
            }
        }
        assert(e0 =~= e0 + Seq::<EffectView>::empty());
    }

    /// One session at shutdown.
    fn shutdown_session(&mut self, i: usize, effects: &mut Vec<CoreEffect>)
        requires
            i < old(self).devices.len(),
        ensures
            final(self)@ == with_session(old(self)@, i as int, shutdown_session(old(self)@.devices[i as int]).0),
            effects_view(final(effects)@) == effects_view(old(effects)@) + shutdown_session(
                old(self)@.devices[i as int],
            ).1,
            final(self).devices.len() == old(self).devices.len(),
    {
        proof {
            self.lemma_sessions();
        }
        let ghost e0 = effects_view(effects@);
        let ghost s0 = self@;
        let mut sess = self.take_session(i);
        let ghost sv = sess@;
        if sess.in_flight.is_some() {
            push_effect(effects, CoreEffect::AbortDeviceAction { device: sess.device.clone() });
        }
        sess.in_flight = None;
        if sess.notification_active {
            push_effect(effects, CoreEffect::CancelNotificationPump { device: sess.device.clone() });
        }
        sess.notification_active = false;
        sess.pending = Vec::new();
        if sess.state == ConnectionState::Connected {
            push_effect(effects, CoreEffect::DisconnectNow { device: sess.device.clone() });
        }
        assert(sess@ == shutdown_session(sv).0) by {
            assert(sess@.pending =~= Seq::<QueuedView>::empty());
        }
        self.put_session(i, sess);
        assert(self@.devices =~= s0.devices.update(i as int, shutdown_session(sv).0));
        assert(effects_view(effects@) =~= e0 + shutdown_session(sv).1);
    }

    /// Shuts the core down: cancels the scan token, stops a running scan,
    /// aborts and cancels each device's work, disconnects connected devices,
    /// and aborts all background work. No event is published.
    pub fn shutdown(&mut self) -> (effects: Vec<CoreEffect>)
        ensures
            final(self)@ == shutdown_spec(old(self)@).0,
            effects_view(effects@) == shutdown_spec(old(self)@).1,
    {
        proof {
            reveal(core_view);
        }
        let mut effects: Vec<CoreEffect> = Vec::new();
        let ghost s0 = self@;
        if self.scan.cancellation {
            push_effect(&mut effects, CoreEffect::CancelScanCancellation);
        }
        self.scan.cancellation = false;
        if self.scan.tracker.active().is_some() {
            push_effect(&mut effects, CoreEffect::StopScanNow);
        }
        let ghost e1 = effects_view(effects@);
        let ghost s1 = self@;
        assert(s1 == CoreView { scan: ScanRuntimeView { cancellation: false, ..s0.scan }, ..s0 });
        assert(e1 =~= (if s0.scan.cancellation {
            seq![EffectView::CancelScanCancellation]
        } else {
            seq![]
        }) + (if s0.scan.tracker.active is Some {
            seq![EffectView::StopScanNow]
        } else {
            seq![]
        }));
        let n = self.devices.len();
        proof {
            self.lemma_sessions();
            assert(s1.devices =~= Seq::new(n as nat, |k: int| if k < 0 {
                shutdown_session(s0.devices[k]).0
            } else {
                s0.devices[k]
            }));
            assert(e1 =~= e1 + shutdown_effects(s0.devices, 0));
        }
        for i in 0..n
            invariant
                n == self.devices.len(),
                n == s0.devices.len(),
                self@ == (CoreView {
                    devices: Seq::new(n as nat, |k: int| if k < i {
                        shutdown_session(s0.devices[k]).0
                    } else {
                        s0.devices[k]
                    }),
                    ..s1
                }),
                effects_view(effects@) == e1 + shutdown_effects(s0.devices, i as int),
        {
            self.shutdown_session(i, &mut effects);
            assert(self@.devices =~= Seq::new(n as nat, |k: int| if k < i + 1 {
                shutdown_session(s0.devices[k]).0
            } else {
                s0.devices[k]
            }));
        }
        push_effect(&mut effects, CoreEffect::AbortAllTasks);
        assert(self@.devices =~= Seq::new(s0.devices.len(), |k: int| shutdown_session(s0.devices[k]).0));
        effects
    }

    /// Handles one command and returns the effects to perform, in order.
    pub fn handle_command(&mut self, command: CoreCommand) -> (effects: Vec<CoreEffect>)
        ensures
            (final(self)@, effects_view(effects@)) == command_spec(old(self)@, command@),
    {
        let mut effects: Vec<CoreEffect> = Vec::new();
        assert(effects_view(effects@) =~= Seq::<EffectView>::empty());
        match command {
            CoreCommand::Initialize { operation_id } => self.initialize(operation_id, &mut effects),
            CoreCommand::StartScan { operation_id, timeout } => self.start_scan(
                operation_id,
                timeout,
                &mut effects,
            ),
            CoreCommand::StopScan { operation_id } => self.stop_scan(operation_id, "stopped", &mut effects),
            CoreCommand::Device { operation_id, device, action } => self.device_command(
                operation_id,
                device,
                action,
                &mut effects,
            ),
            CoreCommand::Shutdown => {},
        }
        assert(effects_view(effects@) =~= command_spec(old(self)@, command@).1);
        effects
    }

    /// Handles one result of background work and returns the effects to
    /// perform, in order.
    pub fn handle_internal(&mut self, event: InternalEvent) -> (effects: Vec<CoreEffect>)
        ensures
            (final(self)@, effects_view(effects@)) == internal_spec(old(self)@, event@),
    {
        let mut effects: Vec<CoreEffect> = Vec::new();
        assert(effects_view(effects@) =~= Seq::<EffectView>::empty());
        match event {
            InternalEvent::Initialized { operation_id, result } => self.initialized(
                operation_id,
                result,
                &mut effects,
            ),
            InternalEvent::Backend(result) => self.backend_event(result, &mut effects),
            InternalEvent::ScanStarted { operation_id, generation, result } => self.scan_started(
                operation_id,
                generation,
                result,
                &mut effects,
            ),
            InternalEvent::ScanTimedOut { generation } => self.scan_timed_out(generation, &mut effects),
            InternalEvent::ScanStopped { operation_id, generation, reason, result } =>
                self.scan_stopped(operation_id, generation, reason, result, &mut effects),
            InternalEvent::DeviceCompleted { operation_id, device, generation, action, result } =>
                self.device_completed(operation_id, device, generation, action, result, &mut effects),
            InternalEvent::Notification { device, notification } => self.notification(
                device,
                notification,
                &mut effects,
            ),
            InternalEvent::NotificationPumpFailed { device, generation, error } => {
                self.finish_notification_pump(&device, generation, &mut effects);
                push_effect(
                    &mut effects,
                    CoreEffect::Emit(
                        BleEvent {
                            operation: Operation::Notification,
                            phase: Phase::Failed,
                            operation_id: OperationId::unsolicited(),
                            terminal: false,
                            context: EventContext::for_device(&device),
                            data: EventData::Empty,
                            error: Some(EventError::from_error(error)),
                        },
                    ),
                );
            },
            InternalEvent::NotificationPumpEnded { device, generation } => {
                self.finish_notification_pump(&device, generation, &mut effects);
            },
        }
        assert(effects_view(effects@) =~= internal_spec(old(self)@, event@).1);
        effects
    }

    /// A core that has not been initialized.
    pub fn new() -> (r: Self)
        ensures
            r@ == fresh_core(),
    {
        proof {
            reveal(core_view);
        }
        let r = CoreState {
            initialized: false,
            initializing: None,
            adapter_info: None,
            scan: ScanRuntimeState::default(),
            known_devices: Vec::new(),
            devices: Vec::new(),
        };
        assert(r@.known_devices =~= Seq::<(Seq<char>, DeviceInfoView)>::empty());
        assert(r@.devices =~= Seq::<SessionView>::empty());
        r
    }

    fn initialize(&mut self, operation_id: OperationId, effects: &mut Vec<CoreEffect>)
        ensures
            final(self)@ == initialize_spec(old(self)@, operation_id).0,
            effects_view(final(effects)@) == effects_view(old(effects)@) + initialize_spec(
                old(self)@,
                operation_id,
            ).1,
    {
        proof {
            reveal(core_view);
        }
        let ghost e0 = effects_view(effects@);
        if self.initialized {
            let data = match &self.adapter_info {
                Some(info) => EventData::Adapter(info.clone()),
                None => EventData::Empty,
            };
            push_effect(
                effects,
                CoreEffect::Emit(
                    BleEvent::succeeded(
                        Operation::Initialize,
                        operation_id,
                        EventContext::default(),
                        data,
                    ),
                ),
            );
            return;
        }
        if self.initializing.is_some() {
            push_effect(
                effects,
                CoreEffect::Emit(
                    BleEvent::failed(
                        Operation::Initialize,
                        operation_id,
                        EventContext::default(),
                        BleError::Busy(String::from_str("initialization already in progress")),
                    ),
                ),
            );
            return;
        }
        self.initializing = Some(operation_id);
        push_effect(
            effects,
            CoreEffect::Emit(
                BleEvent::started(Operation::Initialize, operation_id, EventContext::default()),
            ),
        );
        push_effect(effects, CoreEffect::InitializeBackend { operation_id });
    }

    fn start_scan(
        &mut self,
        operation_id: OperationId,
        timeout: Option<Duration>,
        effects: &mut Vec<CoreEffect>,
    )
        ensures
            final(self)@ == start_scan_spec(old(self)@, operation_id, timeout).0,
            effects_view(final(effects)@) == effects_view(old(effects)@) + start_scan_spec(
                old(self)@,
                operation_id,
                timeout,
            ).1,
    {
        proof {
            reveal(core_view);
        }
        if !self.initialized {
            push_effect(
                effects,
                CoreEffect::Emit(
                    BleEvent::failed(
                        Operation::Scan,
                        operation_id,
                        EventContext::default(),
                        BleError::NotInitialized,
                    ),
                ),
            );
            return;
        }
        let generation = match self.scan.tracker.start(operation_id, timeout) {
            Ok(generation) => generation,
            Err(error) => {
                push_effect(
                    effects,
                    CoreEffect::Emit(
                        BleEvent::failed(
                            Operation::Scan,
                            operation_id,
                            EventContext::default(),
                            error,
                        ),
                    ),
                );
                return;
            },
        };
        self.scan.status = ScanStatus::Starting;
        self.scan.stop_requested = false;
        self.scan.cancellation = true;
        push_effect(effects, CoreEffect::ArmScanCancellation);
        push_effect(effects, CoreEffect::StartScan { operation_id, generation });
    }

    fn spawn_scan_stop(&mut self, active: ActiveScan, reason: String, effects: &mut Vec<CoreEffect>)
        ensures
            final(self)@ == spawn_scan_stop_spec(old(self)@, active, reason@).0,
            effects_view(final(effects)@) == effects_view(old(effects)@) + spawn_scan_stop_spec(
                old(self)@,
                active,
                reason@,
            ).1,
    {
        proof {
            reveal(core_view);
        }
        if self.scan.status == ScanStatus::Stopping {
            assert(effects_view(effects@) =~= effects_view(effects@) + Seq::<EffectView>::empty());
            return;
        }
        self.scan.status = ScanStatus::Stopping;
        push_effect(
            effects,
            CoreEffect::StopScan {
                operation_id: active.operation_id,
                generation: active.generation,
                reason,
            },
        );
    }

    fn stop_scan(&mut self, operation_id: OperationId, reason: &str, effects: &mut Vec<CoreEffect>)
        ensures
            final(self)@ == stop_scan_spec(old(self)@, operation_id, reason@).0,
            effects_view(final(effects)@) == effects_view(old(effects)@) + stop_scan_spec(
                old(self)@,
                operation_id,
                reason@,
            ).1,
    {
        proof {
            reveal(core_view);
        }
        let ghost e0 = effects_view(effects@);
        let active = match self.scan.tracker.active() {
            Some(active) => active,
            None => {
                assert(e0 =~= e0 + Seq::<EffectView>::empty());
                return;
            },
        };
        if active.operation_id != operation_id {
            assert(e0 =~= e0 + Seq::<EffectView>::empty());
            return;
        }
        if self.scan.cancellation {
            push_effect(effects, CoreEffect::CancelScanCancellation);
        }
        let ghost e1 = effects_view(effects@);
        match self.scan.status {
            ScanStatus::Starting => {
                self.scan.stop_requested = true;
            },
            ScanStatus::Scanning => {
                self.spawn_scan_stop(active, String::from_str(reason), effects);
            },
            _ => {},
        }
        assert(effects_view(effects@) =~= e0 + stop_scan_spec(old(self)@, operation_id, reason@).1);
    }
}

/// Appends one effect.
fn push_effect(effects: &mut Vec<CoreEffect>, effect: CoreEffect)
    ensures
        effects_view(final(effects)@) == effects_view(old(effects)@).push(effect@),
{
    effects.push(effect);
    assert(effects_view(effects@) =~= effects_view(old(effects)@).push(effect@));
}

} // verus!
