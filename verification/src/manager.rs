//! The main-thread side of the Godot `BluetoothManager`: the caches its
//! getters answer from and the projection of structured events onto the
//! legacy signals.
use vstd::prelude::*;

use crate::event::{
    device_context, device_id_spec, empty_context, BleEvent, BleEventView, DeviceId,
    DeviceProgressKind, EventContext, EventContextView, EventData, EventDataView, Operation,
    OperationId, Phase,
};
use crate::info::{AdapterInfo, AdapterInfoView, DeviceInfo, DeviceInfoView};
use crate::machine::{known_index, lemma_known_index_found, lemma_known_index_none, known_view};
use crate::text::{trim_spec, trim_text};
use crate::types::{BleError, BleErrorView};

verus! {

/// Most core events the manager handles per frame.
pub const EVENTS_PER_FRAME: usize = 256;

/// The text of an event's error for the legacy signals.
pub open spec fn legacy_error_spec(e: BleEventView) -> Seq<char> {
    match e.error {
        Some(err) => err.legacy_message,
        None => "操作失败"@,
    }
}

/// The text of an event's error for the legacy signals: the error's legacy
/// message, or a generic failure text for an event without error.
pub fn legacy_error(event: &BleEvent) -> (r: String)
    ensures
        r@ == legacy_error_spec(event@),
{
    match &event.error {
        Some(error) => error.legacy_message.clone(),
        None => String::from_str("操作失败"),
    }
}

/// A legacy manager signal, by value.
pub enum ManagerSignalView {
    AdapterInitialized { success: bool, error: Seq<char> },
    DeviceDiscovered(DeviceInfoView),
    DeviceUpdated(DeviceInfoView),
    ScanStarted,
    ScanStopped,
    ErrorOccurred(Seq<char>),
    DeviceConnecting(Seq<char>),
    DeviceConnected(Seq<char>),
    DeviceDisconnected(Seq<char>),
}

/// A legacy signal of `BluetoothManager`, with its arguments.
#[derive(Debug)]
pub enum ManagerSignal {
    AdapterInitialized { success: bool, error: String },
    DeviceDiscovered(DeviceInfo),
    DeviceUpdated(DeviceInfo),
    ScanStarted,
    ScanStopped,
    ErrorOccurred(String),
    DeviceConnecting(String),
    DeviceConnected(String),
    DeviceDisconnected(String),
}

impl View for ManagerSignal {
    type V = ManagerSignalView;

    open spec fn view(&self) -> ManagerSignalView {
        match self {
            ManagerSignal::AdapterInitialized { success, error } => ManagerSignalView::AdapterInitialized {
                success: *success,
                error: error@,
            },
            ManagerSignal::DeviceDiscovered(i) => ManagerSignalView::DeviceDiscovered(i@),
            ManagerSignal::DeviceUpdated(i) => ManagerSignalView::DeviceUpdated(i@),
            ManagerSignal::ScanStarted => ManagerSignalView::ScanStarted,
            ManagerSignal::ScanStopped => ManagerSignalView::ScanStopped,
            ManagerSignal::ErrorOccurred(e) => ManagerSignalView::ErrorOccurred(e@),
            ManagerSignal::DeviceConnecting(a) => ManagerSignalView::DeviceConnecting(a@),
            ManagerSignal::DeviceConnected(a) => ManagerSignalView::DeviceConnected(a@),
            ManagerSignal::DeviceDisconnected(a) => ManagerSignalView::DeviceDisconnected(a@),
        }
    }
}

/// The by-value form of a list of manager signals.
pub open spec fn manager_signals_view(v: Seq<ManagerSignal>) -> Seq<ManagerSignalView> {
    Seq::new(v.len(), |i: int| v[i]@)
}

/// The manager's caches, by value.
pub struct ManagerView {
    pub initialized: bool,
    pub adapter_info: Option<AdapterInfoView>,
    pub active_scan_id: OperationId,
    pub scan_started: bool,
    pub discovered: Seq<(Seq<char>, DeviceInfoView)>,
    pub device_keys: Seq<Seq<char>>,
}

/// The manager's main-thread caches: initialization, the adapter, the scan
/// the legacy signals follow, discovered devices by normalized address, and
/// the addresses that have a device handle.
#[derive(Debug)]
pub struct BluetoothManager {
    initialized: bool,
    adapter_info: Option<AdapterInfo>,
    active_scan_id: OperationId,
    scan_started: bool,
    discovered: Vec<(DeviceId, DeviceInfo)>,
    device_keys: Vec<DeviceId>,
}

/// The by-value form of a list of identities.
pub open spec fn ids_view(v: Seq<DeviceId>) -> Seq<Seq<char>> {
    Seq::new(v.len(), |i: int| v[i]@)
}

impl View for BluetoothManager {
    type V = ManagerView;

    closed spec fn view(&self) -> ManagerView {
        ManagerView {
            initialized: self.initialized,
            adapter_info: match self.adapter_info {
                Some(a) => Some(a@),
                None => None,
            },
            active_scan_id: self.active_scan_id,
            scan_started: self.scan_started,
            discovered: known_view(self.discovered@),
            device_keys: ids_view(self.device_keys@),
        }
    }
}

/// `known` with `info` recorded under `k`, replacing an earlier record.
pub open spec fn record_spec(known: Seq<(Seq<char>, DeviceInfoView)>, k: Seq<char>, info: DeviceInfoView) -> Seq<(Seq<char>, DeviceInfoView)> {
    let j = known_index(known, k);
    if j >= 0 {
        known.update(j, (k, info))
    } else {
        known.push((k, info))
    }
}

/// The caches after an event: initialization results and scan records.
pub open spec fn update_caches_spec(m: ManagerView, e: BleEventView) -> ManagerView {
    if e.operation == Operation::Initialize && e.phase == Phase::Succeeded && e.data is Adapter {
        ManagerView { initialized: true, adapter_info: Some(e.data->Adapter_0), ..m }
    } else if e.operation == Operation::Initialize && (e.phase == Phase::Failed || e.phase == Phase::Cancelled) {
        ManagerView { initialized: false, adapter_info: None, ..m }
    } else if e.operation == Operation::Scan && e.phase == Phase::Progress && e.data is Device {
        match device_id_spec(e.data->info.address) {
            Some(k) => ManagerView { discovered: record_spec(m.discovered, k, e.data->info), ..m },
            None => m,
        }
    } else {
        m
    }
}

/// Whether the phase ends an operation without success.
pub open spec fn is_failure(p: Phase) -> bool {
    p == Phase::Failed || p == Phase::Cancelled
}

/// The legacy signals of an event, and the scan bookkeeping they need.
pub open spec fn legacy_signals_spec(m: ManagerView, e: BleEventView) -> (ManagerView, Seq<ManagerSignalView>) {
    let err = legacy_error_spec(e);
    let addr = e.context.device_address;
    match e.operation {
        Operation::Initialize => if e.phase == Phase::Succeeded {
            (m, seq![ManagerSignalView::AdapterInitialized { success: true, error: Seq::empty() }])
        } else if is_failure(e.phase) {
            (
                m,
                seq![
                    ManagerSignalView::AdapterInitialized { success: false, error: err },
                    ManagerSignalView::ErrorOccurred(err),
                ],
            )
        } else {
            (m, seq![])
        },
        Operation::Scan => if e.phase == Phase::Started {
            if e.operation_id == m.active_scan_id && !m.scan_started {
                (ManagerView { scan_started: true, ..m }, seq![ManagerSignalView::ScanStarted])
            } else {
                (m, seq![])
            }
        } else if e.phase == Phase::Progress {
            match e.data {
                EventDataView::Device { kind, info } => (
                    m,
                    seq![
                        if kind == DeviceProgressKind::Discovered {
                            ManagerSignalView::DeviceDiscovered(info)
                        } else {
                            ManagerSignalView::DeviceUpdated(info)
                        },
                    ],
                ),
                _ => (m, seq![]),
            }
        } else if e.phase == Phase::Succeeded || is_failure(e.phase) {
            let pre = if is_failure(e.phase) {
                seq![ManagerSignalView::ErrorOccurred(err)]
            } else {
                seq![]
            };
            if e.operation_id == m.active_scan_id {
                (
                    ManagerView { active_scan_id: OperationId(0), scan_started: false, ..m },
                    if m.scan_started {
                        pre.push(ManagerSignalView::ScanStopped)
                    } else {
                        pre
                    },
                )
            } else {
                (m, pre)
            }
        } else {
            (m, seq![])
        },
        Operation::Connect => if e.phase == Phase::Started {
            (m, seq![ManagerSignalView::DeviceConnecting(addr)])
        } else if e.phase == Phase::Succeeded {
            (m, seq![ManagerSignalView::DeviceConnected(addr)])
        } else {
            (m, seq![])
        },
        Operation::Disconnect => if e.phase == Phase::Succeeded || e.phase == Phase::Received {
            (m, seq![ManagerSignalView::DeviceDisconnected(addr)])
        } else {
            (m, seq![])
        },
        Operation::ResolveDevice => if is_failure(e.phase) {
            (m, seq![ManagerSignalView::ErrorOccurred(err)])
        } else {
            (m, seq![])
        },
        _ => (m, seq![]),
    }
}

/// An event on the manager: caches first, then the legacy signals.
pub open spec fn manager_event_spec(m: ManagerView, e: BleEventView) -> (ManagerView, Seq<ManagerSignalView>) {
    legacy_signals_spec(update_caches_spec(m, e), e)
}

/// Whether a list of manager signals holds `x`.
pub open spec fn has_signal(v: Seq<ManagerSignalView>, x: ManagerSignalView) -> bool {
    exists|j: int| 0 <= j < v.len() && v[j] == x
}

/// The legacy scan signals follow one scan at a time: `scan_started` comes
/// only for the followed scan and only once, `scan_stopped` only for the
/// followed scan after its `scan_started`, and a followed scan that ends is
/// no longer followed.
pub proof fn law_scan_signals_follow_one_scan(m: ManagerView, e: BleEventView)
    ensures
        has_signal(manager_event_spec(m, e).1, ManagerSignalView::ScanStarted) ==> {
            &&& e.operation == Operation::Scan && e.phase == Phase::Started
            &&& e.operation_id == m.active_scan_id
            &&& !m.scan_started
            &&& manager_event_spec(m, e).0.scan_started
        },
        has_signal(manager_event_spec(m, e).1, ManagerSignalView::ScanStopped) ==> {
            &&& e.operation == Operation::Scan
            &&& e.operation_id == m.active_scan_id
            &&& m.scan_started
        },
        e.operation == Operation::Scan && e.operation_id == m.active_scan_id && (e.phase == Phase::Succeeded
            || is_failure(e.phase)) ==> {
            &&& manager_event_spec(m, e).0.active_scan_id == OperationId(0)
            &&& !manager_event_spec(m, e).0.scan_started
        },
{
    let m1 = update_caches_spec(m, e);
    assert(m1.active_scan_id == m.active_scan_id && m1.scan_started == m.scan_started);
    let r = manager_event_spec(m, e);
    if has_signal(r.1, ManagerSignalView::ScanStarted) {
        let j = choose|j: int| 0 <= j < r.1.len() && r.1[j] == ManagerSignalView::ScanStarted;
        assert(r.1[j] == ManagerSignalView::ScanStarted);
    }
    if has_signal(r.1, ManagerSignalView::ScanStopped) {
        let j = choose|j: int| 0 <= j < r.1.len() && r.1[j] == ManagerSignalView::ScanStopped;
        assert(r.1[j] == ManagerSignalView::ScanStopped);
    }
}

/// Why a device address was refused, and the context to report it with.
#[derive(Debug)]
pub struct Rejection {
    pub error: BleError,
    pub context: EventContext,
}

/// How `get_or_create_device` answers an address.
#[derive(Debug)]
pub enum ResolveOutcome {
    /// The address is refused; report `error` under `resolve_device`.
    Rejected(Rejection),
    /// A handle exists under the normalized address `key`.
    Existing { key: String },
    /// A new handle is to be made under `key`, shown as `display_address`
    /// and named `name`.
    Create { key: String, display_address: String, name: String },
}

/// A refusal, by value.
pub struct RejectionView {
    pub error: BleErrorView,
    pub context: EventContextView,
}

impl View for Rejection {
    type V = RejectionView;

    open spec fn view(&self) -> RejectionView {
        RejectionView { error: self.error@, context: self.context@ }
    }
}

/// The answer to an address, by value.
pub enum ResolveView {
    Rejected(RejectionView),
    Existing(Seq<char>),
    Create { key: Seq<char>, display_address: Seq<char>, name: Seq<char> },
}

impl View for ResolveOutcome {
    type V = ResolveView;

    open spec fn view(&self) -> ResolveView {
        match self {
            ResolveOutcome::Rejected(r) => ResolveView::Rejected(r@),
            ResolveOutcome::Existing { key } => ResolveView::Existing(key@),
            ResolveOutcome::Create { key, display_address, name } => ResolveView::Create {
                key: key@,
                display_address: display_address@,
                name: name@,
            },
        }
    }
}

/// The refusal of a blank address.
pub open spec fn blank_address_rejection() -> RejectionView {
    RejectionView {
        error: BleErrorView::InvalidArgument("device address is empty"@),
        context: empty_context(),
    }
}

/// How a manager with caches `m` answers a request for the device at
/// `input`: a blank address and an uninitialized manager are refused; a
/// device with a handle is handed back; otherwise a handle is made, shown
/// with the address and name of its scan record, or with the trimmed input
/// and no name when the device was not discovered.
pub open spec fn resolve_spec(m: ManagerView, input: Seq<char>) -> ResolveView {
    match device_id_spec(input) {
        None => ResolveView::Rejected(blank_address_rejection()),
        Some(k) => if !m.initialized {
            ResolveView::Rejected(RejectionView { error: BleErrorView::NotInitialized, context: device_context(k) })
        } else if m.device_keys.contains(k) {
            ResolveView::Existing(k)
        } else {
            let j = known_index(m.discovered, k);
            if j >= 0 {
                let info = m.discovered[j].1;
                ResolveView::Create {
                    key: k,
                    display_address: info.address,
                    name: match info.name {
                        Some(n) => n,
                        None => Seq::empty(),
                    },
                }
            } else {
                ResolveView::Create { key: k, display_address: trim_spec(input), name: Seq::empty() }
            }
        },
    }
}

/// Which device `disconnect_device` asks to disconnect: a blank address is
/// refused, and so is a device without a handle, as not found under the
/// trimmed input.
pub open spec fn disconnect_device_spec(m: ManagerView, input: Seq<char>) -> Result<Seq<char>, RejectionView> {
    match device_id_spec(input) {
        None => Err(blank_address_rejection()),
        Some(k) => if m.device_keys.contains(k) {
            Ok(k)
        } else {
            Err(RejectionView {
                error: BleErrorView::DeviceNotFound(trim_spec(input)),
                context: device_context(k),
            })
        },
    }
}

/// Each device occurs once among the discovered records and once among the
/// handles.
pub open spec fn manager_keys_unique(m: ManagerView) -> bool {
    &&& forall|i: int, j: int| 0 <= i < j < m.discovered.len() ==> m.discovered[i].0 != m.discovered[j].0
    &&& m.device_keys.no_duplicates()
}

impl BluetoothManager {
    #[verifier::type_invariant]
    spec fn keys_unique(self) -> bool {
        manager_keys_unique(self@)
    }

    /// Caches of a manager that has not initialized.
    pub fn new() -> (r: Self)
        ensures
            !r@.initialized,
            r@.adapter_info is None,
            r@.active_scan_id == OperationId(0),
            !r@.scan_started,
            r@.discovered.len() == 0,
            r@.device_keys.len() == 0,
            manager_keys_unique(r@),
    {
        let r = BluetoothManager {
            initialized: false,
            adapter_info: None,
            active_scan_id: OperationId::unsolicited(),
            scan_started: false,
            discovered: Vec::new(),
            device_keys: Vec::new(),
        };
        assert(r@.discovered =~= Seq::<(Seq<char>, DeviceInfoView)>::empty());
        r
    }

    /// Whether initialization has succeeded.
    pub fn is_initialized(&self) -> (r: bool)
        ensures
            r == self@.initialized,
    {
        self.initialized
    }

    /// The cached adapter information.
    pub fn get_adapter_info(&self) -> (r: Option<AdapterInfo>)
        ensures
            match (r, self@.adapter_info) {
                (Some(a), Some(v)) => a@ == v,
                (None, None) => true,
                _ => false,
            },
    {
        match &self.adapter_info {
            Some(a) => Some(a.clone()),
            None => None,
        }
    }

    /// The scan the legacy scan signals follow; `UNSOLICITED` when none.
    pub fn active_scan_id(&self) -> (r: OperationId)
        ensures
            r == self@.active_scan_id,
    {
        self.active_scan_id
    }

    /// Records a submitted scan request: it becomes the followed scan unless
    /// one is followed already.
    pub fn record_scan_request(&mut self, operation_id: OperationId)
        ensures
            old(self)@.active_scan_id == OperationId(0) ==> final(self)@ == (ManagerView {
                active_scan_id: operation_id,
                scan_started: false,
                ..old(self)@
            }),
            old(self)@.active_scan_id != OperationId(0) ==> final(self)@ == old(self)@,
            manager_keys_unique(final(self)@),
    {
        proof {
            use_type_invariant(&*self);
        }
        if self.active_scan_id.get() == 0 {
            self.active_scan_id = operation_id;
            self.scan_started = false;
        }
    }

    /// The discovered devices, in the order first discovered.
    pub fn get_discovered_devices(&self) -> (r: Vec<DeviceInfo>)
        ensures
            r.len() == self@.discovered.len(),
            forall|i: int| 0 <= i < r.len() ==> #[trigger] r@[i]@ == self@.discovered[i].1,
    {
        let mut out: Vec<DeviceInfo> = Vec::new();
        for i in 0..self.discovered.len()
            invariant
                out.len() == i,
                forall|j: int| 0 <= j < i ==> #[trigger] out@[j]@ == self.discovered@[j].1@,
        {
            out.push(self.discovered[i].1.clone());
        }
        out
    }

    /// Whether a device handle exists under the normalized address `key`.
    pub fn has_device(&self, key: &str) -> (r: bool)
        ensures
            r == self@.device_keys.contains(key@),
    {
        let ghost keys = ids_view(self.device_keys@);
        let text = String::from_str(key);
        for j in 0..self.device_keys.len()
            invariant
                keys == ids_view(self.device_keys@),
                text@ == key@,
                forall|m: int| 0 <= m < j ==> keys[m] != key@,
        {
            if self.device_keys[j].has_text(&text) {
                assert(keys[j as int] == key@);
                return true;
            }
        }
        false
    }

    /// Records that a device handle exists under `device`.
    pub fn register_device(&mut self, device: DeviceId)
        ensures
            final(self)@ == (ManagerView {
                device_keys: if old(self)@.device_keys.contains(device@) {
                    old(self)@.device_keys
                } else {
                    old(self)@.device_keys.push(device@)
                },
                ..old(self)@
            }),
            manager_keys_unique(final(self)@),
    {
        proof {
            use_type_invariant(&*self);
        }
        if self.has_device(device.as_str()) {
            return;
        }
        let ghost old_keys = ids_view(self.device_keys@);
        let ghost dv = device@;
        let mut keys: Vec<DeviceId> = Vec::new();
        std::mem::swap(&mut keys, &mut self.device_keys);
        keys.push(device);
        assert(ids_view(keys@) =~= old_keys.push(dv));
        self.device_keys = keys;
    }

    /// Forgets every device handle and the initialization, as when the
    /// manager is deleted.
    pub fn clear(&mut self)
        ensures
            final(self)@ == (ManagerView { initialized: false, device_keys: Seq::empty(), ..old(self)@ }),
            manager_keys_unique(final(self)@),
    {
        proof {
            use_type_invariant(&*self);
        }
        self.initialized = false;
        self.device_keys = Vec::new();
        assert(ids_view(self.device_keys@) =~= Seq::<Seq<char>>::empty());
    }

    /// The index of the first record of `device`.
    fn find_discovered(&self, device: &DeviceId) -> (r: Option<usize>)
        ensures
            match r {
                Some(k) => k < self.discovered.len() && k as int == known_index(self@.discovered, device@)
                    && self@.discovered[k as int].0 == device@,
                None => known_index(self@.discovered, device@) == -1 && forall|m: int|
                    0 <= m < self@.discovered.len() ==> self@.discovered[m].0 != device@,
            },
    {
        let ghost known = self@.discovered;
        for k in 0..self.discovered.len()
            invariant
                known == self@.discovered,
                known == known_view(self.discovered@),
                forall|m: int| 0 <= m < k ==> known[m].0 != device@,
        {
            if self.discovered[k].0.same_as(device) {
                proof {
                    lemma_known_index_found(known, device@, k as int);
                }
                return Some(k);
            }
        }
        proof {
            lemma_known_index_none(known, device@);
        }
        None
    }

    fn update_caches(&mut self, event: &BleEvent)
        ensures
            final(self)@ == update_caches_spec(old(self)@, event@),
    {
        proof {
            use_type_invariant(&*self);
        }
        match (&event.operation, &event.phase, &event.data) {
            (Operation::Initialize, Phase::Succeeded, EventData::Adapter(info)) => {
                self.initialized = true;
                self.adapter_info = Some(info.clone());
            },
            (Operation::Initialize, Phase::Failed, _) | (Operation::Initialize, Phase::Cancelled, _) => {
                self.initialized = false;
                self.adapter_info = None;
            },
            (Operation::Scan, Phase::Progress, EventData::Device { info, .. }) => {
                if let Ok(device) = DeviceId::parse(info.address.as_str()) {
                    let ghost known = self@.discovered;
                    let ghost dv = device@;
                    let copy = info.clone();
                    let found = self.find_discovered(&device);
                    let mut discovered: Vec<(DeviceId, DeviceInfo)> = Vec::new();
                    std::mem::swap(&mut discovered, &mut self.discovered);
                    match found {
                        Some(k) => {
                            discovered.set(k, (device, copy));
                            assert(known_view(discovered@) =~= known.update(k as int, (dv, info@)));
                        },
                        None => {
                            discovered.push((device, copy));
                            assert(known_view(discovered@) =~= known.push((dv, info@)));
                        },
                    }
                    self.discovered = discovered;
                }
            },
            _ => {},
        }
    }

    /// Applies a core event to the caches and answers the legacy signals to
    /// emit, in order.
    pub fn apply_event(&mut self, event: &BleEvent) -> (signals: Vec<ManagerSignal>)
        ensures
            (final(self)@, manager_signals_view(signals@)) == manager_event_spec(old(self)@, event@),
            manager_keys_unique(final(self)@),
    {
        proof {
            use_type_invariant(&*self);
        }
        self.update_caches(event);
        let mut signals: Vec<ManagerSignal> = Vec::new();
        let address = &event.context.device_address;
        match event.operation {
            Operation::Initialize => {
                if event.phase == Phase::Succeeded {
                    signals.push(ManagerSignal::AdapterInitialized { success: true, error: String::new() });
                } else if event.phase == Phase::Failed || event.phase == Phase::Cancelled {
                    let error = legacy_error(event);
                    signals.push(ManagerSignal::AdapterInitialized { success: false, error: error.clone() });
                    signals.push(ManagerSignal::ErrorOccurred(error));
                }
            },
            Operation::Scan => {
                if event.phase == Phase::Started {
                    if event.operation_id == self.active_scan_id && !self.scan_started {
                        self.scan_started = true;
                        signals.push(ManagerSignal::ScanStarted);
                    }
                } else if event.phase == Phase::Progress {
                    if let EventData::Device { kind, info } = &event.data {
                        let signal = match kind {
                            DeviceProgressKind::Discovered => ManagerSignal::DeviceDiscovered(info.clone()),
                            DeviceProgressKind::Updated => ManagerSignal::DeviceUpdated(info.clone()),
                        };
                        signals.push(signal);
                    }
                } else if event.phase == Phase::Succeeded || event.phase == Phase::Failed
                    || event.phase == Phase::Cancelled {
                    if event.phase == Phase::Failed || event.phase == Phase::Cancelled {
                        signals.push(ManagerSignal::ErrorOccurred(legacy_error(event)));
                    }
                    if event.operation_id == self.active_scan_id {
                        self.active_scan_id = OperationId::unsolicited();
                        if self.scan_started {
                            signals.push(ManagerSignal::ScanStopped);
                        }
                        self.scan_started = false;
                    }
                }
            },
            Operation::Connect => {
                if event.phase == Phase::Started {
                    signals.push(ManagerSignal::DeviceConnecting(address.clone()));
                } else if event.phase == Phase::Succeeded {
                    signals.push(ManagerSignal::DeviceConnected(address.clone()));
                }
            },
            Operation::Disconnect => {
                if event.phase == Phase::Succeeded || event.phase == Phase::Received {
                    signals.push(ManagerSignal::DeviceDisconnected(address.clone()));
                }
            },
            Operation::ResolveDevice => {
                if event.phase == Phase::Failed || event.phase == Phase::Cancelled {
                    signals.push(ManagerSignal::ErrorOccurred(legacy_error(event)));
                }
            },
            _ => {},
        }
        assert(manager_signals_view(signals@) =~= manager_event_spec(old(self)@, event@).1);
        proof {
            use_type_invariant(&*self);
        }
        signals
    }

    /// Answers a request for the device at `input`: refuses it, hands back
    /// the key of the existing handle, or records a new handle and says how
    /// to make it.
    pub fn get_or_create_device(&mut self, input: &str) -> (r: ResolveOutcome)
        ensures
            r@ == resolve_spec(old(self)@, input@),
            final(self)@ == match r@ {
                ResolveView::Create { key, .. } => ManagerView {
                    device_keys: old(self)@.device_keys.push(key),
                    ..old(self)@
                },
                _ => old(self)@,
            },
            manager_keys_unique(final(self)@),
    {
        proof {
            use_type_invariant(&*self);
        }
        let device = match DeviceId::parse(input) {
            Ok(device) => device,
            Err(error) => {
                return ResolveOutcome::Rejected(Rejection { error, context: EventContext::default() });
            },
        };
        if !self.initialized {
            return ResolveOutcome::Rejected(
                Rejection { error: BleError::NotInitialized, context: EventContext::for_device(&device) },
            );
        }
        let key = String::from_str(device.as_str());
        if self.has_device(device.as_str()) {
            return ResolveOutcome::Existing { key };
        }
        let (display_address, name) = match self.find_discovered(&device) {
            Some(k) => {
                let info = &self.discovered[k].1;
                let name = match &info.name {
                    Some(n) => n.clone(),
                    None => String::new(),
                };
                (info.address.clone(), name)
            },
            None => (String::from_str(trim_text(input)), String::new()),
        };
        let ghost old_keys = ids_view(self.device_keys@);
        let ghost dv = device@;
        let mut keys: Vec<DeviceId> = Vec::new();
        std::mem::swap(&mut keys, &mut self.device_keys);
        keys.push(device);
        assert(ids_view(keys@) =~= old_keys.push(dv));
        self.device_keys = keys;
        ResolveOutcome::Create { key, display_address, name }
    }

    /// The same as `get_or_create_device`: a device handle connects on
    /// request, so `connect_device` only resolves it.
    pub fn connect_device(&mut self, input: &str) -> (r: ResolveOutcome)
        ensures
            r@ == resolve_spec(old(self)@, input@),
            final(self)@ == match r@ {
                ResolveView::Create { key, .. } => ManagerView {
                    device_keys: old(self)@.device_keys.push(key),
                    ..old(self)@
                },
                _ => old(self)@,
            },
            manager_keys_unique(final(self)@),
    {
        proof {
            use_type_invariant(&*self);
        }
        self.get_or_create_device(input)
    }

    /// The device that `disconnect_device` asks to disconnect, or why the
    /// request is refused.
    pub fn disconnect_device(&self, input: &str) -> (r: Result<DeviceId, Rejection>)
        ensures
            match (r, disconnect_device_spec(self@, input@)) {
                (Ok(d), Ok(k)) => d@ == k,
                (Err(e), Err(v)) => e@ == v,
                _ => false,
            },
    {
        let device = match DeviceId::parse(input) {
            Ok(device) => device,
            Err(error) => {
                return Err(Rejection { error, context: EventContext::default() });
            },
        };
        if self.has_device(device.as_str()) {
            Ok(device)
        } else {
            let context = EventContext::for_device(&device);
            Err(Rejection { error: BleError::DeviceNotFound(String::from_str(trim_text(input))), context })
        }
    }

    /// The handle key of the device at `input`, where it has a handle.
    pub fn get_device(&self, input: &str) -> (r: Option<DeviceId>)
        ensures
            match (r, device_id_spec(input@)) {
                (Some(d), Some(k)) => d@ == k && self@.device_keys.contains(k),
                (None, Some(k)) => !self@.device_keys.contains(k),
                (None, None) => true,
                _ => false,
            },
    {
        match DeviceId::parse(input) {
            Ok(device) => if self.has_device(device.as_str()) {
                Some(device)
            } else {
                None
            },
            Err(_) => None,
        }
    }

    /// Whether an event concerns a device that has a handle, so that the
    /// handle sees it too.
    pub fn forwards_to_device(&self, event: &BleEvent) -> (r: bool)
        ensures
            r == (event@.context.device_address.len() > 0 && self@.device_keys.contains(
                event@.context.device_address,
            )),
    {
        !event.context.device_address.as_str().is_empty() && self.has_device(event.context.device_address.as_str())
    }
}

} // verus!
