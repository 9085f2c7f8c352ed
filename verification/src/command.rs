use vstd::prelude::*;

use core::time::Duration;

use crate::event::{
    device_context, gatt_context, BleEvent, BleEventView, DeviceId,
    EventContext, EventContextView, EventData, EventDataView, GattKey, Operation, OperationId,
};
use crate::info::{copy_bytes, AdapterInfo, AdapterInfoView, DeviceInfo, DeviceInfoView};
use crate::scan::ScanGeneration;
use crate::types::{BleError, BleErrorView};

verus! {

/// A device request, by value.
pub enum ActionView {
    Connect,
    Disconnect,
    DiscoverServices,
    Read((Seq<char>, Seq<char>)),
    Write { key: (Seq<char>, Seq<char>), data: Seq<u8>, with_response: bool },
    Subscribe((Seq<char>, Seq<char>)),
    Unsubscribe((Seq<char>, Seq<char>)),
}

/// One request on one device.
#[derive(Debug)]
pub enum DeviceAction {
    Connect,
    Disconnect,
    DiscoverServices,
    Read(GattKey),
    Write { key: GattKey, data: Vec<u8>, with_response: bool },
    Subscribe(GattKey),
    Unsubscribe(GattKey),
}

impl View for DeviceAction {
    type V = ActionView;

    open spec fn view(&self) -> ActionView {
        match self {
            DeviceAction::Connect => ActionView::Connect,
            DeviceAction::Disconnect => ActionView::Disconnect,
            DeviceAction::DiscoverServices => ActionView::DiscoverServices,
            DeviceAction::Read(k) => ActionView::Read(k@),
            DeviceAction::Write { key, data, with_response } => ActionView::Write {
                key: key@,
                data: data@,
                with_response: *with_response,
            },
            DeviceAction::Subscribe(k) => ActionView::Subscribe(k@),
            DeviceAction::Unsubscribe(k) => ActionView::Unsubscribe(k@),
        }
    }
}

/// The operation a device request belongs to.
pub open spec fn action_operation(a: ActionView) -> Operation {
    match a {
        ActionView::Connect => Operation::Connect,
        ActionView::Disconnect => Operation::Disconnect,
        ActionView::DiscoverServices => Operation::DiscoverServices,
        ActionView::Read(_) => Operation::Read,
        ActionView::Write { .. } => Operation::Write,
        ActionView::Subscribe(_) => Operation::Subscribe,
        ActionView::Unsubscribe(_) => Operation::Unsubscribe,
    }
}

/// The event context of a device request: the characteristic for GATT
/// requests, the device alone otherwise.
pub open spec fn action_context(a: ActionView, device: Seq<char>) -> EventContextView {
    match a {
        ActionView::Read(k) => gatt_context(device, k),
        ActionView::Write { key, .. } => gatt_context(device, key),
        ActionView::Subscribe(k) => gatt_context(device, k),
        ActionView::Unsubscribe(k) => gatt_context(device, k),
        _ => device_context(device),
    }
}

impl DeviceAction {
    /// The operation the request belongs to.
    pub fn operation(&self) -> (r: Operation)
        ensures
            r == action_operation(self@),
    {
        match self {
            DeviceAction::Connect => Operation::Connect,
            DeviceAction::Disconnect => Operation::Disconnect,
            DeviceAction::DiscoverServices => Operation::DiscoverServices,
            DeviceAction::Read(_) => Operation::Read,
            DeviceAction::Write { .. } => Operation::Write,
            DeviceAction::Subscribe(_) => Operation::Subscribe,
            DeviceAction::Unsubscribe(_) => Operation::Unsubscribe,
        }
    }

    /// The event context of the request on `device`.
    pub fn context(&self, device: &DeviceId) -> (r: EventContext)
        ensures
            r@ == action_context(self@, device@),
    {
        match self {
            DeviceAction::Read(key) => EventContext::for_gatt(device, key),
            DeviceAction::Write { key, .. } => EventContext::for_gatt(device, key),
            DeviceAction::Subscribe(key) => EventContext::for_gatt(device, key),
            DeviceAction::Unsubscribe(key) => EventContext::for_gatt(device, key),
            _ => EventContext::for_device(device),
        }
    }
}

impl Clone for DeviceAction {
    fn clone(&self) -> (r: Self)
        ensures
            r@ == self@,
    {
        match self {
            DeviceAction::Connect => DeviceAction::Connect,
            DeviceAction::Disconnect => DeviceAction::Disconnect,
            DeviceAction::DiscoverServices => DeviceAction::DiscoverServices,
            DeviceAction::Read(k) => DeviceAction::Read(k.clone()),
            DeviceAction::Write { key, data, with_response } => DeviceAction::Write {
                key: key.clone(),
                data: copy_bytes(data),
                with_response: *with_response,
            },
            DeviceAction::Subscribe(k) => DeviceAction::Subscribe(k.clone()),
            DeviceAction::Unsubscribe(k) => DeviceAction::Unsubscribe(k.clone()),
        }
    }
}

/// A command, by value.
pub enum CommandView {
    Initialize { operation_id: OperationId },
    StartScan { operation_id: OperationId, timeout: Option<Duration> },
    StopScan { operation_id: OperationId },
    Device { operation_id: OperationId, device: Seq<char>, action: ActionView },
    Shutdown,
}

/// A command that the Godot side submits to the core.
#[derive(Debug)]
pub enum CoreCommand {
    Initialize { operation_id: OperationId },
    StartScan { operation_id: OperationId, timeout: Option<Duration> },
    StopScan { operation_id: OperationId },
    Device { operation_id: OperationId, device: DeviceId, action: DeviceAction },
    Shutdown,
}

impl View for CoreCommand {
    type V = CommandView;

    open spec fn view(&self) -> CommandView {
        match self {
            CoreCommand::Initialize { operation_id } => CommandView::Initialize {
                operation_id: *operation_id,
            },
            CoreCommand::StartScan { operation_id, timeout } => CommandView::StartScan {
                operation_id: *operation_id,
                timeout: *timeout,
            },
            CoreCommand::StopScan { operation_id } => CommandView::StopScan {
                operation_id: *operation_id,
            },
            CoreCommand::Device { operation_id, device, action } => CommandView::Device {
                operation_id: *operation_id,
                device: device@,
                action: action@,
            },
            CoreCommand::Shutdown => CommandView::Shutdown,
        }
    }
}

/// What the adapter's event stream reported, by value.
pub enum BackendEventView {
    Discovered(DeviceInfoView),
    Updated(DeviceInfoView),
    Disconnected(Seq<char>),
}

/// What the adapter's event stream reported.
#[derive(Debug)]
pub enum BackendEvent {
    Discovered(DeviceInfo),
    Updated(DeviceInfo),
    Disconnected(DeviceId),
}

impl View for BackendEvent {
    type V = BackendEventView;

    open spec fn view(&self) -> BackendEventView {
        match self {
            BackendEvent::Discovered(i) => BackendEventView::Discovered(i@),
            BackendEvent::Updated(i) => BackendEventView::Updated(i@),
            BackendEvent::Disconnected(d) => BackendEventView::Disconnected(d@),
        }
    }
}

/// One value from a device's notification stream. The stream names the
/// characteristic only, not its service.
#[derive(Debug)]
pub struct BackendNotification {
    pub characteristic_uuid: String,
    pub value: Vec<u8>,
}

/// A result of background work, by value.
pub enum InternalView {
    Initialized { operation_id: OperationId, result: Result<AdapterInfoView, BleErrorView> },
    Backend(Result<BackendEventView, BleErrorView>),
    ScanStarted {
        operation_id: OperationId,
        generation: ScanGeneration,
        result: Result<(), BleErrorView>,
    },
    ScanTimedOut { generation: ScanGeneration },
    ScanStopped {
        operation_id: OperationId,
        generation: ScanGeneration,
        reason: Seq<char>,
        result: Result<(), BleErrorView>,
    },
    DeviceCompleted {
        operation_id: OperationId,
        device: Seq<char>,
        generation: u64,
        action: ActionView,
        result: Result<EventDataView, BleErrorView>,
    },
    Notification { device: Seq<char>, characteristic_uuid: Seq<char>, value: Seq<u8> },
    NotificationPumpFailed { device: Seq<char>, generation: u64, error: BleErrorView },
    NotificationPumpEnded { device: Seq<char>, generation: u64 },
}

/// The result of background work that the core started.
#[derive(Debug)]
pub enum InternalEvent {
    Initialized { operation_id: OperationId, result: Result<AdapterInfo, BleError> },
    Backend(Result<BackendEvent, BleError>),
    ScanStarted {
        operation_id: OperationId,
        generation: ScanGeneration,
        result: Result<(), BleError>,
    },
    ScanTimedOut { generation: ScanGeneration },
    ScanStopped {
        operation_id: OperationId,
        generation: ScanGeneration,
        reason: String,
        result: Result<(), BleError>,
    },
    DeviceCompleted {
        operation_id: OperationId,
        device: DeviceId,
        generation: u64,
        action: DeviceAction,
        result: Result<EventData, BleError>,
    },
    Notification { device: DeviceId, notification: BackendNotification },
    NotificationPumpFailed { device: DeviceId, generation: u64, error: BleError },
    NotificationPumpEnded { device: DeviceId, generation: u64 },
}

/// The by-value form of a result whose error is a `BleError`.
pub open spec fn result_view<T, V>(r: Result<T, BleError>, f: spec_fn(T) -> V) -> Result<V, BleErrorView> {
    match r {
        Ok(t) => Ok(f(t)),
        Err(e) => Err(e@),
    }
}

impl View for InternalEvent {
    type V = InternalView;

    open spec fn view(&self) -> InternalView {
        match self {
            InternalEvent::Initialized { operation_id, result } => InternalView::Initialized {
                operation_id: *operation_id,
                result: result_view(*result, |a: AdapterInfo| a@),
            },
            InternalEvent::Backend(r) => InternalView::Backend(
                result_view(*r, |b: BackendEvent| b@),
            ),
            InternalEvent::ScanStarted { operation_id, generation, result } =>
                InternalView::ScanStarted {
                operation_id: *operation_id,
                generation: *generation,
                result: result_view(*result, |u: ()| u),
            },
            InternalEvent::ScanTimedOut { generation } => InternalView::ScanTimedOut {
                generation: *generation,
            },
            InternalEvent::ScanStopped { operation_id, generation, reason, result } =>
                InternalView::ScanStopped {
                operation_id: *operation_id,
                generation: *generation,
                reason: reason@,
                result: result_view(*result, |u: ()| u),
            },
            InternalEvent::DeviceCompleted { operation_id, device, generation, action, result } =>
                InternalView::DeviceCompleted {
                operation_id: *operation_id,
                device: device@,
                generation: *generation,
                action: action@,
                result: result_view(*result, |d: EventData| d@),
            },
            InternalEvent::Notification { device, notification } => InternalView::Notification {
                device: device@,
                characteristic_uuid: notification.characteristic_uuid@,
                value: notification.value@,
            },
            InternalEvent::NotificationPumpFailed { device, generation, error } =>
                InternalView::NotificationPumpFailed {
                device: device@,
                generation: *generation,
                error: error@,
            },
            InternalEvent::NotificationPumpEnded { device, generation } =>
                InternalView::NotificationPumpEnded { device: device@, generation: *generation },
        }
    }
}

/// Work that the core asks its runner to do, by value.
pub enum EffectView {
    Emit(BleEventView),
    InitializeBackend { operation_id: OperationId },
    WatchAdapterEvents,
    ArmScanCancellation,
    CancelScanCancellation,
    ReleaseScanCancellation,
    StartScan { operation_id: OperationId, generation: ScanGeneration },
    StartScanTimer { generation: ScanGeneration, timeout: Duration },
    StopScan { operation_id: OperationId, generation: ScanGeneration, reason: Seq<char> },
    RunDeviceAction {
        operation_id: OperationId,
        device: Seq<char>,
        generation: u64,
        action: ActionView,
    },
    AbortDeviceAction { device: Seq<char> },
    StartNotificationPump { device: Seq<char>, generation: u64 },
    CancelNotificationPump { device: Seq<char> },
    ReleaseNotificationPump { device: Seq<char> },
    StopScanNow,
    DisconnectNow { device: Seq<char> },
    AbortAllTasks,
}

/// Work that the core asks its runner to do, in the order given: publish an
/// event, start background work whose result comes back as an
/// `InternalEvent`, or cancel or abort work started earlier.
#[derive(Debug)]
pub enum CoreEffect {
    /// Publish an event to the Godot side.
    Emit(BleEvent),
    /// Initialize the backend; the result comes back as `Initialized`.
    InitializeBackend { operation_id: OperationId },
    /// Forward the adapter event stream that initialization returned as
    /// `Backend` events.
    WatchAdapterEvents,
    /// Replace the scan cancellation token with a new one.
    ArmScanCancellation,
    /// Cancel the current scan cancellation token.
    CancelScanCancellation,
    /// Drop the scan cancellation token without cancelling it.
    ReleaseScanCancellation,
    /// Start scanning; the result comes back as `ScanStarted`.
    StartScan { operation_id: OperationId, generation: ScanGeneration },
    /// After `timeout`, unless the scan token is cancelled first, report
    /// `ScanTimedOut`.
    StartScanTimer { generation: ScanGeneration, timeout: Duration },
    /// Stop scanning; the result comes back as `ScanStopped`.
    StopScan { operation_id: OperationId, generation: ScanGeneration, reason: String },
    /// Run a device request; the result comes back as `DeviceCompleted`.
    RunDeviceAction {
        operation_id: OperationId,
        device: DeviceId,
        generation: u64,
        action: DeviceAction,
    },
    /// Abort the device's running request.
    AbortDeviceAction { device: DeviceId },
    /// Open the device's notification stream and forward it.
    StartNotificationPump { device: DeviceId, generation: u64 },
    /// Cancel the device's notification pump.
    CancelNotificationPump { device: DeviceId },
    /// Drop the device's notification pump token without cancelling it.
    ReleaseNotificationPump { device: DeviceId },
    /// Stop scanning and wait for it.
    StopScanNow,
    /// Disconnect the device and wait for it.
    DisconnectNow { device: DeviceId },
    /// Abort all background work and wait for it.
    AbortAllTasks,
}

impl View for CoreEffect {
    type V = EffectView;

    open spec fn view(&self) -> EffectView {
        match self {
            CoreEffect::Emit(e) => EffectView::Emit(e@),
            CoreEffect::InitializeBackend { operation_id } => EffectView::InitializeBackend {
                operation_id: *operation_id,
            },
            CoreEffect::WatchAdapterEvents => EffectView::WatchAdapterEvents,
            CoreEffect::ArmScanCancellation => EffectView::ArmScanCancellation,
            CoreEffect::CancelScanCancellation => EffectView::CancelScanCancellation,
            CoreEffect::ReleaseScanCancellation => EffectView::ReleaseScanCancellation,
            CoreEffect::StartScan { operation_id, generation } => EffectView::StartScan {
                operation_id: *operation_id,
                generation: *generation,
            },
            CoreEffect::StartScanTimer { generation, timeout } => EffectView::StartScanTimer {
                generation: *generation,
                timeout: *timeout,
            },
            CoreEffect::StopScan { operation_id, generation, reason } => EffectView::StopScan {
                operation_id: *operation_id,
                generation: *generation,
                reason: reason@,
            },
            CoreEffect::RunDeviceAction { operation_id, device, generation, action } =>
                EffectView::RunDeviceAction {
                operation_id: *operation_id,
                device: device@,
                generation: *generation,
                action: action@,
            },
            CoreEffect::AbortDeviceAction { device } => EffectView::AbortDeviceAction {
                device: device@,
            },
            CoreEffect::StartNotificationPump { device, generation } =>
                EffectView::StartNotificationPump { device: device@, generation: *generation },
            CoreEffect::CancelNotificationPump { device } => EffectView::CancelNotificationPump {
                device: device@,
            },
            CoreEffect::ReleaseNotificationPump { device } => EffectView::ReleaseNotificationPump {
                device: device@,
            },
            CoreEffect::StopScanNow => EffectView::StopScanNow,
            CoreEffect::DisconnectNow { device } => EffectView::DisconnectNow { device: device@ },
            CoreEffect::AbortAllTasks => EffectView::AbortAllTasks,
        }
    }
}

/// The by-value form of a list of effects.
pub open spec fn effects_view(v: Seq<CoreEffect>) -> Seq<EffectView> {
    Seq::new(v.len(), |i: int| v[i]@)
}

} // verus!
