use std::collections::VecDeque;
use std::time::{Duration, Instant};

use gdble::client::{
    next_operation_id, prepare_device_command, queue_full_event, start_scan_command,
    stop_scan_command, DeviceRequest, COMMAND_CHANNEL_CAPACITY, EVENT_CHANNEL_CAPACITY,
};
use gdble::command::{
    BackendEvent, BackendNotification, CoreCommand, CoreEffect, DeviceAction, InternalEvent,
};
use gdble::event::{BleEvent, DeviceId, EventData, Operation, OperationId, Phase};
use gdble::info::{AdapterInfo, DeviceInfo};
use gdble::machine::CoreState;
use gdble::scan::ScanGeneration;
use gdble::types::BleError;

/// A synchronous stand-in for the radio stack: it answers the core's
/// effects the way the asynchronous runner and a scripted backend would.
#[derive(Default)]
struct FakeBackend {
    initialized: bool,
    devices: Vec<(String, DeviceInfo)>,
    connected: Vec<String>,
    fail_next_scan_start: Option<BleError>,
    fail_next_connect: Option<BleError>,
    fail_next_unsubscribe: Option<BleError>,
    block_next_connect: bool,
    notification_pumps_started: usize,
    write_modes: Vec<bool>,
}

impl FakeBackend {
    fn key(address: &str) -> String {
        DeviceId::parse(address).unwrap().as_str().to_string()
    }

    fn add_device(&mut self, device: DeviceInfo) {
        let key = Self::key(&device.address);
        self.devices.push((key, device));
    }

    fn add_connected_device(&mut self, address: &str) {
        self.add_device(DeviceInfo::new(
            address.to_string(),
            None,
            None,
            Vec::new(),
            Vec::new(),
            Vec::new(),
            None,
        ));
        self.connected.push(Self::key(address));
    }

    fn is_connected(&self, device: &DeviceId) -> bool {
        self.connected.iter().any(|key| key == device.as_str())
    }

    fn ensure_connected(&self, device: &DeviceId) -> Result<(), BleError> {
        if self.is_connected(device) {
            Ok(())
        } else {
            Err(BleError::NotConnected)
        }
    }

    fn connect(&mut self, device: &DeviceId) -> Result<EventData, BleError> {
        if !self.devices.iter().any(|(key, _)| key == device.as_str()) {
            return Err(BleError::DeviceNotFound(device.as_str().to_string()));
        }
        if !self.is_connected(device) {
            self.connected.push(device.as_str().to_string());
        }
        Ok(EventData::Empty)
    }

    fn run(&mut self, device: &DeviceId, action: &DeviceAction) -> Result<EventData, BleError> {
        match action {
            DeviceAction::Connect => {
                if let Some(error) = self.fail_next_connect.take() {
                    return Err(error);
                }
                self.connect(device)
            }
            DeviceAction::Disconnect => {
                self.connected.retain(|key| key != device.as_str());
                Ok(EventData::Empty)
            }
            DeviceAction::DiscoverServices => {
                self.ensure_connected(device)?;
                Ok(EventData::Services(Vec::new()))
            }
            DeviceAction::Read(_) => {
                self.ensure_connected(device)?;
                Ok(EventData::Bytes(Vec::new()))
            }
            DeviceAction::Write { with_response, .. } => {
                self.ensure_connected(device)?;
                self.write_modes.push(*with_response);
                Ok(EventData::Empty)
            }
            DeviceAction::Subscribe(_) => {
                self.ensure_connected(device)?;
                Ok(EventData::Empty)
            }
            DeviceAction::Unsubscribe(_) => {
                self.ensure_connected(device)?;
                match self.fail_next_unsubscribe.take() {
                    Some(error) => Err(error),
                    None => Ok(EventData::Empty),
                }
            }
        }
    }
}

struct BlockedConnect {
    operation_id: OperationId,
    device: DeviceId,
    generation: u64,
    action: DeviceAction,
}

/// The core, its fake backend, and everything the runner tracks: pending
/// results of background work, cancellation tokens, scan timers and
/// notification pumps.
struct Harness {
    core: CoreState,
    backend: FakeBackend,
    next_id: i64,
    events: VecDeque<BleEvent>,
    pending: VecDeque<InternalEvent>,
    tokens: Vec<bool>,
    current_token: Option<usize>,
    timers: Vec<(usize, ScanGeneration)>,
    pumps: Vec<(String, u64)>,
    blocked: Option<BlockedConnect>,
    adapter_watches: usize,
    backend_initializations: usize,
}

impl Harness {
    fn new(backend: FakeBackend) -> Self {
        Harness {
            core: CoreState::new(),
            backend,
            next_id: 1,
            events: VecDeque::new(),
            pending: VecDeque::new(),
            tokens: Vec::new(),
            current_token: None,
            timers: Vec::new(),
            pumps: Vec::new(),
            blocked: None,
            adapter_watches: 0,
            backend_initializations: 0,
        }
    }

    fn next_id(&mut self) -> OperationId {
        let id = next_operation_id(self.next_id);
        self.next_id += 1;
        id
    }

    fn perform(&mut self, effects: Vec<CoreEffect>) {
        for effect in effects {
            match effect {
                CoreEffect::Emit(event) => self.events.push_back(event),
                CoreEffect::InitializeBackend { operation_id } => {
                    self.backend_initializations += 1;
                    let result = if self.backend.initialized {
                        Err(BleError::InitializationFailed("already initialized".to_string()))
                    } else {
                        self.backend.initialized = true;
                        Ok(AdapterInfo::new("Fake BLE Adapter".to_string(), None))
                    };
                    self.pending
                        .push_back(InternalEvent::Initialized { operation_id, result });
                }
                CoreEffect::WatchAdapterEvents => self.adapter_watches += 1,
                CoreEffect::ArmScanCancellation => {
                    self.tokens.push(false);
                    self.current_token = Some(self.tokens.len() - 1);
                }
                CoreEffect::CancelScanCancellation => {
                    if let Some(token) = self.current_token {
                        self.tokens[token] = true;
                    }
                }
                CoreEffect::ReleaseScanCancellation => self.current_token = None,
                CoreEffect::StartScan {
                    operation_id,
                    generation,
                } => {
                    let result = match self.backend.fail_next_scan_start.take() {
                        Some(error) => Err(error),
                        None => Ok(()),
                    };
                    self.pending.push_back(InternalEvent::ScanStarted {
                        operation_id,
                        generation,
                        result,
                    });
                }
                CoreEffect::StartScanTimer { generation, .. } => {
                    if let Some(token) = self.current_token {
                        self.timers.push((token, generation));
                    }
                }
                CoreEffect::StopScan {
                    operation_id,
                    generation,
                    reason,
                } => self.pending.push_back(InternalEvent::ScanStopped {
                    operation_id,
                    generation,
                    reason,
                    result: Ok(()),
                }),
                CoreEffect::RunDeviceAction {
                    operation_id,
                    device,
                    generation,
                    action,
                } => {
                    if matches!(action, DeviceAction::Connect) && self.backend.block_next_connect {
                        self.backend.block_next_connect = false;
                        self.blocked = Some(BlockedConnect {
                            operation_id,
                            device,
                            generation,
                            action,
                        });
                    } else {
                        let result = self.backend.run(&device, &action);
                        self.pending.push_back(InternalEvent::DeviceCompleted {
                            operation_id,
                            device,
                            generation,
                            action,
                            result,
                        });
                    }
                }
                CoreEffect::AbortDeviceAction { device } => {
                    if self
                        .blocked
                        .as_ref()
                        .is_some_and(|blocked| blocked.device.as_str() == device.as_str())
                    {
                        self.blocked = None;
                    }
                }
                CoreEffect::StartNotificationPump { device, generation } => {
                    match self.backend.ensure_connected(&device) {
                        Ok(()) => {
                            self.backend.notification_pumps_started += 1;
                            self.pumps.push((device.as_str().to_string(), generation));
                        }
                        Err(error) => self.pending.push_back(InternalEvent::NotificationPumpFailed {
                            device,
                            generation,
                            error,
                        }),
                    }
                }
                CoreEffect::CancelNotificationPump { device }
                | CoreEffect::ReleaseNotificationPump { device } => {
                    self.pumps.retain(|(key, _)| key != device.as_str());
                }
                CoreEffect::StopScanNow
                | CoreEffect::DisconnectNow { .. }
                | CoreEffect::AbortAllTasks => {}
            }
        }
    }

    fn settle(&mut self) {
        while let Some(internal) = self.pending.pop_front() {
            let effects = self.core.handle_internal(internal);
            self.perform(effects);
        }
    }

    fn submit(&mut self, command: CoreCommand) {
        let effects = self.core.handle_command(command);
        self.perform(effects);
        self.settle();
    }

    fn initialize(&mut self) -> OperationId {
        let id = self.next_id();
        self.submit(CoreCommand::Initialize { operation_id: id });
        id
    }

    fn start_scan(&mut self, timeout: Option<Duration>) -> OperationId {
        let id = self.next_id();
        self.submit(start_scan_command(id, timeout));
        id
    }

    fn stop_scan(&mut self, operation_id: OperationId) {
        if let Some(command) = stop_scan_command(operation_id) {
            self.submit(command);
        }
    }

    fn device_request(&mut self, address: &str, request: DeviceRequest) -> OperationId {
        let id = self.next_id();
        match prepare_device_command(id, address, request) {
            Ok(command) => self.submit(command),
            Err(event) => self.events.push_back(event),
        }
        id
    }

    fn connect(&mut self, address: &str) -> OperationId {
        self.device_request(address, DeviceRequest::Connect)
    }

    fn discover_services(&mut self, address: &str) -> OperationId {
        self.device_request(address, DeviceRequest::DiscoverServices)
    }

    fn subscribe(&mut self, address: &str, service: &str, characteristic: &str) -> OperationId {
        self.device_request(
            address,
            DeviceRequest::Subscribe {
                service_uuid: service.to_string(),
                characteristic_uuid: characteristic.to_string(),
            },
        )
    }

    fn unsubscribe(&mut self, address: &str, service: &str, characteristic: &str) -> OperationId {
        self.device_request(
            address,
            DeviceRequest::Unsubscribe {
                service_uuid: service.to_string(),
                characteristic_uuid: characteristic.to_string(),
            },
        )
    }

    fn write(
        &mut self,
        address: &str,
        service: &str,
        characteristic: &str,
        data: Vec<u8>,
        with_response: bool,
    ) -> OperationId {
        self.device_request(
            address,
            DeviceRequest::Write {
                service_uuid: service.to_string(),
                characteristic_uuid: characteristic.to_string(),
                data,
                with_response,
            },
        )
    }

    fn backend_event(&mut self, event: BackendEvent) {
        self.pending.push_back(InternalEvent::Backend(Ok(event)));
        self.settle();
    }

    fn emit_device_discovered(&mut self, address: &str) {
        let key = FakeBackend::key(address);
        let device = self
            .backend
            .devices
            .iter()
            .find(|(k, _)| *k == key)
            .map(|(_, info)| info.clone())
            .unwrap();
        self.backend_event(BackendEvent::Discovered(device));
    }

    fn emit_remote_disconnect(&mut self, address: &str) {
        let id = DeviceId::parse(address).unwrap();
        self.backend.connected.retain(|key| key != id.as_str());
        self.backend_event(BackendEvent::Disconnected(id));
    }

    fn emit_notification(&mut self, characteristic: &str, value: Vec<u8>) {
        for (key, _) in self.pumps.clone() {
            self.pending.push_back(InternalEvent::Notification {
                device: DeviceId::parse(&key).unwrap(),
                notification: BackendNotification {
                    characteristic_uuid: characteristic.to_ascii_lowercase(),
                    value: value.clone(),
                },
            });
        }
        self.settle();
    }

    fn emit_notification_error(&mut self, error: BleError) {
        let mut error = Some(error);
        let pumps = std::mem::take(&mut self.pumps);
        for (key, generation) in pumps {
            if let Some(error) = error.take() {
                self.pending.push_back(InternalEvent::NotificationPumpFailed {
                    device: DeviceId::parse(&key).unwrap(),
                    generation,
                    error,
                });
            }
        }
        self.settle();
    }

    fn release_connect(&mut self) {
        if let Some(blocked) = self.blocked.take() {
            let result = self.backend.connect(&blocked.device);
            self.pending.push_back(InternalEvent::DeviceCompleted {
                operation_id: blocked.operation_id,
                device: blocked.device,
                generation: blocked.generation,
                action: blocked.action,
                result,
            });
            self.settle();
        }
    }

    fn fire_scan_timers(&mut self) {
        let timers = std::mem::take(&mut self.timers);
        for (token, generation) in timers {
            if !self.tokens[token] {
                self.pending.push_back(InternalEvent::ScanTimedOut { generation });
            }
        }
        self.settle();
    }

    fn wait_for_event(&mut self, predicate: impl Fn(&BleEvent) -> bool) -> BleEvent {
        while let Some(event) = self.events.pop_front() {
            if predicate(&event) {
                return event;
            }
        }
        panic!("no matching BLE event");
    }
}

fn sensor(address: &str, name: Option<&str>, rssi: Option<i16>) -> DeviceInfo {
    DeviceInfo::new(
        address.to_string(),
        name.map(str::to_string),
        rssi,
        Vec::new(),
        Default::default(),
        Default::default(),
        None,
    )
}

fn initialized(backend: FakeBackend) -> Harness {
    let mut runtime = Harness::new(backend);
    let init_id = runtime.initialize();
    runtime.wait_for_event(|event| event.operation_id == init_id && event.phase == Phase::Succeeded);
    runtime
}

#[test]
fn failed_scan_start_emits_terminal_event_and_allows_retry() {
    let mut backend = FakeBackend::default();
    backend.fail_next_scan_start = Some(BleError::ScanFailed("radio unavailable".to_string()));
    let mut runtime = initialized(backend);
    let failed_id = runtime.start_scan(None);
    let failed = runtime.wait_for_event(|event| event.operation_id == failed_id && event.terminal);
    assert_eq!(failed.phase, Phase::Failed);
    let retry_id = runtime.start_scan(None);
    let started = runtime
        .wait_for_event(|event| event.operation_id == retry_id && event.phase == Phase::Started);
    assert_eq!(started.operation_id, retry_id);
}

#[test]
fn duplicate_scan_is_rejected_without_replacing_active_scan() {
    let mut runtime = initialized(FakeBackend::default());
    let active_id = runtime.start_scan(None);
    runtime.wait_for_event(|event| event.operation_id == active_id && event.phase == Phase::Started);
    let rejected_id = runtime.start_scan(None);
    let rejected = runtime.wait_for_event(|event| event.operation_id == rejected_id && event.terminal);
    assert_eq!(rejected.error.expect("busy error").code, "BUSY");
}

#[test]
fn timed_scan_emits_exactly_one_terminal_event() {
    let mut runtime = initialized(FakeBackend::default());
    let scan_id = runtime.start_scan(Some(Duration::from_millis(10)));
    runtime.wait_for_event(|event| event.operation_id == scan_id && event.phase == Phase::Started);
    runtime.fire_scan_timers();
    let terminal = runtime.wait_for_event(|event| event.operation_id == scan_id && event.terminal);
    assert_eq!(terminal.phase, Phase::Succeeded);

    runtime.fire_scan_timers();
    runtime.stop_scan(scan_id);
    let mut duplicate_terminal = false;
    while let Some(event) = runtime.events.pop_front() {
        duplicate_terminal |= event.operation_id == scan_id && event.terminal;
    }
    assert!(!duplicate_terminal);
}

#[test]
fn remote_disconnect_uses_unsolicited_operation_id() {
    let mut backend = FakeBackend::default();
    backend.add_device(sensor("AA:BB:CC:DD:EE:FF", Some("Sensor"), Some(-42)));
    let mut runtime = initialized(backend);
    runtime.emit_device_discovered("AA:BB:CC:DD:EE:FF");
    runtime.wait_for_event(|event| {
        event.operation == Operation::Scan && event.phase == Phase::Progress
    });
    let connect_id = runtime.connect("aa:bb:cc:dd:ee:ff");
    runtime
        .wait_for_event(|event| event.operation_id == connect_id && event.phase == Phase::Succeeded);
    runtime.emit_remote_disconnect("AA:BB:CC:DD:EE:FF");
    let disconnected = runtime.wait_for_event(|event| {
        event.operation == Operation::Disconnect && event.phase == Phase::Received
    });
    assert_eq!(disconnected.operation_id, OperationId::unsolicited());
}

#[test]
fn remote_disconnect_cancels_a_stale_connect_before_reconnect() {
    let mut backend = FakeBackend::default();
    backend.add_device(sensor("AA:BB:CC:DD:EE:FF", None, None));
    let mut runtime = initialized(backend);

    runtime.backend.block_next_connect = true;
    let stale_id = runtime.connect("AA:BB:CC:DD:EE:FF");
    runtime.wait_for_event(|event| event.operation_id == stale_id && event.phase == Phase::Started);
    runtime.emit_remote_disconnect("AA:BB:CC:DD:EE:FF");
    let cancelled = runtime.wait_for_event(|event| event.operation_id == stale_id && event.terminal);
    assert_eq!(cancelled.phase, Phase::Cancelled);

    let reconnect_id = runtime.connect("AA:BB:CC:DD:EE:FF");
    let reconnected =
        runtime.wait_for_event(|event| event.operation_id == reconnect_id && event.terminal);
    assert_eq!(reconnected.phase, Phase::Succeeded);
}

#[test]
fn failed_connect_returns_to_disconnected_and_can_retry() {
    let mut backend = FakeBackend::default();
    backend.add_device(sensor("AA:BB:CC:DD:EE:FF", None, None));
    backend.fail_next_connect = Some(BleError::ConnectionFailed("rejected".to_string()));
    let mut runtime = initialized(backend);

    let failed_id = runtime.connect("AA:BB:CC:DD:EE:FF");
    let failed = runtime.wait_for_event(|event| event.operation_id == failed_id && event.terminal);
    assert_eq!(failed.phase, Phase::Failed);

    let retry_id = runtime.connect("AA:BB:CC:DD:EE:FF");
    let retried = runtime.wait_for_event(|event| event.operation_id == retry_id && event.terminal);
    assert_eq!(retried.phase, Phase::Succeeded);
}

#[test]
fn duplicate_characteristic_uuid_across_services_is_rejected() {
    let mut backend = FakeBackend::default();
    backend.add_device(sensor("AA:BB:CC:DD:EE:FF", None, None));
    let mut runtime = initialized(backend);
    let connect_id = runtime.connect("AA:BB:CC:DD:EE:FF");
    runtime
        .wait_for_event(|event| event.operation_id == connect_id && event.phase == Phase::Succeeded);
    let first_id = runtime.subscribe(
        "AA:BB:CC:DD:EE:FF",
        "0000180d-0000-1000-8000-00805f9b34fb",
        "00002a37-0000-1000-8000-00805f9b34fb",
    );
    runtime.wait_for_event(|event| event.operation_id == first_id && event.phase == Phase::Succeeded);
    let second_id = runtime.subscribe(
        "AA:BB:CC:DD:EE:FF",
        "0000180f-0000-1000-8000-00805f9b34fb",
        "00002a37-0000-1000-8000-00805f9b34fb",
    );
    let rejected = runtime.wait_for_event(|event| event.operation_id == second_id && event.terminal);
    assert_eq!(
        rejected.error.expect("ambiguity error").code,
        "AMBIGUOUS_CHARACTERISTIC"
    );
}

#[test]
fn device_commands_are_executed_in_submission_order() {
    let mut backend = FakeBackend::default();
    backend.add_device(sensor("AA:BB:CC:DD:EE:FF", None, None));
    let mut runtime = initialized(backend);

    let connect_id = runtime.connect("AA:BB:CC:DD:EE:FF");
    let discover_id = runtime.discover_services("AA:BB:CC:DD:EE:FF");
    let discovered =
        runtime.wait_for_event(|event| event.operation_id == discover_id && event.terminal);

    assert_eq!(discovered.phase, Phase::Succeeded);
    assert!(connect_id.get() < discover_id.get());
}

#[test]
fn write_response_mode_is_preserved_through_the_command_seam() {
    let mut backend = FakeBackend::default();
    backend.add_device(sensor("AA:BB:CC:DD:EE:FF", None, None));
    let mut runtime = initialized(backend);
    let connect_id = runtime.connect("AA:BB:CC:DD:EE:FF");
    runtime
        .wait_for_event(|event| event.operation_id == connect_id && event.phase == Phase::Succeeded);

    let service = "0000180d-0000-1000-8000-00805f9b34fb";
    let characteristic = "00002a37-0000-1000-8000-00805f9b34fb";
    let with_response = runtime.write("AA:BB:CC:DD:EE:FF", service, characteristic, vec![1], true);
    let without_response =
        runtime.write("AA:BB:CC:DD:EE:FF", service, characteristic, vec![2], false);
    runtime.wait_for_event(|event| {
        event.operation_id == with_response && event.phase == Phase::Succeeded
    });
    runtime.wait_for_event(|event| {
        event.operation_id == without_response && event.phase == Phase::Succeeded
    });
    assert_eq!(runtime.backend.write_modes, vec![true, false]);
}

#[test]
fn notification_routing_uses_one_pump_and_retains_failed_unsubscribe() {
    let mut backend = FakeBackend::default();
    backend.add_connected_device("AA:BB:CC:DD:EE:FF");
    let mut runtime = initialized(backend);
    let connect_id = runtime.connect("AA:BB:CC:DD:EE:FF");
    runtime
        .wait_for_event(|event| event.operation_id == connect_id && event.phase == Phase::Succeeded);

    let service_a = "0000180d-0000-1000-8000-00805f9b34fb";
    let service_b = "0000180f-0000-1000-8000-00805f9b34fb";
    let characteristic = "00002a37-0000-1000-8000-00805f9b34fb";
    let subscribe_id = runtime.subscribe("AA:BB:CC:DD:EE:FF", service_a, characteristic);
    runtime.wait_for_event(|event| {
        event.operation_id == subscribe_id && event.phase == Phase::Succeeded
    });
    let duplicate_id = runtime.subscribe("AA:BB:CC:DD:EE:FF", service_a, characteristic);
    runtime.wait_for_event(|event| {
        event.operation_id == duplicate_id && event.phase == Phase::Succeeded
    });
    assert_eq!(runtime.backend.notification_pumps_started, 1);

    runtime.emit_notification(characteristic, vec![1, 2, 3]);
    let notification = runtime.wait_for_event(|event| {
        event.operation == Operation::Notification && event.phase == Phase::Received
    });
    assert_eq!(notification.context.service_uuid, service_a);
    assert_eq!(notification.context.characteristic_uuid, characteristic);
    assert_eq!(notification.operation_id, OperationId::unsolicited());

    runtime.emit_notification_error(BleError::SubscribeFailed(
        "notification stream ended".to_string(),
    ));
    runtime.wait_for_event(|event| {
        event.operation == Operation::Notification && event.phase == Phase::Failed
    });
    let restart_id = runtime.subscribe("AA:BB:CC:DD:EE:FF", service_a, characteristic);
    runtime
        .wait_for_event(|event| event.operation_id == restart_id && event.phase == Phase::Succeeded);
    assert_eq!(runtime.backend.notification_pumps_started, 2);

    runtime.backend.fail_next_unsubscribe =
        Some(BleError::UnsubscribeFailed("radio busy".to_string()));
    let unsubscribe_id = runtime.unsubscribe("AA:BB:CC:DD:EE:FF", service_a, characteristic);
    let unsubscribe =
        runtime.wait_for_event(|event| event.operation_id == unsubscribe_id && event.terminal);
    assert_eq!(unsubscribe.phase, Phase::Failed);

    let ambiguous_id = runtime.subscribe("AA:BB:CC:DD:EE:FF", service_b, characteristic);
    let ambiguous = runtime.wait_for_event(|event| event.operation_id == ambiguous_id && event.terminal);
    assert_eq!(
        ambiguous.error.expect("ambiguity error").code,
        "AMBIGUOUS_CHARACTERISTIC"
    );
    assert_eq!(runtime.backend.notification_pumps_started, 2);

    runtime.emit_remote_disconnect("AA:BB:CC:DD:EE:FF");
    runtime.wait_for_event(|event| {
        event.operation == Operation::Disconnect && event.phase == Phase::Received
    });
    let reconnect_id = runtime.connect("AA:BB:CC:DD:EE:FF");
    runtime.wait_for_event(|event| {
        event.operation_id == reconnect_id && event.phase == Phase::Succeeded
    });
    let after_disconnect_id = runtime.subscribe("AA:BB:CC:DD:EE:FF", service_b, characteristic);
    runtime.wait_for_event(|event| {
        event.operation_id == after_disconnect_id && event.phase == Phase::Succeeded
    });
}

#[test]
fn shutdown_completes_when_the_event_queue_is_full() {
    let mut runtime = Harness::new(FakeBackend::default());
    for _ in 0..(EVENT_CHANNEL_CAPACITY * 2) {
        runtime.connect("   ");
        runtime.events.truncate(EVENT_CHANNEL_CAPACITY);
    }
    assert_eq!(runtime.events.len(), EVENT_CHANNEL_CAPACITY);

    let started = Instant::now();
    let effects = runtime.core.shutdown();
    assert!(started.elapsed() < Duration::from_secs(1));
    assert!(effects
        .iter()
        .all(|effect| !matches!(effect, CoreEffect::Emit(_))));
    assert!(matches!(effects.last(), Some(CoreEffect::AbortAllTasks)));
}

#[test]
fn saturated_command_submission_returns_queue_full() {
    let mut backend = FakeBackend::default();
    backend.add_device(sensor("AA:BB:CC:DD:EE:FF", None, None));
    let mut runtime = initialized(backend);

    runtime.backend.block_next_connect = true;
    let connect_id = runtime.connect("AA:BB:CC:DD:EE:FF");
    runtime.wait_for_event(|event| event.operation_id == connect_id && event.phase == Phase::Started);
    for _ in 0..(COMMAND_CHANNEL_CAPACITY * 2) {
        runtime.discover_services("AA:BB:CC:DD:EE:FF");
    }
    let queue_full = runtime.wait_for_event(|event| {
        event
            .error
            .as_ref()
            .is_some_and(|error| error.code == "QUEUE_FULL")
    });
    assert!(queue_full.terminal);
    runtime.release_connect();
}

#[test]
fn queued_device_commands_run_after_the_running_one() {
    let mut backend = FakeBackend::default();
    backend.add_device(sensor("AA:BB:CC:DD:EE:FF", None, None));
    let mut runtime = initialized(backend);

    runtime.backend.block_next_connect = true;
    let connect_id = runtime.connect("AA:BB:CC:DD:EE:FF");
    let discover_id = runtime.discover_services("AA:BB:CC:DD:EE:FF");
    assert!(runtime
        .events
        .iter()
        .all(|event| event.operation_id != discover_id));
    runtime.release_connect();
    let order: Vec<OperationId> = runtime
        .events
        .iter()
        .filter(|event| event.terminal)
        .map(|event| event.operation_id)
        .collect();
    assert_eq!(order, vec![connect_id, discover_id]);
}

#[test]
fn device_requests_before_initialization_are_refused() {
    let mut runtime = Harness::new(FakeBackend::default());
    let id = runtime.connect("AA:BB:CC:DD:EE:FF");
    let refused = runtime.wait_for_event(|event| event.operation_id == id);
    assert!(refused.terminal);
    assert_eq!(refused.phase, Phase::Failed);
    assert_eq!(refused.error.expect("error").code, "NOT_INITIALIZED");
    assert_eq!(refused.context.device_address, "aa:bb:cc:dd:ee:ff");
}

#[test]
fn second_initialization_reports_the_cached_adapter() {
    let mut runtime = initialized(FakeBackend::default());
    let again = runtime.initialize();
    let event = runtime.wait_for_event(|event| event.operation_id == again && event.terminal);
    assert_eq!(event.phase, Phase::Succeeded);
    match event.data {
        EventData::Adapter(info) => assert_eq!(info.name, "Fake BLE Adapter"),
        other => panic!("unexpected data {other:?}"),
    }
    assert_eq!(runtime.backend_initializations, 1);
    assert_eq!(runtime.adapter_watches, 1);
}

#[test]
fn stopping_a_scan_ends_it_with_one_terminal_event() {
    let mut runtime = initialized(FakeBackend::default());
    let scan_id = runtime.start_scan(None);
    runtime.wait_for_event(|event| event.operation_id == scan_id && event.phase == Phase::Started);
    runtime.stop_scan(scan_id);
    let terminals: Vec<Phase> = runtime
        .events
        .iter()
        .filter(|event| event.operation_id == scan_id && event.terminal)
        .map(|event| event.phase)
        .collect();
    assert_eq!(terminals, vec![Phase::Succeeded]);
    runtime.events.clear();
    runtime.stop_scan(scan_id);
    assert!(runtime
        .events
        .iter()
        .all(|event| !(event.operation_id == scan_id && event.terminal)));
}

#[test]
fn queue_full_reports_the_commands_operation_and_context() {
    let device = DeviceId::parse("AA:BB:CC:DD:EE:FF").unwrap();
    let command = CoreCommand::Device {
        operation_id: OperationId::new(7),
        device,
        action: DeviceAction::DiscoverServices,
    };
    let event = queue_full_event(&command).expect("a failure event");
    assert_eq!(event.operation, Operation::DiscoverServices);
    assert_eq!(event.operation_id, OperationId::new(7));
    assert_eq!(event.context.device_address, "aa:bb:cc:dd:ee:ff");
    assert_eq!(event.error.expect("error").code, "QUEUE_FULL");
    assert!(queue_full_event(&CoreCommand::Shutdown).is_none());
    assert!(queue_full_event(&CoreCommand::StopScan {
        operation_id: OperationId::new(3)
    })
    .is_none());
}

#[test]
fn initialization_in_flight_refuses_a_second_one() {
    let mut runtime = Harness::new(FakeBackend::default());
    let first = runtime.next_id();
    let effects = runtime.core.handle_command(CoreCommand::Initialize { operation_id: first });
    runtime.perform(effects);
    let second = runtime.next_id();
    let effects = runtime.core.handle_command(CoreCommand::Initialize { operation_id: second });
    runtime.perform(effects);
    let busy = runtime.wait_for_event(|event| event.operation_id == second && event.terminal);
    assert_eq!(busy.error.expect("busy error").code, "BUSY");
    runtime.settle();
    let done = runtime.wait_for_event(|event| event.operation_id == first && event.terminal);
    assert_eq!(done.phase, Phase::Succeeded);
    assert_eq!(runtime.backend_initializations, 1);
    assert_eq!(runtime.adapter_watches, 1);
}

#[test]
fn reordered_advertisement_maps_are_not_an_update() {
    let mut runtime = initialized(FakeBackend::default());
    let first = DeviceInfo::new(
        "AA:BB".to_string(),
        Some("Sensor".to_string()),
        Some(-40),
        Vec::new(),
        vec![(1, vec![1]), (2, vec![2])],
        vec![("a".to_string(), vec![3]), ("b".to_string(), vec![4])],
        None,
    );
    let reordered = DeviceInfo::new(
        "AA:BB".to_string(),
        Some("Sensor".to_string()),
        Some(-40),
        Vec::new(),
        vec![(2, vec![2]), (1, vec![1])],
        vec![("b".to_string(), vec![4]), ("a".to_string(), vec![3])],
        None,
    );
    assert!(first.same_as(&reordered));
    runtime.backend_event(BackendEvent::Discovered(first));
    runtime.wait_for_event(|event| event.phase == Phase::Progress);
    runtime.backend_event(BackendEvent::Updated(reordered));
    assert!(runtime.events.iter().all(|event| event.phase != Phase::Progress));
    let changed = DeviceInfo::new(
        "AA:BB".to_string(),
        Some("Sensor".to_string()),
        Some(-40),
        Vec::new(),
        vec![(2, vec![9]), (1, vec![1])],
        Vec::new(),
        None,
    );
    runtime.backend_event(BackendEvent::Updated(changed));
    runtime.wait_for_event(|event| event.phase == Phase::Progress);
}
