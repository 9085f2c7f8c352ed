//! The main-thread side of one Godot `BleDevice`: its connection state, the
//! services it last discovered, and the projection of the core's events on
//! it onto the legacy device signals.
use vstd::prelude::*;

use crate::event::{
    operation_name, BleEvent, BleEventView, EventContext, EventContextView, EventData,
    EventDataView, Operation, OperationId, Phase, failed_view,
};
use crate::info::{copy_bytes, copy_services, services_view, BleServiceInfo, ServiceView};
use crate::manager::{is_failure, legacy_error, legacy_error_spec};
use crate::types::{BleError, BleErrorView};

verus! {

/// Where a device handle believes its connection stands.
#[derive(Clone, Copy, Debug, PartialEq, Eq, Structural)]
pub enum DeviceState {
    Disconnected,
    Connecting,
    Connected,
    Disconnecting,
}

/// A device handle, by value.
pub struct BleDeviceView {
    pub address: Seq<char>,
    pub display_address: Seq<char>,
    pub name: Seq<char>,
    pub state: DeviceState,
    pub services: Seq<ServiceView>,
    pub next_local_operation_id: i64,
}

/// One device handle: the normalized address that events are matched by,
/// the address and name it shows, its connection state, the services it
/// last discovered, and the identity of its next locally refused request.
#[derive(Debug)]
pub struct BleDevice {
    address: String,
    display_address: String,
    name: String,
    state: DeviceState,
    services: Vec<BleServiceInfo>,
    next_local_operation_id: i64,
}

impl View for BleDevice {
    type V = BleDeviceView;

    closed spec fn view(&self) -> BleDeviceView {
        BleDeviceView {
            address: self.address@,
            display_address: self.display_address@,
            name: self.name@,
            state: self.state,
            services: services_view(self.services@),
            next_local_operation_id: self.next_local_operation_id,
        }
    }
}

/// A legacy device signal, by value.
pub enum DeviceSignalView {
    Event,
    Connected,
    Disconnected,
    ConnectionFailed(Seq<char>),
    ServicesDiscovered(Seq<ServiceView>),
    CharacteristicRead { characteristic_uuid: Seq<char>, data: Seq<u8> },
    CharacteristicWritten(Seq<char>),
    CharacteristicNotified { characteristic_uuid: Seq<char>, data: Seq<u8> },
    OperationFailed { operation: Seq<char>, error: Seq<char> },
}

/// A signal of a device handle, with its arguments. `Event` stands for the
/// structured `ble_event` signal of the event that was applied.
#[derive(Debug)]
pub enum DeviceSignal {
    Event,
    Connected,
    Disconnected,
    ConnectionFailed(String),
    ServicesDiscovered(Vec<BleServiceInfo>),
    CharacteristicRead { characteristic_uuid: String, data: Vec<u8> },
    CharacteristicWritten(String),
    CharacteristicNotified { characteristic_uuid: String, data: Vec<u8> },
    OperationFailed { operation: String, error: String },
}

impl View for DeviceSignal {
    type V = DeviceSignalView;

    open spec fn view(&self) -> DeviceSignalView {
        match self {
            DeviceSignal::Event => DeviceSignalView::Event,
            DeviceSignal::Connected => DeviceSignalView::Connected,
            DeviceSignal::Disconnected => DeviceSignalView::Disconnected,
            DeviceSignal::ConnectionFailed(e) => DeviceSignalView::ConnectionFailed(e@),
            DeviceSignal::ServicesDiscovered(s) => DeviceSignalView::ServicesDiscovered(services_view(s@)),
            DeviceSignal::CharacteristicRead { characteristic_uuid, data } => DeviceSignalView::CharacteristicRead {
                characteristic_uuid: characteristic_uuid@,
                data: data@,
            },
            DeviceSignal::CharacteristicWritten(u) => DeviceSignalView::CharacteristicWritten(u@),
            DeviceSignal::CharacteristicNotified { characteristic_uuid, data } => DeviceSignalView::CharacteristicNotified {
                characteristic_uuid: characteristic_uuid@,
                data: data@,
            },
            DeviceSignal::OperationFailed { operation, error } => DeviceSignalView::OperationFailed {
                operation: operation@,
                error: error@,
            },
        }
    }
}

/// The by-value form of a list of device signals.
pub open spec fn device_signals_view(v: Seq<DeviceSignal>) -> Seq<DeviceSignalView> {
    Seq::new(v.len(), |i: int| v[i]@)
}

/// The name under which `operation_failed` reports a failed operation: the
/// name of the method that requested it.
pub open spec fn failed_operation_name(op: Operation) -> Seq<char> {
    match op {
        Operation::DiscoverServices => "discover_services"@,
        Operation::Read => "read_characteristic"@,
        Operation::Write => "write_characteristic"@,
        Operation::Subscribe => "subscribe_characteristic"@,
        Operation::Unsubscribe => "unsubscribe_characteristic"@,
        Operation::Disconnect => "disconnect"@,
        _ => operation_name(op),
    }
}

/// The `operation_failed` signal of a failed event.
pub open spec fn operation_failed_spec(e: BleEventView) -> DeviceSignalView {
    DeviceSignalView::OperationFailed { operation: failed_operation_name(e.operation), error: legacy_error_spec(e) }
}

/// The handle after a scan record of it: the record's address, and its
/// name where the record has one.
pub open spec fn refresh_spec(d: BleDeviceView, e: BleEventView) -> BleDeviceView {
    match e.data {
        EventDataView::Device { info, .. } => BleDeviceView {
            display_address: info.address,
            name: match info.name {
                Some(n) => n,
                None => d.name,
            },
            ..d
        },
        _ => d,
    }
}

/// The state change and the legacy signals of an event on the handle, after
/// the `ble_event` signal.
pub open spec fn device_transition_spec(d: BleDeviceView, e: BleEventView) -> (BleDeviceView, Seq<DeviceSignalView>) {
    let err = legacy_error_spec(e);
    let uuid = e.context.characteristic_uuid;
    match e.operation {
        Operation::Connect => if e.phase == Phase::Started {
            (BleDeviceView { state: DeviceState::Connecting, ..d }, seq![])
        } else if e.phase == Phase::Succeeded {
            (BleDeviceView { state: DeviceState::Connected, ..d }, seq![DeviceSignalView::Connected])
        } else if is_failure(e.phase) {
            (BleDeviceView { state: DeviceState::Disconnected, ..d }, seq![DeviceSignalView::ConnectionFailed(err)])
        } else {
            (d, seq![])
        },
        Operation::Disconnect => if e.phase == Phase::Started {
            (BleDeviceView { state: DeviceState::Disconnecting, ..d }, seq![])
        } else if e.phase == Phase::Succeeded || e.phase == Phase::Received {
            (BleDeviceView { state: DeviceState::Disconnected, ..d }, seq![DeviceSignalView::Disconnected])
        } else if is_failure(e.phase) {
            (BleDeviceView { state: DeviceState::Connected, ..d }, seq![operation_failed_spec(e)])
        } else {
            (d, seq![])
        },
        Operation::DiscoverServices => if e.phase == Phase::Succeeded {
            match e.data {
                EventDataView::Services(s) => (
                    BleDeviceView { services: s, ..d },
                    seq![DeviceSignalView::ServicesDiscovered(s)],
                ),
                _ => (d, seq![]),
            }
        } else if is_failure(e.phase) {
            (d, seq![operation_failed_spec(e)])
        } else {
            (d, seq![])
        },
        Operation::Read => if e.phase == Phase::Succeeded {
            match e.data {
                EventDataView::Bytes(b) => (
                    d,
                    seq![DeviceSignalView::CharacteristicRead { characteristic_uuid: uuid, data: b }],
                ),
                _ => (d, seq![]),
            }
        } else if is_failure(e.phase) {
            (d, seq![operation_failed_spec(e)])
        } else {
            (d, seq![])
        },
        Operation::Write => if e.phase == Phase::Succeeded {
            (d, seq![DeviceSignalView::CharacteristicWritten(uuid)])
        } else if is_failure(e.phase) {
            (d, seq![operation_failed_spec(e)])
        } else {
            (d, seq![])
        },
        Operation::Subscribe | Operation::Unsubscribe => if is_failure(e.phase) {
            (d, seq![operation_failed_spec(e)])
        } else {
            (d, seq![])
        },
        Operation::Notification => if e.phase == Phase::Received {
            match e.data {
                EventDataView::Bytes(b) => (
                    d,
                    seq![DeviceSignalView::CharacteristicNotified { characteristic_uuid: uuid, data: b }],
                ),
                _ => (d, seq![]),
            }
        } else {
            (d, seq![])
        },
        _ => (d, seq![]),
    }
}

/// An event on a handle. An event about another address changes nothing
/// and signals nothing; one about the handle's address refreshes what it
/// shows from a scan record, emits `ble_event`, and then moves the state
/// and emits the legacy signals of the operation and phase.
pub open spec fn device_event_spec(d: BleDeviceView, e: BleEventView) -> (BleDeviceView, Seq<DeviceSignalView>) {
    if e.context.device_address != d.address {
        (d, seq![])
    } else {
        let t = device_transition_spec(refresh_spec(d, e), e);
        (t.0, seq![DeviceSignalView::Event] + t.1)
    }
}

/// `n + 1`, or `n` where that would overflow.
pub open spec fn saturating_next(n: i64) -> i64 {
    if n == i64::MAX {
        n
    } else {
        (n + 1) as i64
    }
}

/// The event with which a handle without a core refuses a request: the
/// operation failed as not initialized, under the handle's next local
/// identity.
pub open spec fn local_rejection_spec(d: BleDeviceView, operation: Operation, context: EventContextView) -> BleEventView {
    failed_view(operation, OperationId(d.next_local_operation_id), context, BleErrorView::NotInitialized)
}

/// A handle follows its device's connection: a failed or cancelled connect
/// never leaves it connected, a disconnect that succeeded or that the device
/// reported leaves it disconnected, and it becomes connected only through a
/// connect that succeeded or a disconnect that failed. Events about other
/// devices change nothing.
pub proof fn law_handle_connection_follows_events(d: BleDeviceView, e: BleEventView)
    ensures
        e.context.device_address != d.address ==> device_event_spec(d, e) == (d, Seq::<DeviceSignalView>::empty()),
        e.context.device_address == d.address && e.operation == Operation::Connect && is_failure(e.phase)
            ==> device_event_spec(d, e).0.state == DeviceState::Disconnected,
        e.context.device_address == d.address && e.operation == Operation::Disconnect && (e.phase
            == Phase::Succeeded || e.phase == Phase::Received) ==> device_event_spec(d, e).0.state
            == DeviceState::Disconnected,
        device_event_spec(d, e).0.state == DeviceState::Connected ==> {
            ||| d.state == DeviceState::Connected
            ||| e.operation == Operation::Connect && e.phase == Phase::Succeeded
            ||| e.operation == Operation::Disconnect && is_failure(e.phase)
        },
{
}

impl BleDevice {
    /// Local identities are positive, like the identities the core hands out.
    #[verifier::type_invariant]
    spec fn local_ids_positive(self) -> bool {
        self.next_local_operation_id >= 1
    }

    /// A disconnected handle for the device with normalized address
    /// `address`, shown as `display_address` and named `name`, with no
    /// services; its local identities start at one.
    pub fn new(address: String, display_address: String, name: String) -> (r: Self)
        ensures
            r@ == (BleDeviceView {
                address: address@,
                display_address: display_address@,
                name: name@,
                state: DeviceState::Disconnected,
                services: Seq::empty(),
                next_local_operation_id: 1,
            }),
    {
        let r = BleDevice {
            address,
            display_address,
            name,
            state: DeviceState::Disconnected,
            services: Vec::new(),
            next_local_operation_id: 1,
        };
        assert(services_view(r.services@) =~= Seq::<ServiceView>::empty());
        r
    }

    /// Whether the handle believes the device connected.
    pub fn is_connected(&self) -> (r: bool)
        ensures
            r == (self@.state == DeviceState::Connected),
    {
        self.state == DeviceState::Connected
    }

    /// The connection state.
    pub fn state(&self) -> (r: DeviceState)
        ensures
            r == self@.state,
    {
        self.state
    }

    /// The normalized address that events are matched by.
    pub fn address(&self) -> (r: &str)
        ensures
            r@ == self@.address,
    {
        self.address.as_str()
    }

    /// The address the handle shows.
    pub fn get_address(&self) -> (r: String)
        ensures
            r@ == self@.display_address,
    {
        self.display_address.clone()
    }

    /// The name the handle shows; empty when unknown.
    pub fn get_name(&self) -> (r: String)
        ensures
            r@ == self@.name,
    {
        self.name.clone()
    }

    /// The services the handle last discovered.
    pub fn get_services(&self) -> (r: Vec<BleServiceInfo>)
        ensures
            services_view(r@) == self@.services,
    {
        copy_services(&self.services)
    }

    /// Applies an event of the core to the handle and answers the signals to
    /// emit, in order.
    pub fn apply_event(&mut self, event: &BleEvent) -> (signals: Vec<DeviceSignal>)
        ensures
            (final(self)@, device_signals_view(signals@)) == device_event_spec(old(self)@, event@),
    {
        proof {
            use_type_invariant(&*self);
        }
        let mut signals: Vec<DeviceSignal> = Vec::new();
        if !event.context.device_address.eq(&self.address) {
            assert(device_signals_view(signals@) =~= Seq::<DeviceSignalView>::empty());
            return signals;
        }
        if let EventData::Device { info, .. } = &event.data {
            self.display_address = info.address.clone();
            if let Some(name) = &info.name {
                self.name = name.clone();
            }
        }
        let ghost refreshed = self@;
        assert(refreshed == refresh_spec(old(self)@, event@));
        signals.push(DeviceSignal::Event);
        let failed = event.phase == Phase::Failed || event.phase == Phase::Cancelled;
        match event.operation {
            Operation::Connect => {
                if event.phase == Phase::Started {
                    self.state = DeviceState::Connecting;
                } else if event.phase == Phase::Succeeded {
                    self.state = DeviceState::Connected;
                    signals.push(DeviceSignal::Connected);
                } else if failed {
                    self.state = DeviceState::Disconnected;
                    signals.push(DeviceSignal::ConnectionFailed(legacy_error(event)));
                }
            },
            Operation::Disconnect => {
                if event.phase == Phase::Started {
                    self.state = DeviceState::Disconnecting;
                } else if event.phase == Phase::Succeeded || event.phase == Phase::Received {
                    self.state = DeviceState::Disconnected;
                    signals.push(DeviceSignal::Disconnected);
                } else if failed {
                    self.state = DeviceState::Connected;
                    signals.push(operation_failed(event));
                }
            },
            Operation::DiscoverServices => {
                if event.phase == Phase::Succeeded {
                    if let EventData::Services(services) = &event.data {
                        self.services = copy_services(services);
                        signals.push(DeviceSignal::ServicesDiscovered(copy_services(services)));
                    }
                } else if failed {
                    signals.push(operation_failed(event));
                }
            },
            Operation::Read => {
                if event.phase == Phase::Succeeded {
                    if let EventData::Bytes(data) = &event.data {
                        signals.push(
                            DeviceSignal::CharacteristicRead {
                                characteristic_uuid: event.context.characteristic_uuid.clone(),
                                data: copy_bytes(data),
                            },
                        );
                    }
                } else if failed {
                    signals.push(operation_failed(event));
                }
            },
            Operation::Write => {
                if event.phase == Phase::Succeeded {
                    signals.push(DeviceSignal::CharacteristicWritten(event.context.characteristic_uuid.clone()));
                } else if failed {
                    signals.push(operation_failed(event));
                }
            },
            Operation::Subscribe | Operation::Unsubscribe => {
                if failed {
                    signals.push(operation_failed(event));
                }
            },
            Operation::Notification => {
                if event.phase == Phase::Received {
                    if let EventData::Bytes(data) = &event.data {
                        signals.push(
                            DeviceSignal::CharacteristicNotified {
                                characteristic_uuid: event.context.characteristic_uuid.clone(),
                                data: copy_bytes(data),
                            },
                        );
                    }
                }
            },
            _ => {},
        }
        proof {
            let t = device_transition_spec(refreshed, event@);
            assert(device_signals_view(signals@) =~= seq![DeviceSignalView::Event] + t.1);
        }
        signals
    }

    /// Refuses a request locally, as a handle without a core does: the
    /// request gets the next local identity, whose successor (saturating)
    /// becomes the next one, and the refusal event is applied to the handle.
    /// Answers the identity, the event and the signals it gave.
    pub fn reject_local(&mut self, operation: Operation, context: EventContext) -> (r: (
        OperationId,
        BleEvent,
        Vec<DeviceSignal>,
    ))
        ensures
            r.0 == OperationId(old(self)@.next_local_operation_id),
            r.0.0 >= 1,
            r.1@ == local_rejection_spec(old(self)@, operation, context@),
            (final(self)@, device_signals_view(r.2@)) == device_event_spec(
                BleDeviceView {
                    next_local_operation_id: saturating_next(old(self)@.next_local_operation_id),
                    ..old(self)@
                },
                r.1@,
            ),
    {
        proof {
            use_type_invariant(&*self);
        }
        let operation_id = OperationId::new(self.next_local_operation_id);
        if self.next_local_operation_id < i64::MAX {
            self.next_local_operation_id = self.next_local_operation_id + 1;
        }
        let event = BleEvent::failed(operation, operation_id, context, BleError::NotInitialized);
        let signals = self.apply_event(&event);
        (operation_id, event, signals)
    }
}

/// The `operation_failed` signal of a failed event.
fn operation_failed(event: &BleEvent) -> (r: DeviceSignal)
    ensures
        r@ == operation_failed_spec(event@),
{
    let operation = match event.operation {
        Operation::DiscoverServices => String::from_str("discover_services"),
        Operation::Read => String::from_str("read_characteristic"),
        Operation::Write => String::from_str("write_characteristic"),
        Operation::Subscribe => String::from_str("subscribe_characteristic"),
        Operation::Unsubscribe => String::from_str("unsubscribe_characteristic"),
        Operation::Disconnect => String::from_str("disconnect"),
        _ => String::from_str(event.operation.as_str()),
    };
    DeviceSignal::OperationFailed { operation, error: legacy_error(event) }
}

/// The context of a characteristic that a handle without a core refuses to
/// touch: no device, and the service and characteristic as given.
pub fn local_gatt_context(service_uuid: &str, characteristic_uuid: &str) -> (r: EventContext)
    ensures
        r@ == (EventContextView {
            device_address: Seq::empty(),
            service_uuid: service_uuid@,
            characteristic_uuid: characteristic_uuid@,
        }),
{
    EventContext {
        device_address: String::new(),
        service_uuid: String::from_str(service_uuid),
        characteristic_uuid: String::from_str(characteristic_uuid),
    }
}

} // verus!
