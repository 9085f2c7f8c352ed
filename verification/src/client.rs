//! How the Godot side turns requests into core commands: identities, input
//! normalization, and the failures it reports without the core.
use vstd::prelude::*;

use core::time::Duration;

use crate::command::{action_context, action_operation, ActionView, CommandView, CoreCommand, DeviceAction};
use crate::event::{
    canonical_uuid_spec, device_id_spec, empty_context, failed_view, BleEvent, BleEventView,
    DeviceId, EventContext, GattKey, Operation, OperationId,
};
use crate::text::trim_spec;
use crate::types::{BleError, BleErrorView};

verus! {

/// Capacity of the command channel from the Godot side to the core.
pub const COMMAND_CHANNEL_CAPACITY: usize = 64;

/// Capacity of the event channel from the core to the Godot side.
pub const EVENT_CHANNEL_CAPACITY: usize = 1024;

/// Capacity of the channel that carries results of background work.
pub const INTERNAL_CHANNEL_CAPACITY: usize = 256;

/// The identity handed out for the counter value `raw`: positive, at least 1.
pub fn next_operation_id(raw: i64) -> (r: OperationId)
    ensures
        r.0 == if raw < 1 { 1 } else { raw },
{
    OperationId::new(if raw < 1 { 1 } else { raw })
}

/// A device request as the Godot side states it: addresses and UUIDs as
/// typed, not yet normalized.
#[derive(Debug)]
pub enum DeviceRequest {
    Connect,
    Disconnect,
    DiscoverServices,
    Read { service_uuid: String, characteristic_uuid: String },
    Write { service_uuid: String, characteristic_uuid: String, data: Vec<u8>, with_response: bool },
    Subscribe { service_uuid: String, characteristic_uuid: String },
    Unsubscribe { service_uuid: String, characteristic_uuid: String },
}

/// The operation a device request belongs to.
pub open spec fn request_operation(r: DeviceRequest) -> Operation {
    match r {
        DeviceRequest::Connect => Operation::Connect,
        DeviceRequest::Disconnect => Operation::Disconnect,
        DeviceRequest::DiscoverServices => Operation::DiscoverServices,
        DeviceRequest::Read { .. } => Operation::Read,
        DeviceRequest::Write { .. } => Operation::Write,
        DeviceRequest::Subscribe { .. } => Operation::Subscribe,
        DeviceRequest::Unsubscribe { .. } => Operation::Unsubscribe,
    }
}

/// The UUID texts of a GATT request.
pub open spec fn request_uuids(r: DeviceRequest) -> Option<(Seq<char>, Seq<char>)> {
    match r {
        DeviceRequest::Read { service_uuid, characteristic_uuid } => Some((service_uuid@, characteristic_uuid@)),
        DeviceRequest::Write { service_uuid, characteristic_uuid, .. } => Some((service_uuid@, characteristic_uuid@)),
        DeviceRequest::Subscribe { service_uuid, characteristic_uuid } => Some((service_uuid@, characteristic_uuid@)),
        DeviceRequest::Unsubscribe { service_uuid, characteristic_uuid } => Some((service_uuid@, characteristic_uuid@)),
        _ => None,
    }
}

/// The action of a request once its UUIDs are canonical as `key`.
pub open spec fn request_action(r: DeviceRequest, key: (Seq<char>, Seq<char>)) -> ActionView {
    match r {
        DeviceRequest::Connect => ActionView::Connect,
        DeviceRequest::Disconnect => ActionView::Disconnect,
        DeviceRequest::DiscoverServices => ActionView::DiscoverServices,
        DeviceRequest::Read { .. } => ActionView::Read(key),
        DeviceRequest::Write { data, with_response, .. } => ActionView::Write {
            key,
            data: data@,
            with_response,
        },
        DeviceRequest::Subscribe { .. } => ActionView::Subscribe(key),
        DeviceRequest::Unsubscribe { .. } => ActionView::Unsubscribe(key),
    }
}

/// The outcome of preparing a device request: the command for the core, or
/// the failure event reported at once.
pub open spec fn device_command_outcome(op: OperationId, address: Seq<char>, r: DeviceRequest) -> Result<
    CommandView,
    BleEventView,
> {
    let operation = request_operation(r);
    match device_id_spec(address) {
        None => Err(
            failed_view(operation, op, empty_context(), BleErrorView::InvalidArgument("device address is empty"@)),
        ),
        Some(d) => match request_uuids(r) {
            None => Ok(CommandView::Device { operation_id: op, device: d, action: request_action(r, (Seq::empty(), Seq::empty())) }),
            Some((su, cu)) => match (canonical_uuid_spec(su), canonical_uuid_spec(cu)) {
                (Some(s), Some(c)) => Ok(CommandView::Device { operation_id: op, device: d, action: request_action(r, (s, c)) }),
                (None, _) => Err(failed_view(operation, op, empty_context(), BleErrorView::InvalidUuid(trim_spec(su)))),
                (Some(_), None) => Err(failed_view(operation, op, empty_context(), BleErrorView::InvalidUuid(trim_spec(cu)))),
            },
        },
    }
}

/// The by-value form of a prepared command.
pub open spec fn prepared_view(r: Result<CoreCommand, BleEvent>) -> Result<CommandView, BleEventView> {
    match r {
        Ok(c) => Ok(c@),
        Err(e) => Err(e@),
    }
}

fn gatt_action(request: DeviceRequest, key: GattKey) -> (r: DeviceAction)
    requires
        request_uuids(request) is Some,
    ensures
        r@ == request_action(request, key@),
{
    match request {
        DeviceRequest::Read { .. } => DeviceAction::Read(key),
        DeviceRequest::Write { data, with_response, .. } => DeviceAction::Write { key, data, with_response },
        DeviceRequest::Subscribe { .. } => DeviceAction::Subscribe(key),
        DeviceRequest::Unsubscribe { .. } => DeviceAction::Unsubscribe(key),
        DeviceRequest::Connect => DeviceAction::Connect,
        DeviceRequest::Disconnect => DeviceAction::Disconnect,
        DeviceRequest::DiscoverServices => DeviceAction::DiscoverServices,
    }
}

/// Prepares a device request: a blank address fails with
/// `INVALID_ARGUMENT`, an unparsable UUID with `INVALID_UUID`, both without
/// device context; otherwise the command carries the normalized address and
/// canonical UUIDs.
pub fn prepare_device_command(operation_id: OperationId, address: &str, request: DeviceRequest) -> (r: Result<
    CoreCommand,
    BleEvent,
>)
    ensures
        prepared_view(r) == device_command_outcome(operation_id, address@, request),
{
    let operation = match &request {
        DeviceRequest::Connect => Operation::Connect,
        DeviceRequest::Disconnect => Operation::Disconnect,
        DeviceRequest::DiscoverServices => Operation::DiscoverServices,
        DeviceRequest::Read { .. } => Operation::Read,
        DeviceRequest::Write { .. } => Operation::Write,
        DeviceRequest::Subscribe { .. } => Operation::Subscribe,
        DeviceRequest::Unsubscribe { .. } => Operation::Unsubscribe,
    };
    let device = match DeviceId::parse(address) {
        Ok(device) => device,
        Err(error) => {
            return Err(BleEvent::failed(operation, operation_id, EventContext::default(), error));
        },
    };
    let ghost rv = request;
    let parsed = match &request {
        DeviceRequest::Read { service_uuid, characteristic_uuid } => Some(GattKey::parse(service_uuid.as_str(), characteristic_uuid.as_str())),
        DeviceRequest::Write { service_uuid, characteristic_uuid, .. } => Some(GattKey::parse(service_uuid.as_str(), characteristic_uuid.as_str())),
        DeviceRequest::Subscribe { service_uuid, characteristic_uuid } => Some(GattKey::parse(service_uuid.as_str(), characteristic_uuid.as_str())),
        DeviceRequest::Unsubscribe { service_uuid, characteristic_uuid } => Some(GattKey::parse(service_uuid.as_str(), characteristic_uuid.as_str())),
        _ => None,
    };
    match parsed {
        None => {
            let action = match request {
                DeviceRequest::Connect => DeviceAction::Connect,
                DeviceRequest::Disconnect => DeviceAction::Disconnect,
                _ => DeviceAction::DiscoverServices,
            };
            Ok(CoreCommand::Device { operation_id, device, action })
        },
        Some(Err(error)) => Err(BleEvent::failed(operation, operation_id, EventContext::default(), error)),
        Some(Ok(key)) => {
            let action = gatt_action(request, key);
            Ok(CoreCommand::Device { operation_id, device, action })
        },
    }
}

/// The failure the Godot side reports itself when a command cannot be
/// queued because the command channel is full: `QUEUE_FULL` with the
/// command's operation and context. Stopping a scan and shutdown report
/// nothing.
pub fn queue_full_event(command: &CoreCommand) -> (r: Option<BleEvent>)
    ensures
        match command@ {
            CommandView::Initialize { operation_id } => r matches Some(e) && e@ == failed_view(
                Operation::Initialize,
                operation_id,
                empty_context(),
                BleErrorView::QueueFull,
            ),
            CommandView::StartScan { operation_id, .. } => r matches Some(e) && e@ == failed_view(
                Operation::Scan,
                operation_id,
                empty_context(),
                BleErrorView::QueueFull,
            ),
            CommandView::Device { operation_id, device, action } => r matches Some(e) && e@
                == failed_view(
                action_operation(action),
                operation_id,
                action_context(action, device),
                BleErrorView::QueueFull,
            ),
            _ => r is None,
        },
{
    match command {
        CoreCommand::Initialize { operation_id } => Some(
            BleEvent::failed(Operation::Initialize, *operation_id, EventContext::default(), BleError::QueueFull),
        ),
        CoreCommand::StartScan { operation_id, .. } => Some(
            BleEvent::failed(Operation::Scan, *operation_id, EventContext::default(), BleError::QueueFull),
        ),
        CoreCommand::Device { operation_id, device, action } => Some(
            BleEvent::failed(action.operation(), *operation_id, action.context(device), BleError::QueueFull),
        ),
        _ => None,
    }
}

/// The command that stops the scan `operation_id`; none for `UNSOLICITED`,
/// which names no scan.
pub fn stop_scan_command(operation_id: OperationId) -> (r: Option<CoreCommand>)
    ensures
        operation_id.0 == 0 ==> (r is None),
        operation_id.0 != 0 ==> (r matches Some(c) && c@ == (CommandView::StopScan { operation_id })),
{
    if operation_id.get() != 0 {
        Some(CoreCommand::StopScan { operation_id })
    } else {
        None
    }
}

/// The command that starts a scan; `None` scans until stopped.
pub fn start_scan_command(operation_id: OperationId, timeout: Option<Duration>) -> (r: CoreCommand)
    ensures
        r@ == (CommandView::StartScan { operation_id, timeout }),
{
    CoreCommand::StartScan { operation_id, timeout }
}

} // verus!
