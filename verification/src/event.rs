use vstd::prelude::*;

use crate::info::{
    copy_bytes, copy_services, services_view, AdapterInfo, AdapterInfoView, BleServiceInfo,
    DeviceInfo, DeviceInfoView, ServiceView,
};
use crate::text::{ascii_lower_spec, ascii_lowercase, trim_spec, trim_text};
use crate::types::{error_code_spec, error_message_spec, is_retryable_spec, BleError, BleErrorView};

verus! {

// ---------------------------------------------------------------- identities

/// The normalized identity of a device: its address, trimmed and in ASCII
/// lower case, never empty.
#[derive(Debug, PartialEq, Eq, Hash)]
pub struct DeviceId(String);

impl View for DeviceId {
    type V = Seq<char>;

    closed spec fn view(&self) -> Seq<char> {
        self.0@
    }
}

/// Whether `t` is the text of a device identity: not empty, without
/// surrounding white space, and without ASCII upper-case letters.
pub open spec fn is_device_id_text(t: Seq<char>) -> bool {
    &&& t.len() > 0
    &&& trim_spec(t) == t
    &&& ascii_lower_spec(t) == t
}

/// The identity text of an address, or `None` where it is blank.
pub open spec fn device_id_spec(input: Seq<char>) -> Option<Seq<char>> {
    let t = trim_spec(input);
    if t.len() == 0 {
        None
    } else {
        Some(ascii_lower_spec(t))
    }
}

/// The identity text of an address is an identity text.
pub proof fn lemma_device_id_text(input: Seq<char>)
    ensures
        device_id_spec(input) matches Some(t) ==> is_device_id_text(t),
{
    let t = trim_spec(input);
    if t.len() > 0 {
        crate::text::lemma_trim_shape(input);
        crate::text::lemma_lower_trimmed(t);
        crate::text::lemma_lower_idempotent(t);
    }
}

impl DeviceId {
    /// Every identity is an identity text.
    #[verifier::type_invariant]
    spec fn normalized(self) -> bool {
        is_device_id_text(self.0@)
    }

    /// Normalizes an address: surrounding white space is removed and ASCII
    /// letters are lowered. A blank address is an `InvalidArgument` error.
    pub fn parse(value: &str) -> (r: Result<Self, BleError>)
        ensures
            match device_id_spec(value@) {
                Some(id) => r matches Ok(d) && d@ == id,
                None => r matches Err(BleError::InvalidArgument(m)) && m@
                    == "device address is empty"@,
            },
            r matches Ok(d) ==> is_device_id_text(d@),
    {
        let ghost old_value = value;
        let value = trim_text(value);
        if value.is_empty() {
            return Err(BleError::InvalidArgument(String::from_str("device address is empty")));
        }
        let lowered = ascii_lowercase(value);
        proof {
            lemma_device_id_text(old_value@);
        }
        Ok(DeviceId(lowered))
    }

    /// The normalized address text: not empty, trimmed, and in ASCII lower
    /// case.
    pub fn as_str(&self) -> (r: &str)
        ensures
            r@ == self@,
            is_device_id_text(r@),
    {
        proof {
            use_type_invariant(self);
        }
        self.0.as_str()
    }

    /// Whether two identities are the same device.
    pub fn same_as(&self, other: &DeviceId) -> (r: bool)
        ensures
            r == (self@ == other@),
    {
        self.0.eq(&other.0)
    }

    /// Whether the identity's text is `text`.
    pub(crate) fn has_text(&self, text: &String) -> (r: bool)
        ensures
            r == (self@ == text@),
    {
        self.0.eq(text)
    }
}

impl Clone for DeviceId {
    fn clone(&self) -> (r: Self)
        ensures
            r@ == self@,
    {
        proof {
            use_type_invariant(self);
        }
        DeviceId(self.0.clone())
    }
}

/// Name for the text that the uuid crate gives for `input`: the UUID that
/// `Uuid::parse_str` reads from it, written by `hyphenated().to_string()`;
/// `None` where parsing fails.
pub uninterp spec fn uuid_hyphenated_text(input: Seq<char>) -> Option<Seq<char>>;

/// An ASCII lower-case hexadecimal digit.
pub open spec fn is_lower_hex_digit(c: char) -> bool {
    ('0' <= c && c <= '9') || ('a' <= c && c <= 'f')
}

/// The 36-character lower-case hyphenated form `xxxxxxxx-xxxx-xxxx-xxxx-xxxxxxxxxxxx`.
pub open spec fn is_hyphenated_lower_uuid(s: Seq<char>) -> bool {
    &&& s.len() == 36
    &&& forall|i: int|
        0 <= i < 36 ==> if i == 8 || i == 13 || i == 18 || i == 23 {
            s[i] == '-'
        } else {
            is_lower_hex_digit(#[trigger] s[i])
        }
}

/// Calls `uuid::Uuid::parse_str` and writes a parsed UUID with
/// `hyphenated().to_string()`. The result is named by `uuid_hyphenated_text`;
/// the crate documents the written form as lower-case hex in 8-4-4-4-12
/// groups, and a text already in that form parses and is written back
/// unchanged. Which other inputs parse is left to the name.
#[verifier::external_body]
fn parse_uuid_text(value: &str) -> (r: Option<String>)
    ensures
        r.deep_view() == uuid_hyphenated_text(value@),
        r matches Some(t) ==> is_hyphenated_lower_uuid(t@),
        is_hyphenated_lower_uuid(value@) ==> r.deep_view() == Some(value@),
{
    uuid::Uuid::parse_str(value).ok().map(|uuid| uuid.hyphenated().to_string())
}

/// The canonical text of a UUID given the parser's answer for the trimmed
/// input: the parsed text, or `InvalidUuid` carrying the trimmed input.
pub fn canonical_uuid_outcome(trimmed: &str, parsed: Option<String>) -> (r: Result<String, BleError>)
    ensures
        match parsed {
            Some(t) => r matches Ok(u) && u@ == t@,
            None => r matches Err(BleError::InvalidUuid(m)) && m@ == trimmed@,
        },
{
    match parsed {
        Some(text) => Ok(text),
        None => Err(BleError::InvalidUuid(String::from_str(trimmed))),
    }
}

/// The canonical form of a UUID text, or `None` where it does not parse.
pub open spec fn canonical_uuid_spec(input: Seq<char>) -> Option<Seq<char>> {
    uuid_hyphenated_text(trim_spec(input))
}

/// A text in lower-case hyphenated UUID form has no surrounding white space.
pub proof fn lemma_canonical_text_trimmed(s: Seq<char>)
    requires
        is_hyphenated_lower_uuid(s),
    ensures
        trim_spec(s) == s,
{
    assert(is_lower_hex_digit(s[0]));
    assert(is_lower_hex_digit(s[35]));
    assert(crate::text::trim_start_spec(s) == s);
    assert(s.last() == s[35]);
}

/// Parses a UUID, ignoring surrounding white space, and writes it in
/// lower-case hyphenated form; a text already in that form comes back
/// unchanged.
pub fn canonical_uuid(value: &str) -> (r: Result<String, BleError>)
    ensures
        match canonical_uuid_spec(value@) {
            Some(t) => r matches Ok(u) && u@ == t && is_hyphenated_lower_uuid(u@),
            None => r matches Err(BleError::InvalidUuid(m)) && m@ == trim_spec(value@),
        },
        is_hyphenated_lower_uuid(value@) ==> (r matches Ok(u) && u@ == value@),
{
    proof {
        if is_hyphenated_lower_uuid(value@) {
            lemma_canonical_text_trimmed(value@);
        }
    }
    let value = trim_text(value);
    let parsed = parse_uuid_text(value);
    canonical_uuid_outcome(value, parsed)
}

/// The full identity of a characteristic: service UUID and characteristic
/// UUID, both canonical.
#[derive(Debug)]
pub struct GattKey {
    service_uuid: String,
    characteristic_uuid: String,
}

impl View for GattKey {
    type V = (Seq<char>, Seq<char>);

    closed spec fn view(&self) -> (Seq<char>, Seq<char>) {
        (self.service_uuid@, self.characteristic_uuid@)
    }
}

impl GattKey {
    /// Both UUIDs of a key are in lower-case hyphenated form.
    #[verifier::type_invariant]
    spec fn canonical(self) -> bool {
        is_hyphenated_lower_uuid(self.service_uuid@) && is_hyphenated_lower_uuid(self.characteristic_uuid@)
    }

    /// Parses both UUIDs; the service UUID's error comes first. Both texts of
    /// a key are in lower-case hyphenated form, and texts already in that form
    /// give back the same key.
    pub fn parse(service_uuid: &str, characteristic_uuid: &str) -> (r: Result<Self, BleError>)
        ensures
            r matches Ok(k) ==> is_hyphenated_lower_uuid(k@.0) && is_hyphenated_lower_uuid(k@.1),
            is_hyphenated_lower_uuid(service_uuid@) && is_hyphenated_lower_uuid(characteristic_uuid@)
                ==> (r matches Ok(k) && k@ == (service_uuid@, characteristic_uuid@)),
            match (canonical_uuid_spec(service_uuid@), canonical_uuid_spec(characteristic_uuid@)) {
                (Some(s), Some(c)) => r matches Ok(k) && k@ == (s, c),
                (None, _) => r matches Err(BleError::InvalidUuid(m)) && m@ == trim_spec(
                    service_uuid@,
                ),
                (Some(_), None) => r matches Err(BleError::InvalidUuid(m)) && m@ == trim_spec(
                    characteristic_uuid@,
                ),
            },
    {
        let service_uuid = canonical_uuid(service_uuid)?;
        let characteristic_uuid = canonical_uuid(characteristic_uuid)?;
        Ok(GattKey { service_uuid, characteristic_uuid })
    }

    /// The canonical service UUID.
    pub fn service_uuid(&self) -> (r: &str)
        ensures
            r@ == self@.0,
            is_hyphenated_lower_uuid(r@),
    {
        proof {
            use_type_invariant(self);
        }
        self.service_uuid.as_str()
    }

    /// The canonical characteristic UUID.
    pub fn characteristic_uuid(&self) -> (r: &str)
        ensures
            r@ == self@.1,
            is_hyphenated_lower_uuid(r@),
    {
        proof {
            use_type_invariant(self);
        }
        self.characteristic_uuid.as_str()
    }

    /// Whether two keys name the same characteristic of the same service.
    pub fn same_as(&self, other: &GattKey) -> (r: bool)
        ensures
            r == (self@ == other@),
    {
        self.service_uuid.eq(&other.service_uuid) && self.characteristic_uuid.eq(
            &other.characteristic_uuid,
        )
    }

    /// Whether the two keys share the characteristic UUID.
    pub fn same_characteristic(&self, other: &GattKey) -> (r: bool)
        ensures
            r == (self@.1 == other@.1),
    {
        self.characteristic_uuid.eq(&other.characteristic_uuid)
    }

    /// Whether the two keys share the service UUID.
    pub fn same_service(&self, other: &GattKey) -> (r: bool)
        ensures
            r == (self@.0 == other@.0),
    {
        self.service_uuid.eq(&other.service_uuid)
    }

    /// Whether the key's characteristic UUID is `uuid`.
    pub fn has_characteristic(&self, uuid: &String) -> (r: bool)
        ensures
            r == (self@.1 == uuid@),
    {
        self.characteristic_uuid.eq(uuid)
    }
}

impl Clone for GattKey {
    fn clone(&self) -> (r: Self)
        ensures
            r@ == self@,
    {
        proof {
            use_type_invariant(self);
        }
        GattKey {
            service_uuid: self.service_uuid.clone(),
            characteristic_uuid: self.characteristic_uuid.clone(),
        }
    }
}

/// The identity (zero) of events that no request caused.
pub open spec fn unsolicited_id() -> OperationId {
    OperationId(0)
}

/// The identity of one request. Requests get positive identities; events
/// that no request caused carry `UNSOLICITED` (zero).
#[derive(Clone, Copy, Debug, PartialEq, Eq, Structural)]
pub struct OperationId(pub i64);

impl OperationId {
    /// The identity of events that no request caused.
    pub fn unsolicited() -> (r: Self)
        ensures
            r == unsolicited_id(),
    {
        OperationId(0)
    }

    /// An identity from its number.
    pub fn new(value: i64) -> (r: Self)
        ensures
            r.0 == value,
    {
        OperationId(value)
    }

    /// The identity's number.
    pub fn get(self) -> (r: i64)
        ensures
            r == self.0,
    {
        self.0
    }
}

// ------------------------------------------------------------ event protocol

/// The kind of work an event belongs to.
#[derive(Clone, Copy, Debug, PartialEq, Eq, Structural)]
pub enum Operation {
    Initialize,
    Scan,
    Connect,
    Disconnect,
    DiscoverServices,
    Read,
    Write,
    Subscribe,
    Unsubscribe,
    Notification,
    ResolveDevice,
}

/// The protocol name of an operation.
pub open spec fn operation_name(op: Operation) -> Seq<char> {
    match op {
        Operation::Initialize => "initialize"@,
        Operation::Scan => "scan"@,
        Operation::Connect => "connect"@,
        Operation::Disconnect => "disconnect"@,
        Operation::DiscoverServices => "discover_services"@,
        Operation::Read => "read"@,
        Operation::Write => "write"@,
        Operation::Subscribe => "subscribe"@,
        Operation::Unsubscribe => "unsubscribe"@,
        Operation::Notification => "notification"@,
        Operation::ResolveDevice => "resolve_device"@,
    }
}

impl Operation {
    /// The protocol name of the operation.
    pub fn as_str(self) -> (r: &'static str)
        ensures
            r@ == operation_name(self),
    {
        match self {
            Operation::Initialize => "initialize",
            Operation::Scan => "scan",
            Operation::Connect => "connect",
            Operation::Disconnect => "disconnect",
            Operation::DiscoverServices => "discover_services",
            Operation::Read => "read",
            Operation::Write => "write",
            Operation::Subscribe => "subscribe",
            Operation::Unsubscribe => "unsubscribe",
            Operation::Notification => "notification",
            Operation::ResolveDevice => "resolve_device",
        }
    }
}

/// Where in its life an operation is.
#[derive(Clone, Copy, Debug, PartialEq, Eq, Structural)]
pub enum Phase {
    Started,
    Progress,
    Succeeded,
    Failed,
    Cancelled,
    Received,
}

/// The protocol name of a phase.
pub open spec fn phase_name(p: Phase) -> Seq<char> {
    match p {
        Phase::Started => "started"@,
        Phase::Progress => "progress"@,
        Phase::Succeeded => "succeeded"@,
        Phase::Failed => "failed"@,
        Phase::Cancelled => "cancelled"@,
        Phase::Received => "received"@,
    }
}

impl Phase {
    /// The protocol name of the phase.
    pub fn as_str(self) -> (r: &'static str)
        ensures
            r@ == phase_name(self),
    {
        match self {
            Phase::Started => "started",
            Phase::Progress => "progress",
            Phase::Succeeded => "succeeded",
            Phase::Failed => "failed",
            Phase::Cancelled => "cancelled",
            Phase::Received => "received",
        }
    }
}

/// The device and characteristic an event concerns, by value.
pub struct EventContextView {
    pub device_address: Seq<char>,
    pub service_uuid: Seq<char>,
    pub characteristic_uuid: Seq<char>,
}

/// The device and characteristic an event concerns; empty texts where there
/// is none.
#[derive(Debug, PartialEq, Eq)]
pub struct EventContext {
    pub device_address: String,
    pub service_uuid: String,
    pub characteristic_uuid: String,
}

impl View for EventContext {
    type V = EventContextView;

    open spec fn view(&self) -> EventContextView {
        EventContextView {
            device_address: self.device_address@,
            service_uuid: self.service_uuid@,
            characteristic_uuid: self.characteristic_uuid@,
        }
    }
}

/// The context without device or characteristic.
pub open spec fn empty_context() -> EventContextView {
    EventContextView {
        device_address: Seq::empty(),
        service_uuid: Seq::empty(),
        characteristic_uuid: Seq::empty(),
    }
}

/// The context of a device.
pub open spec fn device_context(device: Seq<char>) -> EventContextView {
    EventContextView {
        device_address: device,
        service_uuid: Seq::empty(),
        characteristic_uuid: Seq::empty(),
    }
}

/// The context of a characteristic of a device.
pub open spec fn gatt_context(device: Seq<char>, key: (Seq<char>, Seq<char>)) -> EventContextView {
    EventContextView { device_address: device, service_uuid: key.0, characteristic_uuid: key.1 }
}

impl Default for EventContext {
    fn default() -> (r: Self)
        ensures
            r@ == empty_context(),
    {
        EventContext {
            device_address: String::new(),
            service_uuid: String::new(),
            characteristic_uuid: String::new(),
        }
    }
}

impl Clone for EventContext {
    fn clone(&self) -> (r: Self)
        ensures
            r@ == self@,
    {
        EventContext {
            device_address: self.device_address.clone(),
            service_uuid: self.service_uuid.clone(),
            characteristic_uuid: self.characteristic_uuid.clone(),
        }
    }
}

impl EventContext {
    /// The context of a device, without characteristic.
    pub fn for_device(device: &DeviceId) -> (r: Self)
        ensures
            r@ == device_context(device@),
    {
        EventContext {
            device_address: String::from_str(device.as_str()),
            service_uuid: String::new(),
            characteristic_uuid: String::new(),
        }
    }

    /// The context of one characteristic of a device.
    pub fn for_gatt(device: &DeviceId, key: &GattKey) -> (r: Self)
        ensures
            r@ == gatt_context(device@, key@),
    {
        EventContext {
            device_address: String::from_str(device.as_str()),
            service_uuid: key.service_uuid.clone(),
            characteristic_uuid: key.characteristic_uuid.clone(),
        }
    }
}

/// Whether a scan record is new or changed.
#[derive(Clone, Copy, Debug, PartialEq, Eq, Structural)]
pub enum DeviceProgressKind {
    Discovered,
    Updated,
}

/// The protocol name of a progress kind.
pub open spec fn progress_kind_name(k: DeviceProgressKind) -> Seq<char> {
    match k {
        DeviceProgressKind::Discovered => "discovered"@,
        DeviceProgressKind::Updated => "updated"@,
    }
}

impl DeviceProgressKind {
    /// The protocol name of the kind.
    pub fn as_str(self) -> (r: &'static str)
        ensures
            r@ == progress_kind_name(self),
    {
        match self {
            DeviceProgressKind::Discovered => "discovered",
            DeviceProgressKind::Updated => "updated",
        }
    }
}

/// The payload of an event, by value.
pub enum EventDataView {
    Empty,
    Adapter(AdapterInfoView),
    Device { kind: DeviceProgressKind, info: DeviceInfoView },
    Services(Seq<ServiceView>),
    Bytes(Seq<u8>),
    Reason(Seq<char>),
}

/// The payload of an event.
#[derive(Debug)]
pub enum EventData {
    Empty,
    Adapter(AdapterInfo),
    Device { kind: DeviceProgressKind, info: DeviceInfo },
    Services(Vec<BleServiceInfo>),
    Bytes(Vec<u8>),
    Reason(String),
}

impl View for EventData {
    type V = EventDataView;

    open spec fn view(&self) -> EventDataView {
        match self {
            EventData::Empty => EventDataView::Empty,
            EventData::Adapter(a) => EventDataView::Adapter(a@),
            EventData::Device { kind, info } => EventDataView::Device { kind: *kind, info: info@ },
            EventData::Services(s) => EventDataView::Services(services_view(s@)),
            EventData::Bytes(b) => EventDataView::Bytes(b@),
            EventData::Reason(r) => EventDataView::Reason(r@),
        }
    }
}

impl Default for EventData {
    fn default() -> (r: Self)
        ensures
            r@ == EventDataView::Empty,
    {
        EventData::Empty
    }
}

impl Clone for EventData {
    fn clone(&self) -> (r: Self)
        ensures
            r@ == self@,
    {
        match self {
            EventData::Empty => EventData::Empty,
            EventData::Adapter(a) => EventData::Adapter(a.clone()),
            EventData::Device { kind, info } => EventData::Device { kind: *kind, info: info.clone() },
            EventData::Services(s) => EventData::Services(copy_services(s)),
            EventData::Bytes(b) => EventData::Bytes(copy_bytes(b)),
            EventData::Reason(r) => EventData::Reason(r.clone()),
        }
    }
}

/// The error of a failed event, by value.
pub struct EventErrorView {
    pub code: Seq<char>,
    pub message: Seq<char>,
    pub retryable: bool,
    pub details: Seq<(Seq<char>, Seq<char>)>,
    pub legacy_message: Seq<char>,
}

/// The error of a failed event: stable code, description, retryability,
/// details, and the text of the legacy signals.
#[derive(Debug, PartialEq, Eq)]
pub struct EventError {
    pub code: String,
    pub message: String,
    pub retryable: bool,
    pub details: Vec<(String, String)>,
    pub legacy_message: String,
}

impl View for EventError {
    type V = EventErrorView;

    open spec fn view(&self) -> EventErrorView {
        EventErrorView {
            code: self.code@,
            message: self.message@,
            retryable: self.retryable,
            details: self.details.deep_view(),
            legacy_message: self.legacy_message@,
        }
    }
}

/// The event error that describes `e`.
pub open spec fn error_view(e: BleErrorView) -> EventErrorView {
    EventErrorView {
        code: error_code_spec(e),
        message: error_message_spec(e),
        retryable: is_retryable_spec(e),
        details: Seq::empty(),
        legacy_message: error_message_spec(e),
    }
}

impl EventError {
    /// The event error that describes `error`; its details are empty.
    pub fn from_error(error: BleError) -> (r: Self)
        ensures
            r@ == error_view(error@),
    {
        let details: Vec<(String, String)> = Vec::new();
        assert(details.deep_view() =~= Seq::<(Seq<char>, Seq<char>)>::empty());
        EventError {
            code: String::from_str(error.code()),
            message: error.to_string(),
            retryable: error.is_retryable(),
            details,
            legacy_message: error.legacy_message(),
        }
    }
}

impl Clone for EventError {
    fn clone(&self) -> (r: Self)
        ensures
            r@ == self@,
    {
        let mut details: Vec<(String, String)> = Vec::new();
        for i in 0..self.details.len()
            invariant
                details.len() == i,
                forall|j: int| 0 <= j < i ==> details@[j].deep_view() == self.details@[j].deep_view(),
        {
            details.push((self.details[i].0.clone(), self.details[i].1.clone()));
        }
        assert(details.deep_view() =~= self.details.deep_view());
        EventError {
            code: self.code.clone(),
            message: self.message.clone(),
            retryable: self.retryable,
            details,
            legacy_message: self.legacy_message.clone(),
        }
    }
}

/// One event of the protocol, by value.
pub struct BleEventView {
    pub operation: Operation,
    pub phase: Phase,
    pub operation_id: OperationId,
    pub terminal: bool,
    pub context: EventContextView,
    pub data: EventDataView,
    pub error: Option<EventErrorView>,
}

/// One event of the structured protocol.
#[derive(Debug)]
pub struct BleEvent {
    pub operation: Operation,
    pub phase: Phase,
    pub operation_id: OperationId,
    pub terminal: bool,
    pub context: EventContext,
    pub data: EventData,
    pub error: Option<EventError>,
}

impl View for BleEvent {
    type V = BleEventView;

    open spec fn view(&self) -> BleEventView {
        BleEventView {
            operation: self.operation,
            phase: self.phase,
            operation_id: self.operation_id,
            terminal: self.terminal,
            context: self.context@,
            data: self.data@,
            error: match self.error {
                Some(e) => Some(e@),
                None => None,
            },
        }
    }
}

/// The non-terminal `started` event of an operation.
pub open spec fn started_view(operation: Operation, id: OperationId, context: EventContextView) -> BleEventView {
    BleEventView {
        operation,
        phase: Phase::Started,
        operation_id: id,
        terminal: false,
        context,
        data: EventDataView::Empty,
        error: None,
    }
}

/// The non-terminal scan `progress` event.
pub open spec fn progress_view(id: OperationId, context: EventContextView, data: EventDataView) -> BleEventView {
    BleEventView {
        operation: Operation::Scan,
        phase: Phase::Progress,
        operation_id: id,
        terminal: false,
        context,
        data,
        error: None,
    }
}

/// The terminal `succeeded` event of an operation.
pub open spec fn succeeded_view(
    operation: Operation,
    id: OperationId,
    context: EventContextView,
    data: EventDataView,
) -> BleEventView {
    BleEventView {
        operation,
        phase: Phase::Succeeded,
        operation_id: id,
        terminal: true,
        context,
        data,
        error: None,
    }
}

/// The terminal event of a failed operation: `cancelled` for a cancellation,
/// `failed` otherwise.
pub open spec fn failed_view(
    operation: Operation,
    id: OperationId,
    context: EventContextView,
    error: BleErrorView,
) -> BleEventView {
    BleEventView {
        operation,
        phase: if error is Cancelled {
            Phase::Cancelled
        } else {
            Phase::Failed
        },
        operation_id: id,
        terminal: true,
        context,
        data: EventDataView::Empty,
        error: Some(error_view(error)),
    }
}

/// The non-terminal `received` event that no request caused.
pub open spec fn received_view(operation: Operation, context: EventContextView, data: EventDataView) -> BleEventView {
    BleEventView {
        operation,
        phase: Phase::Received,
        operation_id: unsolicited_id(),
        terminal: false,
        context,
        data,
        error: None,
    }
}

impl BleEvent {
    /// The non-terminal `started` event of an operation.
    pub fn started(operation: Operation, operation_id: OperationId, context: EventContext) -> (r: Self)
        ensures
            r@ == started_view(operation, operation_id, context@),
    {
        Self::new(operation, Phase::Started, operation_id, false, context)
    }

    /// The non-terminal scan `progress` event.
    pub fn progress(operation_id: OperationId, context: EventContext, data: EventData) -> (r: Self)
        ensures
            r@ == progress_view(operation_id, context@, data@),
    {
        BleEvent {
            operation: Operation::Scan,
            phase: Phase::Progress,
            operation_id,
            terminal: false,
            context,
            data,
            error: None,
        }
    }

    /// The terminal `succeeded` event of an operation.
    pub fn succeeded(
        operation: Operation,
        operation_id: OperationId,
        context: EventContext,
        data: EventData,
    ) -> (r: Self)
        ensures
            r@ == succeeded_view(operation, operation_id, context@, data@),
    {
        let mut event = Self::new(operation, Phase::Succeeded, operation_id, true, context);
        event.data = data;
        event
    }

    /// The terminal event of a failed operation; a cancellation gives phase
    /// `cancelled`, any other error `failed`.
    pub fn failed(
        operation: Operation,
        operation_id: OperationId,
        context: EventContext,
        error: BleError,
    ) -> (r: Self)
        ensures
            r@ == failed_view(operation, operation_id, context@, error@),
    {
        let phase = if matches!(error, BleError::Cancelled(_)) {
            Phase::Cancelled
        } else {
            Phase::Failed
        };
        let mut event = Self::new(operation, phase, operation_id, true, context);
        event.error = Some(EventError::from_error(error));
        event
    }

    /// The non-terminal `received` event that no request caused.
    pub fn received(operation: Operation, context: EventContext, data: EventData) -> (r: Self)
        ensures
            r@ == received_view(operation, context@, data@),
    {
        let mut event = Self::new(
            operation,
            Phase::Received,
            OperationId(0),
            false,
            context,
        );
        event.data = data;
        event
    }

    fn new(
        operation: Operation,
        phase: Phase,
        operation_id: OperationId,
        terminal: bool,
        context: EventContext,
    ) -> (r: Self)
        ensures
            r.operation == operation,
            r.phase == phase,
            r.operation_id == operation_id,
            r.terminal == terminal,
            r.context == context,
            r.data@ == EventDataView::Empty,
            r.error is None,
    {
        BleEvent {
            operation,
            phase,
            operation_id,
            terminal,
            context,
            data: EventData::Empty,
            error: None,
        }
    }
}

impl Clone for BleEvent {
    fn clone(&self) -> (r: Self)
        ensures
            r@ == self@,
    {
        BleEvent {
            operation: self.operation,
            phase: self.phase,
            operation_id: self.operation_id,
            terminal: self.terminal,
            context: self.context.clone(),
            data: self.data.clone(),
            error: match &self.error {
                Some(e) => Some(e.clone()),
                None => None,
            },
        }
    }
}

} // verus!
