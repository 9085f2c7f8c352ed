use vstd::prelude::*;

verus! {

/// Errors of BLE operations, each with a stable code.
#[derive(Debug)]
pub enum BleError {
    AdapterNotFound,
    DeviceNotFound(String),
    ConnectionFailed(String),
    OperationFailed(String),
    NotConnected,
    InvalidUuid(String),
    ServiceNotFound(String),
    CharacteristicNotFound(String),
    ScanFailed(String),
    InitializationFailed(String),
    ReadFailed(String),
    WriteFailed(String),
    SubscribeFailed(String),
    UnsubscribeFailed(String),
    ServiceDiscoveryFailed(String),
    PermissionDenied(String),
    Timeout(String),
    InternalError(String),
    InvalidArgument(String),
    NotInitialized,
    Busy(String),
    QueueFull,
    Cancelled(String),
    AmbiguousCharacteristic(String),
    AndroidNotInitialized(String),
}

/// An error, by value.
pub enum BleErrorView {
    AdapterNotFound,
    DeviceNotFound(Seq<char>),
    ConnectionFailed(Seq<char>),
    OperationFailed(Seq<char>),
    NotConnected,
    InvalidUuid(Seq<char>),
    ServiceNotFound(Seq<char>),
    CharacteristicNotFound(Seq<char>),
    ScanFailed(Seq<char>),
    InitializationFailed(Seq<char>),
    ReadFailed(Seq<char>),
    WriteFailed(Seq<char>),
    SubscribeFailed(Seq<char>),
    UnsubscribeFailed(Seq<char>),
    ServiceDiscoveryFailed(Seq<char>),
    PermissionDenied(Seq<char>),
    Timeout(Seq<char>),
    InternalError(Seq<char>),
    InvalidArgument(Seq<char>),
    NotInitialized,
    Busy(Seq<char>),
    QueueFull,
    Cancelled(Seq<char>),
    AmbiguousCharacteristic(Seq<char>),
    AndroidNotInitialized(Seq<char>),
}

impl View for BleError {
    type V = BleErrorView;

    open spec fn view(&self) -> BleErrorView {
        match self {
            BleError::AdapterNotFound => BleErrorView::AdapterNotFound,
            BleError::DeviceNotFound(m) => BleErrorView::DeviceNotFound(m@),
            BleError::ConnectionFailed(m) => BleErrorView::ConnectionFailed(m@),
            BleError::OperationFailed(m) => BleErrorView::OperationFailed(m@),
            BleError::NotConnected => BleErrorView::NotConnected,
            BleError::InvalidUuid(m) => BleErrorView::InvalidUuid(m@),
            BleError::ServiceNotFound(m) => BleErrorView::ServiceNotFound(m@),
            BleError::CharacteristicNotFound(m) => BleErrorView::CharacteristicNotFound(m@),
            BleError::ScanFailed(m) => BleErrorView::ScanFailed(m@),
            BleError::InitializationFailed(m) => BleErrorView::InitializationFailed(m@),
            BleError::ReadFailed(m) => BleErrorView::ReadFailed(m@),
            BleError::WriteFailed(m) => BleErrorView::WriteFailed(m@),
            BleError::SubscribeFailed(m) => BleErrorView::SubscribeFailed(m@),
            BleError::UnsubscribeFailed(m) => BleErrorView::UnsubscribeFailed(m@),
            BleError::ServiceDiscoveryFailed(m) => BleErrorView::ServiceDiscoveryFailed(m@),
            BleError::PermissionDenied(m) => BleErrorView::PermissionDenied(m@),
            BleError::Timeout(m) => BleErrorView::Timeout(m@),
            BleError::InternalError(m) => BleErrorView::InternalError(m@),
            BleError::InvalidArgument(m) => BleErrorView::InvalidArgument(m@),
            BleError::NotInitialized => BleErrorView::NotInitialized,
            BleError::Busy(m) => BleErrorView::Busy(m@),
            BleError::QueueFull => BleErrorView::QueueFull,
            BleError::Cancelled(m) => BleErrorView::Cancelled(m@),
            BleError::AmbiguousCharacteristic(m) => BleErrorView::AmbiguousCharacteristic(m@),
            BleError::AndroidNotInitialized(m) => BleErrorView::AndroidNotInitialized(m@),
        }
    }
}

/// The stable code of an error.
pub open spec fn error_code_spec(e: BleErrorView) -> Seq<char> {
    match e {
        BleErrorView::AdapterNotFound => "ADAPTER_NOT_FOUND"@,
        BleErrorView::DeviceNotFound(_) => "DEVICE_NOT_FOUND"@,
        BleErrorView::ConnectionFailed(_) => "CONNECTION_FAILED"@,
        BleErrorView::OperationFailed(_) => "OPERATION_FAILED"@,
        BleErrorView::NotConnected => "NOT_CONNECTED"@,
        BleErrorView::InvalidUuid(_) => "INVALID_UUID"@,
        BleErrorView::ServiceNotFound(_) => "SERVICE_NOT_FOUND"@,
        BleErrorView::CharacteristicNotFound(_) => "CHARACTERISTIC_NOT_FOUND"@,
        BleErrorView::ScanFailed(_) => "SCAN_FAILED"@,
        BleErrorView::InitializationFailed(_) => "INITIALIZATION_FAILED"@,
        BleErrorView::ReadFailed(_) => "READ_FAILED"@,
        BleErrorView::WriteFailed(_) => "WRITE_FAILED"@,
        BleErrorView::SubscribeFailed(_) => "SUBSCRIBE_FAILED"@,
        BleErrorView::UnsubscribeFailed(_) => "UNSUBSCRIBE_FAILED"@,
        BleErrorView::ServiceDiscoveryFailed(_) => "SERVICE_DISCOVERY_FAILED"@,
        BleErrorView::PermissionDenied(_) => "PERMISSION_DENIED"@,
        BleErrorView::Timeout(_) => "TIMEOUT"@,
        BleErrorView::InternalError(_) => "INTERNAL_ERROR"@,
        BleErrorView::InvalidArgument(_) => "INVALID_ARGUMENT"@,
        BleErrorView::NotInitialized => "NOT_INITIALIZED"@,
        BleErrorView::Busy(_) => "BUSY"@,
        BleErrorView::QueueFull => "QUEUE_FULL"@,
        BleErrorView::Cancelled(_) => "CANCELLED"@,
        BleErrorView::AmbiguousCharacteristic(_) => "AMBIGUOUS_CHARACTERISTIC"@,
        BleErrorView::AndroidNotInitialized(_) => "ANDROID_NOT_INITIALIZED"@,
    }
}

/// The human-readable description of an error.
pub open spec fn error_message_spec(e: BleErrorView) -> Seq<char> {
    match e {
        BleErrorView::AdapterNotFound => "未找到蓝牙适配器，请确保系统蓝牙已启用"@,
        BleErrorView::DeviceNotFound(m) => "未找到指定的蓝牙设备: "@ + m,
        BleErrorView::ConnectionFailed(m) => "连接失败: "@ + m,
        BleErrorView::OperationFailed(m) => "操作失败: "@ + m,
        BleErrorView::NotConnected => "设备未连接，请先连接设备"@,
        BleErrorView::InvalidUuid(m) => "无效的 UUID: "@ + m,
        BleErrorView::ServiceNotFound(m) => "未找到服务 UUID: "@ + m,
        BleErrorView::CharacteristicNotFound(m) => "未找到特征值 UUID: "@ + m,
        BleErrorView::ScanFailed(m) => "扫描失败: "@ + m,
        BleErrorView::InitializationFailed(m) => "初始化失败: "@ + m,
        BleErrorView::ReadFailed(m) => "读取特征值失败: "@ + m,
        BleErrorView::WriteFailed(m) => "写入特征值失败: "@ + m,
        BleErrorView::SubscribeFailed(m) => "订阅通知失败: "@ + m,
        BleErrorView::UnsubscribeFailed(m) => "取消订阅失败: "@ + m,
        BleErrorView::ServiceDiscoveryFailed(m) => "服务发现失败: "@ + m,
        BleErrorView::PermissionDenied(m) => "权限被拒绝: "@ + m,
        BleErrorView::Timeout(m) => "操作超时: "@ + m,
        BleErrorView::InternalError(m) => "内部错误: "@ + m,
        BleErrorView::InvalidArgument(m) => "无效的参数: "@ + m,
        BleErrorView::NotInitialized => "蓝牙适配器尚未初始化，请先调用 initialize()"@,
        BleErrorView::Busy(m) => "操作正在进行中: "@ + m,
        BleErrorView::QueueFull => "命令队列已满，请稍后重试"@,
        BleErrorView::Cancelled(m) => "操作已取消: "@ + m,
        BleErrorView::AmbiguousCharacteristic(m) => "特征值 UUID 在多个服务中重复，无法区分通知: "@ + m,
        BleErrorView::AndroidNotInitialized(m) => "Android 蓝牙桥接未初始化: "@ + m,
    }
}

/// Whether retrying the same request may succeed.
pub open spec fn is_retryable_spec(e: BleErrorView) -> bool {
    match e {
        BleErrorView::Timeout(_) | BleErrorView::ConnectionFailed(_) | BleErrorView::OperationFailed(_) => true,
        _ => false,
    }
}

/// `prefix` followed by `text`, as a new string.
fn joined(prefix: &str, text: &String) -> (r: String)
    ensures
        r@ == prefix@ + text@,
{
    let mut out = String::from_str(prefix);
    out.append(text.as_str());
    out
}

impl BleError {
    /// The stable error code.
    pub fn code(&self) -> (r: &'static str)
        ensures
            r@ == error_code_spec(self@),
    {
        match self {
            BleError::AdapterNotFound => "ADAPTER_NOT_FOUND",
            BleError::DeviceNotFound(_) => "DEVICE_NOT_FOUND",
            BleError::ConnectionFailed(_) => "CONNECTION_FAILED",
            BleError::OperationFailed(_) => "OPERATION_FAILED",
            BleError::NotConnected => "NOT_CONNECTED",
            BleError::InvalidUuid(_) => "INVALID_UUID",
            BleError::ServiceNotFound(_) => "SERVICE_NOT_FOUND",
            BleError::CharacteristicNotFound(_) => "CHARACTERISTIC_NOT_FOUND",
            BleError::ScanFailed(_) => "SCAN_FAILED",
            BleError::InitializationFailed(_) => "INITIALIZATION_FAILED",
            BleError::ReadFailed(_) => "READ_FAILED",
            BleError::WriteFailed(_) => "WRITE_FAILED",
            BleError::SubscribeFailed(_) => "SUBSCRIBE_FAILED",
            BleError::UnsubscribeFailed(_) => "UNSUBSCRIBE_FAILED",
            BleError::ServiceDiscoveryFailed(_) => "SERVICE_DISCOVERY_FAILED",
            BleError::PermissionDenied(_) => "PERMISSION_DENIED",
            BleError::Timeout(_) => "TIMEOUT",
            BleError::InternalError(_) => "INTERNAL_ERROR",
            BleError::InvalidArgument(_) => "INVALID_ARGUMENT",
            BleError::NotInitialized => "NOT_INITIALIZED",
            BleError::Busy(_) => "BUSY",
            BleError::QueueFull => "QUEUE_FULL",
            BleError::Cancelled(_) => "CANCELLED",
            BleError::AmbiguousCharacteristic(_) => "AMBIGUOUS_CHARACTERISTIC",
            BleError::AndroidNotInitialized(_) => "ANDROID_NOT_INITIALIZED",
        }
    }

    /// The stable error code, under its older name.
    pub fn error_code(&self) -> (r: &'static str)
        ensures
            r@ == error_code_spec(self@),
    {
        self.code()
    }

    /// The human-readable description of the error.
    pub fn to_string(&self) -> (r: String)
        ensures
            r@ == error_message_spec(self@),
    {
        match self {
            BleError::AdapterNotFound => String::from_str("未找到蓝牙适配器，请确保系统蓝牙已启用"),
            BleError::DeviceNotFound(m) => joined("未找到指定的蓝牙设备: ", m),
            BleError::ConnectionFailed(m) => joined("连接失败: ", m),
            BleError::OperationFailed(m) => joined("操作失败: ", m),
            BleError::NotConnected => String::from_str("设备未连接，请先连接设备"),
            BleError::InvalidUuid(m) => joined("无效的 UUID: ", m),
            BleError::ServiceNotFound(m) => joined("未找到服务 UUID: ", m),
            BleError::CharacteristicNotFound(m) => joined("未找到特征值 UUID: ", m),
            BleError::ScanFailed(m) => joined("扫描失败: ", m),
            BleError::InitializationFailed(m) => joined("初始化失败: ", m),
            BleError::ReadFailed(m) => joined("读取特征值失败: ", m),
            BleError::WriteFailed(m) => joined("写入特征值失败: ", m),
            BleError::SubscribeFailed(m) => joined("订阅通知失败: ", m),
            BleError::UnsubscribeFailed(m) => joined("取消订阅失败: ", m),
            BleError::ServiceDiscoveryFailed(m) => joined("服务发现失败: ", m),
            BleError::PermissionDenied(m) => joined("权限被拒绝: ", m),
            BleError::Timeout(m) => joined("操作超时: ", m),
            BleError::InternalError(m) => joined("内部错误: ", m),
            BleError::InvalidArgument(m) => joined("无效的参数: ", m),
            BleError::NotInitialized => String::from_str("蓝牙适配器尚未初始化，请先调用 initialize()"),
            BleError::Busy(m) => joined("操作正在进行中: ", m),
            BleError::QueueFull => String::from_str("命令队列已满，请稍后重试"),
            BleError::Cancelled(m) => joined("操作已取消: ", m),
            BleError::AmbiguousCharacteristic(m) => joined("特征值 UUID 在多个服务中重复，无法区分通知: ", m),
            BleError::AndroidNotInitialized(m) => joined("Android 蓝牙桥接未初始化: ", m),
        }
    }

    /// The text that the legacy error signals carried: the same description.
    pub fn legacy_message(&self) -> (r: String)
        ensures
            r@ == error_message_spec(self@),
    {
        self.to_string()
    }

    /// Whether retrying the same request may succeed.
    pub fn is_retryable(&self) -> (r: bool)
        ensures
            r == is_retryable_spec(self@),
    {
        match self {
            BleError::Timeout(_) | BleError::ConnectionFailed(_) | BleError::OperationFailed(_) => true,
            _ => false,
        }
    }
}

} // verus!
