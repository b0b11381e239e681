//! The errors that a command can end in, and the text shown for each.

use vstd::prelude::*;

verus! {

/// The stack call that failed.
#[derive(Debug, Clone, Copy, PartialEq, Eq, Structural)]
pub enum StackCall {
    /// Listing the adapters for the application.
    EnumerateAdapters,
    /// Listing the adapters to pick the one to work with.
    ResolveAdapter,
    /// Asking a peripheral whether it is connected.
    ConnectionState,
    /// Listing the scan results.
    ScanResults,
    /// Listing the scan results to find the peripheral to connect.
    ConnectScanResults,
    /// Connecting a peripheral.
    Connect,
    /// Disconnecting a peripheral.
    Disconnect,
    /// Listing a peripheral's services.
    Services,
    /// Writing a characteristic with response.
    WriteRequest,
    /// Writing a characteristic without response.
    WriteCommand,
    /// Subscribing to notifications.
    Notify,
    /// Subscribing to indications.
    Indicate,
    /// Asking for the negotiated MTU.
    Mtu,
}

/// What the user is advised to do about a device that was not found.
#[derive(Debug, Clone, Copy, PartialEq, Eq, Structural)]
pub enum Guidance {
    /// No advice.
    Plain,
    /// The device has no record: the likely reasons, ending in "scan again".
    Rescan,
    /// The stack has no scan results at all: scan again, then connect.
    EmptyScan,
    /// The stack's scan results lack the device: check the name or scan again.
    NotInScan,
    /// Make sure the device was scanned or is connected.
    ScanOrConnect,
}

/// Model of a [`BleError`].
pub enum BleErrorModel {
    NoAdapterAvailable,
    DeviceNotFound { device_id: Seq<char>, guidance: Guidance },
    StackOperationFailed { call: StackCall, cause: Seq<char> },
    ReadExhausted,
    DisconnectStillConnected,
}

/// The error of a command.
#[derive(Debug, Clone)]
pub enum BleError {
    /// The stack lists no adapter.
    NoAdapterAvailable,
    /// No peripheral or record answers to the identifier.
    DeviceNotFound { device_id: String, guidance: Guidance },
    /// A stack call failed; `cause` is the stack's own error text.
    StackOperationFailed { call: StackCall, cause: String },
    /// Every UUID form and every attempt of a read failed.
    ReadExhausted,
    /// After a disconnect the peripheral still reports connected.
    DisconnectStillConnected,
}

impl View for BleError {
    type V = BleErrorModel;

    open spec fn view(&self) -> BleErrorModel {
        match self {
            BleError::NoAdapterAvailable => BleErrorModel::NoAdapterAvailable,
            BleError::DeviceNotFound { device_id, guidance } => BleErrorModel::DeviceNotFound {
                device_id: device_id@,
                guidance: *guidance,
            },
            BleError::StackOperationFailed { call, cause } => BleErrorModel::StackOperationFailed {
                call: *call,
                cause: cause@,
            },
            BleError::ReadExhausted => BleErrorModel::ReadExhausted,
            BleError::DisconnectStillConnected => BleErrorModel::DisconnectStillConnected,
        }
    }
}

impl DeepView for BleError {
    type V = BleErrorModel;

    open spec fn deep_view(&self) -> BleErrorModel {
        self@
    }
}

/// The label that precedes the stack's error text.
pub open spec fn call_label(call: StackCall) -> Seq<char> {
    match call {
        StackCall::EnumerateAdapters => "SimpleBLE 错误: "@,
        StackCall::ResolveAdapter => "获取蓝牙适配器失败: "@,
        StackCall::ConnectionState => "检查连接状态失败: "@,
        StackCall::ScanResults => "获取扫描结果失败: "@,
        StackCall::ConnectScanResults => "获取SimpleBLE扫描结果失败: "@,
        StackCall::Connect => "连接设备失败: "@,
        StackCall::Disconnect => "断开设备连接失败: "@,
        StackCall::Services => "获取服务失败: "@,
        StackCall::WriteRequest => "写入(请求)失败: "@,
        StackCall::WriteCommand => "写入(命令)失败: "@,
        StackCall::Notify => "订阅通知失败: "@,
        StackCall::Indicate => "订阅指示失败: "@,
        StackCall::Mtu => "获取 MTU 失败: "@,
    }
}

/// What precedes the identifier in the text for a device not found.
pub open spec fn guidance_lead(guidance: Guidance) -> Seq<char> {
    match guidance {
        Guidance::EmptyScan => "SimpleBLE扫描结果为空，请重新扫描后再尝试连接: "@,
        Guidance::NotInScan => "在SimpleBLE扫描结果中未找到设备: "@,
        _ => "未找到设备: "@,
    }
}

/// What follows the identifier in the text for a device not found.
pub open spec fn guidance_advice(guidance: Guidance) -> Seq<char> {
    match guidance {
        Guidance::Plain => ""@,
        Guidance::Rescan => "，可能的原因：\n1. 设备不在当前扫描结果中\n2. 传递的deviceId不正确\n3. 需要重新扫描"@,
        Guidance::EmptyScan => ""@,
        Guidance::NotInScan => "，请确认设备名称或重新扫描"@,
        Guidance::ScanOrConnect => "，请确认已扫描或已连接"@,
    }
}

/// The text shown for an error. The identifier and the stack's error text
/// appear verbatim.
pub open spec fn error_text(error: BleErrorModel) -> Seq<char> {
    match error {
        BleErrorModel::NoAdapterAvailable => "未找到可用的蓝牙适配器"@,
        BleErrorModel::DeviceNotFound { device_id, guidance } => guidance_lead(guidance) + device_id
            + guidance_advice(guidance),
        BleErrorModel::StackOperationFailed { call, cause } => call_label(call) + cause,
        BleErrorModel::ReadExhausted => "读取特征值失败：所有 UUID 形式均未成功"@,
        BleErrorModel::DisconnectStillConnected => "断开命令执行后设备仍保持连接状态"@,
    }
}

fn label_of(call: StackCall) -> (label: &'static str)
    ensures
        label@ == call_label(call),
{
    match call {
        StackCall::EnumerateAdapters => "SimpleBLE 错误: ",
        StackCall::ResolveAdapter => "获取蓝牙适配器失败: ",
        StackCall::ConnectionState => "检查连接状态失败: ",
        StackCall::ScanResults => "获取扫描结果失败: ",
        StackCall::ConnectScanResults => "获取SimpleBLE扫描结果失败: ",
        StackCall::Connect => "连接设备失败: ",
        StackCall::Disconnect => "断开设备连接失败: ",
        StackCall::Services => "获取服务失败: ",
        StackCall::WriteRequest => "写入(请求)失败: ",
        StackCall::WriteCommand => "写入(命令)失败: ",
        StackCall::Notify => "订阅通知失败: ",
        StackCall::Indicate => "订阅指示失败: ",
        StackCall::Mtu => "获取 MTU 失败: ",
    }
}

fn lead_of(guidance: Guidance) -> (lead: &'static str)
    ensures
        lead@ == guidance_lead(guidance),
{
    match guidance {
        Guidance::EmptyScan => "SimpleBLE扫描结果为空，请重新扫描后再尝试连接: ",
        Guidance::NotInScan => "在SimpleBLE扫描结果中未找到设备: ",
        _ => "未找到设备: ",
    }
}

fn advice_of(guidance: Guidance) -> (advice: &'static str)
    ensures
        advice@ == guidance_advice(guidance),
{
    match guidance {
        Guidance::Plain => "",
        Guidance::Rescan => "，可能的原因：\n1. 设备不在当前扫描结果中\n2. 传递的deviceId不正确\n3. 需要重新扫描",
        Guidance::EmptyScan => "",
        Guidance::NotInScan => "，请确认设备名称或重新扫描",
        Guidance::ScanOrConnect => "，请确认已扫描或已连接",
    }
}

impl BleError {
    /// The error for a device that was not found.
    pub fn not_found(device_id: &str, guidance: Guidance) -> (error: BleError)
        ensures
            error@ == (BleErrorModel::DeviceNotFound { device_id: device_id@, guidance }),
    {
        BleError::DeviceNotFound { device_id: String::from_str(device_id), guidance }
    }

    /// The error for a stack call that failed with the given error text.
    pub fn stack(call: StackCall, cause: String) -> (error: BleError)
        ensures
            error@ == (BleErrorModel::StackOperationFailed { call, cause: cause@ }),
    {
        BleError::StackOperationFailed { call, cause }
    }

    /// The text that the application shows for the error.
    pub fn message(&self) -> (text: String)
        ensures
            text@ == error_text(self@),
    {
        match self {
            BleError::NoAdapterAvailable => String::from_str("未找到可用的蓝牙适配器"),
            BleError::DeviceNotFound { device_id, guidance } => {
                let mut text = String::from_str(lead_of(*guidance));
                text.append(device_id.as_str());
                text.append(advice_of(*guidance));
                text
            },
            BleError::StackOperationFailed { call, cause } => {
                let mut text = String::from_str(label_of(*call));
                text.append(cause.as_str());
                text
            },
            BleError::ReadExhausted => String::from_str("读取特征值失败：所有 UUID 形式均未成功"),
            BleError::DisconnectStillConnected => String::from_str("断开命令执行后设备仍保持连接状态"),
        }
    }
}

} // verus!
