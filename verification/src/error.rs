//! Failures that the engines return.

use vstd::prelude::*;

verus! {

/// The classes of failure that callers tell apart.
#[derive(Debug, Clone, Copy, PartialEq, Eq, Structural)]
pub enum ErrorKind {
    /// A port, host or payload format is malformed.
    Validation,
    /// The local port is already held by a running rule.
    ResourceConflict,
    /// An outbound connection failed or timed out.
    Connect,
    /// A listener or socket could not be bound.
    Bind,
    /// A read or write failed in the middle of a transfer.
    Io,
    /// A payload could not be decoded.
    Encoding,
    /// The id is unknown, or a send has no destination.
    NotFound,
}

/// Why an engine operation was refused.
#[derive(Debug, Clone, Copy, PartialEq, Eq, Structural)]
pub enum EngineError {
    /// The local port of a rule is zero.
    LocalPortZero,
    /// The remote port of a rule is zero.
    RemotePortZero,
    /// The remote host of a rule is empty.
    RemoteHostEmpty,
    /// A running rule already listens on the local port.
    PortInUse,
    /// The rule is already running.
    AlreadyRunning,
    /// No rule has the id.
    RuleNotFound,
    /// No session has the id.
    SessionNotFound,
    /// The session has no live connection or socket to send on.
    NotConnected,
    /// The addressed client is not connected to the session.
    ClientNotFound,
    /// A broadcast found no connected client.
    NoClients,
    /// A server session was given neither a target nor the broadcast flag.
    NoTarget,
    /// Hexadecimal text that holds a character which is no digit, no white
    /// space and no part of a `0x` marker.
    InvalidHexDigit,
    /// Hexadecimal text with an odd number of digits.
    OddHexLength,
    /// Text that is not base64 in the standard alphabet.
    InvalidBase64,
    /// The listener could not be bound.
    BindFailed,
    /// The outbound connection failed.
    ConnectFailed,
    /// The outbound connection timed out.
    ConnectTimeout,
    /// A read or write failed.
    TransferFailed,
}

impl EngineError {
    /// The class of this failure.
    pub open spec fn spec_kind(self) -> ErrorKind {
        match self {
            EngineError::LocalPortZero => ErrorKind::Validation,
            EngineError::RemotePortZero => ErrorKind::Validation,
            EngineError::RemoteHostEmpty => ErrorKind::Validation,
            EngineError::PortInUse => ErrorKind::ResourceConflict,
            EngineError::AlreadyRunning => ErrorKind::ResourceConflict,
            EngineError::RuleNotFound => ErrorKind::NotFound,
            EngineError::SessionNotFound => ErrorKind::NotFound,
            EngineError::NotConnected => ErrorKind::NotFound,
            EngineError::ClientNotFound => ErrorKind::NotFound,
            EngineError::NoClients => ErrorKind::NotFound,
            EngineError::NoTarget => ErrorKind::NotFound,
            EngineError::InvalidHexDigit => ErrorKind::Encoding,
            EngineError::OddHexLength => ErrorKind::Encoding,
            EngineError::InvalidBase64 => ErrorKind::Encoding,
            EngineError::BindFailed => ErrorKind::Bind,
            EngineError::ConnectFailed => ErrorKind::Connect,
            EngineError::ConnectTimeout => ErrorKind::Connect,
            EngineError::TransferFailed => ErrorKind::Io,
        }
    }

    /// The class of this failure.
    #[verifier::when_used_as_spec(spec_kind)]
    pub fn kind(self) -> (k: ErrorKind)
        ensures
            k == self.spec_kind(),
    {
        match self {
            EngineError::LocalPortZero | EngineError::RemotePortZero | EngineError::RemoteHostEmpty =>
                ErrorKind::Validation,
            EngineError::PortInUse | EngineError::AlreadyRunning => ErrorKind::ResourceConflict,
            EngineError::RuleNotFound
            | EngineError::SessionNotFound
            | EngineError::NotConnected
            | EngineError::ClientNotFound
            | EngineError::NoClients
            | EngineError::NoTarget => ErrorKind::NotFound,
            EngineError::InvalidHexDigit | EngineError::OddHexLength | EngineError::InvalidBase64 => {
                ErrorKind::Encoding
            },
            EngineError::BindFailed => ErrorKind::Bind,
            EngineError::ConnectFailed | EngineError::ConnectTimeout => ErrorKind::Connect,
            EngineError::TransferFailed => ErrorKind::Io,
        }
    }

    /// The sentence that tells a user of the failure.
    pub open spec fn spec_message(self) -> Seq<char> {
        match self {
            EngineError::LocalPortZero => "本地端口不能为 0"@,
            EngineError::RemotePortZero => "远程端口不能为 0"@,
            EngineError::RemoteHostEmpty => "远程主机不能为空"@,
            EngineError::PortInUse => "端口已被其他规则使用"@,
            EngineError::AlreadyRunning => "转发已在运行中"@,
            EngineError::RuleNotFound => "规则不存在"@,
            EngineError::SessionNotFound => "会话不存在"@,
            EngineError::NotConnected => "会话不存在或未连接"@,
            EngineError::ClientNotFound => "客户端不存在"@,
            EngineError::NoClients => "没有已连接的客户端"@,
            EngineError::NoTarget => "服务器模式需要指定目标客户端或广播"@,
            EngineError::InvalidHexDigit => "无效的十六进制"@,
            EngineError::OddHexLength => "十六进制字符串长度必须为偶数"@,
            EngineError::InvalidBase64 => "Base64 解码失败"@,
            EngineError::BindFailed => "绑定端口失败"@,
            EngineError::ConnectFailed => "连接远程服务器失败"@,
            EngineError::ConnectTimeout => "连接超时"@,
            EngineError::TransferFailed => "发送失败"@,
        }
    }

    /// The sentence that tells a user of the failure.
    pub fn message(self) -> (text: &'static str)
        ensures
            text@ == self.spec_message(),
    {
        match self {
            EngineError::LocalPortZero => "本地端口不能为 0",
            EngineError::RemotePortZero => "远程端口不能为 0",
            EngineError::RemoteHostEmpty => "远程主机不能为空",
            EngineError::PortInUse => "端口已被其他规则使用",
            EngineError::AlreadyRunning => "转发已在运行中",
            EngineError::RuleNotFound => "规则不存在",
            EngineError::SessionNotFound => "会话不存在",
            EngineError::NotConnected => "会话不存在或未连接",
            EngineError::ClientNotFound => "客户端不存在",
            EngineError::NoClients => "没有已连接的客户端",
            EngineError::NoTarget => "服务器模式需要指定目标客户端或广播",
            EngineError::InvalidHexDigit => "无效的十六进制",
            EngineError::OddHexLength => "十六进制字符串长度必须为偶数",
            EngineError::InvalidBase64 => "Base64 解码失败",
            EngineError::BindFailed => "绑定端口失败",
            EngineError::ConnectFailed => "连接远程服务器失败",
            EngineError::ConnectTimeout => "连接超时",
            EngineError::TransferFailed => "发送失败",
        }
    }
}

} // verus!
