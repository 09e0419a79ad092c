use vstd::prelude::*;
use vstd::string::StringExecFns;

verus! {

/// Every way an operation of the library can fail.
#[derive(Clone, Debug, PartialEq, Eq)]
pub enum NetworkError {
    UnsupportedSecurityType,
    ZBusError(String),
    Io(String),
    InitializationError,
    OperationError(String),
    NoConnection,
    ConnectionFailed(String),
    NotInitialized,
    LockError,
    NotImplemented,
    TaskError,
    PermissionDenied,
    RuntimeError,
}

pub type Result<T> = core::result::Result<T, NetworkError>;

/// The message of each error.
pub open spec fn error_message(e: NetworkError) -> Seq<char> {
    match e {
        NetworkError::UnsupportedSecurityType => "Unsupported WiFi security type"@,
        NetworkError::ZBusError(t) => "ZBus error: "@ + t@,
        NetworkError::Io(t) => t@,
        NetworkError::InitializationError => "Failed to initialize NetworkManager"@,
        NetworkError::OperationError(_) => "Network operation failed"@,
        NetworkError::NoConnection => "No network connection available"@,
        NetworkError::ConnectionFailed(_) => "Network connection failed"@,
        NetworkError::NotInitialized => "NetworkManager not initialized"@,
        NetworkError::LockError => "Failed to acquire lock on network manager"@,
        NetworkError::NotImplemented => "Feature not implemented"@,
        NetworkError::TaskError => "Task execution failed"@,
        NetworkError::PermissionDenied => "Permission denied"@,
        NetworkError::RuntimeError => "Failed to create runtime"@,
    }
}

impl NetworkError {
    /// Maps a failed bus call: an explicit failure reply keeps its text as an
    /// operation error, anything else is a transport error.
    pub fn from_bus_failure(is_failure_reply: bool, text: String) -> (r: NetworkError)
        ensures
            is_failure_reply ==> r == NetworkError::OperationError(text),
            !is_failure_reply ==> r == NetworkError::ZBusError(text),
    {
        if is_failure_reply {
            NetworkError::OperationError(text)
        } else {
            NetworkError::ZBusError(text)
        }
    }

    /// The human-readable message of the error.
    pub fn message(&self) -> (r: String)
        ensures
            r@ == error_message(*self),
    {
        match self {
            NetworkError::UnsupportedSecurityType => String::from_str("Unsupported WiFi security type"),
            NetworkError::ZBusError(t) => String::from_str("ZBus error: ").concat(t.as_str()),
            NetworkError::Io(t) => t.clone(),
            NetworkError::InitializationError => String::from_str("Failed to initialize NetworkManager"),
            NetworkError::OperationError(_) => String::from_str("Network operation failed"),
            NetworkError::NoConnection => String::from_str("No network connection available"),
            NetworkError::ConnectionFailed(_) => String::from_str("Network connection failed"),
            NetworkError::NotInitialized => String::from_str("NetworkManager not initialized"),
            NetworkError::LockError => String::from_str("Failed to acquire lock on network manager"),
            NetworkError::NotImplemented => String::from_str("Feature not implemented"),
            NetworkError::TaskError => String::from_str("Task execution failed"),
            NetworkError::PermissionDenied => String::from_str("Permission denied"),
            NetworkError::RuntimeError => String::from_str("Failed to create runtime"),
        }
    }
}

} // verus!
