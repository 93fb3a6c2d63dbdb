//! Error types surfaced by the core, and the mapping from transport-level
//! failures onto the general error categories.

use vstd::prelude::*;

verus! {

/// Bluetooth Attribute Protocol error code.
#[derive(Clone, Copy, PartialEq, Eq, Structural, Hash, Debug)]
pub struct AttError {
    pub code: u8,
}

impl AttError {
    /// Converts a [`u8`] value to an [`AttError`].
    pub fn from_u8(val: u8) -> (r: Self)
        ensures
            r.code == val,
    {
        AttError { code: val }
    }

    /// Converts an [`AttError`] to a [`u8`] value.
    pub fn as_u8(self) -> (r: u8)
        ensures
            r == self.code,
    {
        self.code
    }

    /// Checks if the error code is in the application error range.
    pub fn is_application(&self) -> (r: bool)
        ensures
            r == (0x80 <= self.code < 0xa0),
    {
        0x80 <= self.code && self.code < 0xa0
    }

    /// Checks if the error code is in the common profile and service range.
    pub fn is_common_profile_or_service(&self) -> (r: bool)
        ensures
            r == (self.code >= 0xe0),
    {
        self.code >= 0xe0
    }
}

impl From<u8> for AttError {
    fn from(number: u8) -> (r: Self) {
        AttError { code: number }
    }
}

impl vstd::std_specs::convert::FromSpecImpl<u8> for AttError {
    open spec fn obeys_from_spec() -> bool {
        true
    }

    open spec fn from_spec(number: u8) -> Self {
        AttError { code: number }
    }
}

impl From<AttError> for u8 {
    fn from(val: AttError) -> (r: Self) {
        val.code
    }
}

impl vstd::std_specs::convert::FromSpecImpl<AttError> for u8 {
    open spec fn obeys_from_spec() -> bool {
        true
    }

    open spec fn from_spec(val: AttError) -> Self {
        val.code
    }
}

/// Status code reported by the platform Bluetooth stack for an operation.
#[derive(Clone, Copy, PartialEq, Eq, Structural, Hash, Debug)]
pub enum BluetoothStatusCode {
    NotAllowed,
    NotEnabled,
    NotBonded,
    GattWriteNotAllowed,
    GattWriteBusy,
    MissingBluetoothConnectPermission,
    ProfileServiceNotBound,
    Unknown,
    FeatureNotSupported,
    UnknownError(i32),
}

/// Raw platform value for a call not permitted to the caller.
pub const STATUS_NOT_ALLOWED: i32 = 2;

/// Raw platform value for the radio being disabled.
pub const STATUS_NOT_ENABLED: i32 = 1;

/// Raw platform value for an unbonded device.
pub const STATUS_NOT_BONDED: i32 = 3;

/// Raw platform value for a forbidden attribute write.
pub const STATUS_GATT_WRITE_NOT_ALLOWED: i32 = 200;

/// Raw platform value for a busy attribute write.
pub const STATUS_GATT_WRITE_BUSY: i32 = 201;

/// Raw platform value for a missing connect permission.
pub const STATUS_MISSING_CONNECT_PERMISSION: i32 = 6;

/// Raw platform value for an unbound profile service.
pub const STATUS_PROFILE_SERVICE_NOT_BOUND: i32 = 9;

/// Raw platform value for an unknown failure.
pub const STATUS_UNKNOWN: i32 = 2147483647;

/// Raw platform value for an unsupported feature.
pub const STATUS_FEATURE_NOT_SUPPORTED: i32 = 11;

/// The status variant denoted by a nonzero raw platform value.
pub open spec fn status_of_code(code: i32) -> BluetoothStatusCode {
    if code == STATUS_NOT_ALLOWED {
        BluetoothStatusCode::NotAllowed
    } else if code == STATUS_NOT_ENABLED {
        BluetoothStatusCode::NotEnabled
    } else if code == STATUS_NOT_BONDED {
        BluetoothStatusCode::NotBonded
    } else if code == STATUS_GATT_WRITE_NOT_ALLOWED {
        BluetoothStatusCode::GattWriteNotAllowed
    } else if code == STATUS_GATT_WRITE_BUSY {
        BluetoothStatusCode::GattWriteBusy
    } else if code == STATUS_MISSING_CONNECT_PERMISSION {
        BluetoothStatusCode::MissingBluetoothConnectPermission
    } else if code == STATUS_PROFILE_SERVICE_NOT_BOUND {
        BluetoothStatusCode::ProfileServiceNotBound
    } else if code == STATUS_UNKNOWN {
        BluetoothStatusCode::Unknown
    } else if code == STATUS_FEATURE_NOT_SUPPORTED {
        BluetoothStatusCode::FeatureNotSupported
    } else {
        BluetoothStatusCode::UnknownError(code)
    }
}

impl BluetoothStatusCode {
    /// Classifies a nonzero raw status value from the platform.
    pub fn from_code(code: i32) -> (r: Self)
        requires
            code != 0,
        ensures
            r == status_of_code(code),
    {
        if code == STATUS_NOT_ALLOWED {
            BluetoothStatusCode::NotAllowed
        } else if code == STATUS_NOT_ENABLED {
            BluetoothStatusCode::NotEnabled
        } else if code == STATUS_NOT_BONDED {
            BluetoothStatusCode::NotBonded
        } else if code == STATUS_GATT_WRITE_NOT_ALLOWED {
            BluetoothStatusCode::GattWriteNotAllowed
        } else if code == STATUS_GATT_WRITE_BUSY {
            BluetoothStatusCode::GattWriteBusy
        } else if code == STATUS_MISSING_CONNECT_PERMISSION {
            BluetoothStatusCode::MissingBluetoothConnectPermission
        } else if code == STATUS_PROFILE_SERVICE_NOT_BOUND {
            BluetoothStatusCode::ProfileServiceNotBound
        } else if code == STATUS_UNKNOWN {
            BluetoothStatusCode::Unknown
        } else if code == STATUS_FEATURE_NOT_SUPPORTED {
            BluetoothStatusCode::FeatureNotSupported
        } else {
            BluetoothStatusCode::UnknownError(code)
        }
    }
}

/// Transport-level error, prior to classification into an [`ErrorKind`].
#[derive(Clone, Copy, PartialEq, Eq, Structural, Hash, Debug)]
pub enum NativeError {
    GattError(AttError),
    BluetoothStatusCode(BluetoothStatusCode),
    JavaError,
    JavaCastError,
    JavaNullResult,
    JavaCallReturnedFalse,
}

impl From<AttError> for NativeError {
    fn from(att_error: AttError) -> (r: Self) {
        NativeError::GattError(att_error)
    }
}

impl vstd::std_specs::convert::FromSpecImpl<AttError> for NativeError {
    open spec fn obeys_from_spec() -> bool {
        true
    }

    open spec fn from_spec(att_error: AttError) -> Self {
        NativeError::GattError(att_error)
    }
}

/// A list of general categories of Bluetooth error.
#[non_exhaustive]
#[derive(Clone, Copy, PartialEq, Eq, Structural, Hash, Debug)]
pub enum ErrorKind {
    /// the Bluetooth adapter is not available
    AdapterUnavailable,
    /// the Bluetooth adapter is already scanning
    AlreadyScanning,
    /// connection failed
    ConnectionFailed,
    /// the Bluetooth device isn't connected
    NotConnected,
    /// the Bluetooth operation is unsupported
    NotSupported,
    /// permission denied
    NotAuthorized,
    /// not ready
    NotReady,
    /// not found
    NotFound,
    /// invalid parameter
    InvalidParameter,
    /// timed out
    Timeout,
    /// protocol error
    Protocol(AttError),
    /// an internal error has occurred
    Internal,
    /// the service changed and is no longer valid
    ServiceChanged,
    /// error
    Other,
}

/// The general category that a transport-level error falls under.
pub open spec fn kind_of_native(err: NativeError) -> ErrorKind {
    match err {
        NativeError::GattError(att_error) => ErrorKind::Protocol(att_error),
        NativeError::BluetoothStatusCode(code) => match code {
            BluetoothStatusCode::NotAllowed => ErrorKind::NotAuthorized,
            BluetoothStatusCode::NotEnabled => ErrorKind::AdapterUnavailable,
            BluetoothStatusCode::NotBonded => ErrorKind::NotAuthorized,
            BluetoothStatusCode::GattWriteNotAllowed => ErrorKind::NotAuthorized,
            BluetoothStatusCode::GattWriteBusy => ErrorKind::NotReady,
            BluetoothStatusCode::MissingBluetoothConnectPermission => ErrorKind::NotAuthorized,
            BluetoothStatusCode::ProfileServiceNotBound => ErrorKind::Other,
            BluetoothStatusCode::Unknown => ErrorKind::Other,
            BluetoothStatusCode::FeatureNotSupported => ErrorKind::NotSupported,
            BluetoothStatusCode::UnknownError(_) => ErrorKind::Other,
        },
        NativeError::JavaError => ErrorKind::Internal,
        NativeError::JavaCastError => ErrorKind::Internal,
        NativeError::JavaNullResult => ErrorKind::Internal,
        NativeError::JavaCallReturnedFalse => ErrorKind::Internal,
    }
}

/// A short description of a transport-level error.
pub open spec fn native_message(err: NativeError) -> Seq<char> {
    match err {
        NativeError::GattError(_) => "GATT error"@,
        NativeError::BluetoothStatusCode(_) => "Bluetooth status code error"@,
        NativeError::JavaError => "Java Throwable"@,
        NativeError::JavaCastError => "Java object cast failed"@,
        NativeError::JavaNullResult => "Java call unexpectedly returned null"@,
        NativeError::JavaCallReturnedFalse => "Java call unexpectedly returned false"@,
    }
}

/// The error type for Bluetooth operations.
#[derive(Debug)]
pub struct Error {
    pub kind: ErrorKind,
    pub source: Option<NativeError>,
    pub message: String,
}

impl Clone for Error {
    fn clone(&self) -> (r: Self)
        ensures
            r == *self,
    {
        Error { kind: self.kind, source: self.source, message: self.message.clone() }
    }
}

impl Error {
    /// Builds an error with an explicit category, origin and message.
    pub fn new(kind: ErrorKind, source: Option<NativeError>, message: &str) -> (r: Self)
        ensures
            r.kind == kind,
            r.source == source,
            r.message@ == message@,
    {
        Error { kind, source, message: message.to_owned() }
    }

    /// Builds an error of the given category with no origin and no message.
    pub fn from_kind(kind: ErrorKind) -> (r: Self)
        ensures
            r.kind == kind,
            r.source is None,
            r.message@ == Seq::<char>::empty(),
    {
        Error { kind, source: None, message: String::new() }
    }

    /// Classifies a transport-level error into its general category.
    pub fn from_native(err: NativeError) -> (r: Self)
        ensures
            r.kind == kind_of_native(err),
            r.source == Some(err),
            r.message@ == native_message(err),
    {
        let kind = match err {
            NativeError::GattError(att_error) => ErrorKind::Protocol(att_error),
            NativeError::BluetoothStatusCode(code) => match code {
                BluetoothStatusCode::NotAllowed => ErrorKind::NotAuthorized,
                BluetoothStatusCode::NotEnabled => ErrorKind::AdapterUnavailable,
                BluetoothStatusCode::NotBonded => ErrorKind::NotAuthorized,
                BluetoothStatusCode::GattWriteNotAllowed => ErrorKind::NotAuthorized,
                BluetoothStatusCode::GattWriteBusy => ErrorKind::NotReady,
                BluetoothStatusCode::MissingBluetoothConnectPermission => {
                    ErrorKind::NotAuthorized
                },
                BluetoothStatusCode::ProfileServiceNotBound => ErrorKind::Other,
                BluetoothStatusCode::Unknown => ErrorKind::Other,
                BluetoothStatusCode::FeatureNotSupported => ErrorKind::NotSupported,
                BluetoothStatusCode::UnknownError(_) => ErrorKind::Other,
            },
            NativeError::JavaError => ErrorKind::Internal,
            NativeError::JavaCastError => ErrorKind::Internal,
            NativeError::JavaNullResult => ErrorKind::Internal,
            NativeError::JavaCallReturnedFalse => ErrorKind::Internal,
        };
        let message: &str = match err {
            NativeError::GattError(_) => "GATT error",
            NativeError::BluetoothStatusCode(_) => "Bluetooth status code error",
            NativeError::JavaError => "Java Throwable",
            NativeError::JavaCastError => "Java object cast failed",
            NativeError::JavaNullResult => "Java call unexpectedly returned null",
            NativeError::JavaCallReturnedFalse => "Java call unexpectedly returned false",
        };
        Error { kind, source: Some(err), message: message.to_owned() }
    }

    /// Returns the corresponding [`ErrorKind`] for this error.
    pub fn kind(&self) -> (r: ErrorKind)
        ensures
            r == self.kind,
    {
        self.kind
    }

    /// Returns the transport-level origin of this error, if there is one.
    pub fn source(&self) -> (r: Option<NativeError>)
        ensures
            r == self.source,
    {
        self.source
    }

    /// Returns the message for this error.
    pub fn message(&self) -> (r: &str)
        ensures
            r@ == self.message@,
    {
        self.message.as_str()
    }

}

/// Maps a platform status value to the outcome of the call it reports:
/// zero means success, any other value carries a status code error.
pub fn check_status_code(status: i32) -> (r: Result<(), Error>)
    ensures
        status == 0 <==> r is Ok,
        status != 0 ==> (r matches Err(e)
            && e.kind == kind_of_native(
                NativeError::BluetoothStatusCode(status_of_code(status)),
            )
            && e.source == Some(
                NativeError::BluetoothStatusCode(status_of_code(status)),
            )),
{
    if status == 0 {
        Ok(())
    } else {
        Err(Error::from_native(NativeError::BluetoothStatusCode(
            BluetoothStatusCode::from_code(status),
        )))
    }
}

/// Maps a possibly absent platform value to the outcome of the call that
/// produced it: an absent value reports an unexpected null.
pub fn non_null<T>(value: Option<T>) -> (r: Result<T, Error>)
    ensures
        value matches Some(v) ==> r matches Ok(rv) && rv == v,
        value is None ==> (r matches Err(e)
            && e.kind == ErrorKind::Internal
            && e.source == Some(NativeError::JavaNullResult)),
{
    match value {
        Some(v) => Ok(v),
        None => Err(Error::from_native(NativeError::JavaNullResult)),
    }
}

/// Maps a platform boolean result to the outcome of the call it reports:
/// a false return reports a failed call.
pub fn non_false(value: bool) -> (r: Result<(), Error>)
    ensures
        value <==> r is Ok,
        !value ==> (r matches Err(e)
            && e.kind == ErrorKind::Internal
            && e.source == Some(NativeError::JavaCallReturnedFalse)),
{
    if value {
        Ok(())
    } else {
        Err(Error::from_native(NativeError::JavaCallReturnedFalse))
    }
}

} // verus!
