//! Status codes of the tracking client and the errors built from them.
use vstd::prelude::*;
use vstd::std_specs::convert::FromSpecImpl;
use vstd::std_specs::convert::TryFromSpecImpl;

verus! {

/// The one code with which the tracking client reports success.
pub const SUCCESS_CODE: i32 = 2;

/// The largest code that has a name of its own.
pub const LAST_NAMED_CODE: i32 = 27;

/// A status returned by a call into the tracking client.
///
/// Every code has exactly one status: the codes 1 to 27 each have a named
/// variant, and every other code, 0 included, is kept in `Unknown`.
#[derive(Debug, Clone, Copy, PartialEq, Eq, Structural)]
pub enum ViconSdkStatus {
    Unknown { code: i32 },
    Unimplemented,
    Success,
    InvalidHostname,
    InvalidMulticastIp,
    ClientAlreadyConnected,
    ClientConnectionFailed,
    ServerAlreadyTransmittingMulticast,
    ServerNotTransmittingMulticast,
    NotConnected,
    NoDataFrame,
    InvalidIndex,
    InvalidCameraName,
    InvalidSubjectName,
    InvalidSegmentName,
    InvalidMarkerName,
    InvalidDeviceName,
    InvalidDeviceOutputName,
    InvalidLatencySampleRate,
    InvalidCoLinearAxes,
    LeftHandedAxes,
    HapticAlreadySet,
    EarlyDataRequested,
    LateDataRequested,
    InvalidOperation,
    Unsupported,
    ConfigurationFailed,
    NotPresent,
}

/// The status that stands for `code`.
pub open spec fn classify(code: i32) -> ViconSdkStatus {
    match code {
        1i32 => ViconSdkStatus::Unimplemented,
        2i32 => ViconSdkStatus::Success,
        3i32 => ViconSdkStatus::InvalidHostname,
        4i32 => ViconSdkStatus::InvalidMulticastIp,
        5i32 => ViconSdkStatus::ClientAlreadyConnected,
        6i32 => ViconSdkStatus::ClientConnectionFailed,
        7i32 => ViconSdkStatus::ServerAlreadyTransmittingMulticast,
        8i32 => ViconSdkStatus::ServerNotTransmittingMulticast,
        9i32 => ViconSdkStatus::NotConnected,
        10i32 => ViconSdkStatus::NoDataFrame,
        11i32 => ViconSdkStatus::InvalidIndex,
        12i32 => ViconSdkStatus::InvalidCameraName,
        13i32 => ViconSdkStatus::InvalidSubjectName,
        14i32 => ViconSdkStatus::InvalidSegmentName,
        15i32 => ViconSdkStatus::InvalidMarkerName,
        16i32 => ViconSdkStatus::InvalidDeviceName,
        17i32 => ViconSdkStatus::InvalidDeviceOutputName,
        18i32 => ViconSdkStatus::InvalidLatencySampleRate,
        19i32 => ViconSdkStatus::InvalidCoLinearAxes,
        20i32 => ViconSdkStatus::LeftHandedAxes,
        21i32 => ViconSdkStatus::HapticAlreadySet,
        22i32 => ViconSdkStatus::EarlyDataRequested,
        23i32 => ViconSdkStatus::LateDataRequested,
        24i32 => ViconSdkStatus::InvalidOperation,
        25i32 => ViconSdkStatus::Unsupported,
        26i32 => ViconSdkStatus::ConfigurationFailed,
        27i32 => ViconSdkStatus::NotPresent,
        _ => ViconSdkStatus::Unknown { code },
    }
}

impl ViconSdkStatus {
    /// The code that this status was made from, where it was made by
    /// `classify`.
    pub open spec fn raw_code(self) -> int {
        match self {
            ViconSdkStatus::Unknown { code } => code as int,
            ViconSdkStatus::Unimplemented => 1,
            ViconSdkStatus::Success => 2,
            ViconSdkStatus::InvalidHostname => 3,
            ViconSdkStatus::InvalidMulticastIp => 4,
            ViconSdkStatus::ClientAlreadyConnected => 5,
            ViconSdkStatus::ClientConnectionFailed => 6,
            ViconSdkStatus::ServerAlreadyTransmittingMulticast => 7,
            ViconSdkStatus::ServerNotTransmittingMulticast => 8,
            ViconSdkStatus::NotConnected => 9,
            ViconSdkStatus::NoDataFrame => 10,
            ViconSdkStatus::InvalidIndex => 11,
            ViconSdkStatus::InvalidCameraName => 12,
            ViconSdkStatus::InvalidSubjectName => 13,
            ViconSdkStatus::InvalidSegmentName => 14,
            ViconSdkStatus::InvalidMarkerName => 15,
            ViconSdkStatus::InvalidDeviceName => 16,
            ViconSdkStatus::InvalidDeviceOutputName => 17,
            ViconSdkStatus::InvalidLatencySampleRate => 18,
            ViconSdkStatus::InvalidCoLinearAxes => 19,
            ViconSdkStatus::LeftHandedAxes => 20,
            ViconSdkStatus::HapticAlreadySet => 21,
            ViconSdkStatus::EarlyDataRequested => 22,
            ViconSdkStatus::LateDataRequested => 23,
            ViconSdkStatus::InvalidOperation => 24,
            ViconSdkStatus::Unsupported => 25,
            ViconSdkStatus::ConfigurationFailed => 26,
            ViconSdkStatus::NotPresent => 27,
        }
    }

    /// Returns `true` iff this status represents a success.
    pub fn is_success(&self) -> (r: bool)
        ensures
            r == (*self == ViconSdkStatus::Success),
    {
        match self {
            ViconSdkStatus::Success => true,
            _ => false,
        }
    }
}

impl From<i32> for ViconSdkStatus {
    /// Classifies a status code. Every code has a status: this never fails.
    fn from(value: i32) -> (status: Self)
        ensures
            status == classify(value),
    {
        match value {
            1 => ViconSdkStatus::Unimplemented,
            2 => ViconSdkStatus::Success,
            3 => ViconSdkStatus::InvalidHostname,
            4 => ViconSdkStatus::InvalidMulticastIp,
            5 => ViconSdkStatus::ClientAlreadyConnected,
            6 => ViconSdkStatus::ClientConnectionFailed,
            7 => ViconSdkStatus::ServerAlreadyTransmittingMulticast,
            8 => ViconSdkStatus::ServerNotTransmittingMulticast,
            9 => ViconSdkStatus::NotConnected,
            10 => ViconSdkStatus::NoDataFrame,
            11 => ViconSdkStatus::InvalidIndex,
            12 => ViconSdkStatus::InvalidCameraName,
            13 => ViconSdkStatus::InvalidSubjectName,
            14 => ViconSdkStatus::InvalidSegmentName,
            15 => ViconSdkStatus::InvalidMarkerName,
            16 => ViconSdkStatus::InvalidDeviceName,
            17 => ViconSdkStatus::InvalidDeviceOutputName,
            18 => ViconSdkStatus::InvalidLatencySampleRate,
            19 => ViconSdkStatus::InvalidCoLinearAxes,
            20 => ViconSdkStatus::LeftHandedAxes,
            21 => ViconSdkStatus::HapticAlreadySet,
            22 => ViconSdkStatus::EarlyDataRequested,
            23 => ViconSdkStatus::LateDataRequested,
            24 => ViconSdkStatus::InvalidOperation,
            25 => ViconSdkStatus::Unsupported,
            26 => ViconSdkStatus::ConfigurationFailed,
            27 => ViconSdkStatus::NotPresent,
            _ => ViconSdkStatus::Unknown { code: value },
        }
    }
}

impl FromSpecImpl<i32> for ViconSdkStatus {
    open spec fn obeys_from_spec() -> bool {
        true
    }

    open spec fn from_spec(value: i32) -> Self {
        classify(value)
    }
}

/// Classification loses nothing: the code can be read back from the status.
pub proof fn lemma_classify_keeps_code(code: i32)
    ensures
        classify(code).raw_code() == code,
{
}

/// Two codes with the same status are the same code.
pub proof fn lemma_classify_injective(a: i32, b: i32)
    requires
        classify(a) == classify(b),
    ensures
        a == b,
{
    lemma_classify_keeps_code(a);
    lemma_classify_keeps_code(b);
}

/// Exactly one code is a success.
pub proof fn lemma_success_is_one_code(code: i32)
    ensures
        (classify(code) == ViconSdkStatus::Success) <==> code == SUCCESS_CODE,
        classify(code) is Unknown <==> (code < 1 || code > LAST_NAMED_CODE),
        classify(code) matches ViconSdkStatus::Unknown { code: kept } ==> kept == code,
{
}

/// What went wrong while talking to the tracking server.
#[derive(Debug, Clone, PartialEq, Eq)]
pub enum ViconError {
    /// The tracking client answered a call with this status.
    SdkError { source: ViconSdkStatus },
    /// A failure that has no status code.
    OtherError { message: String },
}

/// What a `ViconError` says, with its message as a sequence of characters.
pub enum ErrorView {
    SdkError { source: ViconSdkStatus },
    OtherError { message: Seq<char> },
}

impl View for ViconError {
    type V = ErrorView;

    open spec fn view(&self) -> ErrorView {
        match *self {
            ViconError::SdkError { source } => ErrorView::SdkError { source },
            ViconError::OtherError { message } => ErrorView::OtherError { message: message@ },
        }
    }
}

/// The error that a call answered with `code` raises: none for the success
/// code, and for every other code the error that carries its status.
pub open spec fn failure_of(code: i32) -> Option<ErrorView> {
    if code == SUCCESS_CODE {
        None
    } else {
        Some(ErrorView::SdkError { source: classify(code) })
    }
}

impl TryFrom<i32> for ViconError {
    type Error = ViconError;

    /// Sorts a status code: `Ok` for the success code, `Err` for every other,
    /// each carrying the classified status.
    fn try_from(value: i32) -> (checked: Result<Self, Self::Error>)
        ensures
            checked is Ok <==> value == SUCCESS_CODE,
            checked matches Ok(kept) ==> kept == (ViconError::SdkError {
                source: ViconSdkStatus::Success,
            }),
            checked matches Err(error) ==> error == (ViconError::SdkError {
                source: classify(value),
            }),
            checked is Err ==> Some(checked->Err_0@) == failure_of(value),
    {
        let status = ViconSdkStatus::from(value);
        if status.is_success() {
            Ok(ViconError::SdkError { source: status })
        } else {
            Err(ViconError::SdkError { source: status })
        }
    }
}

impl TryFromSpecImpl<i32> for ViconError {
    open spec fn obeys_try_from_spec() -> bool {
        true
    }

    open spec fn try_from_spec(value: i32) -> Result<Self, Self::Error> {
        if value == SUCCESS_CODE {
            Ok(ViconError::SdkError { source: ViconSdkStatus::Success })
        } else {
            Err(ViconError::SdkError { source: classify(value) })
        }
    }
}

} // verus!
