//! Negative response messages: the faulted SID and the response code.

use crate::bytes::read_u8;
use crate::error::clip32;
use crate::error::DecErr;
use crate::error::UdsError;
use crate::payload::Payload;
use vstd::prelude::*;

verus! {

/// Negative response code
#[derive(Clone, Debug, PartialEq)]
pub struct Nrc {
    /// Service Identifier of the request which triggered this answer
    pub sid: u8,
    /// Code, as in [`NrcCode`]
    pub nrc: u8,
}

impl View for Nrc {
    type V = Nrc;

    open spec fn view(&self) -> Nrc {
        *self
    }
}

impl Default for Nrc {
    fn default() -> (r: Self)
        ensures
            r@ == (Nrc { sid: 0, nrc: 0 }),
    {
        Nrc { sid: 0, nrc: 0 }
    }
}

impl Payload for Nrc {
    open spec fn inv(v: Nrc) -> bool {
        true
    }

    open spec fn enc(v: Nrc) -> Seq<u8> {
        seq![v.sid, v.nrc]
    }

    open spec fn enc_ok(v: Nrc) -> bool {
        true
    }

    open spec fn dec(bytes: Seq<u8>, n: nat) -> Result<Nrc, DecErr> {
        if n != 2 {
            Err(DecErr::TooShort { value: clip32(n), expected: 2 })
        } else if bytes.len() < 2 {
            Err(DecErr::Io)
        } else {
            Ok(Nrc { sid: bytes[0], nrc: bytes[1] })
        }
    }

    open spec fn min_len() -> nat {
        2
    }

    proof fn lemma_inv_enc_ok(v: Nrc) {
    }

    proof fn lemma_dec_fidelity(bytes: Seq<u8>, n: nat) {
        assert(Self::enc(Self::dec(bytes, n)->Ok_0) =~= bytes.take(n as int));
    }

    proof fn lemma_round_trip(v: Nrc) {
    }

    fn length(&self) -> (n: usize)
        ensures
            n == Self::enc(self@).len(),
    {
        2
    }

    fn read_replace(&mut self, data: &[u8], pos: &mut usize, payload_length: usize) -> (r: Result<
        (),
        UdsError,
    >) {
        if payload_length != 2 {
            return Err(crate::error::too_short(payload_length, 2));
        }
        if data.len() - *pos < 2 {
            return Err(UdsError::Io);
        }
        self.sid = read_u8(data, pos);
        self.nrc = read_u8(data, pos);
        Ok(())
    }

    fn read(data: &[u8], pos: &mut usize, payload_length: usize) -> (r: Result<Self, UdsError>) {
        let mut me = Nrc { sid: 0, nrc: 0 };
        match me.read_replace(data, pos, payload_length) {
            Ok(()) => Ok(me),
            Err(e) => Err(e),
        }
    }

    fn write(&self, out: &mut Vec<u8>) -> (r: Result<(), UdsError>) {
        out.push(self.sid);
        out.push(self.nrc);
        proof {
            assert(out@ =~= old(out)@ + Self::enc(self@));
        }
        Ok(())
    }
}

/// Possible negative response codes
#[derive(Copy, Clone, Debug, PartialEq, Eq, Structural)]
#[allow(missing_docs)]
pub enum NrcCode {
    PositiveResponse,
    GeneralReject,
    ServiceNotSupported,
    SubFunctionNotSupported,
    IncorrectMessageLengthOrInvalidFormat,
    ResponseTooLong,
    BusyRepeatRequest,
    ConditionsNotCorrect,
    RequestSequenceError,
    NoResponseFromSubnetComponent,
    FailurePreventsExecutionOfRequestedAction,
    RequestOutOfRange,
    SecurityAccessDenied,
    AuthenticationRequired,
    InvalidKey,
    ExceedNumberOfAttempts,
    RequiredTimeDelayNotExpired,
    SecureDataTransmissionRequired,
    SecureDataTransmissionNotAllowed,
    SecureDataVerificationFailed,
    CertificateVerificationFailedInvalidTimePeriod,
    CertificateVerificationFailedInvalidSignature,
    CertificateVerificationFailedInvalidChainOfTrust,
    CertificateVerificationFailedInvalidType,
    CertificateVerificationFailedInvalidFormat,
    CertificateVerificationFailedInvalidContent,
    CertificateVerificationFailedInvalidScope,
    CertificateVerificationFailedInvalidCertificate,
    OwnershipVerificationFailed,
    ChallengeCalculationFailed,
    SettingAccessRightsFailed,
    SessionKeyCreationDerivationFailed,
    ConfigurationDataUsageFailed,
    DeAuthenticationFailed,
    UploadDownloadNotAccepted,
    TransferDataSuspended,
    GeneralProgrammingFailure,
    WrongBlockSequenceCounter,
    RequestCorrectlyReceivedResponsePending,
    SubFunctionNotSupportedInActiveSession,
    ServiceNotSupportedInActiveSession,
    RpmTooHigh,
    RpmTooLow,
    EngineIsRunning,
    EngineIsNotRunning,
    EngineRunTimeTooLow,
    TemperatureTooHigh,
    TemperatureTooLow,
    VehicleSpeedTooHigh,
    VehicleSpeedTooLow,
    ThrottlePedalTooHigh,
    ThrottlePedalTooLow,
    TransmissionRangeNotInNeutral,
    TransmissionRangeNotInGear,
    BrakeSwitchNotClosed,
    ShifterLeverNotInPark,
    TorqueConverterClutchLocked,
    VoltageTooHigh,
    VoltageTooLow,
    ResourceTemporarilyNotAvailable,
}

/// The wire byte of each negative response code.
pub open spec fn spec_nrc_code(c: NrcCode) -> u8 {
    match c {
        NrcCode::PositiveResponse => 0x00,
        NrcCode::GeneralReject => 0x10,
        NrcCode::ServiceNotSupported => 0x11,
        NrcCode::SubFunctionNotSupported => 0x12,
        NrcCode::IncorrectMessageLengthOrInvalidFormat => 0x13,
        NrcCode::ResponseTooLong => 0x14,
        NrcCode::BusyRepeatRequest => 0x21,
        NrcCode::ConditionsNotCorrect => 0x22,
        NrcCode::RequestSequenceError => 0x24,
        NrcCode::NoResponseFromSubnetComponent => 0x25,
        NrcCode::FailurePreventsExecutionOfRequestedAction => 0x26,
        NrcCode::RequestOutOfRange => 0x31,
        NrcCode::SecurityAccessDenied => 0x33,
        NrcCode::AuthenticationRequired => 0x34,
        NrcCode::InvalidKey => 0x35,
        NrcCode::ExceedNumberOfAttempts => 0x36,
        NrcCode::RequiredTimeDelayNotExpired => 0x37,
        NrcCode::SecureDataTransmissionRequired => 0x38,
        NrcCode::SecureDataTransmissionNotAllowed => 0x39,
        NrcCode::SecureDataVerificationFailed => 0x3A,
        NrcCode::CertificateVerificationFailedInvalidTimePeriod => 0x50,
        NrcCode::CertificateVerificationFailedInvalidSignature => 0x51,
        NrcCode::CertificateVerificationFailedInvalidChainOfTrust => 0x52,
        NrcCode::CertificateVerificationFailedInvalidType => 0x53,
        NrcCode::CertificateVerificationFailedInvalidFormat => 0x54,
        NrcCode::CertificateVerificationFailedInvalidContent => 0x55,
        NrcCode::CertificateVerificationFailedInvalidScope => 0x56,
        NrcCode::CertificateVerificationFailedInvalidCertificate => 0x57,
        NrcCode::OwnershipVerificationFailed => 0x58,
        NrcCode::ChallengeCalculationFailed => 0x59,
        NrcCode::SettingAccessRightsFailed => 0x5A,
        NrcCode::SessionKeyCreationDerivationFailed => 0x5B,
        NrcCode::ConfigurationDataUsageFailed => 0x5C,
        NrcCode::DeAuthenticationFailed => 0x5D,
        NrcCode::UploadDownloadNotAccepted => 0x70,
        NrcCode::TransferDataSuspended => 0x71,
        NrcCode::GeneralProgrammingFailure => 0x72,
        NrcCode::WrongBlockSequenceCounter => 0x73,
        NrcCode::RequestCorrectlyReceivedResponsePending => 0x78,
        NrcCode::SubFunctionNotSupportedInActiveSession => 0x7E,
        NrcCode::ServiceNotSupportedInActiveSession => 0x7F,
        NrcCode::RpmTooHigh => 0x81,
        NrcCode::RpmTooLow => 0x82,
        NrcCode::EngineIsRunning => 0x83,
        NrcCode::EngineIsNotRunning => 0x84,
        NrcCode::EngineRunTimeTooLow => 0x85,
        NrcCode::TemperatureTooHigh => 0x86,
        NrcCode::TemperatureTooLow => 0x87,
        NrcCode::VehicleSpeedTooHigh => 0x88,
        NrcCode::VehicleSpeedTooLow => 0x89,
        NrcCode::ThrottlePedalTooHigh => 0x8A,
        NrcCode::ThrottlePedalTooLow => 0x8B,
        NrcCode::TransmissionRangeNotInNeutral => 0x8C,
        NrcCode::TransmissionRangeNotInGear => 0x8D,
        NrcCode::BrakeSwitchNotClosed => 0x8F,
        NrcCode::ShifterLeverNotInPark => 0x90,
        NrcCode::TorqueConverterClutchLocked => 0x91,
        NrcCode::VoltageTooHigh => 0x92,
        NrcCode::VoltageTooLow => 0x93,
        NrcCode::ResourceTemporarilyNotAvailable => 0x94,
    }
}

/// The negative response code a wire byte names, if any.
pub open spec fn spec_nrc_of_code(v: u8) -> Option<NrcCode> {
    if v == 0x00 {
        Some(NrcCode::PositiveResponse)
    } else if v == 0x10 {
        Some(NrcCode::GeneralReject)
    } else if v == 0x11 {
        Some(NrcCode::ServiceNotSupported)
    } else if v == 0x12 {
        Some(NrcCode::SubFunctionNotSupported)
    } else if v == 0x13 {
        Some(NrcCode::IncorrectMessageLengthOrInvalidFormat)
    } else if v == 0x14 {
        Some(NrcCode::ResponseTooLong)
    } else if v == 0x21 {
        Some(NrcCode::BusyRepeatRequest)
    } else if v == 0x22 {
        Some(NrcCode::ConditionsNotCorrect)
    } else if v == 0x24 {
        Some(NrcCode::RequestSequenceError)
    } else if v == 0x25 {
        Some(NrcCode::NoResponseFromSubnetComponent)
    } else if v == 0x26 {
        Some(NrcCode::FailurePreventsExecutionOfRequestedAction)
    } else if v == 0x31 {
        Some(NrcCode::RequestOutOfRange)
    } else if v == 0x33 {
        Some(NrcCode::SecurityAccessDenied)
    } else if v == 0x34 {
        Some(NrcCode::AuthenticationRequired)
    } else if v == 0x35 {
        Some(NrcCode::InvalidKey)
    } else if v == 0x36 {
        Some(NrcCode::ExceedNumberOfAttempts)
    } else if v == 0x37 {
        Some(NrcCode::RequiredTimeDelayNotExpired)
    } else if v == 0x38 {
        Some(NrcCode::SecureDataTransmissionRequired)
    } else if v == 0x39 {
        Some(NrcCode::SecureDataTransmissionNotAllowed)
    } else if v == 0x3A {
        Some(NrcCode::SecureDataVerificationFailed)
    } else if v == 0x50 {
        Some(NrcCode::CertificateVerificationFailedInvalidTimePeriod)
    } else if v == 0x51 {
        Some(NrcCode::CertificateVerificationFailedInvalidSignature)
    } else if v == 0x52 {
        Some(NrcCode::CertificateVerificationFailedInvalidChainOfTrust)
    } else if v == 0x53 {
        Some(NrcCode::CertificateVerificationFailedInvalidType)
    } else if v == 0x54 {
        Some(NrcCode::CertificateVerificationFailedInvalidFormat)
    } else if v == 0x55 {
        Some(NrcCode::CertificateVerificationFailedInvalidContent)
    } else if v == 0x56 {
        Some(NrcCode::CertificateVerificationFailedInvalidScope)
    } else if v == 0x57 {
        Some(NrcCode::CertificateVerificationFailedInvalidCertificate)
    } else if v == 0x58 {
        Some(NrcCode::OwnershipVerificationFailed)
    } else if v == 0x59 {
        Some(NrcCode::ChallengeCalculationFailed)
    } else if v == 0x5A {
        Some(NrcCode::SettingAccessRightsFailed)
    } else if v == 0x5B {
        Some(NrcCode::SessionKeyCreationDerivationFailed)
    } else if v == 0x5C {
        Some(NrcCode::ConfigurationDataUsageFailed)
    } else if v == 0x5D {
        Some(NrcCode::DeAuthenticationFailed)
    } else if v == 0x70 {
        Some(NrcCode::UploadDownloadNotAccepted)
    } else if v == 0x71 {
        Some(NrcCode::TransferDataSuspended)
    } else if v == 0x72 {
        Some(NrcCode::GeneralProgrammingFailure)
    } else if v == 0x73 {
        Some(NrcCode::WrongBlockSequenceCounter)
    } else if v == 0x78 {
        Some(NrcCode::RequestCorrectlyReceivedResponsePending)
    } else if v == 0x7E {
        Some(NrcCode::SubFunctionNotSupportedInActiveSession)
    } else if v == 0x7F {
        Some(NrcCode::ServiceNotSupportedInActiveSession)
    } else if v == 0x81 {
        Some(NrcCode::RpmTooHigh)
    } else if v == 0x82 {
        Some(NrcCode::RpmTooLow)
    } else if v == 0x83 {
        Some(NrcCode::EngineIsRunning)
    } else if v == 0x84 {
        Some(NrcCode::EngineIsNotRunning)
    } else if v == 0x85 {
        Some(NrcCode::EngineRunTimeTooLow)
    } else if v == 0x86 {
        Some(NrcCode::TemperatureTooHigh)
    } else if v == 0x87 {
        Some(NrcCode::TemperatureTooLow)
    } else if v == 0x88 {
        Some(NrcCode::VehicleSpeedTooHigh)
    } else if v == 0x89 {
        Some(NrcCode::VehicleSpeedTooLow)
    } else if v == 0x8A {
        Some(NrcCode::ThrottlePedalTooHigh)
    } else if v == 0x8B {
        Some(NrcCode::ThrottlePedalTooLow)
    } else if v == 0x8C {
        Some(NrcCode::TransmissionRangeNotInNeutral)
    } else if v == 0x8D {
        Some(NrcCode::TransmissionRangeNotInGear)
    } else if v == 0x8F {
        Some(NrcCode::BrakeSwitchNotClosed)
    } else if v == 0x90 {
        Some(NrcCode::ShifterLeverNotInPark)
    } else if v == 0x91 {
        Some(NrcCode::TorqueConverterClutchLocked)
    } else if v == 0x92 {
        Some(NrcCode::VoltageTooHigh)
    } else if v == 0x93 {
        Some(NrcCode::VoltageTooLow)
    } else if v == 0x94 {
        Some(NrcCode::ResourceTemporarilyNotAvailable)
    } else {
        None
    }
}

/// Looking a code's wire byte back up gives the code: the table has no
/// duplicate bytes.
pub proof fn lemma_nrc_code_round_trip(c: NrcCode)
    ensures
        spec_nrc_of_code(spec_nrc_code(c)) == Some(c),
{
}

impl NrcCode {
    /// The wire byte of this negative response code.
    pub fn code(&self) -> (v: u8)
        ensures
            v == spec_nrc_code(*self),
    {
        match self {
            NrcCode::PositiveResponse => 0x00,
            NrcCode::GeneralReject => 0x10,
            NrcCode::ServiceNotSupported => 0x11,
            NrcCode::SubFunctionNotSupported => 0x12,
            NrcCode::IncorrectMessageLengthOrInvalidFormat => 0x13,
            NrcCode::ResponseTooLong => 0x14,
            NrcCode::BusyRepeatRequest => 0x21,
            NrcCode::ConditionsNotCorrect => 0x22,
            NrcCode::RequestSequenceError => 0x24,
            NrcCode::NoResponseFromSubnetComponent => 0x25,
            NrcCode::FailurePreventsExecutionOfRequestedAction => 0x26,
            NrcCode::RequestOutOfRange => 0x31,
            NrcCode::SecurityAccessDenied => 0x33,
            NrcCode::AuthenticationRequired => 0x34,
            NrcCode::InvalidKey => 0x35,
            NrcCode::ExceedNumberOfAttempts => 0x36,
            NrcCode::RequiredTimeDelayNotExpired => 0x37,
            NrcCode::SecureDataTransmissionRequired => 0x38,
            NrcCode::SecureDataTransmissionNotAllowed => 0x39,
            NrcCode::SecureDataVerificationFailed => 0x3A,
            NrcCode::CertificateVerificationFailedInvalidTimePeriod => 0x50,
            NrcCode::CertificateVerificationFailedInvalidSignature => 0x51,
            NrcCode::CertificateVerificationFailedInvalidChainOfTrust => 0x52,
            NrcCode::CertificateVerificationFailedInvalidType => 0x53,
            NrcCode::CertificateVerificationFailedInvalidFormat => 0x54,
            NrcCode::CertificateVerificationFailedInvalidContent => 0x55,
            NrcCode::CertificateVerificationFailedInvalidScope => 0x56,
            NrcCode::CertificateVerificationFailedInvalidCertificate => 0x57,
            NrcCode::OwnershipVerificationFailed => 0x58,
            NrcCode::ChallengeCalculationFailed => 0x59,
            NrcCode::SettingAccessRightsFailed => 0x5A,
            NrcCode::SessionKeyCreationDerivationFailed => 0x5B,
            NrcCode::ConfigurationDataUsageFailed => 0x5C,
            NrcCode::DeAuthenticationFailed => 0x5D,
            NrcCode::UploadDownloadNotAccepted => 0x70,
            NrcCode::TransferDataSuspended => 0x71,
            NrcCode::GeneralProgrammingFailure => 0x72,
            NrcCode::WrongBlockSequenceCounter => 0x73,
            NrcCode::RequestCorrectlyReceivedResponsePending => 0x78,
            NrcCode::SubFunctionNotSupportedInActiveSession => 0x7E,
            NrcCode::ServiceNotSupportedInActiveSession => 0x7F,
            NrcCode::RpmTooHigh => 0x81,
            NrcCode::RpmTooLow => 0x82,
            NrcCode::EngineIsRunning => 0x83,
            NrcCode::EngineIsNotRunning => 0x84,
            NrcCode::EngineRunTimeTooLow => 0x85,
            NrcCode::TemperatureTooHigh => 0x86,
            NrcCode::TemperatureTooLow => 0x87,
            NrcCode::VehicleSpeedTooHigh => 0x88,
            NrcCode::VehicleSpeedTooLow => 0x89,
            NrcCode::ThrottlePedalTooHigh => 0x8A,
            NrcCode::ThrottlePedalTooLow => 0x8B,
            NrcCode::TransmissionRangeNotInNeutral => 0x8C,
            NrcCode::TransmissionRangeNotInGear => 0x8D,
            NrcCode::BrakeSwitchNotClosed => 0x8F,
            NrcCode::ShifterLeverNotInPark => 0x90,
            NrcCode::TorqueConverterClutchLocked => 0x91,
            NrcCode::VoltageTooHigh => 0x92,
            NrcCode::VoltageTooLow => 0x93,
            NrcCode::ResourceTemporarilyNotAvailable => 0x94,
        }
    }

    /// The negative response code a wire byte names, or `None` for a byte
    /// outside the closed enumeration.
    pub fn from_code(v: u8) -> (r: Option<NrcCode>)
        ensures
            r == spec_nrc_of_code(v),
    {
        match v {
            0x00 => Some(NrcCode::PositiveResponse),
            0x10 => Some(NrcCode::GeneralReject),
            0x11 => Some(NrcCode::ServiceNotSupported),
            0x12 => Some(NrcCode::SubFunctionNotSupported),
            0x13 => Some(NrcCode::IncorrectMessageLengthOrInvalidFormat),
            0x14 => Some(NrcCode::ResponseTooLong),
            0x21 => Some(NrcCode::BusyRepeatRequest),
            0x22 => Some(NrcCode::ConditionsNotCorrect),
            0x24 => Some(NrcCode::RequestSequenceError),
            0x25 => Some(NrcCode::NoResponseFromSubnetComponent),
            0x26 => Some(NrcCode::FailurePreventsExecutionOfRequestedAction),
            0x31 => Some(NrcCode::RequestOutOfRange),
            0x33 => Some(NrcCode::SecurityAccessDenied),
            0x34 => Some(NrcCode::AuthenticationRequired),
            0x35 => Some(NrcCode::InvalidKey),
            0x36 => Some(NrcCode::ExceedNumberOfAttempts),
            0x37 => Some(NrcCode::RequiredTimeDelayNotExpired),
            0x38 => Some(NrcCode::SecureDataTransmissionRequired),
            0x39 => Some(NrcCode::SecureDataTransmissionNotAllowed),
            0x3A => Some(NrcCode::SecureDataVerificationFailed),
            0x50 => Some(NrcCode::CertificateVerificationFailedInvalidTimePeriod),
            0x51 => Some(NrcCode::CertificateVerificationFailedInvalidSignature),
            0x52 => Some(NrcCode::CertificateVerificationFailedInvalidChainOfTrust),
            0x53 => Some(NrcCode::CertificateVerificationFailedInvalidType),
            0x54 => Some(NrcCode::CertificateVerificationFailedInvalidFormat),
            0x55 => Some(NrcCode::CertificateVerificationFailedInvalidContent),
            0x56 => Some(NrcCode::CertificateVerificationFailedInvalidScope),
            0x57 => Some(NrcCode::CertificateVerificationFailedInvalidCertificate),
            0x58 => Some(NrcCode::OwnershipVerificationFailed),
            0x59 => Some(NrcCode::ChallengeCalculationFailed),
            0x5A => Some(NrcCode::SettingAccessRightsFailed),
            0x5B => Some(NrcCode::SessionKeyCreationDerivationFailed),
            0x5C => Some(NrcCode::ConfigurationDataUsageFailed),
            0x5D => Some(NrcCode::DeAuthenticationFailed),
            0x70 => Some(NrcCode::UploadDownloadNotAccepted),
            0x71 => Some(NrcCode::TransferDataSuspended),
            0x72 => Some(NrcCode::GeneralProgrammingFailure),
            0x73 => Some(NrcCode::WrongBlockSequenceCounter),
            0x78 => Some(NrcCode::RequestCorrectlyReceivedResponsePending),
            0x7E => Some(NrcCode::SubFunctionNotSupportedInActiveSession),
            0x7F => Some(NrcCode::ServiceNotSupportedInActiveSession),
            0x81 => Some(NrcCode::RpmTooHigh),
            0x82 => Some(NrcCode::RpmTooLow),
            0x83 => Some(NrcCode::EngineIsRunning),
            0x84 => Some(NrcCode::EngineIsNotRunning),
            0x85 => Some(NrcCode::EngineRunTimeTooLow),
            0x86 => Some(NrcCode::TemperatureTooHigh),
            0x87 => Some(NrcCode::TemperatureTooLow),
            0x88 => Some(NrcCode::VehicleSpeedTooHigh),
            0x89 => Some(NrcCode::VehicleSpeedTooLow),
            0x8A => Some(NrcCode::ThrottlePedalTooHigh),
            0x8B => Some(NrcCode::ThrottlePedalTooLow),
            0x8C => Some(NrcCode::TransmissionRangeNotInNeutral),
            0x8D => Some(NrcCode::TransmissionRangeNotInGear),
            0x8F => Some(NrcCode::BrakeSwitchNotClosed),
            0x90 => Some(NrcCode::ShifterLeverNotInPark),
            0x91 => Some(NrcCode::TorqueConverterClutchLocked),
            0x92 => Some(NrcCode::VoltageTooHigh),
            0x93 => Some(NrcCode::VoltageTooLow),
            0x94 => Some(NrcCode::ResourceTemporarilyNotAvailable),
            _ => None,
        }
    }
}

} // verus!
