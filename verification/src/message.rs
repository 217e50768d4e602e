//! All the *messages* handled by the API, re-exported in one place.

pub use crate::did::ReadDIDReq;
pub use crate::did::ReadDIDRsp;
pub use crate::did::WriteDIDReq;
pub use crate::did::WriteDIDRsp;
pub use crate::dtc::ByDTCMaskRecord;
pub use crate::dtc::ByDTCMaskRecordRecordNumber;
pub use crate::dtc::ByDTCSeverityMaskRecord;
pub use crate::dtc::ByDTCStatusMask;
pub use crate::dtc::ByFunctionalGroupIdentifier;
pub use crate::dtc::DTCAndSeverityRecord;
pub use crate::dtc::DTCExtDataRecordNumber;
pub use crate::dtc::DTCFunctionalUnit;
pub use crate::dtc::DTCMaskRecord;
pub use crate::dtc::DTCReqSubfunction;
pub use crate::dtc::DTCRspSubfunction;
pub use crate::dtc::DTCSeverity;
pub use crate::dtc::DTCSeverityMaskRecord;
pub use crate::dtc::DTCSnapshotRecord;
pub use crate::dtc::DTCSnapshotRecordNumber;
pub use crate::dtc::DTCStatusMask;
pub use crate::dtc::DTCStoredDataRecordNumber;
pub use crate::dtc::DidSnapshot;
pub use crate::dtc::Dtc;
pub use crate::dtc::DtcAndFaultCounter;
pub use crate::dtc::DtcAndStatusAndExtDataRecord;
pub use crate::dtc::DtcAndStatusRecord;
pub use crate::dtc::DtcSnapshotRecords;
pub use crate::dtc::DtcStoredDataRecord;
pub use crate::dtc::ExtDataRecordAndNumber;
pub use crate::dtc::FunctionalGroupIdentifier;
pub use crate::dtc::GotDTCCount;
pub use crate::dtc::GotDtcRecordAndSnapshotNumber;
pub use crate::dtc::GotListDtcAndStatusRecord;
pub use crate::dtc::MemorySelection;
pub use crate::dtc::ReadDTCReq;
pub use crate::dtc::ReadDTCRsp;
pub use crate::dtc::ReportDTCByStatusMask;
pub use crate::dtc::ReportDTCBySeverityMaskRecord;
pub use crate::dtc::ReportDTCExtDataRecordByDTCNumber;
pub use crate::dtc::ReportDTCExtDataRecordByRecordNumber;
pub use crate::dtc::ReportDTCSnapshotIdentification;
pub use crate::dtc::ReportDTCSnapshotRecordByDTCNumber;
pub use crate::dtc::ReportDTCStoredDataByRecordNumber;
pub use crate::dtc::ReportEmissionsOBDDTCByStatusMask;
pub use crate::dtc::ReportMirrorMemoryDTCByStatusMask;
pub use crate::dtc::ReportMirrorMemoryDTCExtDataRecordByDTCNumber;
pub use crate::dtc::ReportNumberOfDTCByStatusMask;
pub use crate::dtc::ReportNumberOfDTCBySeverityMaskRecord;
pub use crate::dtc::ReportNumberOfEmissionsOBDDTCByStatusMask;
pub use crate::dtc::ReportNumberOfMirrorMemoryDTCByStatusMask;
pub use crate::dtc::ReportSeverityInformationOfDTC;
pub use crate::dtc::ReportUserDefMemoryDTCByStatusMask;
pub use crate::dtc::ReportUserDefMemoryDTCExtDataRecordByDTCNumber;
pub use crate::dtc::ReportUserDefMemoryDTCSnapshotRecordByDTCNumber;
pub use crate::dtc::ReportWWHOBDDTCByMaskRecord;
pub use crate::dtc::ReportWWHOBDDTCWithPermanentStatus;
pub use crate::dtc::RecordNumberAndIdentifierAndSnapshot;
pub use crate::dtc::ResponseDTCByStatusMask;
pub use crate::dtc::ResponseDTCBySeverityMaskRecord;
pub use crate::dtc::ResponseDTCExtDataRecordByDTCNumber;
pub use crate::dtc::ResponseDTCExtDataRecordByRecordNumber;
pub use crate::dtc::ResponseDTCFaultDetectionCounter;
pub use crate::dtc::ResponseDTCSnapshotIdentification;
pub use crate::dtc::ResponseDTCSnapshotRecordByDTCNumber;
pub use crate::dtc::ResponseDTCStoredDataByRecordNumber;
pub use crate::dtc::ResponseDTCWithPermanentStatus;
pub use crate::dtc::ResponseEmissionsOBDDTCByStatusMask;
pub use crate::dtc::ResponseFirstConfirmedDTC;
pub use crate::dtc::ResponseFirstTestFailedDTC;
pub use crate::dtc::ResponseMirrorMemoryDTCByStatusMask;
pub use crate::dtc::ResponseMostRecentConfirmedDTC;
pub use crate::dtc::ResponseMostRecentTestFailedDTC;
pub use crate::dtc::ResponseNumberOfDTCByStatusMask;
pub use crate::dtc::ResponseNumberOfDTCBySeverityMaskRecord;
pub use crate::dtc::ResponseNumberOfEmissionsOBDDTCByStatusMask;
pub use crate::dtc::ResponseNumberOfMirrorMemoryDTCByStatusMask;
pub use crate::dtc::ResponseSupportedDTC;
pub use crate::dtc::ResponseUserDefMemoryDTCByStatusMask;
pub use crate::dtc::ResponseUserDefMemoryDTCExtDataRecordByDTCNumber;
pub use crate::dtc::ResponseUserDefMemoryDTCSnapshotRecordByDTCNumber;
pub use crate::file_transfer::ModeOfOperation;
pub use crate::file_transfer::RequestFileTransferReq;
pub use crate::file_transfer::RequestFileTransferRsp;
pub use crate::nrc::Nrc;
pub use crate::nrc::NrcCode;
pub use crate::rawuds::RawUds;
pub use crate::transfers::RequestDownloadReq;
pub use crate::transfers::RequestDownloadRsp;
pub use crate::transfers::TransferDataReq;
pub use crate::transfers::TransferDataRsp;
pub use crate::transfers::TransferExitReq;
pub use crate::transfers::TransferExitRsp;

use vstd::prelude::*;

verus! {

} // verus!
