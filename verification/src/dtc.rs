//! ReadDTCInformation messages: a one-byte subfunction index selects one of
//! the DTC (Diagnostic Trouble Code) report shapes, each a small filter
//! record on request and a record list on response.
//!
//! Response shapes whose record lists nest a variable-length field before
//! the end of the payload cannot be delimited by a count-less wire format;
//! those subfunctions are rejected by this codec (see the crate
//! description of the length-less sequence rule).

use crate::bytes::be_bytes;
use crate::bytes::be_val;
use crate::bytes::lemma_be_bytes_len;
use crate::bytes::lemma_be_bytes_val;
use crate::bytes::lemma_be_val_bound;
use crate::bytes::lemma_be_val_bytes;
use crate::bytes::lemma_pow256_units;
use crate::bytes::read_be;
use crate::bytes::read_u8;
use crate::bytes::read_vec;
use crate::bytes::write_be;
use crate::bytes::write_bytes;
use crate::error::clip32;
use crate::error::DecErr;
use crate::error::UdsError;
use crate::payload::Payload;
use vstd::prelude::*;
use vstd::string::StringExecFns;

verus! {

broadcast use vstd::array::group_array_axioms;

/// DTC code
#[derive(Clone, Copy, Debug, PartialEq)]
pub struct Dtc {
    /// DTC value
    pub dtc: [u8; 3],
}

impl Dtc {
    /// Create a DTC code
    pub fn new(dtc_high_byte: u8, dtc_middle_byte: u8, dtc_low_byte: u8) -> (r: Dtc)
        ensures
            r == (Dtc { dtc: [dtc_high_byte, dtc_middle_byte, dtc_low_byte] }),
    {
        Dtc { dtc: [dtc_high_byte, dtc_middle_byte, dtc_low_byte] }
    }
}

/// The DTC whose three bytes are the low three bytes of `v`, high to low.
pub open spec fn spec_dtc_from_u32(v: u32) -> Dtc {
    Dtc { dtc: [(v / 0x1_0000 % 256) as u8, (v / 256 % 256) as u8, (v % 256) as u8] }
}

impl From<u32> for Dtc {
    fn from(v: u32) -> (r: Dtc) {
        Dtc::new((v / 0x1_0000 % 256) as u8, (v / 256 % 256) as u8, (v % 256) as u8)
    }
}

impl vstd::std_specs::convert::FromSpecImpl<u32> for Dtc {
    open spec fn obeys_from_spec() -> bool {
        true
    }

    open spec fn from_spec(v: u32) -> Dtc {
        spec_dtc_from_u32(v)
    }
}

impl From<[u8; 3]> for Dtc {
    fn from(v: [u8; 3]) -> (r: Dtc) {
        Dtc { dtc: v }
    }
}

impl vstd::std_specs::convert::FromSpecImpl<[u8; 3]> for Dtc {
    open spec fn obeys_from_spec() -> bool {
        true
    }

    open spec fn from_spec(v: [u8; 3]) -> Dtc {
        Dtc { dtc: v }
    }
}

impl Default for Dtc {
    fn default() -> (r: Self)
        ensures
            r == (Dtc { dtc: [0u8, 0u8, 0u8] }),
    {
        Dtc { dtc: [0, 0, 0] }
    }
}

/// DTC status mask
pub type DTCStatusMask = u8;

/// DTC mask
pub type DTCMaskRecord = Dtc;

/// Snapshot record number
pub type DTCSnapshotRecordNumber = u8;

/// Stored data record number
pub type DTCStoredDataRecordNumber = u8;

/// Ext data record number
pub type DTCExtDataRecordNumber = u8;

/// Severity mask
pub type DTCSeverityMaskRecord = u16;

/// Memory selection
pub type MemorySelection = u8;

/// Functional group identifier
pub type FunctionalGroupIdentifier = u8;

/// DTC severity
pub type DTCSeverity = u8;

/// Function unit
pub type DTCFunctionalUnit = u8;

/// Filter of status bitmask
#[derive(Debug, Clone, Copy, PartialEq)]
pub struct ByDTCStatusMask {
    /// Mask to filter
    pub mask: DTCStatusMask,
}

/// Filter of DTC bitmask
#[derive(Debug, Clone, Copy, PartialEq)]
pub struct ByDTCMaskRecord {
    /// Mask to filter
    pub mask: DTCMaskRecord,
}

/// Filter by DTC record bitmask and snapshot record number
#[derive(Debug, Clone, Copy, PartialEq)]
pub struct ByDTCMaskRecordRecordNumber {
    /// Mask of the record
    pub mask: DTCMaskRecord,
    /// Mask of the snapshot record number
    pub record: DTCSnapshotRecordNumber,
}

/// Filter by DTC severity record
#[derive(Debug, Clone, Copy, PartialEq)]
pub struct ByDTCSeverityMaskRecord {
    /// Mask of the severity
    pub mask: DTCSeverityMaskRecord,
}

/// Filter by functional group identifier
#[derive(Debug, Clone, Copy, PartialEq)]
pub struct ByFunctionalGroupIdentifier {
    /// Functional Group Identifier
    pub group: FunctionalGroupIdentifier,
}

#[allow(missing_docs)]
pub type ReportNumberOfDTCByStatusMask = ByDTCStatusMask;

#[allow(missing_docs)]
pub type ReportDTCByStatusMask = ByDTCStatusMask;

#[allow(missing_docs)]
pub type ReportDTCSnapshotIdentification = ByDTCMaskRecordRecordNumber;

#[allow(missing_docs)]
pub type ReportDTCSnapshotRecordByDTCNumber = ByDTCMaskRecordRecordNumber;

/// Filter stored data by record number
#[derive(Debug, Clone, Copy, PartialEq)]
pub struct ReportDTCStoredDataByRecordNumber {
    /// Record
    pub record: DTCStoredDataRecordNumber,
}

#[allow(missing_docs)]
pub type ReportDTCExtDataRecordByDTCNumber = ByDTCMaskRecord;

#[allow(missing_docs)]
pub type ReportNumberOfDTCBySeverityMaskRecord = ByDTCSeverityMaskRecord;

#[allow(missing_docs)]
pub type ReportDTCBySeverityMaskRecord = ByDTCSeverityMaskRecord;

#[allow(missing_docs)]
pub type ReportSeverityInformationOfDTC = ByDTCMaskRecord;

#[allow(missing_docs)]
pub type ReportMirrorMemoryDTCByStatusMask = ByDTCStatusMask;

#[allow(missing_docs)]
pub type ReportMirrorMemoryDTCExtDataRecordByDTCNumber = ByDTCMaskRecord;

#[allow(missing_docs)]
pub type ReportNumberOfMirrorMemoryDTCByStatusMask = ByDTCStatusMask;

#[allow(missing_docs)]
pub type ReportNumberOfEmissionsOBDDTCByStatusMask = ByDTCStatusMask;

#[allow(missing_docs)]
pub type ReportEmissionsOBDDTCByStatusMask = ByDTCStatusMask;

/// `Filter` by `ExtDataRecordNumber`
#[derive(Debug, Clone, Copy, PartialEq)]
pub struct ReportDTCExtDataRecordByRecordNumber {
    /// `ExtData` record number
    pub record: DTCExtDataRecordNumber,
}

#[allow(missing_docs)]
pub type ReportUserDefMemoryDTCByStatusMask = ByDTCStatusMask;

/// Filter by snapshot record and DTC number
#[derive(Debug, Clone, Copy, PartialEq)]
pub struct ReportUserDefMemoryDTCSnapshotRecordByDTCNumber {
    /// DTC mask
    pub mask: DTCMaskRecord,
    /// Record
    pub record: DTCSnapshotRecordNumber,
    /// Memory selection
    pub memory: MemorySelection,
}

/// Filter by DTC, `ExtData` record number and memory selection
#[derive(Debug, Clone, Copy, PartialEq)]
pub struct ReportUserDefMemoryDTCExtDataRecordByDTCNumber {
    /// DTC mask
    pub mask: DTCMaskRecord,
    /// Record
    pub record: DTCExtDataRecordNumber,
    /// Memory selection
    pub memory: MemorySelection,
}

#[allow(missing_docs)]
pub type ReportWWHOBDDTCByMaskRecord = ByFunctionalGroupIdentifier;

#[allow(missing_docs)]
pub type ReportWWHOBDDTCWithPermanentStatus = ByFunctionalGroupIdentifier;

/// One DTC request subfunction
#[derive(Clone, Debug, PartialEq)]
#[allow(missing_docs)]
pub enum DTCReqSubfunction {
    Reserved1,
    ReportNumberOfDTCByStatusMask(ReportNumberOfDTCByStatusMask),
    ReportDTCByStatusMask(ReportDTCByStatusMask),
    ReportDTCSnapshotIdentification(ReportDTCSnapshotIdentification),
    ReportDTCSnapshotRecordByDTCNumber(ReportDTCSnapshotRecordByDTCNumber),
    ReportDTCStoredDataByRecordNumber(ReportDTCStoredDataByRecordNumber),
    ReportDTCExtDataRecordByDTCNumber(ReportDTCExtDataRecordByDTCNumber),
    ReportNumberOfDTCBySeverityMaskRecord(ReportNumberOfDTCBySeverityMaskRecord),
    ReportDTCBySeverityMaskRecord(ReportDTCBySeverityMaskRecord),
    ReportSeverityInformationOfDTC(ReportSeverityInformationOfDTC),
    ReportSupportedDTC,
    ReportFirstTestFailedDTC,
    ReportFirstConfirmedDTC,
    ReportMostRecentTestFailedDTC,
    ReportMostRecentConfirmedDTC,
    ReportMirrorMemoryDTCByStatusMask(ReportMirrorMemoryDTCByStatusMask),
    ReportMirrorMemoryDTCExtDataRecordByDTCNumber(ReportMirrorMemoryDTCExtDataRecordByDTCNumber),
    ReportNumberOfMirrorMemoryDTCByStatusMask(ReportNumberOfMirrorMemoryDTCByStatusMask),
    ReportNumberOfEmissionsOBDDTCByStatusMask(ReportNumberOfEmissionsOBDDTCByStatusMask),
    ReportEmissionsOBDDTCByStatusMask(ReportEmissionsOBDDTCByStatusMask),
    ReportDTCFaultDetectionCounter,
    ReportDTCWithPermanentStatus,
    ReportDTCExtDataRecordByRecordNumber(ReportDTCExtDataRecordByRecordNumber),
    ReportUserDefMemoryDTCByStatusMask(ReportUserDefMemoryDTCByStatusMask),
    ReportUserDefMemoryDTCSnapshotRecordByDTCNumber(
        ReportUserDefMemoryDTCSnapshotRecordByDTCNumber,
    ),
    ReportUserDefMemoryDTCExtDataRecordByDTCNumber(ReportUserDefMemoryDTCExtDataRecordByDTCNumber),
    Reserved2,
    ReportWWHOBDDTCByMaskRecord(ReportWWHOBDDTCByMaskRecord),
    Reserved3,
    ReportWWHOBDDTCWithPermanentStatus(ReportWWHOBDDTCWithPermanentStatus),
    Reserved4,
}

/// Diagnostic troubleshooting code request
#[derive(Clone, Debug, PartialEq)]
pub struct ReadDTCReq {
    /// One of all diagnostic requests
    pub sub: DTCReqSubfunction,
}

impl Default for DTCReqSubfunction {
    fn default() -> (r: Self)
        ensures
            r == DTCReqSubfunction::Reserved1,
    {
        DTCReqSubfunction::Reserved1
    }
}

impl Default for ReadDTCReq {
    fn default() -> (r: Self)
        ensures
            r@ == (ReadDTCReq { sub: DTCReqSubfunction::Reserved1 }),
    {
        ReadDTCReq { sub: DTCReqSubfunction::Reserved1 }
    }
}

impl View for ReadDTCReq {
    type V = ReadDTCReq;

    open spec fn view(&self) -> ReadDTCReq {
        *self
    }
}

/// Result of DTC count
#[derive(Debug, Clone, Copy, PartialEq)]
pub struct GotDTCCount {
    /// DTC mask
    pub mask: DTCStatusMask,
    /// DTC format
    pub format: u8,
    /// Number of DTC found
    pub count: u16,
}

#[allow(missing_docs)]
pub type ResponseNumberOfDTCByStatusMask = GotDTCCount;

#[allow(missing_docs)]
pub type ResponseNumberOfDTCBySeverityMaskRecord = GotDTCCount;

#[allow(missing_docs)]
pub type ResponseNumberOfMirrorMemoryDTCByStatusMask = GotDTCCount;

#[allow(missing_docs)]
pub type ResponseNumberOfEmissionsOBDDTCByStatusMask = GotDTCCount;

/// Result of DTC and status
#[derive(Debug, Clone, Copy, PartialEq)]
pub struct DtcAndStatusRecord {
    /// DTC
    pub dtc: Dtc,
    /// Status
    pub status: DTCStatusMask,
}

/// Result of DTC and status records
#[derive(Debug, Clone, PartialEq)]
pub struct GotListDtcAndStatusRecord {
    /// Availability mask
    pub availability_mask: DTCStatusMask,
    /// List of Dtc and status records
    pub dtcs: Vec<DtcAndStatusRecord>,
}

#[allow(missing_docs)]
pub type ResponseDTCByStatusMask = GotListDtcAndStatusRecord;

#[allow(missing_docs)]
pub type ResponseSupportedDTC = GotListDtcAndStatusRecord;

#[allow(missing_docs)]
pub type ResponseFirstTestFailedDTC = GotListDtcAndStatusRecord;

#[allow(missing_docs)]
pub type ResponseFirstConfirmedDTC = GotListDtcAndStatusRecord;

#[allow(missing_docs)]
pub type ResponseMostRecentTestFailedDTC = GotListDtcAndStatusRecord;

#[allow(missing_docs)]
pub type ResponseMostRecentConfirmedDTC = GotListDtcAndStatusRecord;

#[allow(missing_docs)]
pub type ResponseMirrorMemoryDTCByStatusMask = GotListDtcAndStatusRecord;

#[allow(missing_docs)]
pub type ResponseEmissionsOBDDTCByStatusMask = GotListDtcAndStatusRecord;

#[allow(missing_docs)]
pub type ResponseDTCWithPermanentStatus = GotListDtcAndStatusRecord;

/// Result of DTC and Snapshot record numbers
#[derive(Debug, Clone, PartialEq)]
pub struct GotDtcRecordAndSnapshotNumber {
    /// DTC and Snapshot record numbers
    pub records: Vec<(Dtc, DTCSnapshotRecordNumber)>,
}

#[allow(missing_docs)]
pub type ResponseDTCSnapshotIdentification = GotDtcRecordAndSnapshotNumber;

/// Response of DTC, status and snapshot records
#[derive(Debug, Clone, PartialEq)]
pub struct ResponseDTCSnapshotRecordByDTCNumber {
    /// DTC and its status
    pub dtc_status: DtcAndStatusRecord,
    /// Snapshot records
    pub dtc_snapshot_records: DtcSnapshotRecords,
}

/// DTC snapshot records
#[derive(Debug, Clone, PartialEq)]
pub struct DtcSnapshotRecords {
    /// Snapshot record number
    pub dtc_snapshot_record_number: u8,
    /// Number DIDs in the snapshot
    pub dtc_snapshot_record_number_of_identifiers: u8,
    /// DIDs in the snapshot
    pub dtc_snapshot_record: DTCSnapshotRecord,
}

/// DIDs in a snapshot
pub type DTCSnapshotRecord = Vec<DidSnapshot>;

/// Single DID in a snapshot
#[derive(Debug, Clone, PartialEq)]
pub struct DidSnapshot {
    /// Diagnostic identifier
    pub did: u16,
    /// Value of the Diagnostic Identifier
    pub value: Vec<u8>,
}

/// Response of stored data records
#[derive(Debug, Clone, PartialEq)]
pub struct ResponseDTCStoredDataByRecordNumber {
    /// Records
    pub records: Vec<DtcStoredDataRecord>,
}

/// Response of a stored data record
#[derive(Debug, Clone, PartialEq)]
pub struct DtcStoredDataRecord {
    /// Record number
    pub record_number: DTCStoredDataRecordNumber,
    /// DTC and DTC status
    pub dtc_status: DtcAndStatusRecord,
    /// Number of Diagnostic Identifiers
    pub number_identifiers: u8,
    /// DIDs and their values
    pub data_records: DTCSnapshotRecord,
}

/// Response of DTC, its status and a list of `ExtData` records
#[derive(Debug, Clone, PartialEq)]
pub struct ResponseDTCExtDataRecordByDTCNumber {
    /// DTC and its status
    pub dtc_status: DtcAndStatusRecord,
    /// `ExtData` records
    pub records: Vec<ExtDataRecordAndNumber>,
}

/// `ExtData` record
#[derive(Debug, Clone, PartialEq)]
pub struct ExtDataRecordAndNumber {
    /// Record number
    pub record_number: DTCExtDataRecordNumber,
    /// `ExtData` value
    pub extended_data: Vec<u8>,
}

/// Response of DTC and its severity records
#[derive(Debug, Clone, PartialEq)]
pub struct ResponseDTCBySeverityMaskRecord {
    /// Availability mask
    pub availability_mask: DTCStatusMask,
    /// DTC and severity record
    pub records: Vec<DTCAndSeverityRecord>,
}

/// DTC and severity record
#[derive(Debug, Clone, Copy, PartialEq)]
pub struct DTCAndSeverityRecord {
    /// DTC severity
    pub severity: DTCSeverity,
    /// Functional unit
    pub functional_unit: DTCFunctionalUnit,
    /// DTC and its status
    pub dtc_status: DtcAndStatusRecord,
}

/// Response of DTC and fault counter
#[derive(Debug, Clone, PartialEq)]
pub struct ResponseDTCFaultDetectionCounter {
    /// DTC and fault counter
    pub faults: Vec<DtcAndFaultCounter>,
}

/// DTC and fault counter
#[derive(Debug, Clone, Copy, PartialEq)]
pub struct DtcAndFaultCounter {
    /// DTC
    pub dtc: Dtc,
    /// Counter
    pub counter: u8,
}

/// Response DTC and its `ExtData` records
#[derive(Debug, Clone, PartialEq)]
pub struct ResponseDTCExtDataRecordByRecordNumber {
    /// DTC and status record
    pub dtc_status: DtcAndStatusRecord,
    /// `ExtData` records
    pub records: Vec<DtcAndStatusAndExtDataRecord>,
}

/// DTC status with its `ExtData`
#[derive(Debug, Clone, PartialEq)]
pub struct DtcAndStatusAndExtDataRecord {
    /// DTC and its status
    pub dtc_status: DtcAndStatusRecord,
    /// `ExtData`
    pub extended_data: Vec<u8>,
}

/// Response of Memory selection by status mask
#[derive(Debug, Clone, PartialEq)]
pub struct ResponseUserDefMemoryDTCByStatusMask {
    /// Memory selection
    pub memory: MemorySelection,
    /// DTC status mask
    pub availability_mask: DTCStatusMask,
    /// List of records
    pub records: Vec<DtcAndStatusRecord>,
}

/// Response of Memory selection with its DID snapshot records
#[derive(Debug, Clone, PartialEq)]
pub struct ResponseUserDefMemoryDTCSnapshotRecordByDTCNumber {
    /// Memory selection
    pub memory: MemorySelection,
    /// DTC and its status
    pub dtc_status: DtcAndStatusRecord,
    /// List of records containing a DID snapshot
    pub records: Vec<RecordNumberAndIdentifierAndSnapshot>,
}

/// Record containing a DID snapshot
#[derive(Debug, Clone, PartialEq)]
pub struct RecordNumberAndIdentifierAndSnapshot {
    /// Record number
    pub record_number: DTCStoredDataRecordNumber,
    /// Number of identifiers
    pub number_identifiers: u8,
    /// DID with its value
    pub record: DidSnapshot,
}

/// Response of Memory selection with its `ExtData` records
#[derive(Debug, Clone, PartialEq)]
pub struct ResponseUserDefMemoryDTCExtDataRecordByDTCNumber {
    /// Memory selection
    pub memory: MemorySelection,
    /// DTC and its status
    pub dtc_status: DtcAndStatusRecord,
    /// `ExtData` records
    pub records: Vec<ExtDataRecordAndNumber>,
}

/// One DTC response subfunction
#[derive(Clone, Debug, PartialEq)]
#[allow(missing_docs)]
pub enum DTCRspSubfunction {
    Reserved1,
    ResponseNumberOfDTCByStatusMask(ResponseNumberOfDTCByStatusMask),
    ResponseDTCByStatusMask(ResponseDTCByStatusMask),
    ResponseDTCSnapshotIdentification(ResponseDTCSnapshotIdentification),
    ResponseDTCSnapshotRecordByDTCNumber(ResponseDTCSnapshotRecordByDTCNumber),
    ResponseDTCStoredDataByRecordNumber(ResponseDTCStoredDataByRecordNumber),
    ResponseDTCExtDataRecordByDTCNumber(ResponseDTCExtDataRecordByDTCNumber),
    ResponseNumberOfDTCBySeverityMaskRecord(ResponseNumberOfDTCBySeverityMaskRecord),
    ResponseDTCBySeverityMaskRecord(ResponseDTCBySeverityMaskRecord),
    ResponseSeverityInformationOfDTC(ResponseDTCBySeverityMaskRecord),
    ResponseSupportedDTC(ResponseSupportedDTC),
    ResponseFirstTestFailedDTC(ResponseFirstTestFailedDTC),
    ResponseFirstConfirmedDTC(ResponseFirstConfirmedDTC),
    ResponseMostRecentTestFailedDTC(ResponseMostRecentTestFailedDTC),
    ResponseMostRecentConfirmedDTC(ResponseMostRecentConfirmedDTC),
    ResponseMirrorMemoryDTCByStatusMask(ResponseMirrorMemoryDTCByStatusMask),
    ResponseMirrorMemoryDTCExtDataRecordByDTCNumber(ResponseDTCExtDataRecordByDTCNumber),
    ResponseNumberOfMirrorMemoryDTCByStatusMask(ResponseNumberOfMirrorMemoryDTCByStatusMask),
    ResponseNumberOfEmissionsOBDDTCByStatusMask(ResponseNumberOfEmissionsOBDDTCByStatusMask),
    ResponseEmissionsOBDDTCByStatusMask(ResponseEmissionsOBDDTCByStatusMask),
    ResponseDTCFaultDetectionCounter(ResponseDTCFaultDetectionCounter),
    ResponseDTCWithPermanentStatus(ResponseDTCWithPermanentStatus),
    ResponseDTCExtDataRecordByRecordNumber(ResponseDTCExtDataRecordByRecordNumber),
    ResponseUserDefMemoryDTCByStatusMask(ResponseUserDefMemoryDTCByStatusMask),
    ResponseUserDefMemoryDTCSnapshotRecordByDTCNumber(
        ResponseUserDefMemoryDTCSnapshotRecordByDTCNumber,
    ),
    ResponseUserDefMemoryDTCExtDataRecordByDTCNumber(
        ResponseUserDefMemoryDTCExtDataRecordByDTCNumber,
    ),
    Reserved2,
    ResponseWWHOBDDTCByMaskRecord(Vec<u8>),
    Reserved3,
    ResponseWWHOBDDTCWithPermanentStatus(Vec<u8>),
    Reserved4,
}

/// Diagnostic troubleshooting code response
#[derive(Clone, Debug, PartialEq)]
pub struct ReadDTCRsp {
    /// One of all diagnostic responses
    pub sub: DTCRspSubfunction,
}

impl Default for DTCRspSubfunction {
    fn default() -> (r: Self)
        ensures
            r == DTCRspSubfunction::Reserved1,
    {
        DTCRspSubfunction::Reserved1
    }
}

impl Default for ReadDTCRsp {
    fn default() -> (r: Self)
        ensures
            r@ == (SpecReadDTCRsp { sub: SpecDTCRspSubfunction::Reserved1 }),
    {
        ReadDTCRsp { sub: DTCRspSubfunction::Reserved1 }
    }
}

/// Mathematical model of a response record list keyed by an availability
/// mask.
#[verifier::ext_equal]
pub struct SpecGotListDtcAndStatusRecord {
    /// Availability mask
    pub availability_mask: u8,
    /// List of DTC and status records
    pub dtcs: Seq<DtcAndStatusRecord>,
}

/// Mathematical model of a snapshot identification list.
#[verifier::ext_equal]
pub struct SpecGotDtcRecordAndSnapshotNumber {
    /// DTC and snapshot record numbers
    pub records: Seq<(Dtc, DTCSnapshotRecordNumber)>,
}

/// Mathematical model of a severity record list.
#[verifier::ext_equal]
pub struct SpecResponseDTCBySeverityMaskRecord {
    /// Availability mask
    pub availability_mask: u8,
    /// DTC and severity records
    pub records: Seq<DTCAndSeverityRecord>,
}

/// Mathematical model of a fault counter list.
#[verifier::ext_equal]
pub struct SpecResponseDTCFaultDetectionCounter {
    /// DTC and fault counters
    pub faults: Seq<DtcAndFaultCounter>,
}

/// Mathematical model of a user-defined-memory record list.
#[verifier::ext_equal]
pub struct SpecResponseUserDefMemoryDTCByStatusMask {
    /// Memory selection
    pub memory: u8,
    /// Availability mask
    pub availability_mask: u8,
    /// DTC and status records
    pub records: Seq<DtcAndStatusRecord>,
}

/// Mathematical model of [`DTCRspSubfunction`].  The subfunctions whose wire
/// shape this codec cannot delimit are modelled by their discriminant alone:
/// they are never decoded and never encoded.
#[verifier::ext_equal]
#[allow(missing_docs)]
pub enum SpecDTCRspSubfunction {
    Reserved1,
    ResponseNumberOfDTCByStatusMask(GotDTCCount),
    ResponseDTCByStatusMask(SpecGotListDtcAndStatusRecord),
    ResponseDTCSnapshotIdentification(SpecGotDtcRecordAndSnapshotNumber),
    ResponseDTCSnapshotRecordByDTCNumber,
    ResponseDTCStoredDataByRecordNumber,
    ResponseDTCExtDataRecordByDTCNumber,
    ResponseNumberOfDTCBySeverityMaskRecord(GotDTCCount),
    ResponseDTCBySeverityMaskRecord(SpecResponseDTCBySeverityMaskRecord),
    ResponseSeverityInformationOfDTC(SpecResponseDTCBySeverityMaskRecord),
    ResponseSupportedDTC(SpecGotListDtcAndStatusRecord),
    ResponseFirstTestFailedDTC(SpecGotListDtcAndStatusRecord),
    ResponseFirstConfirmedDTC(SpecGotListDtcAndStatusRecord),
    ResponseMostRecentTestFailedDTC(SpecGotListDtcAndStatusRecord),
    ResponseMostRecentConfirmedDTC(SpecGotListDtcAndStatusRecord),
    ResponseMirrorMemoryDTCByStatusMask(SpecGotListDtcAndStatusRecord),
    ResponseMirrorMemoryDTCExtDataRecordByDTCNumber,
    ResponseNumberOfMirrorMemoryDTCByStatusMask(GotDTCCount),
    ResponseNumberOfEmissionsOBDDTCByStatusMask(GotDTCCount),
    ResponseEmissionsOBDDTCByStatusMask(SpecGotListDtcAndStatusRecord),
    ResponseDTCFaultDetectionCounter(SpecResponseDTCFaultDetectionCounter),
    ResponseDTCWithPermanentStatus(SpecGotListDtcAndStatusRecord),
    ResponseDTCExtDataRecordByRecordNumber,
    ResponseUserDefMemoryDTCByStatusMask(SpecResponseUserDefMemoryDTCByStatusMask),
    ResponseUserDefMemoryDTCSnapshotRecordByDTCNumber,
    ResponseUserDefMemoryDTCExtDataRecordByDTCNumber,
    Reserved2,
    ResponseWWHOBDDTCByMaskRecord(Seq<u8>),
    Reserved3,
    ResponseWWHOBDDTCWithPermanentStatus(Seq<u8>),
    Reserved4,
}

/// Mathematical model of [`ReadDTCRsp`].
#[verifier::ext_equal]
pub struct SpecReadDTCRsp {
    /// One of all diagnostic responses
    pub sub: SpecDTCRspSubfunction,
}

impl View for DTCRspSubfunction {
    type V = SpecDTCRspSubfunction;

    open spec fn view(&self) -> SpecDTCRspSubfunction {
        match self {
            DTCRspSubfunction::Reserved1 => SpecDTCRspSubfunction::Reserved1,
            DTCRspSubfunction::ResponseNumberOfDTCByStatusMask(c) =>
                SpecDTCRspSubfunction::ResponseNumberOfDTCByStatusMask(*c),
            DTCRspSubfunction::ResponseDTCByStatusMask(l) =>
                SpecDTCRspSubfunction::ResponseDTCByStatusMask(
                SpecGotListDtcAndStatusRecord {
                    availability_mask: l.availability_mask,
                    dtcs: l.dtcs@,
                },
            ),
            DTCRspSubfunction::ResponseDTCSnapshotIdentification(l) =>
                SpecDTCRspSubfunction::ResponseDTCSnapshotIdentification(
                SpecGotDtcRecordAndSnapshotNumber { records: l.records@ },
            ),
            DTCRspSubfunction::ResponseDTCSnapshotRecordByDTCNumber(_) =>
                SpecDTCRspSubfunction::ResponseDTCSnapshotRecordByDTCNumber,
            DTCRspSubfunction::ResponseDTCStoredDataByRecordNumber(_) =>
                SpecDTCRspSubfunction::ResponseDTCStoredDataByRecordNumber,
            DTCRspSubfunction::ResponseDTCExtDataRecordByDTCNumber(_) =>
                SpecDTCRspSubfunction::ResponseDTCExtDataRecordByDTCNumber,
            DTCRspSubfunction::ResponseNumberOfDTCBySeverityMaskRecord(c) =>
                SpecDTCRspSubfunction::ResponseNumberOfDTCBySeverityMaskRecord(*c),
            DTCRspSubfunction::ResponseDTCBySeverityMaskRecord(l) =>
                SpecDTCRspSubfunction::ResponseDTCBySeverityMaskRecord(
                SpecResponseDTCBySeverityMaskRecord {
                    availability_mask: l.availability_mask,
                    records: l.records@,
                },
            ),
            DTCRspSubfunction::ResponseSeverityInformationOfDTC(l) =>
                SpecDTCRspSubfunction::ResponseSeverityInformationOfDTC(
                SpecResponseDTCBySeverityMaskRecord {
                    availability_mask: l.availability_mask,
                    records: l.records@,
                },
            ),
            DTCRspSubfunction::ResponseSupportedDTC(l) => SpecDTCRspSubfunction::ResponseSupportedDTC(
                SpecGotListDtcAndStatusRecord {
                    availability_mask: l.availability_mask,
                    dtcs: l.dtcs@,
                },
            ),
            DTCRspSubfunction::ResponseFirstTestFailedDTC(l) =>
                SpecDTCRspSubfunction::ResponseFirstTestFailedDTC(
                SpecGotListDtcAndStatusRecord {
                    availability_mask: l.availability_mask,
                    dtcs: l.dtcs@,
                },
            ),
            DTCRspSubfunction::ResponseFirstConfirmedDTC(l) =>
                SpecDTCRspSubfunction::ResponseFirstConfirmedDTC(
                SpecGotListDtcAndStatusRecord {
                    availability_mask: l.availability_mask,
                    dtcs: l.dtcs@,
                },
            ),
            DTCRspSubfunction::ResponseMostRecentTestFailedDTC(l) =>
                SpecDTCRspSubfunction::ResponseMostRecentTestFailedDTC(
                SpecGotListDtcAndStatusRecord {
                    availability_mask: l.availability_mask,
                    dtcs: l.dtcs@,
                },
            ),
            DTCRspSubfunction::ResponseMostRecentConfirmedDTC(l) =>
                SpecDTCRspSubfunction::ResponseMostRecentConfirmedDTC(
                SpecGotListDtcAndStatusRecord {
                    availability_mask: l.availability_mask,
                    dtcs: l.dtcs@,
                },
            ),
            DTCRspSubfunction::ResponseMirrorMemoryDTCByStatusMask(l) =>
                SpecDTCRspSubfunction::ResponseMirrorMemoryDTCByStatusMask(
                SpecGotListDtcAndStatusRecord {
                    availability_mask: l.availability_mask,
                    dtcs: l.dtcs@,
                },
            ),
            DTCRspSubfunction::ResponseMirrorMemoryDTCExtDataRecordByDTCNumber(_) =>
                SpecDTCRspSubfunction::ResponseMirrorMemoryDTCExtDataRecordByDTCNumber,
            DTCRspSubfunction::ResponseNumberOfMirrorMemoryDTCByStatusMask(c) =>
                SpecDTCRspSubfunction::ResponseNumberOfMirrorMemoryDTCByStatusMask(*c),
            DTCRspSubfunction::ResponseNumberOfEmissionsOBDDTCByStatusMask(c) =>
                SpecDTCRspSubfunction::ResponseNumberOfEmissionsOBDDTCByStatusMask(*c),
            DTCRspSubfunction::ResponseEmissionsOBDDTCByStatusMask(l) =>
                SpecDTCRspSubfunction::ResponseEmissionsOBDDTCByStatusMask(
                SpecGotListDtcAndStatusRecord {
                    availability_mask: l.availability_mask,
                    dtcs: l.dtcs@,
                },
            ),
            DTCRspSubfunction::ResponseDTCFaultDetectionCounter(f) =>
                SpecDTCRspSubfunction::ResponseDTCFaultDetectionCounter(
                SpecResponseDTCFaultDetectionCounter { faults: f.faults@ },
            ),
            DTCRspSubfunction::ResponseDTCWithPermanentStatus(l) =>
                SpecDTCRspSubfunction::ResponseDTCWithPermanentStatus(
                SpecGotListDtcAndStatusRecord {
                    availability_mask: l.availability_mask,
                    dtcs: l.dtcs@,
                },
            ),
            DTCRspSubfunction::ResponseDTCExtDataRecordByRecordNumber(_) =>
                SpecDTCRspSubfunction::ResponseDTCExtDataRecordByRecordNumber,
            DTCRspSubfunction::ResponseUserDefMemoryDTCByStatusMask(l) =>
                SpecDTCRspSubfunction::ResponseUserDefMemoryDTCByStatusMask(
                SpecResponseUserDefMemoryDTCByStatusMask {
                    memory: l.memory,
                    availability_mask: l.availability_mask,
                    records: l.records@,
                },
            ),
            DTCRspSubfunction::ResponseUserDefMemoryDTCSnapshotRecordByDTCNumber(_) =>
                SpecDTCRspSubfunction::ResponseUserDefMemoryDTCSnapshotRecordByDTCNumber,
            DTCRspSubfunction::ResponseUserDefMemoryDTCExtDataRecordByDTCNumber(_) =>
                SpecDTCRspSubfunction::ResponseUserDefMemoryDTCExtDataRecordByDTCNumber,
            DTCRspSubfunction::Reserved2 => SpecDTCRspSubfunction::Reserved2,
            DTCRspSubfunction::ResponseWWHOBDDTCByMaskRecord(d) =>
                SpecDTCRspSubfunction::ResponseWWHOBDDTCByMaskRecord(d@),
            DTCRspSubfunction::Reserved3 => SpecDTCRspSubfunction::Reserved3,
            DTCRspSubfunction::ResponseWWHOBDDTCWithPermanentStatus(d) =>
                SpecDTCRspSubfunction::ResponseWWHOBDDTCWithPermanentStatus(d@),
            DTCRspSubfunction::Reserved4 => SpecDTCRspSubfunction::Reserved4,
        }
    }
}

impl View for ReadDTCRsp {
    type V = SpecReadDTCRsp;

    open spec fn view(&self) -> SpecReadDTCRsp {
        SpecReadDTCRsp { sub: self.sub@ }
    }
}

/// The three wire bytes of a DTC, high to low.
pub open spec fn spec_dtc_bytes(d: Dtc) -> Seq<u8> {
    seq![d.dtc[0], d.dtc[1], d.dtc[2]]
}

/// The DTC read from the first three bytes of `b`.
pub open spec fn spec_dtc_of(b: Seq<u8>) -> Dtc {
    Dtc { dtc: [b[0], b[1], b[2]] }
}

pub proof fn lemma_dtc_round_trip(d: Dtc)
    ensures
        spec_dtc_of(spec_dtc_bytes(d)) == d,
        spec_dtc_bytes(d).len() == 3,
{
    assert(spec_dtc_of(spec_dtc_bytes(d)).dtc =~= d.dtc);
}

pub proof fn lemma_dtc_fidelity(b: Seq<u8>)
    requires
        b.len() == 3,
    ensures
        spec_dtc_bytes(spec_dtc_of(b)) == b,
{
    assert(spec_dtc_bytes(spec_dtc_of(b)) =~= b);
}

/// The one-byte wire index of each request subfunction.
pub open spec fn spec_dtc_req_index(s: DTCReqSubfunction) -> u8 {
    match s {
        DTCReqSubfunction::Reserved1 => 0x00,
        DTCReqSubfunction::ReportNumberOfDTCByStatusMask(_) => 0x01,
        DTCReqSubfunction::ReportDTCByStatusMask(_) => 0x02,
        DTCReqSubfunction::ReportDTCSnapshotIdentification(_) => 0x03,
        DTCReqSubfunction::ReportDTCSnapshotRecordByDTCNumber(_) => 0x04,
        DTCReqSubfunction::ReportDTCStoredDataByRecordNumber(_) => 0x05,
        DTCReqSubfunction::ReportDTCExtDataRecordByDTCNumber(_) => 0x06,
        DTCReqSubfunction::ReportNumberOfDTCBySeverityMaskRecord(_) => 0x07,
        DTCReqSubfunction::ReportDTCBySeverityMaskRecord(_) => 0x08,
        DTCReqSubfunction::ReportSeverityInformationOfDTC(_) => 0x09,
        DTCReqSubfunction::ReportSupportedDTC => 0x0a,
        DTCReqSubfunction::ReportFirstTestFailedDTC => 0x0b,
        DTCReqSubfunction::ReportFirstConfirmedDTC => 0x0c,
        DTCReqSubfunction::ReportMostRecentTestFailedDTC => 0x0d,
        DTCReqSubfunction::ReportMostRecentConfirmedDTC => 0x0e,
        DTCReqSubfunction::ReportMirrorMemoryDTCByStatusMask(_) => 0x0f,
        DTCReqSubfunction::ReportMirrorMemoryDTCExtDataRecordByDTCNumber(_) => 0x10,
        DTCReqSubfunction::ReportNumberOfMirrorMemoryDTCByStatusMask(_) => 0x11,
        DTCReqSubfunction::ReportNumberOfEmissionsOBDDTCByStatusMask(_) => 0x12,
        DTCReqSubfunction::ReportEmissionsOBDDTCByStatusMask(_) => 0x13,
        DTCReqSubfunction::ReportDTCFaultDetectionCounter => 0x14,
        DTCReqSubfunction::ReportDTCWithPermanentStatus => 0x15,
        DTCReqSubfunction::ReportDTCExtDataRecordByRecordNumber(_) => 0x16,
        DTCReqSubfunction::ReportUserDefMemoryDTCByStatusMask(_) => 0x17,
        DTCReqSubfunction::ReportUserDefMemoryDTCSnapshotRecordByDTCNumber(_) => 0x18,
        DTCReqSubfunction::ReportUserDefMemoryDTCExtDataRecordByDTCNumber(_) => 0x19,
        DTCReqSubfunction::Reserved2 => 0x1a,
        DTCReqSubfunction::ReportWWHOBDDTCByMaskRecord(_) => 0x42,
        DTCReqSubfunction::Reserved3 => 0x43,
        DTCReqSubfunction::ReportWWHOBDDTCWithPermanentStatus(_) => 0x55,
        DTCReqSubfunction::Reserved4 => 0x56,
    }
}

/// The wire bytes of a request subfunction's filter record.
pub open spec fn spec_dtc_req_body(s: DTCReqSubfunction) -> Seq<u8> {
    match s {
        DTCReqSubfunction::Reserved1 => seq![],
        DTCReqSubfunction::ReportNumberOfDTCByStatusMask(m) => seq![m.mask],
        DTCReqSubfunction::ReportDTCByStatusMask(m) => seq![m.mask],
        DTCReqSubfunction::ReportDTCSnapshotIdentification(m) => spec_dtc_bytes(m.mask)
            + seq![m.record],
        DTCReqSubfunction::ReportDTCSnapshotRecordByDTCNumber(m) => spec_dtc_bytes(m.mask)
            + seq![m.record],
        DTCReqSubfunction::ReportDTCStoredDataByRecordNumber(m) => seq![m.record],
        DTCReqSubfunction::ReportDTCExtDataRecordByDTCNumber(m) => spec_dtc_bytes(m.mask),
        DTCReqSubfunction::ReportNumberOfDTCBySeverityMaskRecord(m) => be_bytes(m.mask as nat, 2),
        DTCReqSubfunction::ReportDTCBySeverityMaskRecord(m) => be_bytes(m.mask as nat, 2),
        DTCReqSubfunction::ReportSeverityInformationOfDTC(m) => spec_dtc_bytes(m.mask),
        DTCReqSubfunction::ReportSupportedDTC => seq![],
        DTCReqSubfunction::ReportFirstTestFailedDTC => seq![],
        DTCReqSubfunction::ReportFirstConfirmedDTC => seq![],
        DTCReqSubfunction::ReportMostRecentTestFailedDTC => seq![],
        DTCReqSubfunction::ReportMostRecentConfirmedDTC => seq![],
        DTCReqSubfunction::ReportMirrorMemoryDTCByStatusMask(m) => seq![m.mask],
        DTCReqSubfunction::ReportMirrorMemoryDTCExtDataRecordByDTCNumber(m) => spec_dtc_bytes(
            m.mask,
        ),
        DTCReqSubfunction::ReportNumberOfMirrorMemoryDTCByStatusMask(m) => seq![m.mask],
        DTCReqSubfunction::ReportNumberOfEmissionsOBDDTCByStatusMask(m) => seq![m.mask],
        DTCReqSubfunction::ReportEmissionsOBDDTCByStatusMask(m) => seq![m.mask],
        DTCReqSubfunction::ReportDTCFaultDetectionCounter => seq![],
        DTCReqSubfunction::ReportDTCWithPermanentStatus => seq![],
        DTCReqSubfunction::ReportDTCExtDataRecordByRecordNumber(m) => seq![m.record],
        DTCReqSubfunction::ReportUserDefMemoryDTCByStatusMask(m) => seq![m.mask],
        DTCReqSubfunction::ReportUserDefMemoryDTCSnapshotRecordByDTCNumber(m) => spec_dtc_bytes(
            m.mask,
        ) + seq![m.record, m.memory],
        DTCReqSubfunction::ReportUserDefMemoryDTCExtDataRecordByDTCNumber(m) => spec_dtc_bytes(
            m.mask,
        ) + seq![m.record, m.memory],
        DTCReqSubfunction::Reserved2 => seq![],
        DTCReqSubfunction::ReportWWHOBDDTCByMaskRecord(m) => seq![m.group],
        DTCReqSubfunction::Reserved3 => seq![],
        DTCReqSubfunction::ReportWWHOBDDTCWithPermanentStatus(m) => seq![m.group],
        DTCReqSubfunction::Reserved4 => seq![],
    }
}

/// The wire bytes of a request subfunction: its index followed by its filter
/// record.
pub open spec fn spec_dtc_req_enc(s: DTCReqSubfunction) -> Seq<u8> {
    seq![spec_dtc_req_index(s)] + spec_dtc_req_body(s)
}

/// The request subfunction the payload bytes hold: the index byte must name
/// a subfunction and the rest must be exactly its filter record.
pub open spec fn spec_dtc_req_dec(b: Seq<u8>) -> Result<DTCReqSubfunction, DecErr> {
    if b.len() < 1 {
        Err(DecErr::Encoding)
    } else {
        let t = b.skip(1);
        let idx = b[0];
        if idx == 0x00 {
            if t.len() == 0 {
                Ok(DTCReqSubfunction::Reserved1)
            } else {
                Err(DecErr::Encoding)
            }
        } else if idx == 0x01 {
            if t.len() == 1 {
                Ok(
                    DTCReqSubfunction::ReportNumberOfDTCByStatusMask(
                        ByDTCStatusMask { mask: t[0] },
                    ),
                )
            } else {
                Err(DecErr::Encoding)
            }
        } else if idx == 0x02 {
            if t.len() == 1 {
                Ok(DTCReqSubfunction::ReportDTCByStatusMask(ByDTCStatusMask { mask: t[0] }))
            } else {
                Err(DecErr::Encoding)
            }
        } else if idx == 0x03 {
            if t.len() == 4 {
                Ok(
                    DTCReqSubfunction::ReportDTCSnapshotIdentification(
                        ByDTCMaskRecordRecordNumber { mask: spec_dtc_of(t), record: t[3] },
                    ),
                )
            } else {
                Err(DecErr::Encoding)
            }
        } else if idx == 0x04 {
            if t.len() == 4 {
                Ok(
                    DTCReqSubfunction::ReportDTCSnapshotRecordByDTCNumber(
                        ByDTCMaskRecordRecordNumber { mask: spec_dtc_of(t), record: t[3] },
                    ),
                )
            } else {
                Err(DecErr::Encoding)
            }
        } else if idx == 0x05 {
            if t.len() == 1 {
                Ok(
                    DTCReqSubfunction::ReportDTCStoredDataByRecordNumber(
                        ReportDTCStoredDataByRecordNumber { record: t[0] },
                    ),
                )
            } else {
                Err(DecErr::Encoding)
            }
        } else if idx == 0x06 {
            if t.len() == 3 {
                Ok(
                    DTCReqSubfunction::ReportDTCExtDataRecordByDTCNumber(
                        ByDTCMaskRecord { mask: spec_dtc_of(t) },
                    ),
                )
            } else {
                Err(DecErr::Encoding)
            }
        } else if idx == 0x07 {
            if t.len() == 2 {
                Ok(
                    DTCReqSubfunction::ReportNumberOfDTCBySeverityMaskRecord(
                        ByDTCSeverityMaskRecord { mask: be_val(t) as u16 },
                    ),
                )
            } else {
                Err(DecErr::Encoding)
            }
        } else if idx == 0x08 {
            if t.len() == 2 {
                Ok(
                    DTCReqSubfunction::ReportDTCBySeverityMaskRecord(
                        ByDTCSeverityMaskRecord { mask: be_val(t) as u16 },
                    ),
                )
            } else {
                Err(DecErr::Encoding)
            }
        } else if idx == 0x09 {
            if t.len() == 3 {
                Ok(
                    DTCReqSubfunction::ReportSeverityInformationOfDTC(
                        ByDTCMaskRecord { mask: spec_dtc_of(t) },
                    ),
                )
            } else {
                Err(DecErr::Encoding)
            }
        } else if idx == 0x0a {
            if t.len() == 0 {
                Ok(DTCReqSubfunction::ReportSupportedDTC)
            } else {
                Err(DecErr::Encoding)
            }
        } else if idx == 0x0b {
            if t.len() == 0 {
                Ok(DTCReqSubfunction::ReportFirstTestFailedDTC)
            } else {
                Err(DecErr::Encoding)
            }
        } else if idx == 0x0c {
            if t.len() == 0 {
                Ok(DTCReqSubfunction::ReportFirstConfirmedDTC)
            } else {
                Err(DecErr::Encoding)
            }
        } else if idx == 0x0d {
            if t.len() == 0 {
                Ok(DTCReqSubfunction::ReportMostRecentTestFailedDTC)
            } else {
                Err(DecErr::Encoding)
            }
        } else if idx == 0x0e {
            if t.len() == 0 {
                Ok(DTCReqSubfunction::ReportMostRecentConfirmedDTC)
            } else {
                Err(DecErr::Encoding)
            }
        } else if idx == 0x0f {
            if t.len() == 1 {
                Ok(
                    DTCReqSubfunction::ReportMirrorMemoryDTCByStatusMask(
                        ByDTCStatusMask { mask: t[0] },
                    ),
                )
            } else {
                Err(DecErr::Encoding)
            }
        } else if idx == 0x10 {
            if t.len() == 3 {
                Ok(
                    DTCReqSubfunction::ReportMirrorMemoryDTCExtDataRecordByDTCNumber(
                        ByDTCMaskRecord { mask: spec_dtc_of(t) },
                    ),
                )
            } else {
                Err(DecErr::Encoding)
            }
        } else if idx == 0x11 {
            if t.len() == 1 {
                Ok(
                    DTCReqSubfunction::ReportNumberOfMirrorMemoryDTCByStatusMask(
                        ByDTCStatusMask { mask: t[0] },
                    ),
                )
            } else {
                Err(DecErr::Encoding)
            }
        } else if idx == 0x12 {
            if t.len() == 1 {
                Ok(
                    DTCReqSubfunction::ReportNumberOfEmissionsOBDDTCByStatusMask(
                        ByDTCStatusMask { mask: t[0] },
                    ),
                )
            } else {
                Err(DecErr::Encoding)
            }
        } else if idx == 0x13 {
            if t.len() == 1 {
                Ok(
                    DTCReqSubfunction::ReportEmissionsOBDDTCByStatusMask(
                        ByDTCStatusMask { mask: t[0] },
                    ),
                )
            } else {
                Err(DecErr::Encoding)
            }
        } else if idx == 0x14 {
            if t.len() == 0 {
                Ok(DTCReqSubfunction::ReportDTCFaultDetectionCounter)
            } else {
                Err(DecErr::Encoding)
            }
        } else if idx == 0x15 {
            if t.len() == 0 {
                Ok(DTCReqSubfunction::ReportDTCWithPermanentStatus)
            } else {
                Err(DecErr::Encoding)
            }
        } else if idx == 0x16 {
            if t.len() == 1 {
                Ok(
                    DTCReqSubfunction::ReportDTCExtDataRecordByRecordNumber(
                        ReportDTCExtDataRecordByRecordNumber { record: t[0] },
                    ),
                )
            } else {
                Err(DecErr::Encoding)
            }
        } else if idx == 0x17 {
            if t.len() == 1 {
                Ok(
                    DTCReqSubfunction::ReportUserDefMemoryDTCByStatusMask(
                        ByDTCStatusMask { mask: t[0] },
                    ),
                )
            } else {
                Err(DecErr::Encoding)
            }
        } else if idx == 0x18 {
            if t.len() == 5 {
                Ok(
                    DTCReqSubfunction::ReportUserDefMemoryDTCSnapshotRecordByDTCNumber(
                        ReportUserDefMemoryDTCSnapshotRecordByDTCNumber {
                            mask: spec_dtc_of(t),
                            record: t[3],
                            memory: t[4],
                        },
                    ),
                )
            } else {
                Err(DecErr::Encoding)
            }
        } else if idx == 0x19 {
            if t.len() == 5 {
                Ok(
                    DTCReqSubfunction::ReportUserDefMemoryDTCExtDataRecordByDTCNumber(
                        ReportUserDefMemoryDTCExtDataRecordByDTCNumber {
                            mask: spec_dtc_of(t),
                            record: t[3],
                            memory: t[4],
                        },
                    ),
                )
            } else {
                Err(DecErr::Encoding)
            }
        } else if idx == 0x1a {
            if t.len() == 0 {
                Ok(DTCReqSubfunction::Reserved2)
            } else {
                Err(DecErr::Encoding)
            }
        } else if idx == 0x42 {
            if t.len() == 1 {
                Ok(
                    DTCReqSubfunction::ReportWWHOBDDTCByMaskRecord(
                        ByFunctionalGroupIdentifier { group: t[0] },
                    ),
                )
            } else {
                Err(DecErr::Encoding)
            }
        } else if idx == 0x43 {
            if t.len() == 0 {
                Ok(DTCReqSubfunction::Reserved3)
            } else {
                Err(DecErr::Encoding)
            }
        } else if idx == 0x55 {
            if t.len() == 1 {
                Ok(
                    DTCReqSubfunction::ReportWWHOBDDTCWithPermanentStatus(
                        ByFunctionalGroupIdentifier { group: t[0] },
                    ),
                )
            } else {
                Err(DecErr::Encoding)
            }
        } else if idx == 0x56 {
            if t.len() == 0 {
                Ok(DTCReqSubfunction::Reserved4)
            } else {
                Err(DecErr::Encoding)
            }
        } else {
            Err(DecErr::Encoding)
        }
    }
}

/// Decoding the encoding of any request subfunction gives it back.
pub proof fn lemma_dtc_req_round_trip(s: DTCReqSubfunction)
    ensures
        spec_dtc_req_dec(spec_dtc_req_enc(s)) == Ok::<DTCReqSubfunction, DecErr>(s),
        spec_dtc_req_enc(s).len() >= 1,
{
    let e = spec_dtc_req_enc(s);
    let t = e.skip(1);
    assert(t =~= spec_dtc_req_body(s));
    match s {
        DTCReqSubfunction::ReportDTCSnapshotIdentification(m) => {
            lemma_dtc_round_trip(m.mask);
            assert(spec_dtc_of(t) == m.mask) by {
                assert(spec_dtc_of(t).dtc =~= m.mask.dtc);
            }
        },
        DTCReqSubfunction::ReportDTCSnapshotRecordByDTCNumber(m) => {
            lemma_dtc_round_trip(m.mask);
            assert(spec_dtc_of(t).dtc =~= m.mask.dtc);
        },
        DTCReqSubfunction::ReportDTCExtDataRecordByDTCNumber(m) => {
            lemma_dtc_round_trip(m.mask);
            assert(spec_dtc_of(t).dtc =~= m.mask.dtc);
        },
        DTCReqSubfunction::ReportSeverityInformationOfDTC(m) => {
            lemma_dtc_round_trip(m.mask);
            assert(spec_dtc_of(t).dtc =~= m.mask.dtc);
        },
        DTCReqSubfunction::ReportMirrorMemoryDTCExtDataRecordByDTCNumber(m) => {
            lemma_dtc_round_trip(m.mask);
            assert(spec_dtc_of(t).dtc =~= m.mask.dtc);
        },
        DTCReqSubfunction::ReportNumberOfDTCBySeverityMaskRecord(m) => {
            lemma_be_bytes_len(m.mask as nat, 2);
            lemma_be_bytes_val(m.mask as nat, 2);
            lemma_pow256_units();
        },
        DTCReqSubfunction::ReportDTCBySeverityMaskRecord(m) => {
            lemma_be_bytes_len(m.mask as nat, 2);
            lemma_be_bytes_val(m.mask as nat, 2);
            lemma_pow256_units();
        },
        DTCReqSubfunction::ReportUserDefMemoryDTCSnapshotRecordByDTCNumber(m) => {
            lemma_dtc_round_trip(m.mask);
            assert(spec_dtc_of(t).dtc =~= m.mask.dtc);
        },
        DTCReqSubfunction::ReportUserDefMemoryDTCExtDataRecordByDTCNumber(m) => {
            lemma_dtc_round_trip(m.mask);
            assert(spec_dtc_of(t).dtc =~= m.mask.dtc);
        },
        _ => {},
    }
}

/// Builds the error for payload bytes that do not form the declared
/// subfunction.
fn sub_shape_err() -> (e: UdsError)
    ensures
        crate::error::err_kind(e) == DecErr::Encoding,
{
    UdsError::EncodingError {
        msg: String::from_str("subfunction bytes do not match the declared shape"),
    }
}

/// Reads the three bytes of a DTC.
fn read_dtc(data: &[u8], pos: &mut usize) -> (d: Dtc)
    requires
        *old(pos) + 3 <= data@.len(),
    ensures
        d == spec_dtc_of(data@.subrange(*old(pos) as int, *old(pos) + 3)),
        *final(pos) == *old(pos) + 3,
{
    let h = read_u8(data, pos);
    let m = read_u8(data, pos);
    let l = read_u8(data, pos);
    let d = Dtc::new(h, m, l);
    proof {
        let s = data@.subrange(*old(pos) as int, *old(pos) + 3);
        assert(d.dtc =~= spec_dtc_of(s).dtc);
    }
    d
}

/// Writes the three bytes of a DTC.
fn write_dtc(out: &mut Vec<u8>, d: &Dtc)
    ensures
        final(out)@ == old(out)@ + spec_dtc_bytes(*d),
{
    out.push(d.dtc[0]);
    out.push(d.dtc[1]);
    out.push(d.dtc[2]);
    proof {
        assert(out@ =~= old(out)@ + spec_dtc_bytes(*d));
    }
}

impl Payload for ReadDTCReq {
    open spec fn inv(v: ReadDTCReq) -> bool {
        true
    }

    open spec fn enc(v: ReadDTCReq) -> Seq<u8> {
        spec_dtc_req_enc(v.sub)
    }

    open spec fn enc_ok(v: ReadDTCReq) -> bool {
        true
    }

    open spec fn dec(bytes: Seq<u8>, n: nat) -> Result<ReadDTCReq, DecErr> {
        if n < 1 {
            Err(DecErr::TooShort { value: clip32(n), expected: 1 })
        } else if bytes.len() < n {
            Err(DecErr::Io)
        } else {
            match spec_dtc_req_dec(bytes.take(n as int)) {
                Ok(s) => Ok(ReadDTCReq { sub: s }),
                Err(e) => Err(e),
            }
        }
    }

    open spec fn min_len() -> nat {
        1
    }

    proof fn lemma_inv_enc_ok(v: ReadDTCReq) {
    }

    proof fn lemma_dec_fidelity(bytes: Seq<u8>, n: nat) {
        lemma_dtc_req_fidelity(bytes.take(n as int));
    }

    proof fn lemma_round_trip(v: ReadDTCReq) {
        lemma_dtc_req_round_trip(v.sub);
        let e = spec_dtc_req_enc(v.sub);
        assert(e.take(e.len() as int) =~= e);
    }

    fn length(&self) -> (n: usize)
        ensures
            n == Self::enc(self@).len(),
    {
        proof {
            match self.sub {
                DTCReqSubfunction::ReportNumberOfDTCBySeverityMaskRecord(m) => {
                    lemma_be_bytes_len(m.mask as nat, 2);
                },
                DTCReqSubfunction::ReportDTCBySeverityMaskRecord(m) => {
                    lemma_be_bytes_len(m.mask as nat, 2);
                },
                _ => {},
            }
        }
        match &self.sub {
            DTCReqSubfunction::Reserved1 => 1,
            DTCReqSubfunction::ReportNumberOfDTCByStatusMask(_) => 2,
            DTCReqSubfunction::ReportDTCByStatusMask(_) => 2,
            DTCReqSubfunction::ReportDTCSnapshotIdentification(_) => 5,
            DTCReqSubfunction::ReportDTCSnapshotRecordByDTCNumber(_) => 5,
            DTCReqSubfunction::ReportDTCStoredDataByRecordNumber(_) => 2,
            DTCReqSubfunction::ReportDTCExtDataRecordByDTCNumber(_) => 4,
            DTCReqSubfunction::ReportNumberOfDTCBySeverityMaskRecord(_) => 3,
            DTCReqSubfunction::ReportDTCBySeverityMaskRecord(_) => 3,
            DTCReqSubfunction::ReportSeverityInformationOfDTC(_) => 4,
            DTCReqSubfunction::ReportSupportedDTC => 1,
            DTCReqSubfunction::ReportFirstTestFailedDTC => 1,
            DTCReqSubfunction::ReportFirstConfirmedDTC => 1,
            DTCReqSubfunction::ReportMostRecentTestFailedDTC => 1,
            DTCReqSubfunction::ReportMostRecentConfirmedDTC => 1,
            DTCReqSubfunction::ReportMirrorMemoryDTCByStatusMask(_) => 2,
            DTCReqSubfunction::ReportMirrorMemoryDTCExtDataRecordByDTCNumber(_) => 4,
            DTCReqSubfunction::ReportNumberOfMirrorMemoryDTCByStatusMask(_) => 2,
            DTCReqSubfunction::ReportNumberOfEmissionsOBDDTCByStatusMask(_) => 2,
            DTCReqSubfunction::ReportEmissionsOBDDTCByStatusMask(_) => 2,
            DTCReqSubfunction::ReportDTCFaultDetectionCounter => 1,
            DTCReqSubfunction::ReportDTCWithPermanentStatus => 1,
            DTCReqSubfunction::ReportDTCExtDataRecordByRecordNumber(_) => 2,
            DTCReqSubfunction::ReportUserDefMemoryDTCByStatusMask(_) => 2,
            DTCReqSubfunction::ReportUserDefMemoryDTCSnapshotRecordByDTCNumber(_) => 6,
            DTCReqSubfunction::ReportUserDefMemoryDTCExtDataRecordByDTCNumber(_) => 6,
            DTCReqSubfunction::Reserved2 => 1,
            DTCReqSubfunction::ReportWWHOBDDTCByMaskRecord(_) => 2,
            DTCReqSubfunction::Reserved3 => 1,
            DTCReqSubfunction::ReportWWHOBDDTCWithPermanentStatus(_) => 2,
            DTCReqSubfunction::Reserved4 => 1,
        }
    }

    #[verifier::rlimit(100)]
    fn read_replace(&mut self, data: &[u8], pos: &mut usize, payload_length: usize) -> (r: Result<
        (),
        UdsError,
    >) {
        if payload_length < 1 {
            return Err(crate::error::too_short(payload_length, 1));
        }
        if data.len() - *pos < payload_length {
            return Err(UdsError::Io);
        }
        let ghost start = *pos as int;
        let ghost b = data@.skip(start).take(payload_length as int);
        proof {
            assert(b =~= data@.subrange(start, start + payload_length));
            assert(b.skip(1) =~= data@.subrange(start + 1, start + payload_length));
        }
        let idx = read_u8(data, pos);
        let sub: DTCReqSubfunction = match idx {
            0x00 => {
                if payload_length != 1 {
                    return Err(sub_shape_err());
                }
                DTCReqSubfunction::Reserved1
            },
            0x01 => {
                if payload_length != 2 {
                    return Err(sub_shape_err());
                }
                DTCReqSubfunction::ReportNumberOfDTCByStatusMask(
                    ByDTCStatusMask { mask: read_u8(data, pos) },
                )
            },
            0x02 => {
                if payload_length != 2 {
                    return Err(sub_shape_err());
                }
                DTCReqSubfunction::ReportDTCByStatusMask(ByDTCStatusMask { mask: read_u8(data, pos) })
            },
            0x03 => {
                if payload_length != 5 {
                    return Err(sub_shape_err());
                }
                let mask = read_dtc(data, pos);
                let record = read_u8(data, pos);
                DTCReqSubfunction::ReportDTCSnapshotIdentification(
                    ByDTCMaskRecordRecordNumber { mask, record },
                )
            },
            0x04 => {
                if payload_length != 5 {
                    return Err(sub_shape_err());
                }
                let mask = read_dtc(data, pos);
                let record = read_u8(data, pos);
                DTCReqSubfunction::ReportDTCSnapshotRecordByDTCNumber(
                    ByDTCMaskRecordRecordNumber { mask, record },
                )
            },
            0x05 => {
                if payload_length != 2 {
                    return Err(sub_shape_err());
                }
                DTCReqSubfunction::ReportDTCStoredDataByRecordNumber(
                    ReportDTCStoredDataByRecordNumber { record: read_u8(data, pos) },
                )
            },
            0x06 => {
                if payload_length != 4 {
                    return Err(sub_shape_err());
                }
                DTCReqSubfunction::ReportDTCExtDataRecordByDTCNumber(
                    ByDTCMaskRecord { mask: read_dtc(data, pos) },
                )
            },
            0x07 => {
                if payload_length != 3 {
                    return Err(sub_shape_err());
                }
                let v = read_be(data, pos, 2);
                proof {
                    lemma_be_val_bound(data@.subrange(start + 1, start + 3));
                    lemma_pow256_units();
                }
                DTCReqSubfunction::ReportNumberOfDTCBySeverityMaskRecord(
                    ByDTCSeverityMaskRecord { mask: v as u16 },
                )
            },
            0x08 => {
                if payload_length != 3 {
                    return Err(sub_shape_err());
                }
                let v = read_be(data, pos, 2);
                proof {
                    lemma_be_val_bound(data@.subrange(start + 1, start + 3));
                    lemma_pow256_units();
                }
                DTCReqSubfunction::ReportDTCBySeverityMaskRecord(
                    ByDTCSeverityMaskRecord { mask: v as u16 },
                )
            },
            0x09 => {
                if payload_length != 4 {
                    return Err(sub_shape_err());
                }
                DTCReqSubfunction::ReportSeverityInformationOfDTC(
                    ByDTCMaskRecord { mask: read_dtc(data, pos) },
                )
            },
            0x0a => {
                if payload_length != 1 {
                    return Err(sub_shape_err());
                }
                DTCReqSubfunction::ReportSupportedDTC
            },
            0x0b => {
                if payload_length != 1 {
                    return Err(sub_shape_err());
                }
                DTCReqSubfunction::ReportFirstTestFailedDTC
            },
            0x0c => {
                if payload_length != 1 {
                    return Err(sub_shape_err());
                }
                DTCReqSubfunction::ReportFirstConfirmedDTC
            },
            0x0d => {
                if payload_length != 1 {
                    return Err(sub_shape_err());
                }
                DTCReqSubfunction::ReportMostRecentTestFailedDTC
            },
            0x0e => {
                if payload_length != 1 {
                    return Err(sub_shape_err());
                }
                DTCReqSubfunction::ReportMostRecentConfirmedDTC
            },
            0x0f => {
                if payload_length != 2 {
                    return Err(sub_shape_err());
                }
                DTCReqSubfunction::ReportMirrorMemoryDTCByStatusMask(
                    ByDTCStatusMask { mask: read_u8(data, pos) },
                )
            },
            0x10 => {
                if payload_length != 4 {
                    return Err(sub_shape_err());
                }
                DTCReqSubfunction::ReportMirrorMemoryDTCExtDataRecordByDTCNumber(
                    ByDTCMaskRecord { mask: read_dtc(data, pos) },
                )
            },
            0x11 => {
                if payload_length != 2 {
                    return Err(sub_shape_err());
                }
                DTCReqSubfunction::ReportNumberOfMirrorMemoryDTCByStatusMask(
                    ByDTCStatusMask { mask: read_u8(data, pos) },
                )
            },
            0x12 => {
                if payload_length != 2 {
                    return Err(sub_shape_err());
                }
                DTCReqSubfunction::ReportNumberOfEmissionsOBDDTCByStatusMask(
                    ByDTCStatusMask { mask: read_u8(data, pos) },
                )
            },
            0x13 => {
                if payload_length != 2 {
                    return Err(sub_shape_err());
                }
                DTCReqSubfunction::ReportEmissionsOBDDTCByStatusMask(
                    ByDTCStatusMask { mask: read_u8(data, pos) },
                )
            },
            0x14 => {
                if payload_length != 1 {
                    return Err(sub_shape_err());
                }
                DTCReqSubfunction::ReportDTCFaultDetectionCounter
            },
            0x15 => {
                if payload_length != 1 {
                    return Err(sub_shape_err());
                }
                DTCReqSubfunction::ReportDTCWithPermanentStatus
            },
            0x16 => {
                if payload_length != 2 {
                    return Err(sub_shape_err());
                }
                DTCReqSubfunction::ReportDTCExtDataRecordByRecordNumber(
                    ReportDTCExtDataRecordByRecordNumber { record: read_u8(data, pos) },
                )
            },
            0x17 => {
                if payload_length != 2 {
                    return Err(sub_shape_err());
                }
                DTCReqSubfunction::ReportUserDefMemoryDTCByStatusMask(
                    ByDTCStatusMask { mask: read_u8(data, pos) },
                )
            },
            0x18 => {
                if payload_length != 6 {
                    return Err(sub_shape_err());
                }
                let mask = read_dtc(data, pos);
                let record = read_u8(data, pos);
                let memory = read_u8(data, pos);
                DTCReqSubfunction::ReportUserDefMemoryDTCSnapshotRecordByDTCNumber(
                    ReportUserDefMemoryDTCSnapshotRecordByDTCNumber { mask, record, memory },
                )
            },
            0x19 => {
                if payload_length != 6 {
                    return Err(sub_shape_err());
                }
                let mask = read_dtc(data, pos);
                let record = read_u8(data, pos);
                let memory = read_u8(data, pos);
                DTCReqSubfunction::ReportUserDefMemoryDTCExtDataRecordByDTCNumber(
                    ReportUserDefMemoryDTCExtDataRecordByDTCNumber { mask, record, memory },
                )
            },
            0x1a => {
                if payload_length != 1 {
                    return Err(sub_shape_err());
                }
                DTCReqSubfunction::Reserved2
            },
            0x42 => {
                if payload_length != 2 {
                    return Err(sub_shape_err());
                }
                DTCReqSubfunction::ReportWWHOBDDTCByMaskRecord(
                    ByFunctionalGroupIdentifier { group: read_u8(data, pos) },
                )
            },
            0x43 => {
                if payload_length != 1 {
                    return Err(sub_shape_err());
                }
                DTCReqSubfunction::Reserved3
            },
            0x55 => {
                if payload_length != 2 {
                    return Err(sub_shape_err());
                }
                DTCReqSubfunction::ReportWWHOBDDTCWithPermanentStatus(
                    ByFunctionalGroupIdentifier { group: read_u8(data, pos) },
                )
            },
            0x56 => {
                if payload_length != 1 {
                    return Err(sub_shape_err());
                }
                DTCReqSubfunction::Reserved4
            },
            _ => {
                return Err(sub_shape_err());
            },
        };
        self.sub = sub;
        proof {
            assert(Self::dec(data@.skip(start), payload_length as nat) == Ok::<Self::V, DecErr>(
                self@,
            ));
        }
        Ok(())
    }

    fn read(data: &[u8], pos: &mut usize, payload_length: usize) -> (r: Result<Self, UdsError>) {
        let mut me = ReadDTCReq { sub: DTCReqSubfunction::Reserved1 };
        match me.read_replace(data, pos, payload_length) {
            Ok(()) => Ok(me),
            Err(e) => Err(e),
        }
    }

    #[verifier::rlimit(100)]
    fn write(&self, out: &mut Vec<u8>) -> (r: Result<(), UdsError>) {
        match &self.sub {
            DTCReqSubfunction::Reserved1 => {
                out.push(0x00);
            },
            DTCReqSubfunction::ReportNumberOfDTCByStatusMask(m) => {
                out.push(0x01);
                out.push(m.mask);
            },
            DTCReqSubfunction::ReportDTCByStatusMask(m) => {
                out.push(0x02);
                out.push(m.mask);
            },
            DTCReqSubfunction::ReportDTCSnapshotIdentification(m) => {
                out.push(0x03);
                write_dtc(out, &m.mask);
                out.push(m.record);
            },
            DTCReqSubfunction::ReportDTCSnapshotRecordByDTCNumber(m) => {
                out.push(0x04);
                write_dtc(out, &m.mask);
                out.push(m.record);
            },
            DTCReqSubfunction::ReportDTCStoredDataByRecordNumber(m) => {
                out.push(0x05);
                out.push(m.record);
            },
            DTCReqSubfunction::ReportDTCExtDataRecordByDTCNumber(m) => {
                out.push(0x06);
                write_dtc(out, &m.mask);
            },
            DTCReqSubfunction::ReportNumberOfDTCBySeverityMaskRecord(m) => {
                out.push(0x07);
                write_be(out, m.mask as u64, 2);
            },
            DTCReqSubfunction::ReportDTCBySeverityMaskRecord(m) => {
                out.push(0x08);
                write_be(out, m.mask as u64, 2);
            },
            DTCReqSubfunction::ReportSeverityInformationOfDTC(m) => {
                out.push(0x09);
                write_dtc(out, &m.mask);
            },
            DTCReqSubfunction::ReportSupportedDTC => {
                out.push(0x0a);
            },
            DTCReqSubfunction::ReportFirstTestFailedDTC => {
                out.push(0x0b);
            },
            DTCReqSubfunction::ReportFirstConfirmedDTC => {
                out.push(0x0c);
            },
            DTCReqSubfunction::ReportMostRecentTestFailedDTC => {
                out.push(0x0d);
            },
            DTCReqSubfunction::ReportMostRecentConfirmedDTC => {
                out.push(0x0e);
            },
            DTCReqSubfunction::ReportMirrorMemoryDTCByStatusMask(m) => {
                out.push(0x0f);
                out.push(m.mask);
            },
            DTCReqSubfunction::ReportMirrorMemoryDTCExtDataRecordByDTCNumber(m) => {
                out.push(0x10);
                write_dtc(out, &m.mask);
            },
            DTCReqSubfunction::ReportNumberOfMirrorMemoryDTCByStatusMask(m) => {
                out.push(0x11);
                out.push(m.mask);
            },
            DTCReqSubfunction::ReportNumberOfEmissionsOBDDTCByStatusMask(m) => {
                out.push(0x12);
                out.push(m.mask);
            },
            DTCReqSubfunction::ReportEmissionsOBDDTCByStatusMask(m) => {
                out.push(0x13);
                out.push(m.mask);
            },
            DTCReqSubfunction::ReportDTCFaultDetectionCounter => {
                out.push(0x14);
            },
            DTCReqSubfunction::ReportDTCWithPermanentStatus => {
                out.push(0x15);
            },
            DTCReqSubfunction::ReportDTCExtDataRecordByRecordNumber(m) => {
                out.push(0x16);
                out.push(m.record);
            },
            DTCReqSubfunction::ReportUserDefMemoryDTCByStatusMask(m) => {
                out.push(0x17);
                out.push(m.mask);
            },
            DTCReqSubfunction::ReportUserDefMemoryDTCSnapshotRecordByDTCNumber(m) => {
                out.push(0x18);
                write_dtc(out, &m.mask);
                out.push(m.record);
                out.push(m.memory);
            },
            DTCReqSubfunction::ReportUserDefMemoryDTCExtDataRecordByDTCNumber(m) => {
                out.push(0x19);
                write_dtc(out, &m.mask);
                out.push(m.record);
                out.push(m.memory);
            },
            DTCReqSubfunction::Reserved2 => {
                out.push(0x1a);
            },
            DTCReqSubfunction::ReportWWHOBDDTCByMaskRecord(m) => {
                out.push(0x42);
                out.push(m.group);
            },
            DTCReqSubfunction::Reserved3 => {
                out.push(0x43);
            },
            DTCReqSubfunction::ReportWWHOBDDTCWithPermanentStatus(m) => {
                out.push(0x55);
                out.push(m.group);
            },
            DTCReqSubfunction::Reserved4 => {
                out.push(0x56);
            },
        }
        proof {
            assert(out@ =~= old(out)@ + Self::enc(self@));
        }
        Ok(())
    }
}

/// Whatever request subfunction decodes re-encodes to exactly the bytes it
/// came from.
pub proof fn lemma_dtc_req_fidelity(b: Seq<u8>)
    requires
        spec_dtc_req_dec(b) is Ok,
    ensures
        spec_dtc_req_enc(spec_dtc_req_dec(b)->Ok_0) == b,
{
    let t = b.skip(1);
    let s = spec_dtc_req_dec(b)->Ok_0;
    assert(seq![b[0]] + t =~= b);
    if t.len() == 3 {
        lemma_dtc_fidelity(t);
        assert(spec_dtc_bytes(spec_dtc_of(t)) == t);
    }
    if t.len() == 4 || t.len() == 5 {
        assert(spec_dtc_bytes(spec_dtc_of(t)) =~= t.take(3));
    }
    if t.len() == 2 {
        lemma_be_val_bound(t);
        lemma_pow256_units();
        lemma_be_val_bytes(t);
    }
    assert(spec_dtc_req_body(s) =~= t);
}

/// The four wire bytes of a DTC-and-status record.
pub open spec fn spec_status_record(r: DtcAndStatusRecord) -> Seq<u8> {
    spec_dtc_bytes(r.dtc) + seq![r.status]
}

/// The contiguous wire bytes of a DTC-and-status record list.
pub open spec fn spec_status_records(rs: Seq<DtcAndStatusRecord>) -> Seq<u8>
    decreases rs.len(),
{
    if rs.len() == 0 {
        seq![]
    } else {
        spec_status_record(rs[0]) + spec_status_records(rs.skip(1))
    }
}

/// The DTC-and-status record read from the first four bytes of `b`.
pub open spec fn spec_dec_status_record(b: Seq<u8>) -> DtcAndStatusRecord {
    DtcAndStatusRecord { dtc: spec_dtc_of(b), status: b[3] }
}

/// The record list read greedily from `b`, four bytes per record.
pub open spec fn spec_dec_status_records(b: Seq<u8>) -> Seq<DtcAndStatusRecord>
    decreases b.len(),
{
    if b.len() < 4 {
        seq![]
    } else {
        seq![spec_dec_status_record(b)] + spec_dec_status_records(b.skip(4))
    }
}

pub proof fn lemma_status_records_len(rs: Seq<DtcAndStatusRecord>)
    ensures
        spec_status_records(rs).len() == 4 * rs.len(),
    decreases rs.len(),
{
    if rs.len() > 0 {
        lemma_status_records_len(rs.skip(1));
    }
}

pub proof fn lemma_status_records_push(rs: Seq<DtcAndStatusRecord>, x: DtcAndStatusRecord)
    ensures
        spec_status_records(rs.push(x)) == spec_status_records(rs) + spec_status_record(x),
    decreases rs.len(),
{
    if rs.len() == 0 {
        assert(rs.push(x).skip(1) =~= Seq::<DtcAndStatusRecord>::empty());
        assert(rs.push(x)[0] == x);
        assert(spec_status_records(rs.push(x)) == spec_status_record(x) + spec_status_records(
            rs.push(x).skip(1),
        ));
        assert(spec_status_records(rs.push(x)) =~= spec_status_records(rs) + spec_status_record(x));
    } else {
        assert(rs.push(x).skip(1) =~= rs.skip(1).push(x));
        lemma_status_records_push(rs.skip(1), x);
        assert(rs.push(x)[0] == rs[0]);
        assert(spec_status_records(rs.push(x)) == spec_status_record(rs[0]) + spec_status_records(
            rs.skip(1).push(x),
        ));
        assert(spec_status_records(rs.push(x)) =~= spec_status_records(rs) + spec_status_record(x));
    }
}

/// Decoding the encoding of a record list gives the list back.
pub proof fn lemma_status_records_round_trip(rs: Seq<DtcAndStatusRecord>)
    ensures
        spec_dec_status_records(spec_status_records(rs)) == rs,
    decreases rs.len(),
{
    lemma_status_records_len(rs);
    if rs.len() > 0 {
        let b = spec_status_records(rs);
        lemma_status_records_len(rs.skip(1));
        assert(b.skip(4) =~= spec_status_records(rs.skip(1)));
        lemma_status_records_round_trip(rs.skip(1));
        assert(spec_dec_status_record(b).dtc.dtc =~= rs[0].dtc.dtc);
        assert(spec_dec_status_records(b) =~= rs);
    }
}

/// Re-encoding a decoded record list reproduces the bytes, whenever they
/// hold whole records.
pub proof fn lemma_status_records_fidelity(b: Seq<u8>)
    requires
        b.len() % 4 == 0,
    ensures
        spec_status_records(spec_dec_status_records(b)) == b,
    decreases b.len(),
{
    if b.len() == 0 {
        assert(spec_status_records(spec_dec_status_records(b)) =~= b);
    } else {
        lemma_status_records_fidelity(b.skip(4));
        assert(spec_status_record(spec_dec_status_record(b)) =~= b.take(4));
        let rest = spec_dec_status_records(b.skip(4));
        assert((seq![spec_dec_status_record(b)] + rest).skip(1) =~= rest);
        assert(spec_status_records(seq![spec_dec_status_record(b)] + rest) == spec_status_record(
            spec_dec_status_record(b),
        ) + spec_status_records(rest));
        assert(spec_status_records(spec_dec_status_records(b)) =~= b);
    }
}

/// Reads DTC-and-status records until `end`.
fn read_status_records(data: &[u8], pos: &mut usize, end: usize) -> (v: Vec<DtcAndStatusRecord>)
    requires
        *old(pos) <= end,
        end <= data@.len(),
        (end - *old(pos)) % 4 == 0,
    ensures
        v@ == spec_dec_status_records(data@.subrange(*old(pos) as int, end as int)),
        *final(pos) == end,
{
    let ghost whole = data@.subrange(*old(pos) as int, end as int);
    let mut v: Vec<DtcAndStatusRecord> = Vec::new();
    while *pos < end
        invariant
            *pos <= end,
            end <= data@.len(),
            (end - *pos) % 4 == 0,
            spec_dec_status_records(whole) == v@ + spec_dec_status_records(
                data@.subrange(*pos as int, end as int),
            ),
        decreases end - *pos,
    {
        let ghost cur = *pos as int;
        let ghost rem = data@.subrange(cur, end as int);
        let dtc = read_dtc(data, pos);
        let status = read_u8(data, pos);
        let rec = DtcAndStatusRecord { dtc, status };
        v.push(rec);
        proof {
            assert(rem.skip(4) =~= data@.subrange(cur + 4, end as int));
            assert(spec_dtc_of(rem).dtc =~= dtc.dtc);
            assert(spec_dec_status_record(rem) == rec);
            assert(v@ + spec_dec_status_records(rem.skip(4)) =~= v@.drop_last()
                + spec_dec_status_records(rem));
        }
    }
    proof {
        assert(data@.subrange(end as int, end as int) =~= Seq::<u8>::empty());
        assert(v@ =~= spec_dec_status_records(whole));
    }
    v
}

/// Writes a DTC-and-status record list.
fn write_status_records(out: &mut Vec<u8>, rs: &Vec<DtcAndStatusRecord>)
    ensures
        final(out)@ == old(out)@ + spec_status_records(rs@),
{
    let mut i: usize = 0;
    proof {
        assert(rs@.take(0) =~= Seq::<DtcAndStatusRecord>::empty());
        assert(out@ =~= old(out)@ + spec_status_records(rs@.take(0)));
    }
    while i < rs.len()
        invariant
            i <= rs@.len(),
            out@ == old(out)@ + spec_status_records(rs@.take(i as int)),
        decreases rs@.len() - i,
    {
        let rec = rs[i];
        write_dtc(out, &rec.dtc);
        out.push(rec.status);
        proof {
            lemma_status_records_push(rs@.take(i as int), rec);
            assert(rs@.take(i + 1) =~= rs@.take(i as int).push(rec));
            assert(out@ =~= old(out)@ + spec_status_records(rs@.take(i + 1)));
        }
        i = i + 1;
    }
    proof {
        assert(rs@.take(rs@.len() as int) =~= rs@);
    }
}

/// The four wire bytes of a snapshot identification record.
pub open spec fn spec_ident_record(r: (Dtc, u8)) -> Seq<u8> {
    spec_dtc_bytes(r.0) + seq![r.1]
}

/// The contiguous wire bytes of a snapshot identification list.
pub open spec fn spec_ident_records(rs: Seq<(Dtc, u8)>) -> Seq<u8>
    decreases rs.len(),
{
    if rs.len() == 0 {
        seq![]
    } else {
        spec_ident_record(rs[0]) + spec_ident_records(rs.skip(1))
    }
}

/// The snapshot identification record read from the first four bytes of `b`.
pub open spec fn spec_dec_ident_record(b: Seq<u8>) -> (Dtc, u8) {
    (spec_dtc_of(b), b[3])
}

/// The identification list read greedily from `b`, four bytes per record.
pub open spec fn spec_dec_ident_records(b: Seq<u8>) -> Seq<(Dtc, u8)>
    decreases b.len(),
{
    if b.len() < 4 {
        seq![]
    } else {
        seq![spec_dec_ident_record(b)] + spec_dec_ident_records(b.skip(4))
    }
}

pub proof fn lemma_ident_records_len(rs: Seq<(Dtc, u8)>)
    ensures
        spec_ident_records(rs).len() == 4 * rs.len(),
    decreases rs.len(),
{
    if rs.len() > 0 {
        lemma_ident_records_len(rs.skip(1));
    }
}

pub proof fn lemma_ident_records_push(rs: Seq<(Dtc, u8)>, x: (Dtc, u8))
    ensures
        spec_ident_records(rs.push(x)) == spec_ident_records(rs) + spec_ident_record(x),
    decreases rs.len(),
{
    if rs.len() == 0 {
        assert(rs.push(x).skip(1) =~= Seq::<(Dtc, u8)>::empty());
        assert(rs.push(x)[0] == x);
        assert(spec_ident_records(rs.push(x)) == spec_ident_record(x) + spec_ident_records(
            rs.push(x).skip(1),
        ));
        assert(spec_ident_records(rs.push(x)) =~= spec_ident_records(rs) + spec_ident_record(x));
    } else {
        assert(rs.push(x).skip(1) =~= rs.skip(1).push(x));
        lemma_ident_records_push(rs.skip(1), x);
        assert(rs.push(x)[0] == rs[0]);
        assert(spec_ident_records(rs.push(x)) == spec_ident_record(rs[0]) + spec_ident_records(
            rs.skip(1).push(x),
        ));
        assert(spec_ident_records(rs.push(x)) =~= spec_ident_records(rs) + spec_ident_record(x));
    }
}

/// Decoding the encoding of an identification list gives the list back.
pub proof fn lemma_ident_records_round_trip(rs: Seq<(Dtc, u8)>)
    ensures
        spec_dec_ident_records(spec_ident_records(rs)) == rs,
    decreases rs.len(),
{
    lemma_ident_records_len(rs);
    if rs.len() > 0 {
        let b = spec_ident_records(rs);
        lemma_ident_records_len(rs.skip(1));
        assert(b.skip(4) =~= spec_ident_records(rs.skip(1)));
        lemma_ident_records_round_trip(rs.skip(1));
        assert(spec_dec_ident_record(b).0.dtc =~= rs[0].0.dtc);
        assert(spec_dec_ident_records(b) =~= rs);
    }
}

/// Re-encoding a decoded identification list reproduces the bytes.
pub proof fn lemma_ident_records_fidelity(b: Seq<u8>)
    requires
        b.len() % 4 == 0,
    ensures
        spec_ident_records(spec_dec_ident_records(b)) == b,
    decreases b.len(),
{
    if b.len() == 0 {
        assert(spec_ident_records(spec_dec_ident_records(b)) =~= b);
    } else {
        lemma_ident_records_fidelity(b.skip(4));
        assert(spec_ident_record(spec_dec_ident_record(b)) =~= b.take(4));
        let rest = spec_dec_ident_records(b.skip(4));
        assert((seq![spec_dec_ident_record(b)] + rest).skip(1) =~= rest);
        assert(spec_ident_records(seq![spec_dec_ident_record(b)] + rest) == spec_ident_record(
            spec_dec_ident_record(b),
        ) + spec_ident_records(rest));
        assert(spec_ident_records(spec_dec_ident_records(b)) =~= b);
    }
}

/// Reads snapshot identification records until `end`.
fn read_ident_records(data: &[u8], pos: &mut usize, end: usize) -> (v: Vec<(Dtc, u8)>)
    requires
        *old(pos) <= end,
        end <= data@.len(),
        (end - *old(pos)) % 4 == 0,
    ensures
        v@ == spec_dec_ident_records(data@.subrange(*old(pos) as int, end as int)),
        *final(pos) == end,
{
    let ghost whole = data@.subrange(*old(pos) as int, end as int);
    let mut v: Vec<(Dtc, u8)> = Vec::new();
    while *pos < end
        invariant
            *pos <= end,
            end <= data@.len(),
            (end - *pos) % 4 == 0,
            spec_dec_ident_records(whole) == v@ + spec_dec_ident_records(
                data@.subrange(*pos as int, end as int),
            ),
        decreases end - *pos,
    {
        let ghost cur = *pos as int;
        let ghost rem = data@.subrange(cur, end as int);
        let dtc = read_dtc(data, pos);
        let num = read_u8(data, pos);
        let rec = (dtc, num);
        v.push(rec);
        proof {
            assert(rem.skip(4) =~= data@.subrange(cur + 4, end as int));
            assert(spec_dtc_of(rem).dtc =~= dtc.dtc);
            assert(spec_dec_ident_record(rem) == rec);
            assert(v@ + spec_dec_ident_records(rem.skip(4)) =~= v@.drop_last()
                + spec_dec_ident_records(rem));
        }
    }
    proof {
        assert(data@.subrange(end as int, end as int) =~= Seq::<u8>::empty());
        assert(v@ =~= spec_dec_ident_records(whole));
    }
    v
}

/// Writes a snapshot identification list.
fn write_ident_records(out: &mut Vec<u8>, rs: &Vec<(Dtc, u8)>)
    ensures
        final(out)@ == old(out)@ + spec_ident_records(rs@),
{
    let mut i: usize = 0;
    proof {
        assert(rs@.take(0) =~= Seq::<(Dtc, u8)>::empty());
        assert(out@ =~= old(out)@ + spec_ident_records(rs@.take(0)));
    }
    while i < rs.len()
        invariant
            i <= rs@.len(),
            out@ == old(out)@ + spec_ident_records(rs@.take(i as int)),
        decreases rs@.len() - i,
    {
        let rec = rs[i];
        write_dtc(out, &rec.0);
        out.push(rec.1);
        proof {
            lemma_ident_records_push(rs@.take(i as int), rec);
            assert(rs@.take(i + 1) =~= rs@.take(i as int).push(rec));
            assert(out@ =~= old(out)@ + spec_ident_records(rs@.take(i + 1)));
        }
        i = i + 1;
    }
    proof {
        assert(rs@.take(rs@.len() as int) =~= rs@);
    }
}

/// The six wire bytes of a severity record.
pub open spec fn spec_severity_record(r: DTCAndSeverityRecord) -> Seq<u8> {
    seq![r.severity, r.functional_unit] + spec_dtc_bytes(r.dtc_status.dtc)
        + seq![r.dtc_status.status]
}

/// The contiguous wire bytes of a severity record list.
pub open spec fn spec_severity_records(rs: Seq<DTCAndSeverityRecord>) -> Seq<u8>
    decreases rs.len(),
{
    if rs.len() == 0 {
        seq![]
    } else {
        spec_severity_record(rs[0]) + spec_severity_records(rs.skip(1))
    }
}

/// The severity record read from the first six bytes of `b`.
pub open spec fn spec_dec_severity_record(b: Seq<u8>) -> DTCAndSeverityRecord {
    DTCAndSeverityRecord {
        severity: b[0],
        functional_unit: b[1],
        dtc_status: DtcAndStatusRecord { dtc: spec_dtc_of(b.skip(2)), status: b[5] },
    }
}

/// The severity list read greedily from `b`, six bytes per record.
pub open spec fn spec_dec_severity_records(b: Seq<u8>) -> Seq<DTCAndSeverityRecord>
    decreases b.len(),
{
    if b.len() < 6 {
        seq![]
    } else {
        seq![spec_dec_severity_record(b)] + spec_dec_severity_records(b.skip(6))
    }
}

pub proof fn lemma_severity_records_len(rs: Seq<DTCAndSeverityRecord>)
    ensures
        spec_severity_records(rs).len() == 6 * rs.len(),
    decreases rs.len(),
{
    if rs.len() > 0 {
        lemma_severity_records_len(rs.skip(1));
    }
}

pub proof fn lemma_severity_records_push(rs: Seq<DTCAndSeverityRecord>, x: DTCAndSeverityRecord)
    ensures
        spec_severity_records(rs.push(x)) == spec_severity_records(rs) + spec_severity_record(x),
    decreases rs.len(),
{
    if rs.len() == 0 {
        assert(rs.push(x).skip(1) =~= Seq::<DTCAndSeverityRecord>::empty());
        assert(rs.push(x)[0] == x);
        assert(spec_severity_records(rs.push(x)) == spec_severity_record(x) + spec_severity_records(
            rs.push(x).skip(1),
        ));
        assert(spec_severity_records(rs.push(x)) =~= spec_severity_records(rs)
            + spec_severity_record(x));
    } else {
        assert(rs.push(x).skip(1) =~= rs.skip(1).push(x));
        lemma_severity_records_push(rs.skip(1), x);
        assert(rs.push(x)[0] == rs[0]);
        assert(spec_severity_records(rs.push(x)) == spec_severity_record(rs[0]) + spec_severity_records(
            rs.skip(1).push(x),
        ));
        assert(spec_severity_records(rs.push(x)) =~= spec_severity_records(rs)
            + spec_severity_record(x));
    }
}

/// Decoding the encoding of a severity list gives the list back.
pub proof fn lemma_severity_records_round_trip(rs: Seq<DTCAndSeverityRecord>)
    ensures
        spec_dec_severity_records(spec_severity_records(rs)) == rs,
    decreases rs.len(),
{
    lemma_severity_records_len(rs);
    if rs.len() > 0 {
        let b = spec_severity_records(rs);
        lemma_severity_records_len(rs.skip(1));
        assert(b.skip(6) =~= spec_severity_records(rs.skip(1)));
        lemma_severity_records_round_trip(rs.skip(1));
        assert(b.skip(2).len() >= 3);
        assert(spec_dec_severity_record(b).dtc_status.dtc.dtc =~= rs[0].dtc_status.dtc.dtc);
        assert(spec_dec_severity_records(b) =~= rs);
    }
}

/// Re-encoding a decoded severity list reproduces the bytes.
pub proof fn lemma_severity_records_fidelity(b: Seq<u8>)
    requires
        b.len() % 6 == 0,
    ensures
        spec_severity_records(spec_dec_severity_records(b)) == b,
    decreases b.len(),
{
    if b.len() == 0 {
        assert(spec_severity_records(spec_dec_severity_records(b)) =~= b);
    } else {
        lemma_severity_records_fidelity(b.skip(6));
        assert(spec_severity_record(spec_dec_severity_record(b)) =~= b.take(6));
        let rest = spec_dec_severity_records(b.skip(6));
        assert((seq![spec_dec_severity_record(b)] + rest).skip(1) =~= rest);
        assert(spec_severity_records(seq![spec_dec_severity_record(b)] + rest) == spec_severity_record(
            spec_dec_severity_record(b),
        ) + spec_severity_records(rest));
        assert(spec_severity_records(spec_dec_severity_records(b)) =~= b);
    }
}

/// Reads severity records until `end`.
fn read_severity_records(data: &[u8], pos: &mut usize, end: usize) -> (v: Vec<
    DTCAndSeverityRecord,
>)
    requires
        *old(pos) <= end,
        end <= data@.len(),
        (end - *old(pos)) % 6 == 0,
    ensures
        v@ == spec_dec_severity_records(data@.subrange(*old(pos) as int, end as int)),
        *final(pos) == end,
{
    let ghost whole = data@.subrange(*old(pos) as int, end as int);
    let mut v: Vec<DTCAndSeverityRecord> = Vec::new();
    while *pos < end
        invariant
            *pos <= end,
            end <= data@.len(),
            (end - *pos) % 6 == 0,
            spec_dec_severity_records(whole) == v@ + spec_dec_severity_records(
                data@.subrange(*pos as int, end as int),
            ),
        decreases end - *pos,
    {
        let ghost cur = *pos as int;
        let ghost rem = data@.subrange(cur, end as int);
        let severity = read_u8(data, pos);
        let functional_unit = read_u8(data, pos);
        let dtc = read_dtc(data, pos);
        let status = read_u8(data, pos);
        let rec = DTCAndSeverityRecord {
            severity,
            functional_unit,
            dtc_status: DtcAndStatusRecord { dtc, status },
        };
        v.push(rec);
        proof {
            assert(rem.skip(6) =~= data@.subrange(cur + 6, end as int));
            assert(rem.skip(2).subrange(0, 3) =~= data@.subrange(cur + 2, cur + 5));
            assert(spec_dtc_of(rem.skip(2)).dtc =~= dtc.dtc);
            assert(spec_dec_severity_record(rem) == rec);
            assert(v@ + spec_dec_severity_records(rem.skip(6)) =~= v@.drop_last()
                + spec_dec_severity_records(rem));
        }
    }
    proof {
        assert(data@.subrange(end as int, end as int) =~= Seq::<u8>::empty());
        assert(v@ =~= spec_dec_severity_records(whole));
    }
    v
}

/// Writes a severity record list.
fn write_severity_records(out: &mut Vec<u8>, rs: &Vec<DTCAndSeverityRecord>)
    ensures
        final(out)@ == old(out)@ + spec_severity_records(rs@),
{
    let mut i: usize = 0;
    proof {
        assert(rs@.take(0) =~= Seq::<DTCAndSeverityRecord>::empty());
        assert(out@ =~= old(out)@ + spec_severity_records(rs@.take(0)));
    }
    while i < rs.len()
        invariant
            i <= rs@.len(),
            out@ == old(out)@ + spec_severity_records(rs@.take(i as int)),
        decreases rs@.len() - i,
    {
        let rec = rs[i];
        out.push(rec.severity);
        out.push(rec.functional_unit);
        write_dtc(out, &rec.dtc_status.dtc);
        out.push(rec.dtc_status.status);
        proof {
            lemma_severity_records_push(rs@.take(i as int), rec);
            assert(rs@.take(i + 1) =~= rs@.take(i as int).push(rec));
            assert(out@ =~= old(out)@ + spec_severity_records(rs@.take(i + 1)));
        }
        i = i + 1;
    }
    proof {
        assert(rs@.take(rs@.len() as int) =~= rs@);
    }
}

/// The four wire bytes of a fault counter record.
pub open spec fn spec_fault_record(r: DtcAndFaultCounter) -> Seq<u8> {
    spec_dtc_bytes(r.dtc) + seq![r.counter]
}

/// The contiguous wire bytes of a fault counter list.
pub open spec fn spec_fault_records(rs: Seq<DtcAndFaultCounter>) -> Seq<u8>
    decreases rs.len(),
{
    if rs.len() == 0 {
        seq![]
    } else {
        spec_fault_record(rs[0]) + spec_fault_records(rs.skip(1))
    }
}

/// The fault counter record read from the first four bytes of `b`.
pub open spec fn spec_dec_fault_record(b: Seq<u8>) -> DtcAndFaultCounter {
    DtcAndFaultCounter { dtc: spec_dtc_of(b), counter: b[3] }
}

/// The fault counter list read greedily from `b`, four bytes per record.
pub open spec fn spec_dec_fault_records(b: Seq<u8>) -> Seq<DtcAndFaultCounter>
    decreases b.len(),
{
    if b.len() < 4 {
        seq![]
    } else {
        seq![spec_dec_fault_record(b)] + spec_dec_fault_records(b.skip(4))
    }
}

pub proof fn lemma_fault_records_len(rs: Seq<DtcAndFaultCounter>)
    ensures
        spec_fault_records(rs).len() == 4 * rs.len(),
    decreases rs.len(),
{
    if rs.len() > 0 {
        lemma_fault_records_len(rs.skip(1));
    }
}

pub proof fn lemma_fault_records_push(rs: Seq<DtcAndFaultCounter>, x: DtcAndFaultCounter)
    ensures
        spec_fault_records(rs.push(x)) == spec_fault_records(rs) + spec_fault_record(x),
    decreases rs.len(),
{
    if rs.len() == 0 {
        assert(rs.push(x).skip(1) =~= Seq::<DtcAndFaultCounter>::empty());
        assert(rs.push(x)[0] == x);
        assert(spec_fault_records(rs.push(x)) == spec_fault_record(x) + spec_fault_records(
            rs.push(x).skip(1),
        ));
        assert(spec_fault_records(rs.push(x)) =~= spec_fault_records(rs) + spec_fault_record(x));
    } else {
        assert(rs.push(x).skip(1) =~= rs.skip(1).push(x));
        lemma_fault_records_push(rs.skip(1), x);
        assert(rs.push(x)[0] == rs[0]);
        assert(spec_fault_records(rs.push(x)) == spec_fault_record(rs[0]) + spec_fault_records(
            rs.skip(1).push(x),
        ));
        assert(spec_fault_records(rs.push(x)) =~= spec_fault_records(rs) + spec_fault_record(x));
    }
}

/// Decoding the encoding of a fault counter list gives the list back.
pub proof fn lemma_fault_records_round_trip(rs: Seq<DtcAndFaultCounter>)
    ensures
        spec_dec_fault_records(spec_fault_records(rs)) == rs,
    decreases rs.len(),
{
    lemma_fault_records_len(rs);
    if rs.len() > 0 {
        let b = spec_fault_records(rs);
        lemma_fault_records_len(rs.skip(1));
        assert(b.skip(4) =~= spec_fault_records(rs.skip(1)));
        lemma_fault_records_round_trip(rs.skip(1));
        assert(spec_dec_fault_record(b).dtc.dtc =~= rs[0].dtc.dtc);
        assert(spec_dec_fault_records(b) =~= rs);
    }
}

/// Re-encoding a decoded fault counter list reproduces the bytes.
pub proof fn lemma_fault_records_fidelity(b: Seq<u8>)
    requires
        b.len() % 4 == 0,
    ensures
        spec_fault_records(spec_dec_fault_records(b)) == b,
    decreases b.len(),
{
    if b.len() == 0 {
        assert(spec_fault_records(spec_dec_fault_records(b)) =~= b);
    } else {
        lemma_fault_records_fidelity(b.skip(4));
        assert(spec_fault_record(spec_dec_fault_record(b)) =~= b.take(4));
        let rest = spec_dec_fault_records(b.skip(4));
        assert((seq![spec_dec_fault_record(b)] + rest).skip(1) =~= rest);
        assert(spec_fault_records(seq![spec_dec_fault_record(b)] + rest) == spec_fault_record(
            spec_dec_fault_record(b),
        ) + spec_fault_records(rest));
        assert(spec_fault_records(spec_dec_fault_records(b)) =~= b);
    }
}

/// Reads fault counter records until `end`.
fn read_fault_records(data: &[u8], pos: &mut usize, end: usize) -> (v: Vec<DtcAndFaultCounter>)
    requires
        *old(pos) <= end,
        end <= data@.len(),
        (end - *old(pos)) % 4 == 0,
    ensures
        v@ == spec_dec_fault_records(data@.subrange(*old(pos) as int, end as int)),
        *final(pos) == end,
{
    let ghost whole = data@.subrange(*old(pos) as int, end as int);
    let mut v: Vec<DtcAndFaultCounter> = Vec::new();
    while *pos < end
        invariant
            *pos <= end,
            end <= data@.len(),
            (end - *pos) % 4 == 0,
            spec_dec_fault_records(whole) == v@ + spec_dec_fault_records(
                data@.subrange(*pos as int, end as int),
            ),
        decreases end - *pos,
    {
        let ghost cur = *pos as int;
        let ghost rem = data@.subrange(cur, end as int);
        let dtc = read_dtc(data, pos);
        let counter = read_u8(data, pos);
        let rec = DtcAndFaultCounter { dtc, counter };
        v.push(rec);
        proof {
            assert(rem.skip(4) =~= data@.subrange(cur + 4, end as int));
            assert(spec_dtc_of(rem).dtc =~= dtc.dtc);
            assert(spec_dec_fault_record(rem) == rec);
            assert(v@ + spec_dec_fault_records(rem.skip(4)) =~= v@.drop_last()
                + spec_dec_fault_records(rem));
        }
    }
    proof {
        assert(data@.subrange(end as int, end as int) =~= Seq::<u8>::empty());
        assert(v@ =~= spec_dec_fault_records(whole));
    }
    v
}

/// Writes a fault counter list.
fn write_fault_records(out: &mut Vec<u8>, rs: &Vec<DtcAndFaultCounter>)
    ensures
        final(out)@ == old(out)@ + spec_fault_records(rs@),
{
    let mut i: usize = 0;
    proof {
        assert(rs@.take(0) =~= Seq::<DtcAndFaultCounter>::empty());
        assert(out@ =~= old(out)@ + spec_fault_records(rs@.take(0)));
    }
    while i < rs.len()
        invariant
            i <= rs@.len(),
            out@ == old(out)@ + spec_fault_records(rs@.take(i as int)),
        decreases rs@.len() - i,
    {
        let rec = rs[i];
        write_dtc(out, &rec.dtc);
        out.push(rec.counter);
        proof {
            lemma_fault_records_push(rs@.take(i as int), rec);
            assert(rs@.take(i + 1) =~= rs@.take(i as int).push(rec));
            assert(out@ =~= old(out)@ + spec_fault_records(rs@.take(i + 1)));
        }
        i = i + 1;
    }
    proof {
        assert(rs@.take(rs@.len() as int) =~= rs@);
    }
}

/// The four wire bytes of a DTC count report.
pub open spec fn spec_count_body(c: GotDTCCount) -> Seq<u8> {
    seq![c.mask, c.format] + be_bytes(c.count as nat, 2)
}

/// The DTC count report read from four body bytes.
pub open spec fn spec_dec_count(b: Seq<u8>) -> GotDTCCount {
    GotDTCCount { mask: b[0], format: b[1], count: be_val(b.skip(2)) as u16 }
}

pub proof fn lemma_count_round_trip(c: GotDTCCount)
    ensures
        spec_count_body(c).len() == 4,
        spec_dec_count(spec_count_body(c)) == c,
{
    lemma_be_bytes_len(c.count as nat, 2);
    lemma_be_bytes_val(c.count as nat, 2);
    lemma_pow256_units();
    assert(spec_count_body(c).skip(2) =~= be_bytes(c.count as nat, 2));
}

pub proof fn lemma_count_fidelity(b: Seq<u8>)
    requires
        b.len() == 4,
    ensures
        spec_count_body(spec_dec_count(b)) == b,
{
    lemma_be_val_bound(b.skip(2));
    lemma_pow256_units();
    lemma_be_val_bytes(b.skip(2));
    assert(spec_count_body(spec_dec_count(b)) =~= b);
}

/// The body of a masked record list report: the availability mask and the
/// records.
pub open spec fn spec_list_body(l: SpecGotListDtcAndStatusRecord) -> Seq<u8> {
    seq![l.availability_mask] + spec_status_records(l.dtcs)
}

/// The masked record list read from the body bytes.
pub open spec fn spec_dec_list(b: Seq<u8>) -> SpecGotListDtcAndStatusRecord {
    SpecGotListDtcAndStatusRecord {
        availability_mask: b[0],
        dtcs: spec_dec_status_records(b.skip(1)),
    }
}

pub proof fn lemma_list_round_trip(l: SpecGotListDtcAndStatusRecord)
    ensures
        spec_list_body(l).len() == 1 + 4 * l.dtcs.len(),
        spec_dec_list(spec_list_body(l)) =~= l,
{
    lemma_status_records_len(l.dtcs);
    assert(spec_list_body(l).skip(1) =~= spec_status_records(l.dtcs));
    lemma_status_records_round_trip(l.dtcs);
}

pub proof fn lemma_list_fidelity(b: Seq<u8>)
    requires
        b.len() >= 1,
        (b.len() - 1) % 4 == 0,
    ensures
        spec_list_body(spec_dec_list(b)) == b,
{
    lemma_status_records_fidelity(b.skip(1));
    assert(spec_list_body(spec_dec_list(b)) =~= b);
}

/// The body of a severity record list report.
pub open spec fn spec_sev_body(l: SpecResponseDTCBySeverityMaskRecord) -> Seq<u8> {
    seq![l.availability_mask] + spec_severity_records(l.records)
}

/// The severity record list read from the body bytes.
pub open spec fn spec_dec_sev(b: Seq<u8>) -> SpecResponseDTCBySeverityMaskRecord {
    SpecResponseDTCBySeverityMaskRecord {
        availability_mask: b[0],
        records: spec_dec_severity_records(b.skip(1)),
    }
}

pub proof fn lemma_sev_round_trip(l: SpecResponseDTCBySeverityMaskRecord)
    ensures
        spec_sev_body(l).len() == 1 + 6 * l.records.len(),
        spec_dec_sev(spec_sev_body(l)) =~= l,
{
    lemma_severity_records_len(l.records);
    assert(spec_sev_body(l).skip(1) =~= spec_severity_records(l.records));
    lemma_severity_records_round_trip(l.records);
}

pub proof fn lemma_sev_fidelity(b: Seq<u8>)
    requires
        b.len() >= 1,
        (b.len() - 1) % 6 == 0,
    ensures
        spec_sev_body(spec_dec_sev(b)) == b,
{
    lemma_severity_records_fidelity(b.skip(1));
    assert(spec_sev_body(spec_dec_sev(b)) =~= b);
}

/// The body of a user-defined-memory record list report.
pub open spec fn spec_userdef_body(l: SpecResponseUserDefMemoryDTCByStatusMask) -> Seq<u8> {
    seq![l.memory, l.availability_mask] + spec_status_records(l.records)
}

/// The user-defined-memory record list read from the body bytes.
pub open spec fn spec_dec_userdef(b: Seq<u8>) -> SpecResponseUserDefMemoryDTCByStatusMask {
    SpecResponseUserDefMemoryDTCByStatusMask {
        memory: b[0],
        availability_mask: b[1],
        records: spec_dec_status_records(b.skip(2)),
    }
}

pub proof fn lemma_userdef_round_trip(l: SpecResponseUserDefMemoryDTCByStatusMask)
    ensures
        spec_userdef_body(l).len() == 2 + 4 * l.records.len(),
        spec_dec_userdef(spec_userdef_body(l)) =~= l,
{
    lemma_status_records_len(l.records);
    assert(spec_userdef_body(l).skip(2) =~= spec_status_records(l.records));
    lemma_status_records_round_trip(l.records);
}

pub proof fn lemma_userdef_fidelity(b: Seq<u8>)
    requires
        b.len() >= 2,
        (b.len() - 2) % 4 == 0,
    ensures
        spec_userdef_body(spec_dec_userdef(b)) == b,
{
    lemma_status_records_fidelity(b.skip(2));
    assert(spec_userdef_body(spec_dec_userdef(b)) =~= b);
}

/// The one-byte wire index of each response subfunction.
pub open spec fn spec_dtc_rsp_index(s: SpecDTCRspSubfunction) -> u8 {
    match s {
        SpecDTCRspSubfunction::Reserved1 => 0x00,
        SpecDTCRspSubfunction::ResponseNumberOfDTCByStatusMask(_) => 0x01,
        SpecDTCRspSubfunction::ResponseDTCByStatusMask(_) => 0x02,
        SpecDTCRspSubfunction::ResponseDTCSnapshotIdentification(_) => 0x03,
        SpecDTCRspSubfunction::ResponseDTCSnapshotRecordByDTCNumber => 0x04,
        SpecDTCRspSubfunction::ResponseDTCStoredDataByRecordNumber => 0x05,
        SpecDTCRspSubfunction::ResponseDTCExtDataRecordByDTCNumber => 0x06,
        SpecDTCRspSubfunction::ResponseNumberOfDTCBySeverityMaskRecord(_) => 0x07,
        SpecDTCRspSubfunction::ResponseDTCBySeverityMaskRecord(_) => 0x08,
        SpecDTCRspSubfunction::ResponseSeverityInformationOfDTC(_) => 0x09,
        SpecDTCRspSubfunction::ResponseSupportedDTC(_) => 0x0a,
        SpecDTCRspSubfunction::ResponseFirstTestFailedDTC(_) => 0x0b,
        SpecDTCRspSubfunction::ResponseFirstConfirmedDTC(_) => 0x0c,
        SpecDTCRspSubfunction::ResponseMostRecentTestFailedDTC(_) => 0x0d,
        SpecDTCRspSubfunction::ResponseMostRecentConfirmedDTC(_) => 0x0e,
        SpecDTCRspSubfunction::ResponseMirrorMemoryDTCByStatusMask(_) => 0x0f,
        SpecDTCRspSubfunction::ResponseMirrorMemoryDTCExtDataRecordByDTCNumber => 0x10,
        SpecDTCRspSubfunction::ResponseNumberOfMirrorMemoryDTCByStatusMask(_) => 0x11,
        SpecDTCRspSubfunction::ResponseNumberOfEmissionsOBDDTCByStatusMask(_) => 0x12,
        SpecDTCRspSubfunction::ResponseEmissionsOBDDTCByStatusMask(_) => 0x13,
        SpecDTCRspSubfunction::ResponseDTCFaultDetectionCounter(_) => 0x14,
        SpecDTCRspSubfunction::ResponseDTCWithPermanentStatus(_) => 0x15,
        SpecDTCRspSubfunction::ResponseDTCExtDataRecordByRecordNumber => 0x16,
        SpecDTCRspSubfunction::ResponseUserDefMemoryDTCByStatusMask(_) => 0x17,
        SpecDTCRspSubfunction::ResponseUserDefMemoryDTCSnapshotRecordByDTCNumber => 0x18,
        SpecDTCRspSubfunction::ResponseUserDefMemoryDTCExtDataRecordByDTCNumber => 0x19,
        SpecDTCRspSubfunction::Reserved2 => 0x1a,
        SpecDTCRspSubfunction::ResponseWWHOBDDTCByMaskRecord(_) => 0x42,
        SpecDTCRspSubfunction::Reserved3 => 0x43,
        SpecDTCRspSubfunction::ResponseWWHOBDDTCWithPermanentStatus(_) => 0x55,
        SpecDTCRspSubfunction::Reserved4 => 0x56,
    }
}

/// Whether this codec can delimit the subfunction's wire shape.
pub open spec fn spec_dtc_rsp_supported(s: SpecDTCRspSubfunction) -> bool {
    match s {
        SpecDTCRspSubfunction::ResponseDTCSnapshotRecordByDTCNumber => false,
        SpecDTCRspSubfunction::ResponseDTCStoredDataByRecordNumber => false,
        SpecDTCRspSubfunction::ResponseDTCExtDataRecordByDTCNumber => false,
        SpecDTCRspSubfunction::ResponseMirrorMemoryDTCExtDataRecordByDTCNumber => false,
        SpecDTCRspSubfunction::ResponseDTCExtDataRecordByRecordNumber => false,
        SpecDTCRspSubfunction::ResponseUserDefMemoryDTCSnapshotRecordByDTCNumber => false,
        SpecDTCRspSubfunction::ResponseUserDefMemoryDTCExtDataRecordByDTCNumber => false,
        _ => true,
    }
}

/// The wire bytes of a response subfunction's report; empty for the shapes
/// this codec rejects.
pub open spec fn spec_dtc_rsp_body(s: SpecDTCRspSubfunction) -> Seq<u8> {
    match s {
        SpecDTCRspSubfunction::Reserved1 => seq![],
        SpecDTCRspSubfunction::ResponseNumberOfDTCByStatusMask(c) => spec_count_body(c),
        SpecDTCRspSubfunction::ResponseDTCByStatusMask(l) => spec_list_body(l),
        SpecDTCRspSubfunction::ResponseDTCSnapshotIdentification(l) => spec_ident_records(
            l.records,
        ),
        SpecDTCRspSubfunction::ResponseDTCSnapshotRecordByDTCNumber => seq![],
        SpecDTCRspSubfunction::ResponseDTCStoredDataByRecordNumber => seq![],
        SpecDTCRspSubfunction::ResponseDTCExtDataRecordByDTCNumber => seq![],
        SpecDTCRspSubfunction::ResponseNumberOfDTCBySeverityMaskRecord(c) => spec_count_body(c),
        SpecDTCRspSubfunction::ResponseDTCBySeverityMaskRecord(l) => spec_sev_body(l),
        SpecDTCRspSubfunction::ResponseSeverityInformationOfDTC(l) => spec_sev_body(l),
        SpecDTCRspSubfunction::ResponseSupportedDTC(l) => spec_list_body(l),
        SpecDTCRspSubfunction::ResponseFirstTestFailedDTC(l) => spec_list_body(l),
        SpecDTCRspSubfunction::ResponseFirstConfirmedDTC(l) => spec_list_body(l),
        SpecDTCRspSubfunction::ResponseMostRecentTestFailedDTC(l) => spec_list_body(l),
        SpecDTCRspSubfunction::ResponseMostRecentConfirmedDTC(l) => spec_list_body(l),
        SpecDTCRspSubfunction::ResponseMirrorMemoryDTCByStatusMask(l) => spec_list_body(l),
        SpecDTCRspSubfunction::ResponseMirrorMemoryDTCExtDataRecordByDTCNumber => seq![],
        SpecDTCRspSubfunction::ResponseNumberOfMirrorMemoryDTCByStatusMask(c) => spec_count_body(
            c,
        ),
        SpecDTCRspSubfunction::ResponseNumberOfEmissionsOBDDTCByStatusMask(c) => spec_count_body(
            c,
        ),
        SpecDTCRspSubfunction::ResponseEmissionsOBDDTCByStatusMask(l) => spec_list_body(l),
        SpecDTCRspSubfunction::ResponseDTCFaultDetectionCounter(l) => spec_fault_records(l.faults),
        SpecDTCRspSubfunction::ResponseDTCWithPermanentStatus(l) => spec_list_body(l),
        SpecDTCRspSubfunction::ResponseDTCExtDataRecordByRecordNumber => seq![],
        SpecDTCRspSubfunction::ResponseUserDefMemoryDTCByStatusMask(l) => spec_userdef_body(l),
        SpecDTCRspSubfunction::ResponseUserDefMemoryDTCSnapshotRecordByDTCNumber => seq![],
        SpecDTCRspSubfunction::ResponseUserDefMemoryDTCExtDataRecordByDTCNumber => seq![],
        SpecDTCRspSubfunction::Reserved2 => seq![],
        SpecDTCRspSubfunction::ResponseWWHOBDDTCByMaskRecord(d) => d,
        SpecDTCRspSubfunction::Reserved3 => seq![],
        SpecDTCRspSubfunction::ResponseWWHOBDDTCWithPermanentStatus(d) => d,
        SpecDTCRspSubfunction::Reserved4 => seq![],
    }
}

/// The wire bytes of a response subfunction: its index followed by its
/// report.
pub open spec fn spec_dtc_rsp_enc(s: SpecDTCRspSubfunction) -> Seq<u8> {
    seq![spec_dtc_rsp_index(s)] + spec_dtc_rsp_body(s)
}

/// The response subfunction the payload bytes hold: the index byte must name
/// a subfunction this codec can delimit, and the rest must be whole records
/// of its report shape.
pub open spec fn spec_dtc_rsp_dec(b: Seq<u8>) -> Result<SpecDTCRspSubfunction, DecErr> {
    if b.len() < 1 {
        Err(DecErr::Encoding)
    } else {
        let t = b.skip(1);
        let idx = b[0];
        if idx == 0x00 {
            if t.len() == 0 {
                Ok(SpecDTCRspSubfunction::Reserved1)
            } else {
                Err(DecErr::Encoding)
            }
        } else if idx == 0x01 {
            if t.len() == 4 {
                Ok(SpecDTCRspSubfunction::ResponseNumberOfDTCByStatusMask(spec_dec_count(t)))
            } else {
                Err(DecErr::Encoding)
            }
        } else if idx == 0x02 {
            if t.len() >= 1 && (t.len() - 1) % 4 == 0 {
                Ok(SpecDTCRspSubfunction::ResponseDTCByStatusMask(spec_dec_list(t)))
            } else {
                Err(DecErr::Encoding)
            }
        } else if idx == 0x03 {
            if t.len() % 4 == 0 {
                Ok(
                    SpecDTCRspSubfunction::ResponseDTCSnapshotIdentification(
                        SpecGotDtcRecordAndSnapshotNumber { records: spec_dec_ident_records(t) },
                    ),
                )
            } else {
                Err(DecErr::Encoding)
            }
        } else if idx == 0x07 {
            if t.len() == 4 {
                Ok(
                    SpecDTCRspSubfunction::ResponseNumberOfDTCBySeverityMaskRecord(
                        spec_dec_count(t),
                    ),
                )
            } else {
                Err(DecErr::Encoding)
            }
        } else if idx == 0x08 {
            if t.len() >= 1 && (t.len() - 1) % 6 == 0 {
                Ok(SpecDTCRspSubfunction::ResponseDTCBySeverityMaskRecord(spec_dec_sev(t)))
            } else {
                Err(DecErr::Encoding)
            }
        } else if idx == 0x09 {
            if t.len() >= 1 && (t.len() - 1) % 6 == 0 {
                Ok(SpecDTCRspSubfunction::ResponseSeverityInformationOfDTC(spec_dec_sev(t)))
            } else {
                Err(DecErr::Encoding)
            }
        } else if idx == 0x0a {
            if t.len() >= 1 && (t.len() - 1) % 4 == 0 {
                Ok(SpecDTCRspSubfunction::ResponseSupportedDTC(spec_dec_list(t)))
            } else {
                Err(DecErr::Encoding)
            }
        } else if idx == 0x0b {
            if t.len() >= 1 && (t.len() - 1) % 4 == 0 {
                Ok(SpecDTCRspSubfunction::ResponseFirstTestFailedDTC(spec_dec_list(t)))
            } else {
                Err(DecErr::Encoding)
            }
        } else if idx == 0x0c {
            if t.len() >= 1 && (t.len() - 1) % 4 == 0 {
                Ok(SpecDTCRspSubfunction::ResponseFirstConfirmedDTC(spec_dec_list(t)))
            } else {
                Err(DecErr::Encoding)
            }
        } else if idx == 0x0d {
            if t.len() >= 1 && (t.len() - 1) % 4 == 0 {
                Ok(SpecDTCRspSubfunction::ResponseMostRecentTestFailedDTC(spec_dec_list(t)))
            } else {
                Err(DecErr::Encoding)
            }
        } else if idx == 0x0e {
            if t.len() >= 1 && (t.len() - 1) % 4 == 0 {
                Ok(SpecDTCRspSubfunction::ResponseMostRecentConfirmedDTC(spec_dec_list(t)))
            } else {
                Err(DecErr::Encoding)
            }
        } else if idx == 0x0f {
            if t.len() >= 1 && (t.len() - 1) % 4 == 0 {
                Ok(SpecDTCRspSubfunction::ResponseMirrorMemoryDTCByStatusMask(spec_dec_list(t)))
            } else {
                Err(DecErr::Encoding)
            }
        } else if idx == 0x11 {
            if t.len() == 4 {
                Ok(
                    SpecDTCRspSubfunction::ResponseNumberOfMirrorMemoryDTCByStatusMask(
                        spec_dec_count(t),
                    ),
                )
            } else {
                Err(DecErr::Encoding)
            }
        } else if idx == 0x12 {
            if t.len() == 4 {
                Ok(
                    SpecDTCRspSubfunction::ResponseNumberOfEmissionsOBDDTCByStatusMask(
                        spec_dec_count(t),
                    ),
                )
            } else {
                Err(DecErr::Encoding)
            }
        } else if idx == 0x13 {
            if t.len() >= 1 && (t.len() - 1) % 4 == 0 {
                Ok(SpecDTCRspSubfunction::ResponseEmissionsOBDDTCByStatusMask(spec_dec_list(t)))
            } else {
                Err(DecErr::Encoding)
            }
        } else if idx == 0x14 {
            if t.len() % 4 == 0 {
                Ok(
                    SpecDTCRspSubfunction::ResponseDTCFaultDetectionCounter(
                        SpecResponseDTCFaultDetectionCounter { faults: spec_dec_fault_records(t) },
                    ),
                )
            } else {
                Err(DecErr::Encoding)
            }
        } else if idx == 0x15 {
            if t.len() >= 1 && (t.len() - 1) % 4 == 0 {
                Ok(SpecDTCRspSubfunction::ResponseDTCWithPermanentStatus(spec_dec_list(t)))
            } else {
                Err(DecErr::Encoding)
            }
        } else if idx == 0x17 {
            if t.len() >= 2 && (t.len() - 2) % 4 == 0 {
                Ok(SpecDTCRspSubfunction::ResponseUserDefMemoryDTCByStatusMask(spec_dec_userdef(t)))
            } else {
                Err(DecErr::Encoding)
            }
        } else if idx == 0x1a {
            if t.len() == 0 {
                Ok(SpecDTCRspSubfunction::Reserved2)
            } else {
                Err(DecErr::Encoding)
            }
        } else if idx == 0x42 {
            Ok(SpecDTCRspSubfunction::ResponseWWHOBDDTCByMaskRecord(t))
        } else if idx == 0x43 {
            if t.len() == 0 {
                Ok(SpecDTCRspSubfunction::Reserved3)
            } else {
                Err(DecErr::Encoding)
            }
        } else if idx == 0x55 {
            Ok(SpecDTCRspSubfunction::ResponseWWHOBDDTCWithPermanentStatus(t))
        } else if idx == 0x56 {
            if t.len() == 0 {
                Ok(SpecDTCRspSubfunction::Reserved4)
            } else {
                Err(DecErr::Encoding)
            }
        } else {
            Err(DecErr::Encoding)
        }
    }
}

/// Reads the four bytes of a DTC count report.
fn read_count(data: &[u8], pos: &mut usize) -> (c: GotDTCCount)
    requires
        *old(pos) + 4 <= data@.len(),
    ensures
        c == spec_dec_count(data@.subrange(*old(pos) as int, *old(pos) + 4)),
        *final(pos) == *old(pos) + 4,
{
    let mask = read_u8(data, pos);
    let format = read_u8(data, pos);
    let v = read_be(data, pos, 2);
    proof {
        let s = data@.subrange(*old(pos) as int, *old(pos) + 4);
        assert(s.skip(2) =~= data@.subrange(*old(pos) + 2, *old(pos) + 4));
        lemma_be_val_bound(s.skip(2));
        lemma_pow256_units();
    }
    GotDTCCount { mask, format, count: v as u16 }
}

impl Payload for ReadDTCRsp {
    open spec fn inv(v: SpecReadDTCRsp) -> bool {
        spec_dtc_rsp_supported(v.sub)
    }

    open spec fn enc(v: SpecReadDTCRsp) -> Seq<u8> {
        spec_dtc_rsp_enc(v.sub)
    }

    open spec fn enc_ok(v: SpecReadDTCRsp) -> bool {
        spec_dtc_rsp_supported(v.sub)
    }

    open spec fn dec(bytes: Seq<u8>, n: nat) -> Result<SpecReadDTCRsp, DecErr> {
        if n < 1 {
            Err(DecErr::TooShort { value: clip32(n), expected: 1 })
        } else if bytes.len() < n {
            Err(DecErr::Io)
        } else {
            match spec_dtc_rsp_dec(bytes.take(n as int)) {
                Ok(s) => Ok(SpecReadDTCRsp { sub: s }),
                Err(e) => Err(e),
            }
        }
    }

    open spec fn min_len() -> nat {
        1
    }

    proof fn lemma_inv_enc_ok(v: SpecReadDTCRsp) {
    }

    proof fn lemma_dec_fidelity(bytes: Seq<u8>, n: nat) {
        lemma_dtc_rsp_fidelity(bytes.take(n as int));
    }

    proof fn lemma_round_trip(v: SpecReadDTCRsp) {
        lemma_dtc_rsp_round_trip(v.sub);
        let e = spec_dtc_rsp_enc(v.sub);
        assert(e.take(e.len() as int) =~= e);
    }

    fn length(&self) -> (n: usize)
        ensures
            n == Self::enc(self@).len(),
    {
        match &self.sub {
            DTCRspSubfunction::Reserved1 => 1,
            DTCRspSubfunction::ResponseNumberOfDTCByStatusMask(c) => {
                proof {
                    lemma_count_round_trip(*c);
                }
                5
            },
            DTCRspSubfunction::ResponseDTCByStatusMask(l) => {
                proof {
                    lemma_status_records_len(l.dtcs@);
                }
                2 + 4 * l.dtcs.len()
            },
            DTCRspSubfunction::ResponseDTCSnapshotIdentification(l) => {
                proof {
                    lemma_ident_records_len(l.records@);
                }
                1 + 4 * l.records.len()
            },
            DTCRspSubfunction::ResponseNumberOfDTCBySeverityMaskRecord(c) => {
                proof {
                    lemma_count_round_trip(*c);
                }
                5
            },
            DTCRspSubfunction::ResponseDTCBySeverityMaskRecord(l) => {
                proof {
                    lemma_severity_records_len(l.records@);
                }
                2 + 6 * l.records.len()
            },
            DTCRspSubfunction::ResponseSeverityInformationOfDTC(l) => {
                proof {
                    lemma_severity_records_len(l.records@);
                }
                2 + 6 * l.records.len()
            },
            DTCRspSubfunction::ResponseSupportedDTC(l) => {
                proof {
                    lemma_status_records_len(l.dtcs@);
                }
                2 + 4 * l.dtcs.len()
            },
            DTCRspSubfunction::ResponseFirstTestFailedDTC(l) => {
                proof {
                    lemma_status_records_len(l.dtcs@);
                }
                2 + 4 * l.dtcs.len()
            },
            DTCRspSubfunction::ResponseFirstConfirmedDTC(l) => {
                proof {
                    lemma_status_records_len(l.dtcs@);
                }
                2 + 4 * l.dtcs.len()
            },
            DTCRspSubfunction::ResponseMostRecentTestFailedDTC(l) => {
                proof {
                    lemma_status_records_len(l.dtcs@);
                }
                2 + 4 * l.dtcs.len()
            },
            DTCRspSubfunction::ResponseMostRecentConfirmedDTC(l) => {
                proof {
                    lemma_status_records_len(l.dtcs@);
                }
                2 + 4 * l.dtcs.len()
            },
            DTCRspSubfunction::ResponseMirrorMemoryDTCByStatusMask(l) => {
                proof {
                    lemma_status_records_len(l.dtcs@);
                }
                2 + 4 * l.dtcs.len()
            },
            DTCRspSubfunction::ResponseNumberOfMirrorMemoryDTCByStatusMask(c) => {
                proof {
                    lemma_count_round_trip(*c);
                }
                5
            },
            DTCRspSubfunction::ResponseNumberOfEmissionsOBDDTCByStatusMask(c) => {
                proof {
                    lemma_count_round_trip(*c);
                }
                5
            },
            DTCRspSubfunction::ResponseEmissionsOBDDTCByStatusMask(l) => {
                proof {
                    lemma_status_records_len(l.dtcs@);
                }
                2 + 4 * l.dtcs.len()
            },
            DTCRspSubfunction::ResponseDTCFaultDetectionCounter(l) => {
                proof {
                    lemma_fault_records_len(l.faults@);
                }
                1 + 4 * l.faults.len()
            },
            DTCRspSubfunction::ResponseDTCWithPermanentStatus(l) => {
                proof {
                    lemma_status_records_len(l.dtcs@);
                }
                2 + 4 * l.dtcs.len()
            },
            DTCRspSubfunction::ResponseUserDefMemoryDTCByStatusMask(l) => {
                proof {
                    lemma_status_records_len(l.records@);
                }
                3 + 4 * l.records.len()
            },
            DTCRspSubfunction::Reserved2 => 1,
            DTCRspSubfunction::ResponseWWHOBDDTCByMaskRecord(d) => 1 + d.len(),
            DTCRspSubfunction::Reserved3 => 1,
            DTCRspSubfunction::ResponseWWHOBDDTCWithPermanentStatus(d) => 1 + d.len(),
            DTCRspSubfunction::Reserved4 => 1,
            // the precondition allows only shapes this codec can delimit,
            // so the remaining variants cannot reach this point
            _ => 0,
        }
    }

    #[verifier::rlimit(100)]
    fn read_replace(&mut self, data: &[u8], pos: &mut usize, payload_length: usize) -> (r: Result<
        (),
        UdsError,
    >) {
        if payload_length < 1 {
            return Err(crate::error::too_short(payload_length, 1));
        }
        if data.len() - *pos < payload_length {
            return Err(UdsError::Io);
        }
        let ghost start = *pos as int;
        let ghost b = data@.skip(start).take(payload_length as int);
        let ghost t = b.skip(1);
        proof {
            assert(b =~= data@.subrange(start, start + payload_length));
            assert(t =~= data@.subrange(start + 1, start + payload_length));
        }
        let idx = read_u8(data, pos);
        match idx {
            0x00 => {
                if payload_length != 1 {
                    return Err(sub_shape_err());
                }
                self.sub = DTCRspSubfunction::Reserved1;
            },
            0x01 => {
                if payload_length != 5 {
                    return Err(sub_shape_err());
                }
                let c = read_count(data, pos);
                self.sub = DTCRspSubfunction::ResponseNumberOfDTCByStatusMask(c);
            },
            0x02 => {
                if !(payload_length >= 2 && (payload_length - 2) % 4 == 0) {
                    return Err(sub_shape_err());
                }
                let availability_mask = read_u8(data, pos);
                let end = *pos + (payload_length - 2);
                let dtcs = read_status_records(data, pos, end);
                proof {
                    assert(t.skip(1) =~= data@.subrange(start + 2, start + payload_length));
                }
                self.sub = DTCRspSubfunction::ResponseDTCByStatusMask(
                    GotListDtcAndStatusRecord { availability_mask, dtcs },
                );
            },
            0x03 => {
                if !((payload_length - 1) % 4 == 0) {
                    return Err(sub_shape_err());
                }
                let end = *pos + (payload_length - 1);
                let records = read_ident_records(data, pos, end);
                self.sub = DTCRspSubfunction::ResponseDTCSnapshotIdentification(
                    GotDtcRecordAndSnapshotNumber { records },
                );
            },
            0x07 => {
                if payload_length != 5 {
                    return Err(sub_shape_err());
                }
                let c = read_count(data, pos);
                self.sub = DTCRspSubfunction::ResponseNumberOfDTCBySeverityMaskRecord(c);
            },
            0x08 => {
                if !(payload_length >= 2 && (payload_length - 2) % 6 == 0) {
                    return Err(sub_shape_err());
                }
                let availability_mask = read_u8(data, pos);
                let end = *pos + (payload_length - 2);
                let records = read_severity_records(data, pos, end);
                proof {
                    assert(t.skip(1) =~= data@.subrange(start + 2, start + payload_length));
                }
                self.sub = DTCRspSubfunction::ResponseDTCBySeverityMaskRecord(
                    ResponseDTCBySeverityMaskRecord { availability_mask, records },
                );
            },
            0x09 => {
                if !(payload_length >= 2 && (payload_length - 2) % 6 == 0) {
                    return Err(sub_shape_err());
                }
                let availability_mask = read_u8(data, pos);
                let end = *pos + (payload_length - 2);
                let records = read_severity_records(data, pos, end);
                proof {
                    assert(t.skip(1) =~= data@.subrange(start + 2, start + payload_length));
                }
                self.sub = DTCRspSubfunction::ResponseSeverityInformationOfDTC(
                    ResponseDTCBySeverityMaskRecord { availability_mask, records },
                );
            },
            0x0a => {
                if !(payload_length >= 2 && (payload_length - 2) % 4 == 0) {
                    return Err(sub_shape_err());
                }
                let availability_mask = read_u8(data, pos);
                let end = *pos + (payload_length - 2);
                let dtcs = read_status_records(data, pos, end);
                proof {
                    assert(t.skip(1) =~= data@.subrange(start + 2, start + payload_length));
                }
                self.sub = DTCRspSubfunction::ResponseSupportedDTC(
                    GotListDtcAndStatusRecord { availability_mask, dtcs },
                );
            },
            0x0b => {
                if !(payload_length >= 2 && (payload_length - 2) % 4 == 0) {
                    return Err(sub_shape_err());
                }
                let availability_mask = read_u8(data, pos);
                let end = *pos + (payload_length - 2);
                let dtcs = read_status_records(data, pos, end);
                proof {
                    assert(t.skip(1) =~= data@.subrange(start + 2, start + payload_length));
                }
                self.sub = DTCRspSubfunction::ResponseFirstTestFailedDTC(
                    GotListDtcAndStatusRecord { availability_mask, dtcs },
                );
            },
            0x0c => {
                if !(payload_length >= 2 && (payload_length - 2) % 4 == 0) {
                    return Err(sub_shape_err());
                }
                let availability_mask = read_u8(data, pos);
                let end = *pos + (payload_length - 2);
                let dtcs = read_status_records(data, pos, end);
                proof {
                    assert(t.skip(1) =~= data@.subrange(start + 2, start + payload_length));
                }
                self.sub = DTCRspSubfunction::ResponseFirstConfirmedDTC(
                    GotListDtcAndStatusRecord { availability_mask, dtcs },
                );
            },
            0x0d => {
                if !(payload_length >= 2 && (payload_length - 2) % 4 == 0) {
                    return Err(sub_shape_err());
                }
                let availability_mask = read_u8(data, pos);
                let end = *pos + (payload_length - 2);
                let dtcs = read_status_records(data, pos, end);
                proof {
                    assert(t.skip(1) =~= data@.subrange(start + 2, start + payload_length));
                }
                self.sub = DTCRspSubfunction::ResponseMostRecentTestFailedDTC(
                    GotListDtcAndStatusRecord { availability_mask, dtcs },
                );
            },
            0x0e => {
                if !(payload_length >= 2 && (payload_length - 2) % 4 == 0) {
                    return Err(sub_shape_err());
                }
                let availability_mask = read_u8(data, pos);
                let end = *pos + (payload_length - 2);
                let dtcs = read_status_records(data, pos, end);
                proof {
                    assert(t.skip(1) =~= data@.subrange(start + 2, start + payload_length));
                }
                self.sub = DTCRspSubfunction::ResponseMostRecentConfirmedDTC(
                    GotListDtcAndStatusRecord { availability_mask, dtcs },
                );
            },
            0x0f => {
                if !(payload_length >= 2 && (payload_length - 2) % 4 == 0) {
                    return Err(sub_shape_err());
                }
                let availability_mask = read_u8(data, pos);
                let end = *pos + (payload_length - 2);
                let dtcs = read_status_records(data, pos, end);
                proof {
                    assert(t.skip(1) =~= data@.subrange(start + 2, start + payload_length));
                }
                self.sub = DTCRspSubfunction::ResponseMirrorMemoryDTCByStatusMask(
                    GotListDtcAndStatusRecord { availability_mask, dtcs },
                );
            },
            0x11 => {
                if payload_length != 5 {
                    return Err(sub_shape_err());
                }
                let c = read_count(data, pos);
                self.sub = DTCRspSubfunction::ResponseNumberOfMirrorMemoryDTCByStatusMask(c);
            },
            0x12 => {
                if payload_length != 5 {
                    return Err(sub_shape_err());
                }
                let c = read_count(data, pos);
                self.sub = DTCRspSubfunction::ResponseNumberOfEmissionsOBDDTCByStatusMask(c);
            },
            0x13 => {
                if !(payload_length >= 2 && (payload_length - 2) % 4 == 0) {
                    return Err(sub_shape_err());
                }
                let availability_mask = read_u8(data, pos);
                let end = *pos + (payload_length - 2);
                let dtcs = read_status_records(data, pos, end);
                proof {
                    assert(t.skip(1) =~= data@.subrange(start + 2, start + payload_length));
                }
                self.sub = DTCRspSubfunction::ResponseEmissionsOBDDTCByStatusMask(
                    GotListDtcAndStatusRecord { availability_mask, dtcs },
                );
            },
            0x14 => {
                if !((payload_length - 1) % 4 == 0) {
                    return Err(sub_shape_err());
                }
                let end = *pos + (payload_length - 1);
                let faults = read_fault_records(data, pos, end);
                self.sub = DTCRspSubfunction::ResponseDTCFaultDetectionCounter(
                    ResponseDTCFaultDetectionCounter { faults },
                );
            },
            0x15 => {
                if !(payload_length >= 2 && (payload_length - 2) % 4 == 0) {
                    return Err(sub_shape_err());
                }
                let availability_mask = read_u8(data, pos);
                let end = *pos + (payload_length - 2);
                let dtcs = read_status_records(data, pos, end);
                proof {
                    assert(t.skip(1) =~= data@.subrange(start + 2, start + payload_length));
                }
                self.sub = DTCRspSubfunction::ResponseDTCWithPermanentStatus(
                    GotListDtcAndStatusRecord { availability_mask, dtcs },
                );
            },
            0x17 => {
                if !(payload_length >= 3 && (payload_length - 3) % 4 == 0) {
                    return Err(sub_shape_err());
                }
                let memory = read_u8(data, pos);
                let availability_mask = read_u8(data, pos);
                let end = *pos + (payload_length - 3);
                let records = read_status_records(data, pos, end);
                proof {
                    assert(t.skip(2) =~= data@.subrange(start + 3, start + payload_length));
                }
                self.sub = DTCRspSubfunction::ResponseUserDefMemoryDTCByStatusMask(
                    ResponseUserDefMemoryDTCByStatusMask { memory, availability_mask, records },
                );
            },
            0x1a => {
                if payload_length != 1 {
                    return Err(sub_shape_err());
                }
                self.sub = DTCRspSubfunction::Reserved2;
            },
            0x42 => {
                let d = read_vec(data, pos, payload_length - 1);
                self.sub = DTCRspSubfunction::ResponseWWHOBDDTCByMaskRecord(d);
            },
            0x43 => {
                if payload_length != 1 {
                    return Err(sub_shape_err());
                }
                self.sub = DTCRspSubfunction::Reserved3;
            },
            0x55 => {
                let d = read_vec(data, pos, payload_length - 1);
                self.sub = DTCRspSubfunction::ResponseWWHOBDDTCWithPermanentStatus(d);
            },
            0x56 => {
                if payload_length != 1 {
                    return Err(sub_shape_err());
                }
                self.sub = DTCRspSubfunction::Reserved4;
            },
            _ => {
                return Err(sub_shape_err());
            },
        }
        proof {
            assert(Self::dec(data@.skip(start), payload_length as nat) == Ok::<Self::V, DecErr>(
                self@,
            ));
        }
        Ok(())
    }

    fn read(data: &[u8], pos: &mut usize, payload_length: usize) -> (r: Result<Self, UdsError>) {
        let mut me = ReadDTCRsp { sub: DTCRspSubfunction::Reserved1 };
        match me.read_replace(data, pos, payload_length) {
            Ok(()) => Ok(me),
            Err(e) => Err(e),
        }
    }

    #[verifier::rlimit(100)]
    fn write(&self, out: &mut Vec<u8>) -> (r: Result<(), UdsError>) {
        match &self.sub {
            DTCRspSubfunction::Reserved1 => {
                out.push(0x00);
            },
            DTCRspSubfunction::ResponseNumberOfDTCByStatusMask(c) => {
                out.push(0x01);
                out.push(c.mask);
                out.push(c.format);
                write_be(out, c.count as u64, 2);
            },
            DTCRspSubfunction::ResponseDTCByStatusMask(l) => {
                out.push(0x02);
                out.push(l.availability_mask);
                write_status_records(out, &l.dtcs);
            },
            DTCRspSubfunction::ResponseDTCSnapshotIdentification(l) => {
                out.push(0x03);
                write_ident_records(out, &l.records);
            },
            DTCRspSubfunction::ResponseNumberOfDTCBySeverityMaskRecord(c) => {
                out.push(0x07);
                out.push(c.mask);
                out.push(c.format);
                write_be(out, c.count as u64, 2);
            },
            DTCRspSubfunction::ResponseDTCBySeverityMaskRecord(l) => {
                out.push(0x08);
                out.push(l.availability_mask);
                write_severity_records(out, &l.records);
            },
            DTCRspSubfunction::ResponseSeverityInformationOfDTC(l) => {
                out.push(0x09);
                out.push(l.availability_mask);
                write_severity_records(out, &l.records);
            },
            DTCRspSubfunction::ResponseSupportedDTC(l) => {
                out.push(0x0a);
                out.push(l.availability_mask);
                write_status_records(out, &l.dtcs);
            },
            DTCRspSubfunction::ResponseFirstTestFailedDTC(l) => {
                out.push(0x0b);
                out.push(l.availability_mask);
                write_status_records(out, &l.dtcs);
            },
            DTCRspSubfunction::ResponseFirstConfirmedDTC(l) => {
                out.push(0x0c);
                out.push(l.availability_mask);
                write_status_records(out, &l.dtcs);
            },
            DTCRspSubfunction::ResponseMostRecentTestFailedDTC(l) => {
                out.push(0x0d);
                out.push(l.availability_mask);
                write_status_records(out, &l.dtcs);
            },
            DTCRspSubfunction::ResponseMostRecentConfirmedDTC(l) => {
                out.push(0x0e);
                out.push(l.availability_mask);
                write_status_records(out, &l.dtcs);
            },
            DTCRspSubfunction::ResponseMirrorMemoryDTCByStatusMask(l) => {
                out.push(0x0f);
                out.push(l.availability_mask);
                write_status_records(out, &l.dtcs);
            },
            DTCRspSubfunction::ResponseNumberOfMirrorMemoryDTCByStatusMask(c) => {
                out.push(0x11);
                out.push(c.mask);
                out.push(c.format);
                write_be(out, c.count as u64, 2);
            },
            DTCRspSubfunction::ResponseNumberOfEmissionsOBDDTCByStatusMask(c) => {
                out.push(0x12);
                out.push(c.mask);
                out.push(c.format);
                write_be(out, c.count as u64, 2);
            },
            DTCRspSubfunction::ResponseEmissionsOBDDTCByStatusMask(l) => {
                out.push(0x13);
                out.push(l.availability_mask);
                write_status_records(out, &l.dtcs);
            },
            DTCRspSubfunction::ResponseDTCFaultDetectionCounter(l) => {
                out.push(0x14);
                write_fault_records(out, &l.faults);
            },
            DTCRspSubfunction::ResponseDTCWithPermanentStatus(l) => {
                out.push(0x15);
                out.push(l.availability_mask);
                write_status_records(out, &l.dtcs);
            },
            DTCRspSubfunction::ResponseUserDefMemoryDTCByStatusMask(l) => {
                out.push(0x17);
                out.push(l.memory);
                out.push(l.availability_mask);
                write_status_records(out, &l.records);
            },
            DTCRspSubfunction::Reserved2 => {
                out.push(0x1a);
            },
            DTCRspSubfunction::ResponseWWHOBDDTCByMaskRecord(d) => {
                out.push(0x42);
                write_bytes(out, d.as_slice());
            },
            DTCRspSubfunction::Reserved3 => {
                out.push(0x43);
            },
            DTCRspSubfunction::ResponseWWHOBDDTCWithPermanentStatus(d) => {
                out.push(0x55);
                write_bytes(out, d.as_slice());
            },
            DTCRspSubfunction::Reserved4 => {
                out.push(0x56);
            },
            _ => {
                return Err(
                    UdsError::EncodingError {
                        msg: String::from_str(
                            "this response subfunction cannot be delimited on the wire",
                        ),
                    },
                );
            },
        }
        proof {
            assert(out@ =~= old(out)@ + Self::enc(self@));
        }
        Ok(())
    }
}

/// Decoding the encoding of any supported response subfunction gives it
/// back.
#[verifier::rlimit(100)]
pub proof fn lemma_dtc_rsp_round_trip(s: SpecDTCRspSubfunction)
    requires
        spec_dtc_rsp_supported(s),
    ensures
        spec_dtc_rsp_dec(spec_dtc_rsp_enc(s)) == Ok::<SpecDTCRspSubfunction, DecErr>(s),
        spec_dtc_rsp_enc(s).len() >= 1,
{
    let e = spec_dtc_rsp_enc(s);
    let t = e.skip(1);
    assert(t =~= spec_dtc_rsp_body(s));
    match s {
        SpecDTCRspSubfunction::ResponseNumberOfDTCByStatusMask(c) => {
            lemma_count_round_trip(c);
        },
        SpecDTCRspSubfunction::ResponseNumberOfDTCBySeverityMaskRecord(c) => {
            lemma_count_round_trip(c);
        },
        SpecDTCRspSubfunction::ResponseNumberOfMirrorMemoryDTCByStatusMask(c) => {
            lemma_count_round_trip(c);
        },
        SpecDTCRspSubfunction::ResponseNumberOfEmissionsOBDDTCByStatusMask(c) => {
            lemma_count_round_trip(c);
        },
        SpecDTCRspSubfunction::ResponseDTCByStatusMask(l) => {
            lemma_list_round_trip(l);
        },
        SpecDTCRspSubfunction::ResponseSupportedDTC(l) => {
            lemma_list_round_trip(l);
        },
        SpecDTCRspSubfunction::ResponseFirstTestFailedDTC(l) => {
            lemma_list_round_trip(l);
        },
        SpecDTCRspSubfunction::ResponseFirstConfirmedDTC(l) => {
            lemma_list_round_trip(l);
        },
        SpecDTCRspSubfunction::ResponseMostRecentTestFailedDTC(l) => {
            lemma_list_round_trip(l);
        },
        SpecDTCRspSubfunction::ResponseMostRecentConfirmedDTC(l) => {
            lemma_list_round_trip(l);
        },
        SpecDTCRspSubfunction::ResponseMirrorMemoryDTCByStatusMask(l) => {
            lemma_list_round_trip(l);
        },
        SpecDTCRspSubfunction::ResponseEmissionsOBDDTCByStatusMask(l) => {
            lemma_list_round_trip(l);
        },
        SpecDTCRspSubfunction::ResponseDTCWithPermanentStatus(l) => {
            lemma_list_round_trip(l);
        },
        SpecDTCRspSubfunction::ResponseDTCSnapshotIdentification(l) => {
            lemma_ident_records_len(l.records);
            lemma_ident_records_round_trip(l.records);
        },
        SpecDTCRspSubfunction::ResponseDTCBySeverityMaskRecord(l) => {
            lemma_sev_round_trip(l);
        },
        SpecDTCRspSubfunction::ResponseSeverityInformationOfDTC(l) => {
            lemma_sev_round_trip(l);
        },
        SpecDTCRspSubfunction::ResponseDTCFaultDetectionCounter(l) => {
            lemma_fault_records_len(l.faults);
            lemma_fault_records_round_trip(l.faults);
        },
        SpecDTCRspSubfunction::ResponseUserDefMemoryDTCByStatusMask(l) => {
            lemma_userdef_round_trip(l);
        },
        _ => {},
    }
}

/// Whatever response subfunction decodes is supported and re-encodes to
/// exactly the bytes it came from.
#[verifier::rlimit(100)]
pub proof fn lemma_dtc_rsp_fidelity(b: Seq<u8>)
    requires
        spec_dtc_rsp_dec(b) is Ok,
    ensures
        spec_dtc_rsp_supported(spec_dtc_rsp_dec(b)->Ok_0),
        spec_dtc_rsp_enc(spec_dtc_rsp_dec(b)->Ok_0) == b,
{
    let t = b.skip(1);
    let s = spec_dtc_rsp_dec(b)->Ok_0;
    let idx = b[0];
    assert(seq![b[0]] + t =~= b);
    if idx == 0x01 || idx == 0x07 || idx == 0x11 || idx == 0x12 {
        lemma_count_fidelity(t);
    } else if idx == 0x02 || idx == 0x0a || idx == 0x0b || idx == 0x0c || idx == 0x0d || idx
        == 0x0e || idx == 0x0f || idx == 0x13 || idx == 0x15 {
        lemma_list_fidelity(t);
    } else if idx == 0x03 {
        lemma_ident_records_fidelity(t);
    } else if idx == 0x08 || idx == 0x09 {
        lemma_sev_fidelity(t);
    } else if idx == 0x14 {
        lemma_fault_records_fidelity(t);
    } else if idx == 0x17 {
        lemma_userdef_fidelity(t);
    }
    assert(spec_dtc_rsp_body(s) == t);
}

} // verus!
