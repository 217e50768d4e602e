use uds_rw::Payload;
use uds_rw::UdsError;
use uds_rw::UdsMessage;
use uds_rw::message::DTCReqSubfunction;
use uds_rw::message::DTCRspSubfunction;
use uds_rw::message::Dtc;
use uds_rw::message::DtcAndStatusRecord;
use uds_rw::message::ModeOfOperation;
use uds_rw::message::Nrc;
use uds_rw::message::NrcCode;
use uds_rw::message::RawUds;
use uds_rw::message::ReadDIDReq;
use uds_rw::message::RequestDownloadReq;
use uds_rw::message::RequestFileTransferReq;
use uds_rw::message::ResponseSupportedDTC;
use uds_rw::uds_rawuds_remove_raw;
use uds_rw::uds_read;
use uds_rw::uds_write;

#[test]
fn available_dtc_deserialize() {
    let req = [
        0x59, 0x0a, 0xff, 0xea, 0x19, 0x88, 0x00, 0xad, 0xa6, 0x11, 0x50,
    ];
    let msg = uds_read(&req, req.len()).unwrap();
    let supported = ResponseSupportedDTC {
        availability_mask: 0xff,
        dtcs: vec![
            DtcAndStatusRecord {
                dtc: Dtc::new(0xea, 0x19, 0x88),
                status: 0x00,
            },
            DtcAndStatusRecord {
                dtc: Dtc::new(0xad, 0xa6, 0x11),
                status: 0x50,
            },
        ],
    };
    let expected_sub: DTCRspSubfunction = DTCRspSubfunction::ResponseSupportedDTC(supported);
    let rsp = match msg {
        UdsMessage::ReadDTCRsp(rsp) => rsp,
        _ => panic!("Decoding didn't give back a ReadDTCRsp"),
    };
    assert_eq!(&rsp.sub, &expected_sub);
}

#[test]
fn dtc_supported_request_decodes() {
    let bytes = [0x19, 0x0a];
    let msg = uds_read(&bytes, bytes.len()).unwrap();
    match &msg {
        UdsMessage::ReadDTCReq(req) => {
            assert_eq!(req.sub, DTCReqSubfunction::ReportSupportedDTC);
        }
        _ => panic!("Decoding didn't give back a ReadDTCReq"),
    }
    let mut back: Vec<u8> = vec![];
    uds_write(&mut back, &msg).unwrap();
    assert_eq!(&back, &bytes);
}

#[test]
fn unknown_sid_decodes_to_raw_and_round_trips() {
    let bytes = [0x01, 0xaa, 0xbb];
    let msg = uds_read(&bytes, bytes.len()).unwrap();
    match &msg {
        UdsMessage::RawUds(raw) => assert_eq!(&raw.data, &vec![0x01, 0xaa, 0xbb]),
        _ => panic!("An unused SID must decode to RawUds"),
    }
    let mut back: Vec<u8> = vec![];
    uds_write(&mut back, &msg).unwrap();
    assert_eq!(&back, &bytes);
}

#[test]
fn nrc_sid_in_request_direction_is_raw_with_sid_kept() {
    let bytes = [0x3f, 0x01, 0x02];
    let msg = uds_read(&bytes, bytes.len()).unwrap();
    match &msg {
        UdsMessage::RawUds(raw) => assert_eq!(&raw.data, &vec![0x3f, 0x01, 0x02]),
        _ => panic!("SID 0x3f has no request mapping and must stay raw"),
    }
}

#[test]
fn read_did_req_wrong_length_is_too_short() {
    let bytes = [0x22, 0xf1];
    let r = uds_read(&bytes, bytes.len());
    assert!(matches!(
        r,
        Err(UdsError::PayloadLengthTooShort {
            value: 1,
            expected: 2
        })
    ));
}

#[test]
fn empty_input_is_io_error() {
    let bytes: [u8; 0] = [];
    let r = uds_read(&bytes, 1);
    assert!(matches!(r, Err(UdsError::Io)));
}

#[test]
fn download_rsp_width_outside_supported_set_is_unexpected() {
    let bytes = [0x74, 0x30, 0x00, 0x00, 0x00];
    let r = uds_read(&bytes, bytes.len());
    assert!(matches!(
        r,
        Err(UdsError::UnexpectedPayloadType { value: 0 })
    ));
}

#[test]
fn download_rsp_two_byte_block_size_decodes() {
    let bytes = [0x74, 0x20, 0x02, 0x10];
    let msg = uds_read(&bytes, bytes.len()).unwrap();
    match msg {
        UdsMessage::RequestDownloadRsp(rsp) => {
            assert_eq!(rsp.max_block_size_bytes, 2);
            assert_eq!(rsp.max_block_size, 0x0210);
        }
        _ => panic!("Decoding didn't give back a RequestDownloadRsp"),
    }
}

#[test]
fn file_transfer_reserved_mode_is_encoding_error() {
    let bytes = [0x38, 0x00, 0x00, 0x00];
    let r = uds_read(&bytes, bytes.len());
    assert!(matches!(r, Err(UdsError::EncodingError { .. })));
}

#[test]
fn file_transfer_path_must_be_utf8() {
    let bytes = [0x38, 0x02, 0x00, 0x01, 0xff];
    let r = uds_read(&bytes, bytes.len());
    assert!(matches!(r, Err(UdsError::EncodingError { .. })));
}

#[test]
fn file_transfer_path_decodes_to_matching_string() {
    let bytes = [0x38, 0x02, 0x00, 0x02, 0x68, 0x69];
    let msg = uds_read(&bytes, bytes.len()).unwrap();
    match msg {
        UdsMessage::RequestFileTransferReq(req) => {
            assert_eq!(req.mode_of_operation, ModeOfOperation::DeleteFile);
            assert_eq!(req.path_name, "hi");
        }
        _ => panic!("Decoding didn't give back a RequestFileTransferReq"),
    }
}

#[test]
fn dtc_request_with_missing_filter_is_encoding_error() {
    let bytes = [0x19, 0x01];
    let r = uds_read(&bytes, bytes.len());
    assert!(matches!(r, Err(UdsError::EncodingError { .. })));
}

#[test]
fn dtc_response_with_partial_record_is_encoding_error() {
    let bytes = [0x59, 0x0a, 0xff, 0xea, 0x19];
    let r = uds_read(&bytes, bytes.len());
    assert!(matches!(r, Err(UdsError::EncodingError { .. })));
}

#[test]
fn upgrade_raw_to_typed_message() {
    let message = UdsMessage::RawUds(RawUds {
        data: vec![0x19, 0x0a],
    });
    let message = uds_rawuds_remove_raw(message);
    match message {
        UdsMessage::ReadDTCReq(rsp) => {
            assert_eq!(rsp.sub, DTCReqSubfunction::ReportSupportedDTC);
        }
        _ => panic!("The raw message should have upgraded to a ReadDTCReq"),
    }
}

#[test]
fn upgrade_keeps_undecodable_raw_unchanged() {
    let message = UdsMessage::RawUds(RawUds {
        data: vec![0x22, 0xf1],
    });
    let message = uds_rawuds_remove_raw(message);
    match message {
        UdsMessage::RawUds(raw) => assert_eq!(raw.data, vec![0x22, 0xf1]),
        _ => panic!("An undecodable raw message must stay unchanged"),
    }
}

#[test]
fn upgrade_keeps_typed_message_unchanged() {
    let message = UdsMessage::ReadDIDReq(ReadDIDReq { did: 0xf190 });
    let message = uds_rawuds_remove_raw(message);
    assert_eq!(message, UdsMessage::ReadDIDReq(ReadDIDReq { did: 0xf190 }));
}

#[test]
fn encode_rejects_unsupported_width() {
    let msg = UdsMessage::RequestDownloadReq(RequestDownloadReq {
        compression_method: 0,
        encryption_method: 0,
        memory_size_bytes: 3,
        memory_address_bytes: 1,
        memory_address: 0,
        memory_size: 0,
    });
    let mut out: Vec<u8> = vec![];
    let r = uds_write(&mut out, &msg);
    assert!(matches!(r, Err(UdsError::EncodingError { .. })));
    assert!(out.is_empty());
}

#[test]
fn encode_rejects_over_long_path() {
    let msg = UdsMessage::RequestFileTransferReq(RequestFileTransferReq {
        mode_of_operation: ModeOfOperation::DeleteFile,
        path_name: "x".repeat(0x10000),
        compression_method: 0,
        encryption_method: 0,
        file_size_bytes: 0,
        file_size_uncompressed: 0,
        file_size_compressed: 0,
    });
    let mut out: Vec<u8> = vec![];
    let r = uds_write(&mut out, &msg);
    assert!(matches!(r, Err(UdsError::EncodingError { .. })));
    assert!(out.is_empty());
}

#[test]
fn encode_raw_writes_bytes_verbatim() {
    let msg = UdsMessage::RawUds(RawUds {
        data: vec![0x05, 0x06, 0x07],
    });
    let mut out: Vec<u8> = vec![];
    uds_write(&mut out, &msg).unwrap();
    assert_eq!(out, vec![0x05, 0x06, 0x07]);
}

#[test]
fn message_length_matches_encoding() {
    let msg = UdsMessage::Nrc(Nrc {
        sid: 0x34,
        nrc: 0x10,
    });
    let mut out: Vec<u8> = vec![];
    uds_write(&mut out, &msg).unwrap();
    assert_eq!(msg.length(), out.len());
}

#[test]
fn nrc_code_table_round_trips() {
    assert_eq!(NrcCode::GeneralReject.code(), 0x10);
    assert_eq!(NrcCode::from_code(0x10), Some(NrcCode::GeneralReject));
    assert_eq!(
        NrcCode::from_code(0x94),
        Some(NrcCode::ResourceTemporarilyNotAvailable)
    );
    assert_eq!(NrcCode::from_code(0x01), None);
}

#[test]
fn dtc_response_with_no_records_round_trips() {
    let req = UdsMessage::ReadDTCRsp(uds_rw::message::ReadDTCRsp {
        sub: DTCRspSubfunction::ResponseSupportedDTC(ResponseSupportedDTC {
            availability_mask: 0xa0,
            dtcs: vec![],
        }),
    });
    let mut ser: Vec<u8> = vec![];
    uds_write(&mut ser, &req).unwrap();
    assert_eq!(ser, vec![0x59, 0x0a, 0xa0]);
    let back = uds_read(&ser, ser.len()).unwrap();
    assert_eq!(back, req);
}

#[test]
fn dtc_wwhobd_response_with_empty_body_round_trips() {
    let req = UdsMessage::ReadDTCRsp(uds_rw::message::ReadDTCRsp {
        sub: DTCRspSubfunction::ResponseWWHOBDDTCByMaskRecord(vec![]),
    });
    let mut ser: Vec<u8> = vec![];
    uds_write(&mut ser, &req).unwrap();
    assert_eq!(ser, vec![0x59, 0x42]);
    let back = uds_read(&ser, ser.len()).unwrap();
    assert_eq!(back, req);
}

#[test]
fn encode_rejects_undelimitable_dtc_response_shape() {
    let req = UdsMessage::ReadDTCRsp(uds_rw::message::ReadDTCRsp {
        sub: DTCRspSubfunction::ResponseDTCExtDataRecordByDTCNumber(
            uds_rw::message::ResponseDTCExtDataRecordByDTCNumber {
                dtc_status: DtcAndStatusRecord {
                    dtc: Dtc::new(0x00, 0xf1, 0x80),
                    status: 0xa0,
                },
                records: vec![],
            },
        ),
    });
    let mut out: Vec<u8> = vec![];
    let r = uds_write(&mut out, &req);
    assert!(matches!(r, Err(UdsError::EncodingError { .. })));
    assert!(out.is_empty());
}

#[test]
fn decode_of_undelimitable_dtc_subfunction_is_encoding_error() {
    let bytes = [0x59, 0x04, 0x00, 0x10, 0x12, 0x07, 2, 1, 0xf1, 0x80];
    let r = uds_read(&bytes, bytes.len());
    assert!(matches!(r, Err(UdsError::EncodingError { .. })));
}

#[test]
fn default_read_decodes_a_payload_from_a_cursor() {
    let payload = [0xf1, 0x90, 0x30, 0x39];
    let mut pos: usize = 0;
    let rsp: uds_rw::message::ReadDIDRsp =
        uds_rw::payload::default_read(&payload, &mut pos, payload.len()).unwrap();
    assert_eq!(pos, 4);
    assert_eq!(rsp.did, 0xf190);
    assert_eq!(rsp.user_data, vec![0x30, 0x39]);
}

#[test]
fn payload_codec_reads_and_writes_through_the_trait() {
    let payload = [0x00, 0x10];
    let mut pos: usize = 0;
    let p = Nrc::read(&payload, &mut pos, 2).unwrap();
    assert_eq!(p, Nrc { sid: 0x00, nrc: 0x10 });
    assert_eq!(p.length(), 2);
    let mut out: Vec<u8> = vec![];
    p.write(&mut out).unwrap();
    assert_eq!(out, vec![0x00, 0x10]);
}

#[test]
fn nibble_packed_control_bytes_are_split_on_decode() {
    let bytes = [0x34, 0x12, 0x24, 0x00, 0x00, 0x10, 0x28, 0x00, 0x10];
    let msg = uds_read(&bytes, bytes.len()).unwrap();
    match msg {
        UdsMessage::RequestDownloadReq(req) => {
            assert_eq!(req.compression_method, 0x1);
            assert_eq!(req.encryption_method, 0x2);
            assert_eq!(req.memory_size_bytes, 2);
            assert_eq!(req.memory_address_bytes, 4);
            assert_eq!(req.memory_address, 0x1028);
            assert_eq!(req.memory_size, 0x10);
        }
        _ => panic!("Decoding didn't give back a RequestDownloadReq"),
    }
}
