use uds_rw::UdsMessage;
use uds_rw::message::ReadDIDReq;
use uds_rw::message::ReadDIDRsp;
use uds_rw::message::WriteDIDReq;
use uds_rw::message::WriteDIDRsp;
use uds_rw::uds_read;
use uds_rw::uds_write;

fn test_encode_decode(msg: &UdsMessage, expected: &[u8]) {
    let mut ser: Vec<u8> = vec![];
    uds_write(&mut ser, msg).unwrap();
    assert_eq!(expected, &ser);
    let req_back = uds_read(&ser, ser.len()).unwrap();
    assert_eq!(&req_back, msg);
}

#[test]
fn read_did_req_ok() {
    let req = UdsMessage::ReadDIDReq(ReadDIDReq { did: 0xf180 });
    let exp = vec![0x22, 0xf1, 0x80];
    test_encode_decode(&req, &exp);
}

#[test]
fn read_did_rsp_ok() {
    let req = UdsMessage::ReadDIDRsp(ReadDIDRsp {
        did: 0xf180,
        user_data: vec![0x10, 0x14],
    });
    let exp = vec![0x62, 0xf1, 0x80, 0x10, 0x14];
    test_encode_decode(&req, &exp);
}

#[test]
fn write_did_req_ok() {
    let req = UdsMessage::WriteDIDReq(WriteDIDReq {
        did: 0xf180,
        user_data: vec![0x10, 0xb0],
    });
    let exp = vec![0x2e, 0xf1, 0x80, 0x10, 0xb0];
    test_encode_decode(&req, &exp);
}

#[test]
fn write_did_rsp_ok() {
    let req = UdsMessage::WriteDIDRsp(WriteDIDRsp { did: 0xf180 });
    let exp = vec![0x6e, 0xf1, 0x80];
    test_encode_decode(&req, &exp);
}
