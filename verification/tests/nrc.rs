use uds_rw::UdsMessage;
use uds_rw::message::Nrc;
use uds_rw::message::NrcCode;
use uds_rw::uds_read;
use uds_rw::uds_write;

fn test_encode_decode(msg: &UdsMessage, expected: &[u8]) {
    let mut ser: Vec<u8> = vec![];
    uds_write(&mut ser, msg).unwrap();
    assert_eq!(expected, &ser);
    let req_back = uds_read(&ser, ser.len()).unwrap();
    assert_eq!(&req_back, msg);
}

#[test]
fn nrc_ok() {
    let req = UdsMessage::Nrc(Nrc {
        sid: 0x34,
        nrc: NrcCode::GeneralReject.code(),
    });
    let exp = vec![0x7f, 0x34, 0x10];
    test_encode_decode(&req, &exp);
}
