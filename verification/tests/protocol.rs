use kasa_power::protocol::{body_len, decode_body, encode_message, request_frame, KASA_REQUEST};

#[test]
fn request_asks_for_identity_and_readings() {
    assert_eq!(
        KASA_REQUEST,
        r#"{"system":{"get_sysinfo":{}},"emeter":{"get_realtime":{}}}"#
    );
    let frame = request_frame();
    assert_eq!(frame.header, [0, 0, 0, 58]);
    assert_eq!(
        frame.body,
        [
            208, 242, 129, 248, 139, 255, 154, 247, 213, 239, 148, 182, 209, 180, 192, 159, 236,
            149, 230, 143, 225, 135, 232, 202, 240, 139, 246, 139, 167, 133, 224, 141, 232, 156,
            249, 139, 169, 147, 232, 202, 173, 200, 188, 227, 145, 244, 149, 249, 141, 228, 137,
            236, 206, 244, 143, 242, 143, 242,
        ]
    );
    assert_eq!(decode_body(&frame.body), KASA_REQUEST.as_bytes());
}

#[test]
fn each_byte_is_masked_with_the_one_before() {
    let frame = encode_message(&[0x00, 0x00, 0xFF, 0x01]);
    assert_eq!(frame.body, [0xAB, 0xAB, 0x54, 0x55]);
    assert_eq!(decode_body(&[0xAB, 0xAB, 0x54, 0x55]), [0x00, 0x00, 0xFF, 0x01]);
    assert_eq!(decode_body(&[0xAB]), [0x00]);
}

#[test]
fn empty_message_is_an_empty_frame() {
    let frame = encode_message(&[]);
    assert_eq!(frame.header, [0, 0, 0, 0]);
    assert!(frame.body.is_empty());
    assert!(decode_body(&[]).is_empty());
}

#[test]
fn length_is_read_most_significant_byte_first() {
    assert_eq!(body_len([0, 0, 0, 58]), 58);
    assert_eq!(body_len([0x01, 0x02, 0x03, 0x04]), 0x0102_0304);
    assert_eq!(body_len([0xFF, 0xFF, 0xFF, 0xFF]), 0xFFFF_FFFF);
}

#[test]
fn length_is_written_most_significant_byte_first() {
    let frame = encode_message(&vec![7; 0x0001_0203]);
    assert_eq!(frame.header, [0x00, 0x01, 0x02, 0x03]);
    assert_eq!(body_len(frame.header), 0x0001_0203);
}

#[test]
fn frames_give_back_their_message() {
    let message: Vec<u8> = (0..1000u32).map(|i| (i * 37 % 256) as u8).collect();
    let frame = encode_message(&message);
    assert_eq!(body_len(frame.header), message.len());
    assert_ne!(frame.body, message);
    assert_eq!(decode_body(&frame.body), message);
    assert_eq!(encode_message(&decode_body(&message)).body, message);
}
