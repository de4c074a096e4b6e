use h3::varint::{encode_varint, PendingRecvStream, VARINT_MAX};

fn read_type(bytes: &[u8]) -> Vec<Option<u64>> {
    let mut p = PendingRecvStream::new();
    bytes.iter().map(|b| p.push_byte(*b)).collect()
}

#[test]
fn control_type_is_one_byte() {
    assert_eq!(read_type(&[0x00]), vec![Some(0)]);
}

#[test]
fn two_byte_type() {
    assert_eq!(read_type(&[0x7b, 0xbd]), vec![None, Some(15293)]);
}

#[test]
fn four_and_eight_byte_types() {
    assert_eq!(read_type(&[0x9d, 0x7f, 0x3e, 0x7d]), vec![None, None, None, Some(494878333)]);
    let r = read_type(&[0xc2, 0x19, 0x7c, 0x5e, 0xff, 0x14, 0xe8, 0x8c]);
    assert_eq!(r[7], Some(151288809941952652));
    assert!(r[..7].iter().all(|x| x.is_none()));
}

#[test]
fn non_minimal_encoding_is_read() {
    assert_eq!(read_type(&[0x40, 0x25]), vec![None, Some(37)]);
}

#[test]
fn reader_restarts_after_a_value() {
    assert_eq!(read_type(&[0x02, 0x41, 0x00]), vec![Some(2), None, Some(0x100)]);
}

#[test]
fn encode_then_read_round_trip() {
    for v in [0u64, 1, 63, 64, 16383, 16384, 1 << 29, (1 << 30) - 1, 1 << 30, VARINT_MAX] {
        let mut out = Vec::new();
        encode_varint(v, &mut out);
        let r = read_type(&out);
        assert_eq!(r[out.len() - 1], Some(v));
    }
}
