use bluestation::bits::BitBuffer;
use bluestation::pdu_parse_error::PduParseErr;

#[test]
fn bit_buffer_reads_and_writes() {
    let mut buf = BitBuffer::from_bitstr("1011001");
    assert_eq!(buf.get_len(), 7);
    assert_eq!(buf.peek_bits(3), Some(0b101));
    assert_eq!(buf.get_pos(), 0);
    assert_eq!(buf.read_bits(4), Some(0b1011));
    assert_eq!(buf.get_len_remaining(), 3);
    assert_eq!(buf.read_bits(4), None);
    assert_eq!(buf.get_pos(), 4);
    assert_eq!(buf.read_field(4, "x"), Err(PduParseErr::BufferEnded { field: "x" }));
    assert_eq!(buf.read_field(3, "x"), Ok(0b001));
    assert_eq!(buf.get_len_remaining(), 0);

    let mut out = BitBuffer::new(12);
    out.write_bits(0xABC, 12);
    assert_eq!(out.dump_bin(), "101010111100");
    out.seek(4);
    out.write_bits(0b1_0000, 4);
    assert_eq!(out.dump_bin(), "101000001100");
    out.seek(0);
    assert_eq!(out.read_bits(12), Some(0b1010_0000_1100));
    let mut arr = [9u8; 3];
    out.seek(9);
    out.to_bitarr(&mut arr);
    assert_eq!(arr, [1, 0, 0]);
    assert_eq!(BitBuffer::from_bits(vec![true, false]).dump_bin(), "10");
}

#[test]
fn bit_buffer_full_width() {
    let mut buf = BitBuffer::new(64);
    buf.write_bits(u64::MAX, 64);
    buf.seek(0);
    assert_eq!(buf.read_bits(64), Some(u64::MAX));
    buf.seek(100);
    assert_eq!(buf.get_len_remaining(), 0);
    assert_eq!(buf.peek_bits(0), None);
}
