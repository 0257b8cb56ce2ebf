use bytes::Bytes;
use makiko::client::ident::{ident_line, read_line, Line};
use makiko::codec::decode::{same_octets, split_names, PacketDecode};
use makiko::codec::encode::{join_names, mpint_body, PacketEncode};
use makiko::codec::frame::{
    check_packet_len, decode_frame, encode_frame, padding_for, BAD_PADDING, PACKET_MISALIGNED,
    PACKET_TOO_LONG, PACKET_TOO_SHORT, PACKET_TRUNCATED,
};
use makiko::codec::pipe::{add_count, Outbound, RecvPipe, SendPipe};
use makiko::error::Error;

const TRUNCATED: Error = Error::Decode("unexpected end of packet");

#[test]
fn fields_are_encoded_as_rfc_4251_says() {
    let mut payload = PacketEncode::new();
    payload.put_u8(0xfe);
    payload.put_u32(0x29b7_f4aa);
    payload.put_bool(true);
    payload.put_bool(false);
    payload.put_raw(&[1, 2]);
    payload.put_bytes(b"testing");
    payload.put_str("zlib");
    payload.put_name_list(&["zlib", "none"]);
    payload.put_name_list(&[]);
    assert_eq!(
        payload.as_bytes(),
        &[
            0xfe, 0x29, 0xb7, 0xf4, 0xaa, 1, 0, 1, 2, 0, 0, 0, 7, b't', b'e', b's', b't', b'i',
            b'n', b'g', 0, 0, 0, 4, b'z', b'l', b'i', b'b', 0, 0, 0, 9, b'z', b'l', b'i', b'b',
            b',', b'n', b'o', b'n', b'e', 0, 0, 0, 0,
        ][..]
    );
    let finished = payload.finish();
    assert_eq!(finished.len(), 45);
    assert_eq!(finished[0], 0xfe);
}

#[test]
fn mpint_examples_of_rfc_4251() {
    // the examples of section 5 that are not negative
    let mut zero = PacketEncode::new();
    zero.put_biguint(&[]);
    assert_eq!(zero.as_bytes(), &[0, 0, 0, 0]);

    let mut number = PacketEncode::new();
    number.put_biguint(&[0x09, 0xa3, 0x78, 0xf9, 0xb2, 0xe3, 0x32, 0xa7]);
    assert_eq!(
        number.as_bytes(),
        &[0, 0, 0, 8, 0x09, 0xa3, 0x78, 0xf9, 0xb2, 0xe3, 0x32, 0xa7]
    );

    let mut high_bit = PacketEncode::new();
    high_bit.put_biguint(&[0x80]);
    assert_eq!(high_bit.as_bytes(), &[0, 0, 0, 2, 0x00, 0x80]);

    // needless zeros go, the zero that keeps the sign stays
    assert_eq!(mpint_body(&[0, 0, 0x7f, 0]), vec![0x7f, 0]);
    assert_eq!(mpint_body(&[0, 0, 0xff, 0]), vec![0, 0xff, 0]);
    assert_eq!(mpint_body(&[0, 0, 0]), Vec::<u8>::new());
}

#[test]
fn names_are_joined_and_split_at_commas() {
    assert_eq!(join_names(&[]), Vec::<u8>::new());
    assert_eq!(join_names(&["a"]), b"a".to_vec());
    assert_eq!(join_names(&["a", "bc", "d"]), b"a,bc,d".to_vec());
    assert_eq!(split_names(b""), Vec::<Vec<u8>>::new());
    assert_eq!(split_names(b"a"), vec![b"a".to_vec()]);
    assert_eq!(split_names(b"a,bc,d"), vec![b"a".to_vec(), b"bc".to_vec(), b"d".to_vec()]);
    assert_eq!(split_names(b","), vec![Vec::new(), Vec::new()]);
    assert_eq!(split_names(b"a,,b,"), vec![b"a".to_vec(), vec![], b"b".to_vec(), vec![]]);
    let names = ["curve25519-sha256", "ext-info-c"];
    let split = split_names(&join_names(&names));
    assert_eq!(split, vec![b"curve25519-sha256".to_vec(), b"ext-info-c".to_vec()]);
}

#[test]
fn fields_are_read_back() {
    let mut payload = PacketEncode::new();
    payload.put_u8(7);
    payload.put_u32(0xdead_beef);
    payload.put_bool(true);
    payload.put_bytes(b"abc");
    payload.put_name_list(&["x", "yz"]);
    payload.put_bytes(&[9u8; 4]);
    payload.put_raw(&[5, 6, 7]);
    let bytes = payload.finish();

    let mut reader = PacketDecode::new(bytes.clone());
    assert_eq!(reader.remaining_len(), bytes.len());
    assert_eq!(reader.get_u8(), Ok(7));
    assert_eq!(reader.get_u32(), Ok(0xdead_beef));
    assert_eq!(reader.get_bool(), Ok(true));
    assert_eq!(reader.get_bytes(), Ok(b"abc".to_vec()));
    assert_eq!(reader.get_name_list(), Ok(vec![b"x".to_vec(), b"yz".to_vec()]));
    assert_eq!(reader.get_byte_array::<4>(), Ok([9u8; 4]));
    assert_eq!(reader.consumed(), bytes.len() - 3);
    assert_eq!(reader.skip(1), Ok(()));
    assert_eq!(reader.get_raw(2), Ok(vec![6, 7]));
    assert_eq!(reader.remaining_len(), 0);
    assert_eq!(reader.as_original_bytes(), &bytes[..]);
    assert_eq!(reader.get_u8(), Err(TRUNCATED));

    reader.rewind(1);
    assert_eq!(reader.get_u32(), Ok(0xdead_beef));
}

#[test]
fn every_octet_but_zero_is_true() {
    let mut reader = PacketDecode::new(Bytes::from_static(&[0, 1, 2, 255]));
    assert_eq!(reader.get_bool(), Ok(false));
    assert_eq!(reader.get_bool(), Ok(true));
    assert_eq!(reader.get_bool(), Ok(true));
    assert_eq!(reader.get_bool(), Ok(true));
    assert_eq!(reader.get_bool(), Err(TRUNCATED));
}

#[test]
fn short_payloads_are_rejected_and_nothing_is_read() {
    let mut reader = PacketDecode::new(Bytes::from_static(&[0, 0, 0, 5, b'a', b'b']));
    assert_eq!(reader.get_bytes(), Err(TRUNCATED));
    assert_eq!(reader.get_name_list(), Err(TRUNCATED));
    assert_eq!(reader.get_byte_array::<5>(), Err(TRUNCATED));
    assert_eq!(reader.get_raw(7), Err(TRUNCATED));
    assert_eq!(reader.skip(7), Err(TRUNCATED));
    assert_eq!(reader.consumed(), 0);
    assert_eq!(reader.get_u32(), Ok(5));
    assert_eq!(reader.get_u32(), Err(TRUNCATED));
    assert_eq!(reader.consumed(), 4);

    let mut reader = PacketDecode::new(Bytes::from_static(&[0, 0, 0, 2, 7, 8, 9]));
    assert_eq!(
        reader.get_byte_array::<3>(),
        Err(Error::Decode("unexpected length of a fixed-length field"))
    );
    assert_eq!(reader.consumed(), 0);
    assert_eq!(reader.get_byte_array::<2>(), Ok([7, 8]));
    assert_eq!(reader.remaining_len(), 1);
}

#[test]
fn octets_are_compared() {
    assert!(same_octets(b"", b""));
    assert!(same_octets(b"ssh-ed25519", b"ssh-ed25519"));
    assert!(!same_octets(b"ssh-ed25519", b"ssh-ed25518"));
    assert!(!same_octets(b"ssh", b"ssh-"));
}

#[test]
fn padding_follows_the_rule() {
    // 5 + payload + padding is a multiple of 8, of the block length if that
    // is more, and padding is at least 4
    assert_eq!(padding_for(0, 8), Some(11));
    assert_eq!(padding_for(1, 8), Some(10));
    assert_eq!(padding_for(7, 8), Some(4));
    assert_eq!(padding_for(8, 8), Some(11));
    assert_eq!(padding_for(1, 0), Some(10));
    assert_eq!(padding_for(1, 16), Some(10));
    assert_eq!(padding_for(7, 16), Some(4));
    assert_eq!(padding_for(8, 16), Some(19));
    assert_eq!(padding_for(100, 16), Some(7));
    assert_eq!(padding_for(32768, 16), Some(11));
    // the packet is 16 octets at least
    assert_eq!(padding_for(1, 12), Some(18));
    assert_eq!(padding_for(34_990, 8), Some(5));
    assert_eq!(padding_for(34_996, 8), None);
    assert_eq!(padding_for(1, 253), None);
    for block_len in [0usize, 8, 16, 32, 64, 252] {
        let align = block_len.max(8);
        for payload_len in 0..600usize {
            let padding = padding_for(payload_len, block_len).unwrap();
            assert!((4..=255).contains(&padding));
            assert_eq!((5 + payload_len + padding) % align, 0);
            assert!(5 + payload_len + padding >= 16);
            assert!(padding < 4 + align || 5 + payload_len + padding - align < 16);
        }
    }
}

#[test]
fn framing_comes_undone() {
    for block_len in [8usize, 16] {
        for payload_len in [1usize, 2, 7, 8, 100, 255, 256, 4096, 32767, 32768] {
            let payload: Vec<u8> = (0..payload_len).map(|i| (i * 7) as u8).collect();
            let padding = vec![0xa5u8; padding_for(payload_len, block_len).unwrap()];
            let frame = encode_frame(&payload, block_len, &padding).unwrap();
            assert_eq!(frame.len(), 5 + payload_len + padding.len());
            let packet_len = (1 + payload_len + padding.len()) as u32;
            assert_eq!(frame[..4], packet_len.to_be_bytes());
            assert_eq!(frame[4] as usize, padding.len());
            assert_eq!(check_packet_len(packet_len, block_len), Ok(frame.len()));
            assert_eq!(decode_frame(&frame, block_len), Ok(payload));
        }
    }
    assert_eq!(
        encode_frame(b"x", 8, &[0u8; 10]),
        Some(vec![0, 0, 0, 12, 10, b'x', 0, 0, 0, 0, 0, 0, 0, 0, 0, 0])
    );
    // padding of another length than the rule gives
    assert_eq!(encode_frame(b"x", 8, &[0u8; 18]), None);
    assert_eq!(encode_frame(&vec![0u8; 35_000], 8, &[0u8; 4]), None);
}

#[test]
fn broken_frames_are_rejected() {
    let good = encode_frame(b"hello", 8, &[0u8; 6]).unwrap();
    assert_eq!(decode_frame(&good, 8), Ok(b"hello".to_vec()));
    assert_eq!(decode_frame(&good, 16), Ok(b"hello".to_vec()));
    assert_eq!(decode_frame(&good, 32), Err(Error::Protocol(PACKET_MISALIGNED)));
    assert_eq!(decode_frame(&good[..15], 8), Err(Error::Protocol(PACKET_TRUNCATED)));
    assert_eq!(decode_frame(&good[..4], 8), Err(Error::Protocol(PACKET_TOO_SHORT)));
    let mut longer = good.clone();
    longer.push(0);
    assert_eq!(decode_frame(&longer, 8), Err(Error::Protocol(PACKET_TRUNCATED)));
    let mut padding_3 = good.clone();
    padding_3[4] = 3;
    assert_eq!(decode_frame(&padding_3, 8), Err(Error::Protocol(BAD_PADDING)));
    let mut padding_12 = good.clone();
    padding_12[4] = 12;
    assert_eq!(decode_frame(&padding_12, 8), Err(Error::Protocol(BAD_PADDING)));
    let mut padding_11 = good.clone();
    padding_11[4] = 11;
    assert_eq!(decode_frame(&padding_11, 8), Ok(Vec::new()));

    assert_eq!(check_packet_len(35_001, 8), Err(Error::Protocol(PACKET_TOO_LONG)));
    assert_eq!(check_packet_len(35_000, 8), Err(Error::Protocol(PACKET_MISALIGNED)));
    assert_eq!(check_packet_len(34_996, 8), Ok(35_000));
    assert_eq!(check_packet_len(11, 8), Err(Error::Protocol(PACKET_TOO_SHORT)));
    assert_eq!(check_packet_len(12, 8), Ok(16));
    assert_eq!(check_packet_len(13, 8), Err(Error::Protocol(PACKET_MISALIGNED)));
    assert_eq!(check_packet_len(12, 16), Ok(16));
    assert_eq!(check_packet_len(20, 16), Err(Error::Protocol(PACKET_MISALIGNED)));
    assert_eq!(check_packet_len(u32::MAX, 8), Err(Error::Protocol(PACKET_TOO_LONG)));
}

#[test]
fn sequence_numbers_advance_by_one() {
    let mut pipe = SendPipe::new();
    for expected in 0..5u32 {
        assert_eq!(pipe.feed_packet(&[expected as u8]), expected);
    }
    assert_eq!(pipe.block_len(), 8);
    assert_eq!(pipe.tag_len(), 0);
    assert!(pipe.poll_write() == Some(Outbound::Packet { seq: 0, payload: vec![0] }));
    assert!(pipe.poll_write() == Some(Outbound::Packet { seq: 1, payload: vec![1] }));
    assert_eq!(pipe.feed_packet(b"next"), 5);
    pipe.set_encrypt(makiko::cipher::PacketKeys::Plain, 16, 32);
    assert_eq!(pipe.feed_packet(b"after"), 6);
    assert_eq!((pipe.block_len(), pipe.tag_len()), (16, 32));
    let mut rest = Vec::new();
    while let Some(item) = pipe.poll_write() {
        rest.push(item);
    }
    assert_eq!(rest.len(), 6);
    assert!(
        rest[4]
            == Outbound::NewKeys {
                keys: makiko::cipher::PacketKeys::Plain,
                block_len: 16,
                tag_len: 32
            }
    );
    assert!(rest[5] == Outbound::Packet { seq: 6, payload: b"after".to_vec() });
    assert!(pipe.poll_write().is_none());

    let mut pipe = RecvPipe::new();
    assert_eq!(pipe.count_recvd(100), 0);
    assert_eq!(pipe.count_recvd(28), 1);
    assert_eq!(pipe.count_recvd(0), 2);
    assert_eq!(pipe.recvd_bytes(), 128);
}

#[test]
fn octet_counters_never_fall() {
    let mut pipe = SendPipe::new();
    pipe.count_sent(40);
    pipe.count_sent(2);
    assert_eq!(pipe.sent_bytes(), 42);
    assert_eq!(add_count(5, 7), 12);
    assert_eq!(add_count(u64::MAX - 1, 1), u64::MAX);
    assert_eq!(add_count(u64::MAX - 1, 2), u64::MAX);
    assert_eq!(add_count(u64::MAX, 1000), u64::MAX);
}

#[test]
fn identification_line_is_found() {
    assert_eq!(read_line(b""), Ok(Line::Incomplete));
    assert_eq!(read_line(b"SSH-2.0-OpenSSH_9.6"), Ok(Line::Incomplete));
    assert_eq!(
        read_line(b"SSH-2.0-OpenSSH_9.6 Debian\r\n\x00\x00"),
        Ok(Line::Ident { consumed: 28, ident: b"SSH-2.0-OpenSSH_9.6 Debian".to_vec() })
    );
    assert_eq!(
        read_line(b"SSH-2.0-x\nrest"),
        Ok(Line::Ident { consumed: 10, ident: b"SSH-2.0-x".to_vec() })
    );
    assert_eq!(
        read_line(b"SSH-1.99-old\r\n"),
        Ok(Line::Ident { consumed: 14, ident: b"SSH-1.99-old".to_vec() })
    );
    // lines before the identification string are passed over
    assert_eq!(read_line(b"welcome\r\nSSH-2.0-x\r\n"), Ok(Line::Other { consumed: 9 }));
    assert_eq!(read_line(b"\n"), Ok(Line::Other { consumed: 1 }));
    assert_eq!(read_line(b"SSH\r\n"), Ok(Line::Other { consumed: 5 }));
    assert!(matches!(read_line(b"SSH-1.5-old\r\n"), Err(Error::Protocol(_))));
    assert!(matches!(read_line(b"SSH-2.1\r\n"), Err(Error::Protocol(_))));

    // 255 octets with the line end are allowed, more are not
    let mut longest = b"SSH-2.0-".to_vec();
    longest.resize(253, b'x');
    longest.extend_from_slice(b"\r\n");
    assert_eq!(
        read_line(&longest),
        Ok(Line::Ident { consumed: 255, ident: longest[..253].to_vec() })
    );
    let mut longer = b"SSH-2.0-".to_vec();
    longer.resize(254, b'x');
    assert_eq!(read_line(&longer), Ok(Line::Incomplete));
    longer.extend_from_slice(b"\r\n");
    assert!(matches!(read_line(&longer), Err(Error::Protocol(_))));
    assert!(matches!(read_line(&longer[..255]), Err(Error::Protocol(_))));

    assert_eq!(ident_line(b"SSH-2.0-makiko_0.1.0"), b"SSH-2.0-makiko_0.1.0\r\n".to_vec());
}
